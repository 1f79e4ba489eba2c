//! The built-in outline: 500 points sampled evenly around a circle of radius
//! 50 centred on the origin, first point at angle zero, turning
//! counterclockwise.
//!
//! Coordinates are fixed-point: one canvas unit is `SCALE` steps, so the
//! point (49.9961, 0.6283) is stored as (499961, 6283).
use vstd::prelude::*;

verus! {

/// Steps per canvas unit.
pub const SCALE: i32 = 10000;

/// Radius of the built-in outline, in steps (50 canvas units).
pub const RADIUS: i32 = 500000;

/// Number of points in the built-in outline.
pub const POINT_COUNT: usize = 500;

/// The built-in outline, in the order it is drawn.
pub const CIRCLE: [(i32, i32); 500] = [
    (500000, 0),
    (499961, 6283),
    (499842, 12565),
    (499645, 18845),
    (499368, 25122),
    (499013, 31395),
    (498579, 37663),
    (498067, 43926),
    (497476, 50181),
    (496806, 56428),
    (496057, 62667),
    (495231, 68895),
    (494326, 75113),
    (493343, 81319),
    (492282, 87512),
    (491144, 93691),
    (489928, 99855),
    (488634, 106004),
    (487263, 112135),
    (485816, 118249),
    (484292, 124345),
    (482691, 130421),
    (481014, 136476),
    (479261, 142510),
    (477432, 148521),
    (475528, 154508),
    (473549, 160472),
    (471495, 166410),
    (469367, 172321),
    (467164, 178206),
    (464888, 184062),
    (462539, 189890),
    (460116, 195687),
    (457621, 201453),
    (455053, 207188),
    (452414, 212890),
    (449703, 218558),
    (446921, 224192),
    (444068, 229790),
    (441146, 235352),
    (438153, 240877),
    (435092, 246364),
    (431962, 251812),
    (428763, 257220),
    (425497, 262587),
    (422164, 267913),
    (418764, 273197),
    (415298, 278438),
    (411766, 283634),
    (408170, 288786),
    (404508, 293893),
    (400783, 298952),
    (396995, 303965),
    (393144, 308930),
    (389231, 313846),
    (385257, 318712),
    (381221, 323528),
    (377126, 328293),
    (372971, 333006),
    (368757, 337666),
    (364484, 342274),
    (360155, 346827),
    (355768, 351325),
    (351325, 355768),
    (346827, 360155),
    (342274, 364484),
    (337666, 368757),
    (333006, 372971),
    (328293, 377126),
    (323528, 381221),
    (318712, 385257),
    (313846, 389231),
    (308930, 393144),
    (303965, 396995),
    (298952, 400783),
    (293893, 404508),
    (288786, 408170),
    (283634, 411766),
    (278438, 415298),
    (273197, 418764),
    (267913, 422164),
    (262587, 425497),
    (257220, 428763),
    (251812, 431962),
    (246364, 435092),
    (240877, 438153),
    (235352, 441146),
    (229790, 444068),
    (224192, 446921),
    (218558, 449703),
    (212890, 452414),
    (207188, 455053),
    (201453, 457621),
    (195687, 460116),
    (189890, 462539),
    (184062, 464888),
    (178206, 467164),
    (172321, 469367),
    (166410, 471495),
    (160472, 473549),
    (154508, 475528),
    (148521, 477432),
    (142510, 479261),
    (136476, 481014),
    (130421, 482691),
    (124345, 484292),
    (118249, 485816),
    (112135, 487263),
    (106004, 488634),
    (99855, 489928),
    (93691, 491144),
    (87512, 492282),
    (81319, 493343),
    (75113, 494326),
    (68895, 495231),
    (62667, 496057),
    (56428, 496806),
    (50181, 497476),
    (43926, 498067),
    (37663, 498579),
    (31395, 499013),
    (25122, 499368),
    (18845, 499645),
    (12565, 499842),
    (6283, 499961),
    (0, 500000),
    (-6283, 499961),
    (-12565, 499842),
    (-18845, 499645),
    (-25122, 499368),
    (-31395, 499013),
    (-37663, 498579),
    (-43926, 498067),
    (-50181, 497476),
    (-56428, 496806),
    (-62667, 496057),
    (-68895, 495231),
    (-75113, 494326),
    (-81319, 493343),
    (-87512, 492282),
    (-93691, 491144),
    (-99855, 489928),
    (-106004, 488634),
    (-112135, 487263),
    (-118249, 485816),
    (-124345, 484292),
    (-130421, 482691),
    (-136476, 481014),
    (-142510, 479261),
    (-148521, 477432),
    (-154508, 475528),
    (-160472, 473549),
    (-166410, 471495),
    (-172321, 469367),
    (-178206, 467164),
    (-184062, 464888),
    (-189890, 462539),
    (-195687, 460116),
    (-201453, 457621),
    (-207188, 455053),
    (-212890, 452414),
    (-218558, 449703),
    (-224192, 446921),
    (-229790, 444068),
    (-235352, 441146),
    (-240877, 438153),
    (-246364, 435092),
    (-251812, 431962),
    (-257220, 428763),
    (-262587, 425497),
    (-267913, 422164),
    (-273197, 418764),
    (-278438, 415298),
    (-283634, 411766),
    (-288786, 408170),
    (-293893, 404508),
    (-298952, 400783),
    (-303965, 396995),
    (-308930, 393144),
    (-313846, 389231),
    (-318712, 385257),
    (-323528, 381221),
    (-328293, 377126),
    (-333006, 372971),
    (-337666, 368757),
    (-342274, 364484),
    (-346827, 360155),
    (-351325, 355768),
    (-355768, 351325),
    (-360155, 346827),
    (-364484, 342274),
    (-368757, 337666),
    (-372971, 333006),
    (-377126, 328293),
    (-381221, 323528),
    (-385257, 318712),
    (-389231, 313846),
    (-393144, 308930),
    (-396995, 303965),
    (-400783, 298952),
    (-404508, 293893),
    (-408170, 288786),
    (-411766, 283634),
    (-415298, 278438),
    (-418764, 273197),
    (-422164, 267913),
    (-425497, 262587),
    (-428763, 257220),
    (-431962, 251812),
    (-435092, 246364),
    (-438153, 240877),
    (-441146, 235352),
    (-444068, 229790),
    (-446921, 224192),
    (-449703, 218558),
    (-452414, 212890),
    (-455053, 207188),
    (-457621, 201453),
    (-460116, 195687),
    (-462539, 189890),
    (-464888, 184062),
    (-467164, 178206),
    (-469367, 172321),
    (-471495, 166410),
    (-473549, 160472),
    (-475528, 154508),
    (-477432, 148521),
    (-479261, 142510),
    (-481014, 136476),
    (-482691, 130421),
    (-484292, 124345),
    (-485816, 118249),
    (-487263, 112135),
    (-488634, 106004),
    (-489928, 99855),
    (-491144, 93691),
    (-492282, 87512),
    (-493343, 81319),
    (-494326, 75113),
    (-495231, 68895),
    (-496057, 62667),
    (-496806, 56428),
    (-497476, 50181),
    (-498067, 43926),
    (-498579, 37663),
    (-499013, 31395),
    (-499368, 25122),
    (-499645, 18845),
    (-499842, 12565),
    (-499961, 6283),
    (-500000, 0),
    (-499961, -6283),
    (-499842, -12565),
    (-499645, -18845),
    (-499368, -25122),
    (-499013, -31395),
    (-498579, -37663),
    (-498067, -43926),
    (-497476, -50181),
    (-496806, -56428),
    (-496057, -62667),
    (-495231, -68895),
    (-494326, -75113),
    (-493343, -81319),
    (-492282, -87512),
    (-491144, -93691),
    (-489928, -99855),
    (-488634, -106004),
    (-487263, -112135),
    (-485816, -118249),
    (-484292, -124345),
    (-482691, -130421),
    (-481014, -136476),
    (-479261, -142510),
    (-477432, -148521),
    (-475528, -154508),
    (-473549, -160472),
    (-471495, -166410),
    (-469367, -172321),
    (-467164, -178206),
    (-464888, -184062),
    (-462539, -189890),
    (-460116, -195687),
    (-457621, -201453),
    (-455053, -207188),
    (-452414, -212890),
    (-449703, -218558),
    (-446921, -224192),
    (-444068, -229790),
    (-441146, -235352),
    (-438153, -240877),
    (-435092, -246364),
    (-431962, -251812),
    (-428763, -257220),
    (-425497, -262587),
    (-422164, -267913),
    (-418764, -273197),
    (-415298, -278438),
    (-411766, -283634),
    (-408170, -288786),
    (-404508, -293893),
    (-400783, -298952),
    (-396995, -303965),
    (-393144, -308930),
    (-389231, -313846),
    (-385257, -318712),
    (-381221, -323528),
    (-377126, -328293),
    (-372971, -333006),
    (-368757, -337666),
    (-364484, -342274),
    (-360155, -346827),
    (-355768, -351325),
    (-351325, -355768),
    (-346827, -360155),
    (-342274, -364484),
    (-337666, -368757),
    (-333006, -372971),
    (-328293, -377126),
    (-323528, -381221),
    (-318712, -385257),
    (-313846, -389231),
    (-308930, -393144),
    (-303965, -396995),
    (-298952, -400783),
    (-293893, -404508),
    (-288786, -408170),
    (-283634, -411766),
    (-278438, -415298),
    (-273197, -418764),
    (-267913, -422164),
    (-262587, -425497),
    (-257220, -428763),
    (-251812, -431962),
    (-246364, -435092),
    (-240877, -438153),
    (-235352, -441146),
    (-229790, -444068),
    (-224192, -446921),
    (-218558, -449703),
    (-212890, -452414),
    (-207188, -455053),
    (-201453, -457621),
    (-195687, -460116),
    (-189890, -462539),
    (-184062, -464888),
    (-178206, -467164),
    (-172321, -469367),
    (-166410, -471495),
    (-160472, -473549),
    (-154508, -475528),
    (-148521, -477432),
    (-142510, -479261),
    (-136476, -481014),
    (-130421, -482691),
    (-124345, -484292),
    (-118249, -485816),
    (-112135, -487263),
    (-106004, -488634),
    (-99855, -489928),
    (-93691, -491144),
    (-87512, -492282),
    (-81319, -493343),
    (-75113, -494326),
    (-68895, -495231),
    (-62667, -496057),
    (-56428, -496806),
    (-50181, -497476),
    (-43926, -498067),
    (-37663, -498579),
    (-31395, -499013),
    (-25122, -499368),
    (-18845, -499645),
    (-12565, -499842),
    (-6283, -499961),
    (0, -500000),
    (6283, -499961),
    (12565, -499842),
    (18845, -499645),
    (25122, -499368),
    (31395, -499013),
    (37663, -498579),
    (43926, -498067),
    (50181, -497476),
    (56428, -496806),
    (62667, -496057),
    (68895, -495231),
    (75113, -494326),
    (81319, -493343),
    (87512, -492282),
    (93691, -491144),
    (99855, -489928),
    (106004, -488634),
    (112135, -487263),
    (118249, -485816),
    (124345, -484292),
    (130421, -482691),
    (136476, -481014),
    (142510, -479261),
    (148521, -477432),
    (154508, -475528),
    (160472, -473549),
    (166410, -471495),
    (172321, -469367),
    (178206, -467164),
    (184062, -464888),
    (189890, -462539),
    (195687, -460116),
    (201453, -457621),
    (207188, -455053),
    (212890, -452414),
    (218558, -449703),
    (224192, -446921),
    (229790, -444068),
    (235352, -441146),
    (240877, -438153),
    (246364, -435092),
    (251812, -431962),
    (257220, -428763),
    (262587, -425497),
    (267913, -422164),
    (273197, -418764),
    (278438, -415298),
    (283634, -411766),
    (288786, -408170),
    (293893, -404508),
    (298952, -400783),
    (303965, -396995),
    (308930, -393144),
    (313846, -389231),
    (318712, -385257),
    (323528, -381221),
    (328293, -377126),
    (333006, -372971),
    (337666, -368757),
    (342274, -364484),
    (346827, -360155),
    (351325, -355768),
    (355768, -351325),
    (360155, -346827),
    (364484, -342274),
    (368757, -337666),
    (372971, -333006),
    (377126, -328293),
    (381221, -323528),
    (385257, -318712),
    (389231, -313846),
    (393144, -308930),
    (396995, -303965),
    (400783, -298952),
    (404508, -293893),
    (408170, -288786),
    (411766, -283634),
    (415298, -278438),
    (418764, -273197),
    (422164, -267913),
    (425497, -262587),
    (428763, -257220),
    (431962, -251812),
    (435092, -246364),
    (438153, -240877),
    (441146, -235352),
    (444068, -229790),
    (446921, -224192),
    (449703, -218558),
    (452414, -212890),
    (455053, -207188),
    (457621, -201453),
    (460116, -195687),
    (462539, -189890),
    (464888, -184062),
    (467164, -178206),
    (469367, -172321),
    (471495, -166410),
    (473549, -160472),
    (475528, -154508),
    (477432, -148521),
    (479261, -142510),
    (481014, -136476),
    (482691, -130421),
    (484292, -124345),
    (485816, -118249),
    (487263, -112135),
    (488634, -106004),
    (489928, -99855),
    (491144, -93691),
    (492282, -87512),
    (493343, -81319),
    (494326, -75113),
    (495231, -68895),
    (496057, -62667),
    (496806, -56428),
    (497476, -50181),
    (498067, -43926),
    (498579, -37663),
    (499013, -31395),
    (499368, -25122),
    (499645, -18845),
    (499842, -12565),
    (499961, -6283),
];

/// The built-in outline as a sequence.
pub open spec fn circle_table() -> Seq<(i32, i32)> {
    CIRCLE@
}

/// Squared distance of `p` from the origin, in steps squared.
pub open spec fn dist_sq(p: (i32, i32)) -> int {
    p.0 * p.0 + p.1 * p.1
}

/// `p` lies within 0.01 canvas units of the circle of radius 50:
/// 49.99 <= |p| <= 50.01.
pub open spec fn near_radius(p: (i32, i32)) -> bool {
    499900 * 499900 <= dist_sq(p) <= 500100 * 500100
}

/// Dot product of `p` and `q`.
pub open spec fn dot(p: (i32, i32), q: (i32, i32)) -> int {
    p.0 * q.0 + p.1 * q.1
}

/// Cross product of `p` and `q`; positive when `q` lies counterclockwise of `p`.
pub open spec fn cross(p: (i32, i32), q: (i32, i32)) -> int {
    p.0 * q.1 - p.1 * q.0
}

/// Going from `p` to `q` turns counterclockwise by about 0.72 degrees: the
/// tangent of the turn, cross / dot, lies in [0.0124, 0.0127], that is the
/// angle lies between 0.7104 and 0.7277 degrees.
pub open spec fn uniform_step(p: (i32, i32), q: (i32, i32)) -> bool {
    &&& dot(p, q) > 0
    &&& 124 * dot(p, q) <= 10000 * cross(p, q)
    &&& 10000 * cross(p, q) <= 127 * dot(p, q)
}

/// The first `k` points of the outline are all near the radius.
spec fn radius_ok_below(k: nat) -> bool
    decreases k,
{
    k == 0 || (near_radius(circle_table()[k - 1]) && radius_ok_below((k - 1) as nat))
}

/// Each of the first `k` points of the outline steps uniformly to the next one.
spec fn steps_ok_below(k: nat) -> bool
    decreases k,
{
    k == 0 || (uniform_step(circle_table()[k - 1], circle_table()[k as int])
        && steps_ok_below((k - 1) as nat))
}

proof fn lemma_radius_ok_below(k: nat)
    requires
        radius_ok_below(k),
    ensures
        forall|i: int| 0 <= i < k ==> near_radius(#[trigger] circle_table()[i]),
    decreases k,
{
    if k > 0 {
        lemma_radius_ok_below((k - 1) as nat);
    }
}

proof fn lemma_steps_ok_below(k: nat)
    requires
        steps_ok_below(k),
    ensures
        forall|i: int| 0 <= i < k ==> uniform_step(#[trigger] circle_table()[i], circle_table()[i + 1]),
    decreases k,
{
    if k > 0 {
        lemma_steps_ok_below((k - 1) as nat);
    }
}

/// The outline has `POINT_COUNT` points and starts at (50, 0).
pub proof fn lemma_circle_table_shape()
    ensures
        circle_table().len() == POINT_COUNT,
        circle_table()[0] == (RADIUS, 0i32),
{
}

/// Every point of the outline lies within 0.01 canvas units of radius 50.
pub proof fn lemma_circle_table_near_radius()
    ensures
        forall|i: int| 0 <= i < POINT_COUNT ==> near_radius(#[trigger] circle_table()[i]),
{
    // Checked fifty points at a time, each batch in a query of its own.
    assert(radius_ok_below(50)) by (nonlinear_arith)
    {
        reveal_with_fuel(radius_ok_below, 51);
    }
    assert(radius_ok_below(100)) by (nonlinear_arith)
        requires
            radius_ok_below(50),
    {
        reveal_with_fuel(radius_ok_below, 51);
    }
    assert(radius_ok_below(150)) by (nonlinear_arith)
        requires
            radius_ok_below(100),
    {
        reveal_with_fuel(radius_ok_below, 51);
    }
    assert(radius_ok_below(200)) by (nonlinear_arith)
        requires
            radius_ok_below(150),
    {
        reveal_with_fuel(radius_ok_below, 51);
    }
    assert(radius_ok_below(250)) by (nonlinear_arith)
        requires
            radius_ok_below(200),
    {
        reveal_with_fuel(radius_ok_below, 51);
    }
    assert(radius_ok_below(300)) by (nonlinear_arith)
        requires
            radius_ok_below(250),
    {
        reveal_with_fuel(radius_ok_below, 51);
    }
    assert(radius_ok_below(350)) by (nonlinear_arith)
        requires
            radius_ok_below(300),
    {
        reveal_with_fuel(radius_ok_below, 51);
    }
    assert(radius_ok_below(400)) by (nonlinear_arith)
        requires
            radius_ok_below(350),
    {
        reveal_with_fuel(radius_ok_below, 51);
    }
    assert(radius_ok_below(450)) by (nonlinear_arith)
        requires
            radius_ok_below(400),
    {
        reveal_with_fuel(radius_ok_below, 51);
    }
    assert(radius_ok_below(500)) by (nonlinear_arith)
        requires
            radius_ok_below(450),
    {
        reveal_with_fuel(radius_ok_below, 51);
    }
    lemma_radius_ok_below(500);
}

/// Each point of the outline is followed by one about 0.72 degrees further
/// counterclockwise.
pub proof fn lemma_circle_table_uniform_steps()
    ensures
        forall|i: int|
            0 <= i < POINT_COUNT - 1 ==> uniform_step(#[trigger] circle_table()[i], circle_table()[i + 1]),
{
    // Checked fifty steps at a time, each batch in a query of its own.
    assert(steps_ok_below(50)) by (nonlinear_arith)
    {
        reveal_with_fuel(steps_ok_below, 51);
    }
    assert(steps_ok_below(100)) by (nonlinear_arith)
        requires
            steps_ok_below(50),
    {
        reveal_with_fuel(steps_ok_below, 51);
    }
    assert(steps_ok_below(150)) by (nonlinear_arith)
        requires
            steps_ok_below(100),
    {
        reveal_with_fuel(steps_ok_below, 51);
    }
    assert(steps_ok_below(200)) by (nonlinear_arith)
        requires
            steps_ok_below(150),
    {
        reveal_with_fuel(steps_ok_below, 51);
    }
    assert(steps_ok_below(250)) by (nonlinear_arith)
        requires
            steps_ok_below(200),
    {
        reveal_with_fuel(steps_ok_below, 51);
    }
    assert(steps_ok_below(300)) by (nonlinear_arith)
        requires
            steps_ok_below(250),
    {
        reveal_with_fuel(steps_ok_below, 51);
    }
    assert(steps_ok_below(350)) by (nonlinear_arith)
        requires
            steps_ok_below(300),
    {
        reveal_with_fuel(steps_ok_below, 51);
    }
    assert(steps_ok_below(400)) by (nonlinear_arith)
        requires
            steps_ok_below(350),
    {
        reveal_with_fuel(steps_ok_below, 51);
    }
    assert(steps_ok_below(450)) by (nonlinear_arith)
        requires
            steps_ok_below(400),
    {
        reveal_with_fuel(steps_ok_below, 51);
    }
    assert(steps_ok_below(499)) by (nonlinear_arith)
        requires
            steps_ok_below(450),
    {
        reveal_with_fuel(steps_ok_below, 51);
    }
    lemma_steps_ok_below(499);
}

} // verus!
