use circle_shape::circle::Circle;
use circle_shape::points::PointsIterator;
use circle_shape::table::{CIRCLE, POINT_COUNT, RADIUS, SCALE};
use tui::style::Color;

const SQUARE: [(i32, i32); 4] = [(1, 0), (0, 1), (-1, 0), (0, -1)];

fn collect(mut it: PointsIterator) -> Vec<(i32, i32)> {
    let mut out = Vec::new();
    while let Some(p) = it.next() {
        out.push(p);
    }
    out
}

fn to_units(p: (i32, i32)) -> (f64, f64) {
    (p.0 as f64 / SCALE as f64, p.1 as f64 / SCALE as f64)
}

#[test]
fn default_circle_has_500_points_every_time() {
    let c = Circle::default();
    for _ in 0..3 {
        assert_eq!(collect(c.points()).len(), 500);
    }
    assert_eq!(POINT_COUNT, 500);
    assert_eq!(collect(c.into_iter()).len(), 500);
}

#[test]
fn first_point_is_on_the_x_axis() {
    let c = Circle::default();
    let mut it = c.points();
    assert_eq!(it.next(), Some((RADIUS, 0)));
    assert_eq!(to_units((RADIUS, 0)), (50.0, 0.0));
}

#[test]
fn stored_values_match_the_canvas_units() {
    let c = Circle::default();
    let pts = collect(c.points());
    assert_eq!(to_units(pts[1]), (49.9961, 0.6283));
    assert_eq!(to_units(pts[125]), (0.0, 50.0));
    assert_eq!(to_units(pts[499]), (49.9961, -0.6283));
}

#[test]
fn every_point_is_near_radius_fifty() {
    let c = Circle::default();
    for p in collect(c.points()) {
        let (x, y) = to_units(p);
        let r = (x * x + y * y).sqrt();
        assert!((r - 50.0).abs() <= 0.01, "point {:?} at distance {}", p, r);
    }
}

#[test]
fn two_iterations_yield_identical_sequences() {
    let c = Circle::default();
    let a = collect(c.points());
    let b = collect(c.points());
    assert_eq!(a, b);
    assert_eq!(a, CIRCLE.to_vec());
}

#[test]
fn color_is_reset_by_default() {
    let c = Circle::default();
    assert_eq!(c.color(), Color::Reset);
}

#[test]
fn color_is_the_one_given() {
    let c = Circle { circle: &CIRCLE, color: Color::Rgb(10, 20, 30) };
    assert_eq!(c.color(), Color::Rgb(10, 20, 30));
    let d = Circle { circle: &CIRCLE, color: Color::Yellow };
    assert_eq!(d.color(), Color::Yellow);
}

#[test]
fn angular_step_is_about_072_degrees() {
    let c = Circle::default();
    let pts = collect(c.points());
    for i in 0..pts.len() - 1 {
        let (x0, y0) = to_units(pts[i]);
        let (x1, y1) = to_units(pts[i + 1]);
        let step = (y1.atan2(x1) - y0.atan2(x0)).to_degrees();
        let step = if step < 0.0 { step + 360.0 } else { step };
        assert!((step - 0.72).abs() < 0.01, "step {} after point {}", step, i);
    }
}

#[test]
fn early_stop_leaves_a_fresh_walk_whole() {
    let c = Circle::default();
    let mut partial = c.points();
    let mut taken = Vec::new();
    for _ in 0..7 {
        taken.push(partial.next().unwrap());
    }
    let fresh = collect(c.points());
    assert_eq!(fresh.len(), 500);
    assert_eq!(&fresh[..7], &taken[..]);
    let rest = collect(partial);
    assert_eq!(&fresh[7..], &rest[..]);
}

#[test]
fn cursor_over_a_custom_table() {
    let data = [(1, 2), (3, 4), (-5, 6)];
    let mut it = PointsIterator::from(&data[..]);
    assert_eq!(it.next(), Some((1, 2)));
    assert_eq!(it.next(), Some((3, 4)));
    assert_eq!(it.next(), Some((-5, 6)));
    assert_eq!(it.next(), None);
    assert_eq!(it.next(), None);
}

#[test]
fn cursor_over_an_empty_table() {
    let data: [(i32, i32); 0] = [];
    let mut it = PointsIterator::from(&data[..]);
    assert_eq!(it.next(), None);
}

#[test]
fn circle_with_a_custom_table() {
    let c = Circle { circle: &SQUARE, color: Color::Red };
    assert_eq!(collect(c.points()), SQUARE.to_vec());
    assert_eq!(c.color(), Color::Red);
}
