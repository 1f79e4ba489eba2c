//! The circle shape: a table of points and the color to draw them in.
use vstd::prelude::*;

use crate::points::PointsIterator;
use crate::table::{
    circle_table, lemma_circle_table_near_radius, lemma_circle_table_shape,
    lemma_circle_table_uniform_steps, near_radius, uniform_step, CIRCLE, POINT_COUNT, RADIUS,
};
use tui::style::Color;

verus! {

/// tui's `Color`: a plain enum of named colors, `Rgb(u8, u8, u8)` and
/// `Indexed(u8)`, whose variants Verus reads as they are declared. The shape
/// only carries a color; it never inspects one.
#[verifier::external_type_specification]
pub struct ExColor(tui::style::Color);

/// A circle outline to draw on a canvas with a chosen color.
pub struct Circle {
    /// The points of the outline, in the order they are drawn.
    pub circle: &'static [(i32, i32)],
    /// The color the outline is drawn in.
    pub color: Color,
}

impl Circle {
    /// The points that `points` hands out, in order.
    pub open spec fn point_seq(&self) -> Seq<(i32, i32)> {
        self.circle@
    }

    /// The shape draws the built-in outline.
    pub open spec fn uses_builtin_table(&self) -> bool {
        self.circle@ == circle_table()
    }

    /// The color the shape is drawn in.
    pub fn color(&self) -> (r: Color)
        ensures
            r == self.color,
    {
        self.color
    }

    /// A fresh cursor over the shape's points, starting at the first one.
    pub fn points(&self) -> (r: PointsIterator<'static>)
        ensures
            r.source() == self.point_seq(),
            r.position() == 0,
            r.remaining() == self.point_seq(),
    {
        self.into_iter()
    }

    /// A fresh cursor over the shape's points, starting at the first one.
    pub fn into_iter(&self) -> (r: PointsIterator<'static>)
        ensures
            r.source() == self.point_seq(),
            r.position() == 0,
            r.remaining() == self.point_seq(),
    {
        PointsIterator::from(self.circle)
    }
}

impl Default for Circle {
    /// The built-in outline, drawn in the terminal's default color.
    fn default() -> (r: Circle)
        ensures
            r.point_seq() == circle_table(),
            r.color == Color::Reset,
    {
        Circle { circle: &CIRCLE, color: Color::Reset }
    }
}

/// The built-in outline has exactly `POINT_COUNT` points, however often its
/// points are asked for.
pub proof fn lemma_builtin_point_count(c: &Circle)
    requires
        c.uses_builtin_table(),
    ensures
        c.point_seq().len() == POINT_COUNT,
{
    lemma_circle_table_shape();
}

/// The built-in outline starts at (50, 0), and each of its points lies within
/// 0.01 canvas units of the circle of radius 50 about the origin.
pub proof fn lemma_builtin_points_on_circle(c: &Circle)
    requires
        c.uses_builtin_table(),
    ensures
        c.point_seq()[0] == (RADIUS, 0i32),
        forall|i: int| 0 <= i < c.point_seq().len() ==> near_radius(#[trigger] c.point_seq()[i]),
{
    lemma_circle_table_shape();
    lemma_circle_table_near_radius();
}

/// Walking the built-in outline turns counterclockwise by about 0.72 degrees
/// from each point to the next.
pub proof fn lemma_builtin_steps_uniform(c: &Circle)
    requires
        c.uses_builtin_table(),
    ensures
        forall|i: int|
            0 <= i < c.point_seq().len() - 1 ==> uniform_step(
                #[trigger] c.point_seq()[i],
                c.point_seq()[i + 1],
            ),
{
    lemma_circle_table_shape();
    lemma_circle_table_uniform_steps();
}

/// Two cursors that `points` handed out for one shape yield the same points in
/// the same order: the shape's points, from the first.
pub proof fn lemma_points_restartable(c: &Circle, first: PointsIterator, second: PointsIterator)
    requires
        first.source() == c.point_seq(),
        first.position() == 0,
        second.source() == c.point_seq(),
        second.position() == 0,
    ensures
        first.remaining() == second.remaining(),
        first.remaining() == c.point_seq(),
{
}

/// A cursor left after taking only the first `n` points does not change what a
/// fresh cursor yields: the fresh one still yields every point of the shape,
/// and the abandoned one holds the rest of the same sequence.
pub proof fn lemma_early_stop_independent(
    c: &Circle,
    partial: PointsIterator,
    fresh: PointsIterator,
    n: nat,
)
    requires
        n <= c.point_seq().len(),
        partial.source() == c.point_seq(),
        partial.position() == n,
        fresh.source() == c.point_seq(),
        fresh.position() == 0,
    ensures
        fresh.remaining() == c.point_seq(),
        partial.remaining() == fresh.remaining().subrange(n as int, c.point_seq().len() as int),
{
}

} // verus!
