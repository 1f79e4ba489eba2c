//! A circle outline shape for a terminal canvas: a fixed table of points and a
//! color, handed out through a restartable cursor.
pub mod circle;
pub mod points;
pub mod table;
