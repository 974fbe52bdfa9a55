use vstd::prelude::*;

verus! {

/// A position on the grid; `x` grows to the right and `y` grows downwards.
#[derive(Clone, Copy, Debug, PartialEq, Eq, Structural)]
pub struct Point {
    pub x: i32,
    pub y: i32,
}

impl Point {
    pub fn new(x: i32, y: i32) -> (r: Point)
        ensures
            r.x == x,
            r.y == y,
    {
        Point { x, y }
    }

    /// The point `dx` columns away; the receiver is left as it is.
    pub fn offset_x(&self, dx: i32) -> (r: Point)
        requires
            i32::MIN <= self.x + dx <= i32::MAX,
        ensures
            r.x == self.x + dx,
            r.y == self.y,
    {
        Point { x: self.x + dx, y: self.y }
    }

    /// The point `dy` rows away; the receiver is left as it is.
    pub fn offset_y(&self, dy: i32) -> (r: Point)
        requires
            i32::MIN <= self.y + dy <= i32::MAX,
        ensures
            r.x == self.x,
            r.y == self.y + dy,
    {
        Point { x: self.x, y: self.y + dy }
    }
}

} // verus!
