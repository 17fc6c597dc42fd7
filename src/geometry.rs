use vstd::prelude::*;

verus! {

/// Width of the logical canvas, in pixels.
pub const WIDTH: u32 = 240;

/// Height of the logical canvas, in pixels.
pub const HEIGHT: u32 = 240;

/// Number of rows in the list-style menu grid.
pub const GRID_ITEMS: u32 = 4;

/// A point on the canvas; the origin is the top-left corner.
#[derive(Debug, Clone, Copy, PartialEq, Eq, Structural)]
pub struct Point {
    pub x: i32,
    pub y: i32,
}

impl Point {
    pub fn new(x: i32, y: i32) -> (r: Point)
        ensures
            r.x == x,
            r.y == y,
    {
        Point { x, y }
    }
}

/// `p` lies in the rectangle with corners `c1` (top-left) and `c2`
/// (bottom-right), both corners included.
pub open spec fn within(p: Point, c1: Point, c2: Point) -> bool {
    c1.x <= p.x && p.x <= c2.x && c1.y <= p.y && p.y <= c2.y
}

/// `p` lies in the rectangle and on none of its edges.
pub open spec fn strictly_within(p: Point, c1: Point, c2: Point) -> bool {
    c1.x < p.x && p.x < c2.x && c1.y < p.y && p.y < c2.y
}

/// The rectangle lies on the canvas.
pub open spec fn on_canvas(c1: Point, c2: Point) -> bool {
    0 <= c1.x && c1.x <= c2.x && c2.x < WIDTH && 0 <= c1.y && c1.y <= c2.y && c2.y < HEIGHT
}

/// No point lies in both rectangles.
pub open spec fn disjoint(a: (Point, Point), b: (Point, Point)) -> bool {
    forall|p: Point| !(#[trigger] within(p, a.0, a.1) && within(p, b.0, b.1))
}

/// Two rectangles whose extents are separated along one axis share no point.
pub proof fn lemma_separated_disjoint(a: (Point, Point), b: (Point, Point))
    requires
        a.1.x < b.0.x || b.1.x < a.0.x || a.1.y < b.0.y || b.1.y < a.0.y,
    ensures
        disjoint(a, b),
{
}

} // verus!
