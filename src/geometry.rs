use vstd::prelude::*;

verus! {

/// Two corner points in view pixels, in the order they were given: the
/// first is where the drag started, the second where the pointer is now.
#[derive(Clone, Copy, Debug, PartialEq, Eq, Structural)]
pub struct Region {
    pub x0: i32,
    pub y0: i32,
    pub x1: i32,
    pub y1: i32,
}

/// An axis-aligned rectangle: top-left corner and extent.
///
/// A zero width or height is allowed and stands for an empty area.
#[derive(Clone, Copy, Debug, PartialEq, Eq, Structural)]
pub struct Rect {
    pub left: i32,
    pub top: i32,
    pub width: u32,
    pub height: u32,
}

pub open spec fn min_of(a: int, b: int) -> int {
    if a <= b { a } else { b }
}

pub open spec fn dist(a: int, b: int) -> int {
    if a <= b { b - a } else { a - b }
}

/// The rectangle spanned by two corners, whatever their order.
pub open spec fn rect_of(g: Region) -> Rect {
    Rect {
        left: min_of(g.x0 as int, g.x1 as int) as i32,
        top: min_of(g.y0 as int, g.y1 as int) as i32,
        width: dist(g.x0 as int, g.x1 as int) as u32,
        height: dist(g.y0 as int, g.y1 as int) as u32,
    }
}

/// Distance between two `i32` values; it always fits in a `u32`.
fn span(a: i32, b: i32) -> (r: u32)
    ensures
        r as int == dist(a as int, b as int),
{
    if a <= b {
        (b as i64 - a as i64) as u32
    } else {
        (a as i64 - b as i64) as u32
    }
}

impl Region {
    /// A region whose two corners coincide.
    pub fn at(x: i32, y: i32) -> (r: Region)
        ensures
            r == (Region { x0: x, y0: y, x1: x, y1: y }),
    {
        Region { x0: x, y0: y, x1: x, y1: y }
    }

    /// The rectangle between the two corners: left and top are the smaller
    /// coordinates, width and height the distances between them.
    pub fn normalize(&self) -> (r: Rect)
        ensures
            r == rect_of(*self),
            r.left as int == min_of(self.x0 as int, self.x1 as int),
            r.top as int == min_of(self.y0 as int, self.y1 as int),
            r.width as int == dist(self.x0 as int, self.x1 as int),
            r.height as int == dist(self.y0 as int, self.y1 as int),
    {
        let left = if self.x0 <= self.x1 { self.x0 } else { self.x1 };
        let top = if self.y0 <= self.y1 { self.y0 } else { self.y1 };
        Rect {
            left,
            top,
            width: span(self.x0, self.x1),
            height: span(self.y0, self.y1),
        }
    }
}

/// The rectangle of two corners has its left and top at the smaller
/// coordinates and its width and height at their distances, and it does not
/// change when the two corners are given the other way round.
pub proof fn normalize_is_order_free(a: i32, b: i32, c: i32, d: i32)
    ensures
        rect_of(Region { x0: a, y0: b, x1: c, y1: d }) == rect_of(
            Region { x0: c, y0: d, x1: a, y1: b },
        ),
        rect_of(Region { x0: a, y0: b, x1: c, y1: d }).left as int == min_of(a as int, c as int),
        rect_of(Region { x0: a, y0: b, x1: c, y1: d }).top as int == min_of(b as int, d as int),
        rect_of(Region { x0: a, y0: b, x1: c, y1: d }).width as int == dist(a as int, c as int),
        rect_of(Region { x0: a, y0: b, x1: c, y1: d }).height as int == dist(b as int, d as int),
{
}

} // verus!
