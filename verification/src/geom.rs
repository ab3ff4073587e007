use vstd::prelude::*;

verus! {

/// A position on the virtual desktop, in physical pixels.
#[derive(Clone, Copy, PartialEq, Eq, Structural, Debug)]
pub struct Point {
    pub x: i32,
    pub y: i32,
}

/// An axis-aligned rectangle spanned by two corner points.
///
/// During a drag the two corners are the anchor (`min`) and the current
/// pointer position (`max`), in whatever order the drag happened; the
/// normalized form, where `max` is at or beyond `min` on both axes, is
/// produced by [`Rect::from_two_pos`].
#[derive(Clone, Copy, PartialEq, Eq, Structural, Debug)]
pub struct Rect {
    pub min: Point,
    pub max: Point,
}

pub open spec fn min_i32(a: i32, b: i32) -> i32 {
    if a <= b { a } else { b }
}

pub open spec fn max_i32(a: i32, b: i32) -> i32 {
    if a <= b { b } else { a }
}

impl Point {
    pub fn new(x: i32, y: i32) -> (p: Point)
        ensures
            p.x == x,
            p.y == y,
    {
        Point { x, y }
    }
}

impl Rect {
    /// `max` lies at or beyond `min` on both axes.
    pub open spec fn is_normalized(self) -> bool {
        self.min.x <= self.max.x && self.min.y <= self.max.y
    }

    pub open spec fn spec_width(self) -> int {
        self.max.x - self.min.x
    }

    pub open spec fn spec_height(self) -> int {
        self.max.y - self.min.y
    }

    /// Half-open membership: a point belongs to the rectangle when it lies
    /// within `[min, max)` on both axes.
    pub open spec fn spec_contains(self, x: int, y: int) -> bool {
        &&& self.min.x <= x < self.max.x
        &&& self.min.y <= y < self.max.y
    }

    /// The canonical min/max rectangle over two arbitrarily-ordered corners.
    pub open spec fn normalized_of(a: Point, b: Point) -> Rect {
        Rect {
            min: Point { x: min_i32(a.x, b.x), y: min_i32(a.y, b.y) },
            max: Point { x: max_i32(a.x, b.x), y: max_i32(a.y, b.y) },
        }
    }

    pub fn from_min_max(min: Point, max: Point) -> (r: Rect)
        ensures
            r.min == min,
            r.max == max,
    {
        Rect { min, max }
    }

    /// Normalization: the rectangle spanned by two drag endpoints, with its
    /// `min`/`max` the component-wise minimum/maximum of the two.
    pub fn from_two_pos(a: Point, b: Point) -> (r: Rect)
        ensures
            r == Rect::normalized_of(a, b),
            r.is_normalized(),
    {
        let min_x: i32 = if a.x <= b.x { a.x } else { b.x };
        let max_x: i32 = if a.x <= b.x { b.x } else { a.x };
        let min_y: i32 = if a.y <= b.y { a.y } else { b.y };
        let max_y: i32 = if a.y <= b.y { b.y } else { a.y };
        Rect { min: Point { x: min_x, y: min_y }, max: Point { x: max_x, y: max_y } }
    }

    pub fn width(&self) -> (w: i64)
        ensures
            w == self.spec_width(),
    {
        (self.max.x as i64) - (self.min.x as i64)
    }

    pub fn height(&self) -> (h: i64)
        ensures
            h == self.spec_height(),
    {
        (self.max.y as i64) - (self.min.y as i64)
    }
}

/// Normalization is independent of the drag direction: either order of the
/// two endpoints yields the same rectangle, whose corners are the
/// component-wise minimum and maximum of the endpoints.
pub proof fn lemma_normalization_direction_independent(a: Point, b: Point)
    ensures
        Rect::normalized_of(a, b) == Rect::normalized_of(b, a),
        Rect::normalized_of(a, b).min.x == min_i32(a.x, b.x),
        Rect::normalized_of(a, b).min.y == min_i32(a.y, b.y),
        Rect::normalized_of(a, b).max.x == max_i32(a.x, b.x),
        Rect::normalized_of(a, b).max.y == max_i32(a.y, b.y),
        Rect::normalized_of(a, b).is_normalized(),
{
}

} // verus!
