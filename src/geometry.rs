use vstd::prelude::*;

verus! {

/// Largest magnitude of a coordinate or length accepted by the library.
pub const MAX_COORD: i64 = 1_000_000_000;

/// A 2D vector or position, in points.
#[derive(Clone, Copy, Debug, PartialEq, Eq, Structural)]
pub struct Vec2 {
    pub x: i64,
    pub y: i64,
}

/// An axis-aligned rectangle; `min` is the top-left corner.
#[derive(Clone, Copy, Debug, PartialEq, Eq, Structural)]
pub struct Rect {
    pub min: Vec2,
    pub max: Vec2,
}

pub open spec fn bounded(v: int, limit: int) -> bool {
    -limit <= v <= limit
}

impl Vec2 {
    pub open spec fn is_bounded(self, limit: int) -> bool {
        bounded(self.x as int, limit) && bounded(self.y as int, limit)
    }

    pub fn new(x: i64, y: i64) -> (r: Vec2)
        ensures
            r.x == x,
            r.y == y,
    {
        Vec2 { x, y }
    }

    pub fn zero() -> (r: Vec2)
        ensures
            r.x == 0,
            r.y == 0,
    {
        Vec2 { x: 0, y: 0 }
    }
}

impl Rect {
    pub open spec fn contains_spec(self, p: Vec2) -> bool {
        self.min.x <= p.x <= self.max.x && self.min.y <= p.y <= self.max.y
    }

    pub open spec fn width_spec(self) -> int {
        self.max.x - self.min.x
    }

    pub open spec fn height_spec(self) -> int {
        self.max.y - self.min.y
    }

    /// The rectangle with top-left corner `min` and the given size.
    pub fn from_min_size(min: Vec2, width: i64, height: i64) -> (r: Rect)
        requires
            min.is_bounded(4 * MAX_COORD),
            bounded(width as int, 4 * MAX_COORD),
            bounded(height as int, 4 * MAX_COORD),
        ensures
            r.min == min,
            r.max.x == min.x + width,
            r.max.y == min.y + height,
    {
        Rect { min, max: Vec2 { x: min.x + width, y: min.y + height } }
    }

    /// Whether `p` lies inside, edges included.
    pub fn contains(&self, p: Vec2) -> (r: bool)
        ensures
            r == self.contains_spec(p),
    {
        self.min.x <= p.x && p.x <= self.max.x && self.min.y <= p.y && p.y <= self.max.y
    }
}

} // verus!
