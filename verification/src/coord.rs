use vstd::prelude::*;

verus! {

/// Saturating subtraction on mathematical integers: `a - b`, but never below
/// zero. This is the arithmetic `Coord` uses on each component.
pub open spec fn sat_sub(a: int, b: int) -> int {
    if a >= b {
        a - b
    } else {
        0
    }
}

/// A two-dimensional unsigned coordinate. The same type serves two coordinate
/// spaces: logical board cells and terminal character positions; which space a
/// value lives in is decided by the component that maps it.
#[derive(Clone, Copy, PartialEq, Eq, Structural, Hash, Debug)]
pub struct Coord {
    pub x: usize,
    pub y: usize,
}

impl Coord {
    /// Component-wise addition. The caller must know both sums fit in
    /// `usize`; every use in this crate bounds them through an invariant.
    pub fn plus(self, other: Coord) -> (r: Coord)
        requires
            self.x + other.x <= usize::MAX,
            self.y + other.y <= usize::MAX,
        ensures
            r.x == self.x + other.x,
            r.y == self.y + other.y,
    {
        Coord { x: self.x + other.x, y: self.y + other.y }
    }

    /// Component-wise subtraction, saturating at zero: a coordinate never
    /// wraps negative.
    pub fn minus(self, other: Coord) -> (r: Coord)
        ensures
            r.x == sat_sub(self.x as int, other.x as int),
            r.y == sat_sub(self.y as int, other.y as int),
    {
        Coord { x: self.x.saturating_sub(other.x), y: self.y.saturating_sub(other.y) }
    }
}

impl Default for Coord {
    /// The origin, `(0, 0)`.
    fn default() -> (r: Self)
        ensures
            r.x == 0,
            r.y == 0,
    {
        Coord { x: 0, y: 0 }
    }
}

} // verus!
