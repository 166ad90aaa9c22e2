use vstd::prelude::*;

verus! {

/// A tile position on the board: `x` grows to the right, `y` grows downwards.
#[derive(Clone, Copy, Debug, PartialEq, Eq, Hash, Structural)]
pub struct Coords {
    pub x: i16,
    pub y: i16,
}

/// True when both components of `x + dx` and `y + dy` stay representable as `i16`.
pub open spec fn fits_i16(v: int) -> bool {
    i16::MIN <= v <= i16::MAX
}

impl Coords {
    pub open spec fn spec_new(x: int, y: int) -> Coords {
        Coords { x: x as i16, y: y as i16 }
    }

    pub fn new(x: i16, y: i16) -> (r: Coords)
        ensures
            r.x == x,
            r.y == y,
    {
        Coords { x, y }
    }

    pub fn zero() -> (r: Coords)
        ensures
            r.x == 0,
            r.y == 0,
    {
        Coords { x: 0, y: 0 }
    }

    pub open spec fn is_zero(self) -> bool {
        self.x == 0 && self.y == 0
    }

    /// The key of this position in maps keyed by plain integer pairs.
    pub open spec fn key(self) -> (i16, i16) {
        (self.x, self.y)
    }

    pub fn to_key(self) -> (r: (i16, i16))
        ensures
            r == self.key(),
    {
        (self.x, self.y)
    }

    /// `self + (dx, dy)` is representable.
    pub open spec fn can_offset(self, dx: int, dy: int) -> bool {
        fits_i16(self.x + dx) && fits_i16(self.y + dy)
    }

    /// `self + (dx, dy)` as mathematical integers.
    pub open spec fn offset(self, dx: int, dy: int) -> Coords {
        Coords { x: (self.x + dx) as i16, y: (self.y + dy) as i16 }
    }

    /// Component-wise sum; the sum must not overflow.
    pub fn plus(self, other: Coords) -> (r: Coords)
        requires
            self.can_offset(other.x as int, other.y as int),
        ensures
            r.x == self.x + other.x,
            r.y == self.y + other.y,
            r == self.offset(other.x as int, other.y as int),
    {
        Coords { x: self.x + other.x, y: self.y + other.y }
    }

    /// Component-wise difference; the difference must not overflow.
    pub fn minus(self, other: Coords) -> (r: Coords)
        requires
            self.can_offset(-other.x, -other.y),
        ensures
            r.x == self.x - other.x,
            r.y == self.y - other.y,
    {
        Coords { x: self.x - other.x, y: self.y - other.y }
    }

    /// Sign of each component (-1, 0 or 1).
    pub fn signum(self) -> (r: Coords)
        ensures
            r.x == (if self.x > 0 { 1int } else if self.x < 0 { -1int } else { 0int }),
            r.y == (if self.y > 0 { 1int } else if self.y < 0 { -1int } else { 0int }),
    {
        let x: i16 = if self.x > 0 { 1 } else if self.x < 0 { -1 } else { 0 };
        let y: i16 = if self.y > 0 { 1 } else if self.y < 0 { -1 } else { 0 };
        Coords { x, y }
    }

    /// The smaller of the two components.
    pub fn min_element(self) -> (r: i16)
        ensures
            r == (if self.x <= self.y { self.x } else { self.y }),
    {
        if self.x <= self.y { self.x } else { self.y }
    }
}

} // verus!
