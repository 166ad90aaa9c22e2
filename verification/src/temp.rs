//! The temperature meter: it must stay between 1 and its maximum.
use vstd::prelude::*;

verus! {

/// The current temperature and the highest it may get.
#[derive(Clone, Copy, Debug, PartialEq, Eq, Structural)]
pub struct Temp {
    pub current: u8,
    pub max: u8,
}

/// An event asking to change the temperature by `change`.
#[derive(Clone, Copy, Debug, PartialEq, Eq, Structural)]
pub struct TempChangeAction {
    pub change: i8,
}

/// `current + change`, saturated to the range of `u8`.
pub open spec fn saturated_sum(current: u8, change: i8) -> int {
    let s = current + change;
    if s < 0 {
        0
    } else if s > u8::MAX {
        u8::MAX as int
    } else {
        s
    }
}

/// `v` clamped to `[lo, hi]`.
pub open spec fn clamped(v: int, lo: int, hi: int) -> int {
    if v < lo {
        lo
    } else if v > hi {
        hi
    } else {
        v
    }
}

/// `current.saturating_add_signed(change)`.
pub fn saturating_add_signed(current: u8, change: i8) -> (r: u8)
    ensures
        r == saturated_sum(current, change),
{
    let s: i16 = current as i16 + change as i16;
    if s < 0 {
        0
    } else if s > 255 {
        255
    } else {
        s as u8
    }
}

impl Temp {
    pub fn default_max() -> (r: u8)
        ensures
            r == 5,
    {
        5
    }

    /// Half the default maximum, rounded up.
    pub fn default_initial() -> (r: u8)
        ensures
            r == 3,
    {
        let max = Self::default_max();
        max / 2 + max % 2
    }

    /// Changes the temperature, keeping it within `1..=max`, and answers whether the
    /// unclamped value left that range (fell to 0 or rose above the maximum).
    pub fn update_current(&mut self, change: i8) -> (overflown: bool)
        requires
            old(self).max >= 1,
        ensures
            final(self).max == old(self).max,
            final(self).current == clamped(saturated_sum(old(self).current, change), 1, old(self).max as int),
            overflown == (saturated_sum(old(self).current, change) == 0 || saturated_sum(
                old(self).current,
                change,
            ) > old(self).max),
            1 <= final(self).current <= final(self).max,
    {
        let unclamped = saturating_add_signed(self.current, change);
        let taken_dmg = unclamped == 0 || unclamped > self.max;
        self.current = if unclamped < 1 {
            1
        } else if unclamped > self.max {
            self.max
        } else {
            unclamped
        };
        taken_dmg
    }
}

impl Default for Temp {
    fn default() -> (r: Self)
        ensures
            r.current == 3,
            r.max == 5,
    {
        Temp { current: Self::default_initial(), max: Self::default_max() }
    }
}

} // verus!
