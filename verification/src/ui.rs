//! On-screen game buttons: their colors, and buttons that fire once held long enough.
use vstd::prelude::*;
use crate::palette::ThemeColor;
use crate::fade::MAX_DURATION_NS;

verus! {

/// The colors of a game button: at rest, while pressed, of its border, and under the
/// pointer.
#[derive(Clone, Copy, Debug, PartialEq, Eq, Structural)]
pub struct GameButtonPalette {
    pub idle: ThemeColor,
    pub click: ThemeColor,
    pub border: ThemeColor,
    pub hover: ThemeColor,
}

/// An event: the button entity fired.
#[derive(Clone, Copy, Debug, PartialEq, Eq, Structural)]
pub struct GameButtonFired(pub u64);

/// A button that fires once it has been held down for its whole duration.
#[derive(Clone, Copy, Debug, PartialEq, Eq, Structural)]
pub struct HoldGameButton {
    duration_ns: u128,
    held_ns: u128,
    pressed: bool,
}

impl HoldGameButton {
    pub closed spec fn duration(self) -> int {
        self.duration_ns as int
    }

    pub closed spec fn held(self) -> int {
        self.held_ns as int
    }

    pub closed spec fn is_pressed(self) -> bool {
        self.pressed
    }

    /// The button has been held for less than its duration.
    #[verifier::type_invariant]
    spec fn held_less_than_duration(self) -> bool {
        &&& self.duration_ns <= MAX_DURATION_NS
        &&& self.held_ns <= self.duration_ns
        &&& self.duration_ns > 0 ==> self.held_ns < self.duration_ns
    }

    /// A released button that fires after being held for `duration_ms` milliseconds.
    pub fn new(duration_ms: u64) -> (r: Self)
        ensures
            r.duration() == duration_ms * 1_000_000,
            r.held() == 0,
            !r.is_pressed(),
    {
        HoldGameButton { duration_ns: duration_ms as u128 * 1_000_000, held_ns: 0, pressed: false }
    }

    /// How long the button fires after, in nanoseconds.
    pub fn duration_ns(&self) -> (r: u128)
        ensures
            r == self.duration(),
    {
        self.duration_ns
    }

    /// How long the button has been held, in nanoseconds.
    pub fn held_ns(&self) -> (r: u128)
        ensures
            r == self.held(),
    {
        self.held_ns
    }

    /// Whether the button is held down.
    pub fn pressed(&self) -> (r: bool)
        ensures
            r == self.is_pressed(),
    {
        self.pressed
    }

    /// The pointer pressed the button.
    pub fn press(&mut self)
        ensures
            final(self).is_pressed(),
            final(self).held() == old(self).held(),
            final(self).duration() == old(self).duration(),
    {
        proof {
            use_type_invariant(&*self);
        }
        self.pressed = true;
    }

    /// Releases the button and forgets how long it was held.
    pub fn reset(&mut self)
        ensures
            !final(self).is_pressed(),
            final(self).held() == 0,
            final(self).duration() == old(self).duration(),
    {
        proof {
            use_type_invariant(&*self);
        }
        self.held_ns = 0;
        self.pressed = false;
    }

    /// Lets `delta_ns` nanoseconds pass. A pressed button counts them; once it has been
    /// held for its whole duration it fires and is released. A released button stays as
    /// it is.
    pub fn tick(&mut self, delta_ns: u128) -> (fired: bool)
        requires
            delta_ns <= MAX_DURATION_NS,
        ensures
            final(self).duration() == old(self).duration(),
            !old(self).is_pressed() ==> !fired && *final(self) == *old(self),
            old(self).is_pressed() ==> {
                &&& fired == (old(self).held() + delta_ns >= old(self).duration())
                &&& fired ==> !final(self).is_pressed() && final(self).held() == 0
                &&& !fired ==> final(self).is_pressed() && final(self).held() == old(self).held() + delta_ns
            },
    {
        proof {
            use_type_invariant(&*self);
        }
        if !self.pressed {
            return false;
        }
        let held = self.held_ns + delta_ns;
        if held >= self.duration_ns {
            self.reset();
            true
        } else {
            self.held_ns = held;
            false
        }
    }
}

} // verus!
