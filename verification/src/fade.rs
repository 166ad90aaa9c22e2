//! Fading between two states of the game.
use vstd::prelude::*;
use vstd::std_specs::cmp::PartialEqSpec;

verus! {

/// A fade between two states: fading out of the first, then into the second.
#[derive(Clone, Copy, Debug, PartialEq, Eq)]
pub enum FadeState<T> {
    NotFading,
    FadingOut(T),
    FadingIn(T),
}

/// Whether the game is fading out of `state`.
pub fn is_fading_from<T: PartialEq>(fade_state: Option<&FadeState<T>>, state: &T) -> (r: bool)
    ensures
        <T as PartialEqSpec>::obeys_eq_spec() ==> r == (fade_state matches Some(FadeState::FadingOut(from))
            && from.eq_spec(state)),
        !(fade_state matches Some(FadeState::FadingOut(_))) ==> !r,
{
    match fade_state {
        Some(fade_state) => match fade_state {
            FadeState::FadingOut(from_state) => *from_state == *state,
            _ => false,
        },
        None => false,
    }
}

/// Whether the game is fading into `state`.
pub fn is_fading_to<T: PartialEq>(fade_state: Option<&FadeState<T>>, state: &T) -> (r: bool)
    ensures
        <T as PartialEqSpec>::obeys_eq_spec() ==> r == (fade_state matches Some(FadeState::FadingIn(to))
            && to.eq_spec(state)),
        !(fade_state matches Some(FadeState::FadingIn(_))) ==> !r,
{
    match fade_state {
        Some(fade_state) => match fade_state {
            FadeState::FadingIn(to_state) => *to_state == *state,
            _ => false,
        },
        None => false,
    }
}

impl<T> Default for FadeState<T> {
    fn default() -> (r: Self)
        ensures
            r is NotFading,
    {
        FadeState::NotFading
    }
}

/// The longest span of time a duration can hold, in nanoseconds.
pub const MAX_DURATION_NS: u128 = 18446744073709551615999999999;

/// A one-shot timer: it runs until `duration_ns` nanoseconds have elapsed, then stays
/// finished.
#[derive(Clone, Copy, Debug, PartialEq, Eq, Structural)]
pub struct OnceTimer {
    pub duration_ns: u128,
    pub elapsed_ns: u128,
    pub finished: bool,
}

impl OnceTimer {
    /// The elapsed time never passes the duration, and a finished timer has run it all.
    pub open spec fn wf(self) -> bool {
        &&& self.duration_ns <= MAX_DURATION_NS
        &&& self.elapsed_ns <= self.duration_ns
        &&& self.finished ==> self.elapsed_ns == self.duration_ns
    }

    pub open spec fn spec_from_millis(ms: u64) -> OnceTimer {
        OnceTimer { duration_ns: (ms * 1_000_000) as u128, elapsed_ns: 0, finished: false }
    }

    /// The timer after `delta_ns` more nanoseconds, and whether it finished on this tick.
    pub open spec fn ticked(self, delta_ns: u128) -> (OnceTimer, bool) {
        if self.finished {
            (self, false)
        } else if self.elapsed_ns + delta_ns >= self.duration_ns {
            (OnceTimer { elapsed_ns: self.duration_ns, finished: true, ..self }, true)
        } else {
            (OnceTimer { elapsed_ns: (self.elapsed_ns + delta_ns) as u128, ..self }, false)
        }
    }

    /// A fresh timer that runs for `ms` milliseconds.
    pub fn from_millis(ms: u64) -> (r: OnceTimer)
        ensures
            r == OnceTimer::spec_from_millis(ms),
            r.wf(),
    {
        OnceTimer { duration_ns: ms as u128 * 1_000_000, elapsed_ns: 0, finished: false }
    }

    /// Lets `delta_ns` nanoseconds pass; answers whether the timer finished on this tick.
    pub fn tick(&mut self, delta_ns: u128) -> (just_finished: bool)
        requires
            old(self).wf(),
            delta_ns <= MAX_DURATION_NS,
        ensures
            final(self).wf(),
            (*final(self), just_finished) == old(self).ticked(delta_ns),
    {
        if self.finished {
            return false;
        }
        let elapsed = self.elapsed_ns + delta_ns;
        if elapsed >= self.duration_ns {
            self.elapsed_ns = self.duration_ns;
            self.finished = true;
            true
        } else {
            self.elapsed_ns = elapsed;
            false
        }
    }
}

/// A fade under way: out of `from` until the in timer runs out, then into `to` until the
/// out timer runs out.
#[derive(Clone, Copy, Debug)]
pub struct FadeStateData<T> {
    pub from: T,
    pub to: T,
    pub in_timer: Option<OnceTimer>,
    pub out_timer: OnceTimer,
}

impl<T> FadeStateData<T> {
    pub open spec fn wf(self) -> bool {
        &&& self.in_timer matches Some(t) ==> t.wf()
        &&& self.out_timer.wf()
    }
}

/// The fade to run next, if one was asked for.
#[derive(Clone, Copy, Debug)]
pub struct NextFadeState<T> {
    pub next: Option<FadeStateData<T>>,
}

/// What one tick of a fade asks of the game: the fade state to switch to and the game
/// state to switch to, where there is one; a later request within the tick replaces an
/// earlier one.
#[derive(Clone, Copy, Debug)]
pub struct FadeRequests<T> {
    pub fade: Option<FadeState<T>>,
    pub state: Option<T>,
}

impl<T> Default for NextFadeState<T> {
    fn default() -> (r: Self)
        ensures
            r.next is None,
    {
        NextFadeState { next: None }
    }
}

impl<T: Copy> NextFadeState<T> {
    pub open spec fn wf(self) -> bool {
        self.next matches Some(d) ==> d.wf()
    }

    /// Plans a fade from `from` to `to`: the fade in starts after `in_ms` milliseconds, and
    /// the fade ends `out_ms` milliseconds after that.
    pub fn set_with_delay(&mut self, from: T, to: T, in_ms: u64, out_ms: u64)
        ensures
            final(self).wf(),
            final(self).next == Some(FadeStateData {
                from,
                to,
                in_timer: Some(OnceTimer::spec_from_millis(in_ms)),
                out_timer: OnceTimer::spec_from_millis(out_ms),
            }),
    {
        self.next = Some(FadeStateData {
            from,
            to,
            in_timer: Some(OnceTimer::from_millis(in_ms)),
            out_timer: OnceTimer::from_millis(out_ms),
        });
    }

    /// What a tick of `delta_ns` nanoseconds does to the planned fade, given the fade state
    /// the game is in.
    pub open spec fn ticked(self, delta_ns: u128, current: FadeState<T>) -> (NextFadeState<T>, FadeRequests<T>) {
        match self.next {
            None => (self, FadeRequests { fade: None, state: None }),
            Some(d) => {
                let start = if current is NotFading { Some(FadeState::FadingOut(d.from)) } else { None };
                match d.in_timer {
                    Some(t) => {
                        let (t2, done) = t.ticked(delta_ns);
                        if done {
                            (
                                NextFadeState { next: Some(FadeStateData { in_timer: None, ..d }) },
                                FadeRequests { fade: Some(FadeState::FadingIn(d.to)), state: Some(d.to) },
                            )
                        } else {
                            (
                                NextFadeState { next: Some(FadeStateData { in_timer: Some(t2), ..d }) },
                                FadeRequests { fade: start, state: None },
                            )
                        }
                    },
                    None => {
                        let (t2, done) = d.out_timer.ticked(delta_ns);
                        if done {
                            (NextFadeState { next: None }, FadeRequests { fade: Some(FadeState::NotFading), state: None })
                        } else {
                            (
                                NextFadeState { next: Some(FadeStateData { out_timer: t2, ..d }) },
                                FadeRequests { fade: start, state: None },
                            )
                        }
                    },
                }
            },
        }
    }

    /// Advances the planned fade by `delta_ns` nanoseconds: a game that is not fading
    /// starts fading out of `from`; when the in timer runs out the game fades into `to` and
    /// switches to it; when the out timer runs out the fade ends.
    pub fn tick(&mut self, delta_ns: u128, current: FadeState<T>) -> (r: FadeRequests<T>)
        requires
            old(self).wf(),
            delta_ns <= MAX_DURATION_NS,
        ensures
            final(self).wf(),
            (*final(self), r) == old(self).ticked(delta_ns, current),
    {
        match self.next {
            None => FadeRequests { fade: None, state: None },
            Some(d) => {
                let mut data = d;
                let mut fade: Option<FadeState<T>> = None;
                if let FadeState::NotFading = current {
                    fade = Some(FadeState::FadingOut(data.from));
                }
                let mut state: Option<T> = None;
                match data.in_timer {
                    Some(t) => {
                        let mut timer = t;
                        if timer.tick(delta_ns) {
                            data.in_timer = None;
                            fade = Some(FadeState::FadingIn(data.to));
                            state = Some(data.to);
                        } else {
                            data.in_timer = Some(timer);
                        }
                        self.next = Some(data);
                    },
                    None => {
                        if data.out_timer.tick(delta_ns) {
                            self.next = None;
                            fade = Some(FadeState::NotFading);
                        } else {
                            self.next = Some(data);
                        }
                    },
                }
                FadeRequests { fade, state }
            },
        }
    }
}

/// The course of a planned fade: ticks shorter than the in delay keep the game fading out
/// of `from`; the tick that reaches the in delay fades into `to` and switches the game to
/// it; the tick that then reaches the out delay ends the fade and leaves nothing planned.
pub proof fn lemma_fade_course<T: Copy>(from: T, to: T, in_ms: u64, out_ms: u64, d0: u128, d1: u128, d2: u128)
    requires
        d0 < in_ms * 1_000_000,
        d1 + d0 >= in_ms * 1_000_000,
        d2 >= out_ms * 1_000_000,
    ensures
        ({
            let plan = NextFadeState {
                next: Some(FadeStateData {
                    from,
                    to,
                    in_timer: Some(OnceTimer::spec_from_millis(in_ms)),
                    out_timer: OnceTimer::spec_from_millis(out_ms),
                }),
            };
            let (p0, r0) = plan.ticked(d0, FadeState::NotFading);
            let (p1, r1) = p0.ticked(d1, FadeState::FadingOut(from));
            let (p2, r2) = p1.ticked(d2, FadeState::FadingIn(to));
            &&& r0.fade == Some(FadeState::FadingOut(from)) && r0.state is None
            &&& r1.fade == Some(FadeState::FadingIn(to)) && r1.state == Some(to)
            &&& r2.fade == Some(FadeState::<T>::NotFading) && r2.state is None
            &&& p2.next is None
        }),
{
}

} // verus!
