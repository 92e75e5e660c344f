//! A fixed-step clock driven by a host that draws at whatever rate it likes.
//!
//! Time is counted in whole nanoseconds. The clock knows nothing of geometry:
//! it is told how much host time went by and answers with the number of
//! simulation ticks that fell due.

use vstd::prelude::*;
use vstd::arithmetic::div_mod::lemma_fundamental_div_mod;
use vstd::arithmetic::div_mod::lemma_fundamental_div_mod_converse;
use vstd::arithmetic::div_mod::lemma_mod_bound;

verus! {

/// The tick interval a standard clock starts with: 10 ms.
pub const STANDARD_INTERVAL_NS: u64 = 10_000_000;

/// The time a standard clock waits before its first tick can fall due: 2 s.
pub const STANDARD_STARTUP_DELAY_NS: u64 = 2_000_000_000;

/// The shortest interval a standard clock accepts: 0.1 ms.
pub const STANDARD_MIN_INTERVAL_NS: u64 = 100_000;

/// The longest interval a standard clock accepts: 0.5 s.
pub const STANDARD_MAX_INTERVAL_NS: u64 = 500_000_000;

/// The coarse step of the speed controls: 1 ms.
pub const COARSE_STEP_NS: u64 = 1_000_000;

/// The fine step of the speed controls: 0.1 ms.
pub const FINE_STEP_NS: u64 = 100_000;

/// What a clock is, as numbers.
pub struct ClockState {
    /// Nanoseconds from one tick to the next.
    pub interval: nat,
    /// The interval is never set below this.
    pub min_interval: nat,
    /// The interval is never set above this.
    pub max_interval: nat,
    /// What is left of the startup delay.
    pub remaining_delay: nat,
    /// Host time that has gone by since the delay ended and has not yet been
    /// paid out as ticks.
    pub pending: nat,
}

impl ClockState {
    /// The bounds admit an interval, the interval lies within them, and no
    /// time counts towards a tick while the startup delay lasts.
    pub open spec fn valid(self) -> bool {
        &&& 1 <= self.min_interval <= self.interval <= self.max_interval
        &&& self.remaining_delay > 0 ==> self.pending == 0
    }

    /// `wanted` brought into the clock's bounds.
    pub open spec fn bounded(self, wanted: int) -> nat {
        if wanted < self.min_interval {
            self.min_interval
        } else if wanted > self.max_interval {
            self.max_interval
        } else {
            wanted as nat
        }
    }

    /// The part of `delta` that lies after the end of the startup delay.
    pub open spec fn past_delay(self, delta: nat) -> nat {
        if delta > self.remaining_delay {
            (delta - self.remaining_delay) as nat
        } else {
            0
        }
    }

    /// The time there is to pay out as ticks once `delta` has gone by. The
    /// clock counts no further than a `u64` reaches.
    pub open spec fn budget(self, delta: nat) -> nat {
        let total = self.pending + self.past_delay(delta);
        if total > u64::MAX {
            u64::MAX as nat
        } else {
            total
        }
    }

    /// The number of ticks that fall due when `delta` goes by.
    pub open spec fn ticks_due(self, delta: nat) -> nat {
        self.budget(delta) / self.interval
    }

    /// The clock after `delta` has gone by and the ticks due were paid out.
    pub open spec fn elapsed(self, delta: nat) -> ClockState {
        ClockState {
            remaining_delay: if delta > self.remaining_delay {
                0
            } else {
                (self.remaining_delay - delta) as nat
            },
            pending: self.budget(delta) % self.interval,
            ..self
        }
    }

    /// The clock with its interval set to `wanted`, as far as the bounds allow.
    pub open spec fn with_interval(self, wanted: int) -> ClockState {
        ClockState { interval: self.bounded(wanted), ..self }
    }

    /// The clock after one reading of the speed controls: `faster` shortens
    /// the interval by `step`, then `slower` lengthens it by `step`, each
    /// within the bounds.
    pub open spec fn controlled(self, faster: bool, slower: bool, step: nat) -> ClockState {
        let first = if faster {
            self.with_interval(self.interval - step)
        } else {
            self
        };
        if slower {
            first.with_interval((first.interval + step) as int)
        } else {
            first
        }
    }
}

/// The step that one reading of the speed controls moves the interval by.
pub open spec fn control_step(fine: bool) -> nat {
    if fine {
        FINE_STEP_NS as nat
    } else {
        COARSE_STEP_NS as nat
    }
}

/// The ticks that fall due do not depend on how the host slices its time:
/// letting `first` and then `second` go by pays out as many ticks, and leaves
/// the same clock, as letting `first + second` go by at once. (Stated for
/// spans that the clock can count, that is below the reach of a `u64`.)
pub proof fn lemma_elapse_is_additive(c: ClockState, first: nat, second: nat)
    requires
        c.valid(),
        c.pending + c.past_delay(first + second) <= u64::MAX,
    ensures
        c.elapsed(first).elapsed(second) == c.elapsed(first + second),
        c.ticks_due(first) + c.elapsed(first).ticks_due(second) == c.ticks_due(first + second),
{
    let i = c.interval as int;
    let a = (c.pending + c.past_delay(first)) as int;
    let mid = c.elapsed(first);
    let b = mid.past_delay(second) as int;
    assert(c.past_delay(first) + mid.past_delay(second) == c.past_delay(first + second));
    assert(c.budget(first) == a);
    let q1 = a / i;
    let r1 = a % i;
    lemma_fundamental_div_mod(a, i);
    lemma_mod_bound(a, i);
    assert(mid.pending == r1);
    let t = r1 + b;
    assert(t <= a + b);
    assert(mid.budget(second) == t);
    let q2 = t / i;
    let r2 = t % i;
    lemma_fundamental_div_mod(t, i);
    lemma_mod_bound(t, i);
    assert(a + b == (q1 + q2) * i + r2) by (nonlinear_arith)
        requires
            a == i * q1 + r1,
            t == i * q2 + r2,
            t == r1 + b,
    ;
    lemma_fundamental_div_mod_converse(a + b, i, q1 + q2, r2);
    assert(c.budget(first + second) == a + b);
}

/// The clock that turns host time into simulation ticks.
pub struct SimulationClock {
    interval: u64,
    min_interval: u64,
    max_interval: u64,
    remaining_delay: u64,
    pending: u64,
}

impl View for SimulationClock {
    type V = ClockState;

    closed spec fn view(&self) -> ClockState {
        ClockState {
            interval: self.interval as nat,
            min_interval: self.min_interval as nat,
            max_interval: self.max_interval as nat,
            remaining_delay: self.remaining_delay as nat,
            pending: self.pending as nat,
        }
    }
}

impl SimulationClock {
    #[verifier::type_invariant]
    spec fn well_formed(self) -> bool {
        self@.valid()
    }

    /// A clock that ticks every `interval` nanoseconds, as far as
    /// `[min_interval, max_interval]` allows, once `startup_delay` nanoseconds
    /// have gone by. There is no clock with a least interval of zero, or with
    /// a least interval above the greatest.
    pub fn new(interval: u64, startup_delay: u64, min_interval: u64, max_interval: u64) -> (r:
        Option<SimulationClock>)
        ensures
            r is Some <==> 1 <= min_interval <= max_interval,
            r is Some ==> r.unwrap()@ == (ClockState {
                interval: interval as nat,
                min_interval: min_interval as nat,
                max_interval: max_interval as nat,
                remaining_delay: startup_delay as nat,
                pending: 0,
            }).with_interval(interval as int),
            r is Some ==> r.unwrap()@.valid(),
    {
        if min_interval == 0 || min_interval > max_interval {
            return None;
        }
        let bounded: u64 = if interval < min_interval {
            min_interval
        } else if interval > max_interval {
            max_interval
        } else {
            interval
        };
        Some(
            SimulationClock {
                interval: bounded,
                min_interval,
                max_interval,
                remaining_delay: startup_delay,
                pending: 0,
            },
        )
    }

    /// The clock with the standard interval, delay and bounds.
    pub fn standard() -> (c: SimulationClock)
        ensures
            c@ == (ClockState {
                interval: STANDARD_INTERVAL_NS as nat,
                min_interval: STANDARD_MIN_INTERVAL_NS as nat,
                max_interval: STANDARD_MAX_INTERVAL_NS as nat,
                remaining_delay: STANDARD_STARTUP_DELAY_NS as nat,
                pending: 0,
            }),
    {
        SimulationClock {
            interval: STANDARD_INTERVAL_NS,
            min_interval: STANDARD_MIN_INTERVAL_NS,
            max_interval: STANDARD_MAX_INTERVAL_NS,
            remaining_delay: STANDARD_STARTUP_DELAY_NS,
            pending: 0,
        }
    }

    pub fn interval(&self) -> (ns: u64)
        ensures
            ns == self@.interval,
            self@.min_interval <= ns <= self@.max_interval,
            ns >= 1,
    {
        proof {
            use_type_invariant(self);
        }
        self.interval
    }

    pub fn min_interval(&self) -> (ns: u64)
        ensures
            ns == self@.min_interval,
    {
        self.min_interval
    }

    pub fn max_interval(&self) -> (ns: u64)
        ensures
            ns == self@.max_interval,
    {
        self.max_interval
    }

    /// What is left of the startup delay.
    pub fn remaining_delay(&self) -> (ns: u64)
        ensures
            ns == self@.remaining_delay,
    {
        self.remaining_delay
    }

    /// Host time gone by and not yet paid out as ticks.
    pub fn pending(&self) -> (ns: u64)
        ensures
            ns == self@.pending,
    {
        self.pending
    }

    /// The startup delay has run out.
    pub fn has_started(&self) -> (b: bool)
        ensures
            b == (self@.remaining_delay == 0),
    {
        self.remaining_delay == 0
    }

    /// Sets the interval to `wanted`, or to the bound that `wanted` lies
    /// beyond.
    pub fn set_interval(&mut self, wanted: u64)
        ensures
            final(self)@ == old(self)@.with_interval(wanted as int),
            final(self)@.valid(),
    {
        proof {
            use_type_invariant(&*self);
        }
        let bounded: u64 = if wanted < self.min_interval {
            self.min_interval
        } else if wanted > self.max_interval {
            self.max_interval
        } else {
            wanted
        };
        self.interval = bounded;
    }

    /// Shortens the interval by `step`, down to the least interval at most.
    pub fn speed_up(&mut self, step: u64)
        ensures
            final(self)@ == old(self)@.with_interval(old(self)@.interval - step),
            final(self)@.valid(),
    {
        proof {
            use_type_invariant(&*self);
        }
        let wanted: u64 = if step >= self.interval {
            0
        } else {
            self.interval - step
        };
        self.set_interval(wanted);
    }

    /// Lengthens the interval by `step`, up to the greatest interval at most.
    pub fn slow_down(&mut self, step: u64)
        ensures
            final(self)@ == old(self)@.with_interval(old(self)@.interval + step),
            final(self)@.valid(),
    {
        proof {
            use_type_invariant(&*self);
        }
        let wanted: u64 = if step > u64::MAX - self.interval {
            u64::MAX
        } else {
            self.interval + step
        };
        self.set_interval(wanted);
    }

    /// One reading of the speed controls: with `faster` the interval is
    /// shortened by one step, then with `slower` lengthened by one step. The
    /// step is the fine one if `fine`, else the coarse one.
    pub fn apply_speed_controls(&mut self, faster: bool, slower: bool, fine: bool)
        ensures
            final(self)@ == old(self)@.controlled(faster, slower, control_step(fine)),
            final(self)@.valid(),
    {
        proof {
            use_type_invariant(&*self);
        }
        let step: u64 = if fine {
            FINE_STEP_NS
        } else {
            COARSE_STEP_NS
        };
        if faster {
            self.speed_up(step);
        }
        if slower {
            self.slow_down(step);
        }
    }

    /// Lets `delta` nanoseconds of host time go by and returns the number of
    /// ticks that fell due. Time first runs down the startup delay; what is
    /// left of it is added to the time not yet paid out, and every whole
    /// interval in that sum is one tick.
    pub fn elapse(&mut self, delta: u64) -> (ticks: u64)
        ensures
            ticks == old(self)@.ticks_due(delta as nat),
            final(self)@ == old(self)@.elapsed(delta as nat),
            final(self)@.valid(),
            final(self)@.pending < final(self)@.interval,
            old(self)@.remaining_delay > 0 && delta <= old(self)@.remaining_delay ==> ticks == 0,
    {
        proof {
            use_type_invariant(&*self);
        }
        let past: u64 = if delta > self.remaining_delay {
            delta - self.remaining_delay
        } else {
            0
        };
        let left: u64 = if delta > self.remaining_delay {
            0
        } else {
            self.remaining_delay - delta
        };
        let budget: u64 = if past > u64::MAX - self.pending {
            u64::MAX
        } else {
            self.pending + past
        };
        let ticks: u64 = budget / self.interval;
        let rest: u64 = budget % self.interval;
        proof {
            let i = self.interval as int;
            lemma_mod_bound(budget as int, i);
            if budget == 0 {
                lemma_fundamental_div_mod_converse(0, i, 0, 0);
            }
        }
        self.remaining_delay = left;
        self.pending = rest;
        ticks
    }
}

} // verus!
