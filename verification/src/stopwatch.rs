//! The stopwatch: accumulated running time and the idle / ticking state.

use vstd::prelude::*;

verus! {

/// Nanoseconds in one second.
pub const NANOS_PER_SEC: u64 = 1_000_000_000;

/// Nanoseconds in one millisecond.
pub const NANOS_PER_MILLI: u64 = 1_000_000;

/// The two states of the stopwatch.
#[derive(Clone, Copy, Debug, PartialEq, Eq, Structural)]
pub enum State {
    /// Not running: the accumulated time is frozen.
    Idle,
    /// Running; `last_tick` is the clock reading up to which time has been counted.
    Ticking { last_tick: u64 },
}

/// Accumulated running time, in nanoseconds, and the current state.
#[derive(Clone, Copy, Debug, PartialEq, Eq, Structural)]
pub struct Stopwatch {
    pub duration: u64,
    pub state: State,
}

/// Time between two readings of a monotonic clock. A reading that lies before
/// the earlier one counts as no time at all.
pub open spec fn elapsed(last_tick: u64, now: u64) -> nat {
    if now >= last_tick {
        (now - last_tick) as nat
    } else {
        0
    }
}

/// Whether clock readings are in order: none lies before an earlier one.
pub open spec fn in_clock_order(readings: Seq<u64>) -> bool {
    forall|i: int, j: int| 0 <= i <= j < readings.len() ==> readings[i] <= readings[j]
}

impl Stopwatch {
    /// The stopwatch at rest with nothing accumulated.
    pub open spec fn initial() -> Stopwatch {
        Stopwatch { duration: 0, state: State::Idle }
    }

    /// Whether time is being counted.
    pub open spec fn running(self) -> bool {
        self.state is Ticking
    }

    /// The stopwatch after the start / stop control was used at reading `now`:
    /// an idle one starts counting from `now`, a ticking one freezes.
    pub open spec fn toggled(self, now: u64) -> Stopwatch {
        match self.state {
            State::Idle => Stopwatch { duration: self.duration, state: State::Ticking { last_tick: now } },
            State::Ticking { .. } => Stopwatch { duration: self.duration, state: State::Idle },
        }
    }

    /// Whether the accumulated time still fits after a tick at reading `now`.
    pub open spec fn can_tick(self, now: u64) -> bool {
        match self.state {
            State::Idle => true,
            State::Ticking { last_tick } => self.duration + elapsed(last_tick, now) <= u64::MAX,
        }
    }

    /// The stopwatch after a tick at reading `now`: a ticking one gains the
    /// time since its last tick and remembers `now`, an idle one is unchanged.
    pub open spec fn ticked(self, now: u64) -> Stopwatch {
        match self.state {
            State::Idle => self,
            State::Ticking { last_tick } => Stopwatch {
                duration: (self.duration + elapsed(last_tick, now)) as u64,
                state: State::Ticking { last_tick: now },
            },
        }
    }

    /// The stopwatch after one tick at each of `readings`, in order.
    pub open spec fn ticked_through(self, readings: Seq<u64>) -> Stopwatch
        decreases readings.len(),
    {
        if readings.len() == 0 {
            self
        } else {
            self.ticked(readings[0]).ticked_through(readings.skip(1))
        }
    }

    /// The stopwatch after a reset: nothing accumulated, state kept.
    pub open spec fn cleared(self) -> Stopwatch {
        Stopwatch { duration: 0, state: self.state }
    }

    /// Whole seconds accumulated.
    pub open spec fn whole_seconds(self) -> u64 {
        self.duration / NANOS_PER_SEC
    }

    /// Whole milliseconds accumulated.
    pub open spec fn whole_millis(self) -> u64 {
        self.duration / NANOS_PER_MILLI
    }

    /// A stopwatch at rest with nothing accumulated.
    pub fn new() -> (watch: Stopwatch)
        ensures
            watch == Stopwatch::initial(),
    {
        Stopwatch { duration: 0, state: State::Idle }
    }

    /// Whether time is being counted.
    pub fn is_ticking(&self) -> (ticking: bool)
        ensures
            ticking == self.running(),
    {
        match self.state {
            State::Idle => false,
            State::Ticking { .. } => true,
        }
    }

    /// Starts an idle stopwatch at reading `now`, or stops a ticking one.
    /// The accumulated time is untouched either way.
    pub fn toggle(&mut self, now: u64)
        ensures
            *final(self) == old(self).toggled(now),
    {
        match self.state {
            State::Idle => {
                self.state = State::Ticking { last_tick: now };
            },
            State::Ticking { .. } => {
                self.state = State::Idle;
            },
        }
    }

    /// Whether the accumulated time still fits after a tick at reading `now`.
    pub fn fits(&self, now: u64) -> (fits: bool)
        ensures
            fits == self.can_tick(now),
    {
        match self.state {
            State::Idle => true,
            State::Ticking { last_tick } => {
                let delta: u64 = if now >= last_tick {
                    now - last_tick
                } else {
                    0
                };
                delta <= u64::MAX - self.duration
            },
        }
    }

    /// One timer tick at reading `now`.
    pub fn tick(&mut self, now: u64)
        requires
            old(self).can_tick(now),
        ensures
            *final(self) == old(self).ticked(now),
            final(self).duration >= old(self).duration,
    {
        match self.state {
            State::Idle => {},
            State::Ticking { last_tick } => {
                let delta: u64 = if now >= last_tick {
                    now - last_tick
                } else {
                    0
                };
                self.duration = self.duration + delta;
                self.state = State::Ticking { last_tick: now };
            },
        }
    }

    /// Zeroes the accumulated time, whatever the state.
    pub fn reset(&mut self)
        ensures
            *final(self) == old(self).cleared(),
            final(self).duration == 0,
    {
        self.duration = 0;
    }

    /// Whole seconds accumulated.
    pub fn seconds(&self) -> (secs: u64)
        ensures
            secs == self.whole_seconds(),
    {
        self.duration / NANOS_PER_SEC
    }

    /// Whole milliseconds accumulated.
    pub fn millis(&self) -> (ms: u64)
        ensures
            ms == self.whole_millis(),
    {
        self.duration / NANOS_PER_MILLI
    }
}

/// A tick never takes accumulated time away, and adds none to an idle stopwatch.
pub proof fn tick_is_monotonic(watch: Stopwatch, now: u64)
    requires
        watch.can_tick(now),
    ensures
        watch.ticked(now).duration >= watch.duration,
        !watch.running() ==> watch.ticked(now) == watch,
        watch.ticked(now).running() == watch.running(),
{
}

/// Two ticks in clock order add up to the one tick at the later reading.
pub proof fn ticks_add_up(watch: Stopwatch, earlier: u64, later: u64)
    requires
        earlier <= later,
        watch.state matches State::Ticking { last_tick } ==> last_tick <= earlier,
        watch.can_tick(later),
    ensures
        watch.can_tick(earlier),
        watch.ticked(earlier).can_tick(later),
        watch.ticked(earlier).ticked(later) == watch.ticked(later),
{
}

/// How often the timer fires does not matter: ticks at readings in clock
/// order leave the stopwatch as the one tick at the last reading does.
pub proof fn tick_rate_is_immaterial(watch: Stopwatch, readings: Seq<u64>)
    requires
        readings.len() > 0,
        in_clock_order(readings),
        watch.state matches State::Ticking { last_tick } ==> last_tick <= readings[0],
        watch.can_tick(readings.last()),
    ensures
        watch.ticked_through(readings) == watch.ticked(readings.last()),
    decreases readings.len(),
{
    let rest = readings.skip(1);
    let next = watch.ticked(readings[0]);
    if readings.len() == 1 {
        assert(next.ticked_through(rest) == next);
    } else {
        assert forall|i: int, j: int| 0 <= i <= j < rest.len() implies rest[i] <= rest[j] by {
            assert(rest[i] == readings[i + 1]);
            assert(rest[j] == readings[j + 1]);
        }
        assert(rest.last() == readings.last());
        assert(rest[0] == readings[1]);
        ticks_add_up(watch, readings[0], readings.last());
        tick_rate_is_immaterial(next, rest);
    }
}

/// Only a tick moves the accumulated time: the start / stop control keeps it,
/// and using the control twice gives back the running flag.
pub proof fn toggle_freezes_duration(watch: Stopwatch, now: u64, again: u64)
    ensures
        watch.toggled(now).duration == watch.duration,
        watch.toggled(now).running() == !watch.running(),
        watch.toggled(now).toggled(again).running() == watch.running(),
        watch.toggled(now).running() ==> watch.toggled(now).ticked(now) == watch.toggled(now),
{
}

/// A reset zeroes the accumulated time in either state and keeps the state;
/// a second reset changes nothing.
pub proof fn reset_zeroes(watch: Stopwatch)
    ensures
        watch.cleared().duration == 0,
        watch.cleared().state == watch.state,
        watch.cleared().cleared() == watch.cleared(),
{
}

} // verus!
