//! Tomatoes: milestones counted as the stopwatch runs, and the notification
//! that goes with them.

use vstd::prelude::*;
use vstd::arithmetic::div_mod::{lemma_div_is_ordered, lemma_fundamental_div_mod};
use crate::stopwatch::{Stopwatch, NANOS_PER_MILLI};

verus! {

/// One minute, in milliseconds.
pub const MINUTE_MS: u64 = 60_000;

/// The classic tomato of twenty-five minutes, in milliseconds.
pub const TOMATO_MS: u64 = 1_500_000;

/// What the caller is asked to do after a tick.
#[derive(Clone, Copy, Debug, PartialEq, Eq, Structural)]
pub enum Action {
    /// Nothing to do.
    Quiet,
    /// Show the desktop notification.
    Notify,
}

/// A stopwatch that counts tomatoes. A tick that leaves the accumulated time,
/// in whole milliseconds, on a multiple of `interval_ms` counts one tomato; the
/// first such tick since the last reset also asks for a notification.
#[derive(Clone, Copy, Debug, PartialEq, Eq, Structural)]
pub struct Pomodoro {
    pub watch: Stopwatch,
    pub interval_ms: u64,
    pub tomato_count: u64,
    pub notification_shown: bool,
}

impl Pomodoro {
    /// The interval is positive.
    pub open spec fn wf(self) -> bool {
        self.interval_ms > 0
    }

    /// A timer at rest with nothing counted.
    pub open spec fn initial(interval_ms: u64) -> Pomodoro {
        Pomodoro {
            watch: Stopwatch::initial(),
            interval_ms,
            tomato_count: 0,
            notification_shown: false,
        }
    }

    /// Whether a tick at reading `now` counts a tomato: the stopwatch is
    /// ticking, and the tick leaves its whole milliseconds on a multiple of
    /// the interval.
    pub open spec fn reaches_milestone(self, now: u64) -> bool {
        self.watch.running() && self.watch.ticked(now).whole_millis() % self.interval_ms == 0
    }

    /// Whether both the accumulated time and the count still fit after a tick
    /// at reading `now`.
    pub open spec fn can_tick(self, now: u64) -> bool {
        &&& self.watch.can_tick(now)
        &&& self.reaches_milestone(now) ==> self.tomato_count < u64::MAX
    }

    /// The timer after a tick at reading `now`.
    pub open spec fn ticked(self, now: u64) -> Pomodoro {
        if self.reaches_milestone(now) {
            Pomodoro {
                watch: self.watch.ticked(now),
                interval_ms: self.interval_ms,
                tomato_count: (self.tomato_count + 1) as u64,
                notification_shown: true,
            }
        } else {
            Pomodoro {
                watch: self.watch.ticked(now),
                interval_ms: self.interval_ms,
                tomato_count: self.tomato_count,
                notification_shown: self.notification_shown,
            }
        }
    }

    /// What a tick at reading `now` asks of the caller: a notification at the
    /// first milestone since the last reset, nothing otherwise.
    pub open spec fn action_at(self, now: u64) -> Action {
        if self.reaches_milestone(now) && !self.notification_shown {
            Action::Notify
        } else {
            Action::Quiet
        }
    }

    /// The timer after the start / stop control was used at reading `now`.
    pub open spec fn toggled(self, now: u64) -> Pomodoro {
        Pomodoro {
            watch: self.watch.toggled(now),
            interval_ms: self.interval_ms,
            tomato_count: self.tomato_count,
            notification_shown: self.notification_shown,
        }
    }

    /// The timer after a reset: time, count and latch cleared; state and
    /// interval kept.
    pub open spec fn cleared(self) -> Pomodoro {
        Pomodoro {
            watch: self.watch.cleared(),
            interval_ms: self.interval_ms,
            tomato_count: 0,
            notification_shown: false,
        }
    }

    /// A timer at rest that counts a tomato every `interval_ms` milliseconds.
    pub fn new(interval_ms: u64) -> (timer: Pomodoro)
        requires
            interval_ms > 0,
        ensures
            timer == Pomodoro::initial(interval_ms),
            timer.wf(),
    {
        Pomodoro { watch: Stopwatch::new(), interval_ms, tomato_count: 0, notification_shown: false }
    }

    /// Starts an idle timer at reading `now`, or stops a ticking one. Time,
    /// count and latch are untouched.
    pub fn toggle(&mut self, now: u64)
        ensures
            *final(self) == old(self).toggled(now),
            final(self).wf() == old(self).wf(),
    {
        self.watch.toggle(now);
    }

    /// Whether both the accumulated time and the count still fit after a tick
    /// at reading `now`.
    pub fn fits(&self, now: u64) -> (fits: bool)
        requires
            self.wf(),
        ensures
            fits == self.can_tick(now),
    {
        if !self.watch.fits(now) {
            false
        } else if !self.watch.is_ticking() {
            true
        } else {
            let mut after: Stopwatch = self.watch;
            after.tick(now);
            after.millis() % self.interval_ms != 0 || self.tomato_count < u64::MAX
        }
    }

    /// One timer tick at reading `now`. The stopwatch advances as on its own;
    /// the count goes up by one exactly when the tick reaches a milestone, and
    /// the result asks for the notification exactly at the first milestone
    /// since the last reset.
    pub fn tick(&mut self, now: u64) -> (action: Action)
        requires
            old(self).wf(),
            old(self).can_tick(now),
        ensures
            *final(self) == old(self).ticked(now),
            action == old(self).action_at(now),
            final(self).wf(),
    {
        let was_ticking: bool = self.watch.is_ticking();
        self.watch.tick(now);
        if was_ticking && self.watch.millis() % self.interval_ms == 0 {
            self.tomato_count = self.tomato_count + 1;
            if self.notification_shown {
                Action::Quiet
            } else {
                self.notification_shown = true;
                Action::Notify
            }
        } else {
            Action::Quiet
        }
    }

    /// Zeroes the accumulated time, the count and the notification latch,
    /// whatever the state.
    pub fn reset(&mut self)
        ensures
            *final(self) == old(self).cleared(),
            final(self).wf() == old(self).wf(),
    {
        self.watch.reset();
        self.tomato_count = 0;
        self.notification_shown = false;
    }
}

/// A tick moves the count by at most one and never back, moves it only while
/// ticking, and never clears the latch.
pub proof fn count_steps_by_one(timer: Pomodoro, now: u64)
    requires
        timer.wf(),
        timer.can_tick(now),
    ensures
        timer.ticked(now).tomato_count == timer.tomato_count + if timer.reaches_milestone(now) { 1int } else { 0int },
        !timer.watch.running() ==> timer.ticked(now) == timer,
        timer.notification_shown ==> timer.ticked(now).notification_shown,
        timer.ticked(now).watch.duration >= timer.watch.duration,
{
}

/// No multiple is counted twice by ticks that move the clock on: when two
/// ticks in a row both count a tomato, the whole milliseconds either stood
/// still between them or advanced by at least one interval.
pub proof fn milestones_are_an_interval_apart(timer: Pomodoro, now: u64, later: u64)
    requires
        timer.wf(),
        timer.can_tick(now),
        timer.ticked(now).can_tick(later),
        timer.reaches_milestone(now),
        timer.ticked(now).reaches_milestone(later),
    ensures
        ({
            let first = timer.ticked(now).watch.whole_millis();
            let second = timer.ticked(now).ticked(later).watch.whole_millis();
            second == first || second >= first + timer.interval_ms
        }),
{
    let n = timer.interval_ms as int;
    let first = timer.ticked(now).watch.whole_millis() as int;
    let second = timer.ticked(now).ticked(later).watch.whole_millis() as int;
    assert(second >= first) by {
        lemma_div_is_ordered(
            timer.ticked(now).watch.duration as int,
            timer.ticked(now).ticked(later).watch.duration as int,
            NANOS_PER_MILLI as int,
        );
    }
    lemma_fundamental_div_mod(first, n);
    lemma_fundamental_div_mod(second, n);
    assert(second > first ==> second >= first + n) by (nonlinear_arith)
        requires
            n > 0,
            first == n * (first / n),
            second == n * (second / n),
    ;
}

/// The notification is one-shot: once the latch is set no tick asks for it,
/// and the tick that asks for it sets the latch.
pub proof fn notification_is_one_shot(timer: Pomodoro, now: u64, later: u64)
    requires
        timer.wf(),
    ensures
        timer.notification_shown ==> timer.action_at(now) == Action::Quiet,
        timer.action_at(now) == Action::Notify ==> timer.ticked(now).action_at(later) == Action::Quiet,
        timer.action_at(now) == Action::Notify ==> timer.reaches_milestone(now),
{
}

/// A reset clears time, count and latch in either state, so that the next
/// milestone asks for the notification again.
pub proof fn reset_rearms(timer: Pomodoro, now: u64)
    requires
        timer.wf(),
    ensures
        timer.cleared().watch.duration == 0,
        timer.cleared().tomato_count == 0,
        timer.cleared().watch.state == timer.watch.state,
        timer.cleared().wf(),
        timer.cleared().reaches_milestone(now) ==> timer.cleared().action_at(now) == Action::Notify,
{
}

} // verus!
