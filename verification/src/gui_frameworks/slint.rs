//! The declarative front end: a window that shows the stopwatch and one
//! button to start and stop it.
//!
//! The toolkit calls back when the button is clicked and when its timer
//! fires. What each callback changes is decided here; the markup and the
//! event loop are left to the caller.

use vstd::prelude::*;
use crate::gui_frameworks::egui::{seconds_shown, toggle_label};
use crate::stopwatch::Stopwatch;

verus! {

/// What the window keeps between callbacks.
#[derive(Clone, Copy, Debug, PartialEq, Eq, Structural)]
pub struct MainWindow {
    pub watch: Stopwatch,
}

/// What the window shows of its stopwatch.
#[derive(Clone, Copy, Debug)]
pub struct Shown {
    /// The caption of the start / stop button.
    pub caption: &'static str,
    /// The seconds counter; shown only while the stopwatch is ticking.
    pub seconds: Option<u64>,
}

impl MainWindow {
    /// A click on the start / stop button at reading `now`: an idle stopwatch
    /// starts counting from `now`, a ticking one freezes.
    pub fn toggle(&mut self, now: u64)
        ensures
            final(self).watch == old(self).watch.toggled(now),
    {
        self.watch.toggle(now);
    }

    /// The timer firing at reading `now`: a ticking stopwatch counts the time
    /// since its last tick, an idle one is unchanged.
    pub fn tick(&mut self, now: u64)
        requires
            old(self).watch.can_tick(now),
        ensures
            final(self).watch == old(self).watch.ticked(now),
            final(self).watch.duration >= old(self).watch.duration,
    {
        self.watch.tick(now);
    }

    /// What the window shows: the button offers to stop exactly while the
    /// stopwatch is ticking, and the seconds counter is there exactly then.
    pub fn shown(&self) -> (shown: Shown)
        ensures
            shown.caption@ == if self.watch.running() { "Stop"@ } else { "Start"@ },
            shown.seconds == seconds_shown(self.watch),
    {
        let ticking: bool = self.watch.is_ticking();
        let seconds: Option<u64> = if ticking {
            Some(self.watch.seconds())
        } else {
            None
        };
        Shown { caption: toggle_label(ticking), seconds }
    }
}

/// The window to open: its stopwatch at rest with nothing accumulated.
pub fn run() -> (window: MainWindow)
    ensures
        window.watch == Stopwatch::initial(),
{
    MainWindow { watch: Stopwatch::new() }
}

} // verus!
