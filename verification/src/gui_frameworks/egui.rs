//! The immediate-mode front end: a small form and the stopwatch.
//!
//! The toolkit redraws the whole window on every frame and reports the user's
//! input while it draws. What a frame changes is decided here; drawing is left
//! to the caller.

use vstd::prelude::*;
use crate::stopwatch::Stopwatch;

verus! {

/// What the window keeps between frames.
#[derive(Debug)]
pub struct Tomatentimer {
    pub name: String,
    pub age: u32,
    pub watch: Stopwatch,
}

/// The user's input during one frame and the clock reading taken in it.
#[derive(Debug)]
pub struct Frame {
    /// The text of the name field after editing.
    pub name: String,
    /// The age as the slider left it.
    pub age: u32,
    /// Whether the increment button was clicked.
    pub increment: bool,
    /// Whether the start / stop button was clicked.
    pub toggle: bool,
    /// Monotonic clock reading, in nanoseconds.
    pub now: u64,
}

/// What one frame shows of the stopwatch.
#[derive(Clone, Copy, Debug, PartialEq, Eq, Structural)]
pub struct FrameView {
    /// Whether the start / stop button offers to stop, as drawn before a click
    /// on it takes effect.
    pub offers_stop: bool,
    /// The seconds counter; shown only while the stopwatch is ticking.
    pub seconds: Option<u64>,
}

/// What the window is opened with.
#[derive(Debug)]
pub struct Launch {
    pub title: String,
    /// Inner width of the window, in points.
    pub width: u32,
    /// Inner height of the window, in points.
    pub height: u32,
    /// The state the first frame starts from.
    pub app: Tomatentimer,
}

/// The stopwatch after a frame's start / stop button: toggled if it was clicked.
pub open spec fn after_button(watch: Stopwatch, clicked: bool, now: u64) -> Stopwatch {
    if clicked {
        watch.toggled(now)
    } else {
        watch
    }
}

/// The seconds counter a frame shows for a stopwatch.
pub open spec fn seconds_shown(watch: Stopwatch) -> Option<u64> {
    if watch.running() {
        Some(watch.whole_seconds())
    } else {
        None
    }
}

/// The caption of the start / stop button.
pub fn toggle_label(running: bool) -> (label: &'static str)
    ensures
        label@ == if running { "Stop"@ } else { "Start"@ },
{
    if running {
        "Stop"
    } else {
        "Start"
    }
}

impl Default for Tomatentimer {
    /// The form as first shown, with the stopwatch at rest.
    fn default() -> (app: Tomatentimer)
        ensures
            app.name@ == "Arthur"@,
            app.age == 42,
            app.watch == Stopwatch::initial(),
    {
        Tomatentimer { name: "Arthur".to_owned(), age: 42, watch: Stopwatch::new() }
    }
}

impl Tomatentimer {
    /// Whether a frame with this input can be taken: the age can still grow
    /// where the increment button was clicked, and the stopwatch can take the
    /// frame's tick.
    pub open spec fn accepts(self, frame: Frame) -> bool {
        &&& frame.increment ==> frame.age < u32::MAX
        &&& after_button(self.watch, frame.toggle, frame.now).can_tick(frame.now)
    }

    /// The form's part of a frame: the form takes over the edited name and the
    /// age as the slider left it, and a click on the increment button adds one
    /// year. The stopwatch is untouched.
    pub fn edit(&mut self, name: String, age: u32, increment: bool)
        requires
            increment ==> age < u32::MAX,
        ensures
            final(self).name@ == name@,
            final(self).age == age + if increment { 1int } else { 0int },
            final(self).watch == old(self).watch,
    {
        self.name = name;
        self.age = if increment {
            age + 1
        } else {
            age
        };
    }

    /// Whether the stopwatch can take a frame's tick at reading `now`, after a
    /// click on start / stop if there was one.
    pub fn can_clock(&self, toggle: bool, now: u64) -> (fits: bool)
        ensures
            fits == after_button(self.watch, toggle, now).can_tick(now),
    {
        toggle || self.watch.fits(now)
    }

    /// The stopwatch's part of a frame: a click on start / stop toggles it, and
    /// if it is then ticking it counts the time up to `now`. Returns the
    /// seconds counter to show, if any. The form is untouched.
    pub fn clock(&mut self, toggle: bool, now: u64) -> (seconds: Option<u64>)
        requires
            after_button(old(self).watch, toggle, now).can_tick(now),
        ensures
            final(self).watch == after_button(old(self).watch, toggle, now).ticked(now),
            final(self).watch.duration >= old(self).watch.duration,
            seconds == seconds_shown(final(self).watch),
            final(self).name == old(self).name,
            final(self).age == old(self).age,
    {
        if toggle {
            self.watch.toggle(now);
        }
        self.watch.tick(now);
        if self.watch.is_ticking() {
            Some(self.watch.seconds())
        } else {
            None
        }
    }

    /// One whole frame: the form's part, then the stopwatch's. The view tells
    /// what the start / stop button offered when it was drawn, before a click
    /// on it took effect, and the seconds counter to show.
    pub fn update(&mut self, frame: Frame) -> (view: FrameView)
        requires
            old(self).accepts(frame),
        ensures
            final(self).name@ == frame.name@,
            final(self).age == frame.age + if frame.increment { 1int } else { 0int },
            final(self).watch == after_button(old(self).watch, frame.toggle, frame.now).ticked(frame.now),
            final(self).watch.duration >= old(self).watch.duration,
            view.offers_stop == old(self).watch.running(),
            view.seconds == seconds_shown(final(self).watch),
    {
        self.edit(frame.name, frame.age, frame.increment);
        let offers_stop: bool = self.watch.is_ticking();
        let seconds: Option<u64> = self.clock(frame.toggle, frame.now);
        FrameView { offers_stop, seconds }
    }
}

/// The window to open: its title, its inner size and the state of the first frame.
pub fn run() -> (launch: Launch)
    ensures
        launch.title@ == "Tomatentimer"@,
        launch.width == 320,
        launch.height == 240,
        launch.app.name@ == "Arthur"@,
        launch.app.age == 42,
        launch.app.watch == Stopwatch::initial(),
{
    Launch { title: "Tomatentimer".to_owned(), width: 320, height: 240, app: Tomatentimer::default() }
}

/// A frame never takes time off the stopwatch, and a click on start / stop
/// starts or stops it without moving the time.
pub proof fn frame_keeps_time(watch: Stopwatch, clicked: bool, now: u64)
    requires
        after_button(watch, clicked, now).can_tick(now),
    ensures
        after_button(watch, clicked, now).ticked(now).duration >= watch.duration,
        clicked ==> after_button(watch, clicked, now).ticked(now).duration == watch.duration,
        clicked ==> after_button(watch, clicked, now).ticked(now).running() == !watch.running(),
{
}

/// A click on start / stop always leaves a stopwatch that can take the
/// frame's tick, however much time it holds.
pub proof fn click_always_fits(watch: Stopwatch, now: u64)
    ensures
        after_button(watch, true, now).can_tick(now),
{
}

} // verus!
