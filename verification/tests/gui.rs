use tomatentimer::gui_frameworks::egui::{run, toggle_label, Frame, FrameView, Tomatentimer};
use tomatentimer::gui_frameworks::slint::{run as run_slint, MainWindow};
use tomatentimer::stopwatch::{State, Stopwatch, NANOS_PER_SEC};

fn frame(name: &str, age: u32, increment: bool, toggle: bool, now: u64) -> Frame {
    Frame { name: name.to_string(), age, increment, toggle, now }
}

#[test]
fn default_form_is_arthur_at_rest() {
    let app = Tomatentimer::default();
    assert_eq!(app.name, "Arthur");
    assert_eq!(app.age, 42);
    assert_eq!(app.watch, Stopwatch { duration: 0, state: State::Idle });
}

#[test]
fn egui_window_is_titled_and_sized() {
    let launch = run();
    assert_eq!(launch.title, "Tomatentimer");
    assert_eq!(launch.width, 320);
    assert_eq!(launch.height, 240);
    assert_eq!(launch.app.name, "Arthur");
    assert_eq!(launch.app.age, 42);
    assert_eq!(launch.app.watch, Stopwatch::new());
}

#[test]
fn slint_window_starts_at_rest() {
    let window = run_slint();
    assert_eq!(window, MainWindow { watch: Stopwatch { duration: 0, state: State::Idle } });
    let shown = window.shown();
    assert_eq!(shown.caption, "Start");
    assert_eq!(shown.seconds, None);
}

#[test]
fn slint_button_starts_and_stops_the_stopwatch() {
    let mut window = run_slint();
    window.toggle(4 * NANOS_PER_SEC);
    assert_eq!(window.watch, Stopwatch { duration: 0, state: State::Ticking { last_tick: 4 * NANOS_PER_SEC } });
    assert_eq!(window.shown().caption, "Stop");
    assert_eq!(window.shown().seconds, Some(0));
    window.tick(5 * NANOS_PER_SEC + 900_000_000);
    assert_eq!(window.watch.duration, 1_900_000_000);
    assert_eq!(window.shown().seconds, Some(1));
    window.toggle(9 * NANOS_PER_SEC);
    assert_eq!(window.watch, Stopwatch { duration: 1_900_000_000, state: State::Idle });
    assert_eq!(window.shown().caption, "Start");
    assert_eq!(window.shown().seconds, None);
}

#[test]
fn slint_timer_counts_only_while_ticking() {
    let mut window = run_slint();
    window.tick(10_000_000);
    window.tick(20_000_000);
    assert_eq!(window, run_slint());
    window.toggle(20_000_000);
    window.tick(30_000_000);
    window.tick(40_000_000);
    assert_eq!(window.watch.duration, 20_000_000);
    assert_eq!(window.watch.state, State::Ticking { last_tick: 40_000_000 });
}

#[test]
fn button_caption_follows_the_state() {
    assert_eq!(toggle_label(false), "Start");
    assert_eq!(toggle_label(true), "Stop");
}

#[test]
fn quiet_frame_keeps_the_form() {
    let mut app = Tomatentimer::default();
    let view = app.update(frame("Arthur", 42, false, false, 1_000));
    assert_eq!(view, FrameView { offers_stop: false, seconds: None });
    assert_eq!(app.name, "Arthur");
    assert_eq!(app.age, 42);
    assert_eq!(app.watch, Stopwatch::new());
}

#[test]
fn frame_takes_over_name_and_age() {
    let mut app = Tomatentimer::default();
    app.update(frame("Ford", 120, false, false, 0));
    assert_eq!(app.name, "Ford");
    assert_eq!(app.age, 120);
}

#[test]
fn increment_adds_one_year_to_the_slider_value() {
    let mut app = Tomatentimer::default();
    app.update(frame("Arthur", 42, true, false, 0));
    assert_eq!(app.age, 43);
    app.update(frame("Arthur", 120, true, false, 0));
    assert_eq!(app.age, 121);
    app.update(frame("Arthur", u32::MAX - 1, true, false, 0));
    assert_eq!(app.age, u32::MAX);
}

#[test]
fn start_click_counts_no_idle_time() {
    let mut app = Tomatentimer::default();
    let view = app.update(frame("Arthur", 42, false, true, 7 * NANOS_PER_SEC));
    assert_eq!(view, FrameView { offers_stop: false, seconds: Some(0) });
    assert_eq!(app.watch, Stopwatch { duration: 0, state: State::Ticking { last_tick: 7 * NANOS_PER_SEC } });
}

#[test]
fn running_frames_show_whole_seconds() {
    let mut app = Tomatentimer::default();
    app.update(frame("Arthur", 42, false, true, 1_000));
    let view = app.update(frame("Arthur", 42, false, false, 1_000 + 2 * NANOS_PER_SEC + 5));
    assert_eq!(view, FrameView { offers_stop: true, seconds: Some(2) });
    assert_eq!(app.watch.duration, 2 * NANOS_PER_SEC + 5);
    let view = app.update(frame("Arthur", 42, false, false, 1_000 + 3 * NANOS_PER_SEC));
    assert_eq!(view, FrameView { offers_stop: true, seconds: Some(3) });
}

#[test]
fn stop_click_freezes_and_hides_the_counter() {
    let mut app = Tomatentimer::default();
    app.update(frame("Arthur", 42, false, true, 0));
    app.update(frame("Arthur", 42, false, false, NANOS_PER_SEC));
    let view = app.update(frame("Arthur", 42, false, true, 5 * NANOS_PER_SEC));
    assert_eq!(view, FrameView { offers_stop: true, seconds: None });
    assert_eq!(app.watch, Stopwatch { duration: NANOS_PER_SEC, state: State::Idle });
    let view = app.update(frame("Arthur", 42, false, false, 9 * NANOS_PER_SEC));
    assert_eq!(view, FrameView { offers_stop: false, seconds: None });
    assert_eq!(app.watch.duration, NANOS_PER_SEC);
}

#[test]
fn edit_leaves_the_stopwatch_alone() {
    let mut app = Tomatentimer::default();
    app.clock(true, 100);
    app.edit("Zaphod".to_string(), 0, false);
    assert_eq!(app.name, "Zaphod");
    assert_eq!(app.age, 0);
    assert_eq!(app.watch, Stopwatch { duration: 0, state: State::Ticking { last_tick: 100 } });
    app.edit("Zaphod".to_string(), 0, true);
    assert_eq!(app.age, 1);
}

#[test]
fn clock_leaves_the_form_alone() {
    let mut app = Tomatentimer::default();
    assert_eq!(app.clock(false, 10), None);
    assert_eq!(app.clock(true, 20), Some(0));
    assert_eq!(app.clock(false, 20 + 61 * NANOS_PER_SEC), Some(61));
    assert_eq!(app.clock(true, 20 + 70 * NANOS_PER_SEC), None);
    assert_eq!(app.name, "Arthur");
    assert_eq!(app.age, 42);
    assert_eq!(app.watch, Stopwatch { duration: 61 * NANOS_PER_SEC, state: State::Idle });
}

#[test]
fn can_clock_tells_when_a_frame_would_overflow() {
    let mut app = Tomatentimer::default();
    app.watch = Stopwatch { duration: u64::MAX, state: State::Ticking { last_tick: 5 } };
    assert!(app.can_clock(false, 5));
    assert!(!app.can_clock(false, 6));
    assert!(app.can_clock(true, 6));
    app.watch = Stopwatch { duration: u64::MAX, state: State::Idle };
    assert!(app.can_clock(false, 6));
    assert!(app.can_clock(true, 6));
}
