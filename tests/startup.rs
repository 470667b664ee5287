use splash_startup::startup::{Action, Event, Fatal, Phase, Startup, WindowStatus};
use splash_startup::window::{splash_window, MAIN_LABEL, REVEAL_DELAY_SECS, SPLASH_LABEL};

fn drive(s: &mut Startup, evs: &[Event]) -> Vec<Action> {
    evs.iter().map(|e| s.step(*e)).collect()
}

#[test]
fn fresh_state_has_hidden_main_and_no_splash() {
    let s = Startup::new();
    assert_eq!(s.phase, Phase::Idle);
    assert_eq!(s.splash, WindowStatus::Absent);
    assert_eq!(s.main, WindowStatus::Hidden);
    assert!(!s.reveal_scheduled);
}

#[test]
fn splash_window_layout() {
    let w = splash_window();
    assert_eq!(w.label, "splashscreen");
    assert_eq!(w.label, SPLASH_LABEL);
    assert_eq!(w.url, "/splashscreen.html");
    assert_eq!(w.title, "Splash");
    assert!(!w.decorations);
    assert!(w.centered);
    assert!(w.focused);
    assert!(w.always_on_top);
    assert_eq!((w.width, w.height), (1200, 800));
    assert_eq!(MAIN_LABEL, "main");
    assert_eq!(REVEAL_DELAY_SECS, 2);
}

#[test]
fn setup_success_leaves_splash_visible_and_main_hidden() {
    let mut s = Startup::new();
    let acts = drive(&mut s, &[Event::Begin, Event::SplashBuilt(true), Event::MainFound(true)]);
    assert_eq!(acts, vec![Action::BuildSplash, Action::FindMain, Action::SpawnReveal]);
    assert_eq!(s.phase, Phase::Scheduled);
    assert_eq!(s.splash, WindowStatus::Visible);
    assert_eq!(s.main, WindowStatus::Hidden);
    assert!(s.reveal_scheduled);
}

#[test]
fn full_startup_reveals_main_and_closes_splash() {
    let mut s = Startup::new();
    let acts = drive(
        &mut s,
        &[
            Event::Begin,
            Event::SplashBuilt(true),
            Event::MainFound(true),
            Event::TaskStarted,
            Event::Slept,
            Event::SplashClosed(true),
            Event::MainShown(true),
        ],
    );
    assert_eq!(
        acts,
        vec![
            Action::BuildSplash,
            Action::FindMain,
            Action::SpawnReveal,
            Action::Sleep(2),
            Action::CloseSplash,
            Action::ShowMain,
            Action::Nothing,
        ]
    );
    assert_eq!(s.phase, Phase::Done);
    assert_eq!(s.main, WindowStatus::Visible);
    assert_eq!(s.splash, WindowStatus::Closed);
    assert!(s.delay_elapsed);
    assert!(s.splash_close_attempted);
}

#[test]
fn main_shown_even_when_splash_close_fails() {
    let mut s = Startup::new();
    drive(&mut s, &[Event::Begin, Event::SplashBuilt(true), Event::MainFound(true), Event::TaskStarted, Event::Slept]);
    assert_eq!(s.step(Event::SplashClosed(false)), Action::ShowMain);
    assert_eq!(s.splash, WindowStatus::Visible);
    assert!(s.splash_close_attempted);
    assert_eq!(s.step(Event::MainShown(true)), Action::Nothing);
    assert_eq!(s.phase, Phase::Done);
    assert_eq!(s.main, WindowStatus::Visible);
}

#[test]
fn missing_main_window_terminates_before_reveal() {
    let mut s = Startup::new();
    let acts = drive(&mut s, &[Event::Begin, Event::SplashBuilt(true), Event::MainFound(false)]);
    assert_eq!(acts[2], Action::Terminate(Fatal::MainMissing));
    assert_eq!(s.phase, Phase::Failed);
    assert_eq!(s.main, WindowStatus::Absent);
    assert!(!s.reveal_scheduled);
    assert_eq!(s.step(Event::TaskStarted), Action::Nothing);
    assert!(!s.reveal_scheduled);
}

#[test]
fn splash_build_failure_aborts_setup() {
    let mut s = Startup::new();
    let acts = drive(&mut s, &[Event::Begin, Event::SplashBuilt(false)]);
    assert_eq!(acts, vec![Action::BuildSplash, Action::AbortSetup]);
    assert_eq!(s.phase, Phase::Failed);
    assert_eq!(s.main, WindowStatus::Hidden);
    assert_eq!(s.splash, WindowStatus::Absent);
    assert!(!s.reveal_scheduled);
    assert_eq!(s.step(Event::MainFound(true)), Action::Nothing);
    assert!(!s.reveal_scheduled);
}

#[test]
fn show_failure_is_fatal() {
    let mut s = Startup::new();
    drive(
        &mut s,
        &[Event::Begin, Event::SplashBuilt(true), Event::MainFound(true), Event::TaskStarted, Event::Slept, Event::SplashClosed(true)],
    );
    assert_eq!(s.step(Event::MainShown(false)), Action::Terminate(Fatal::ShowFailed));
    assert_eq!(s.phase, Phase::Failed);
    assert_eq!(s.main, WindowStatus::Hidden);
}

#[test]
fn out_of_order_events_change_nothing() {
    let mut s = Startup::new();
    let before = s;
    assert_eq!(s.step(Event::Slept), Action::Nothing);
    assert_eq!(s.step(Event::MainShown(true)), Action::Nothing);
    assert_eq!(s, before);
    s.step(Event::Begin);
    assert_eq!(s.step(Event::MainFound(true)), Action::Nothing);
    assert_eq!(s.phase, Phase::BuildingSplash);
}

#[test]
fn sequence_runs_only_once() {
    let mut s = Startup::new();
    drive(
        &mut s,
        &[
            Event::Begin,
            Event::SplashBuilt(true),
            Event::MainFound(true),
            Event::TaskStarted,
            Event::Slept,
            Event::SplashClosed(true),
            Event::MainShown(true),
        ],
    );
    let done = s;
    assert_eq!(s.step(Event::Begin), Action::Nothing);
    assert_eq!(s.step(Event::SplashBuilt(true)), Action::Nothing);
    assert_eq!(s, done);
}
