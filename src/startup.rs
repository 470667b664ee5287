use vstd::prelude::*;

verus! {

/// What is known of a window at a given moment.
#[derive(Clone, Copy, Debug, PartialEq, Eq, Structural)]
pub enum WindowStatus {
    /// Not created, or not found.
    Absent,
    /// Exists and is not visible.
    Hidden,
    /// Exists and is visible.
    Visible,
    /// Was closed.
    Closed,
}

/// Where the startup sequence stands.
#[derive(Clone, Copy, Debug, PartialEq, Eq, Structural)]
pub enum Phase {
    /// Nothing has happened yet.
    Idle,
    /// The splash window has been requested.
    BuildingSplash,
    /// The main window is being looked up.
    FindingMain,
    /// The reveal task has been spawned; the startup hook is done.
    Scheduled,
    /// The reveal task waits out the delay.
    Delaying,
    /// The splash window is being closed.
    ClosingSplash,
    /// The main window is being shown.
    ShowingMain,
    /// The main window is visible; nothing is left to do.
    Done,
    /// Startup stopped on an error.
    Failed,
}

/// An outcome reported by the host after it performed an action.
#[derive(Clone, Copy, Debug, PartialEq, Eq, Structural)]
pub enum Event {
    /// The host's setup hook was entered.
    Begin,
    /// Building the splash window succeeded (`true`) or failed.
    SplashBuilt(bool),
    /// The main window was found (`true`) or is missing.
    MainFound(bool),
    /// The spawned reveal task started running.
    TaskStarted,
    /// The delay has elapsed.
    Slept,
    /// Closing the splash window succeeded (`true`) or failed.
    SplashClosed(bool),
    /// Showing the main window succeeded (`true`) or failed.
    MainShown(bool),
}

/// An unrecoverable condition; the host terminates the process on it.
#[derive(Clone, Copy, Debug, PartialEq, Eq, Structural)]
pub enum Fatal {
    /// The configuration declares no main window.
    MainMissing,
    /// The main window could not be shown.
    ShowFailed,
}

/// What the host is asked to do next.
#[derive(Clone, Copy, Debug, PartialEq, Eq, Structural)]
pub enum Action {
    /// Build the window that `splash_window` describes.
    BuildSplash,
    /// Look up the window labelled `MAIN_LABEL`.
    FindMain,
    /// Spawn the reveal task, then let the setup hook return success.
    SpawnReveal,
    /// Block for the given number of seconds.
    Sleep(u64),
    /// Close the splash window.
    CloseSplash,
    /// Make the main window visible.
    ShowMain,
    /// Let the setup hook return the splash window's build error.
    AbortSetup,
    /// Terminate the process.
    Terminate(Fatal),
    /// Nothing to do.
    Nothing,
}

/// The startup sequence's state.
#[derive(Clone, Copy, Debug, PartialEq, Eq, Structural)]
pub struct Startup {
    pub phase: Phase,
    pub splash: WindowStatus,
    pub main: WindowStatus,
    /// Whether the reveal task has been spawned.
    pub reveal_scheduled: bool,
    /// Whether the full delay has elapsed.
    pub delay_elapsed: bool,
    /// Whether closing the splash window was attempted.
    pub splash_close_attempted: bool,
}

/// The state before the setup hook runs: the main window exists, hidden,
/// as the configuration declares it.
pub open spec fn initial() -> Startup {
    Startup {
        phase: Phase::Idle,
        splash: WindowStatus::Absent,
        main: WindowStatus::Hidden,
        reveal_scheduled: false,
        delay_elapsed: false,
        splash_close_attempted: false,
    }
}

/// The transition table: the next state and the action that follow an event.
/// An event that does not fit the current phase changes nothing.
pub open spec fn next(s: Startup, e: Event) -> (Startup, Action) {
    match (s.phase, e) {
        (Phase::Idle, Event::Begin) => (Startup { phase: Phase::BuildingSplash, ..s }, Action::BuildSplash),
        (Phase::BuildingSplash, Event::SplashBuilt(ok)) => if ok {
            (Startup { phase: Phase::FindingMain, splash: WindowStatus::Visible, ..s }, Action::FindMain)
        } else {
            (Startup { phase: Phase::Failed, ..s }, Action::AbortSetup)
        },
        (Phase::FindingMain, Event::MainFound(found)) => if found {
            (Startup { phase: Phase::Scheduled, reveal_scheduled: true, ..s }, Action::SpawnReveal)
        } else {
            (Startup { phase: Phase::Failed, main: WindowStatus::Absent, ..s }, Action::Terminate(Fatal::MainMissing))
        },
        (Phase::Scheduled, Event::TaskStarted) => (Startup { phase: Phase::Delaying, ..s }, Action::Sleep(REVEAL_DELAY_SECS)),
        (Phase::Delaying, Event::Slept) => (Startup { phase: Phase::ClosingSplash, delay_elapsed: true, ..s }, Action::CloseSplash),
        (Phase::ClosingSplash, Event::SplashClosed(ok)) => (Startup {
            phase: Phase::ShowingMain,
            splash: if ok { WindowStatus::Closed } else { s.splash },
            splash_close_attempted: true,
            ..s
        }, Action::ShowMain),
        (Phase::ShowingMain, Event::MainShown(ok)) => if ok {
            (Startup { phase: Phase::Done, main: WindowStatus::Visible, ..s }, Action::Nothing)
        } else {
            (Startup { phase: Phase::Failed, ..s }, Action::Terminate(Fatal::ShowFailed))
        },
        _ => (s, Action::Nothing),
    }
}

/// The state reached from `s` after the events of `evs`, in order.
pub open spec fn run(s: Startup, evs: Seq<Event>) -> Startup
    decreases evs.len(),
{
    if evs.len() == 0 {
        s
    } else {
        run(next(s, evs[0]).0, evs.drop_first())
    }
}


/// What holds of every state that the sequence can reach from `initial()`.
pub open spec fn consistent(s: Startup) -> bool {
    let settled = s.splash == WindowStatus::Visible || s.splash == WindowStatus::Closed;
    match s.phase {
        Phase::Idle | Phase::BuildingSplash => s == Startup { phase: s.phase, ..initial() },
        Phase::FindingMain => s == Startup { phase: s.phase, splash: WindowStatus::Visible, ..initial() },
        Phase::Scheduled | Phase::Delaying => s == Startup {
            phase: s.phase,
            splash: WindowStatus::Visible,
            reveal_scheduled: true,
            ..initial()
        },
        Phase::ClosingSplash => s == Startup {
            phase: s.phase,
            splash: WindowStatus::Visible,
            reveal_scheduled: true,
            delay_elapsed: true,
            ..initial()
        },
        Phase::ShowingMain => settled && s.main == WindowStatus::Hidden && s.reveal_scheduled
            && s.delay_elapsed && s.splash_close_attempted,
        Phase::Done => settled && s.main == WindowStatus::Visible && s.reveal_scheduled
            && s.delay_elapsed && s.splash_close_attempted,
        Phase::Failed => {
            // the splash window could not be built
            ||| s == Startup { phase: s.phase, ..initial() }
            // the main window is missing
            ||| s == Startup { phase: s.phase, splash: WindowStatus::Visible, main: WindowStatus::Absent, ..initial() }
            // the main window could not be shown
            ||| settled && s.main == WindowStatus::Hidden && s.reveal_scheduled && s.delay_elapsed
                && s.splash_close_attempted
        },
    }
}

/// Every transition keeps the state consistent.
pub proof fn lemma_next_consistent(s: Startup, e: Event)
    requires
        consistent(s),
    ensures
        consistent(next(s, e).0),
{
}

/// Every state reached from a consistent state is consistent.
pub proof fn lemma_run_consistent(s: Startup, evs: Seq<Event>)
    requires
        consistent(s),
    ensures
        consistent(run(s, evs)),
    decreases evs.len(),
{
    if evs.len() > 0 {
        lemma_next_consistent(s, evs[0]);
        lemma_run_consistent(next(s, evs[0]).0, evs.drop_first());
    }
}

/// Once the sequence is done or has failed, no event changes the state.
pub proof fn lemma_terminal_absorbs(s: Startup, evs: Seq<Event>)
    requires
        s.phase == Phase::Done || s.phase == Phase::Failed,
    ensures
        run(s, evs) == s,
    decreases evs.len(),
{
    if evs.len() > 0 {
        lemma_terminal_absorbs(next(s, evs[0]).0, evs.drop_first());
    }
}

/// When the setup hook has returned success, the splash window is visible,
/// the main window exists and is still hidden, and the reveal task is spawned.
pub proof fn lemma_setup_leaves_splash_up(evs: Seq<Event>)
    ensures
        run(initial(), evs).phase == Phase::Scheduled ==> {
            let s = run(initial(), evs);
            &&& s.splash == WindowStatus::Visible
            &&& s.main == WindowStatus::Hidden
            &&& s.reveal_scheduled
        },
{
    lemma_run_consistent(initial(), evs);
}

/// Once the sequence is done, the delay has elapsed, closing the splash window
/// was attempted, and the main window is visible.
pub proof fn lemma_done_means_revealed(evs: Seq<Event>)
    ensures
        run(initial(), evs).phase == Phase::Done ==> {
            let s = run(initial(), evs);
            &&& s.delay_elapsed
            &&& s.splash_close_attempted
            &&& s.splash != WindowStatus::Absent
            &&& s.main == WindowStatus::Visible
        },
{
    lemma_run_consistent(initial(), evs);
}

/// The main window is shown whether or not closing the splash window succeeded;
/// the splash window ends closed exactly when the close succeeded.
pub proof fn lemma_reveal_despite_close_failure(s: Startup, closed: bool)
    requires
        consistent(s),
        s.phase == Phase::ClosingSplash,
    ensures
        ({
            let (s1, a1) = next(s, Event::SplashClosed(closed));
            let (s2, a2) = next(s1, Event::MainShown(true));
            &&& a1 == Action::ShowMain
            &&& s2.phase == Phase::Done
            &&& s2.main == WindowStatus::Visible
            &&& (s2.splash == WindowStatus::Closed <==> closed)
        }),
{
}

/// A missing main window terminates the process before any reveal task is
/// spawned, and none is spawned afterwards.
pub proof fn lemma_missing_main_is_fatal(evs: Seq<Event>, later: Seq<Event>)
    ensures
        run(initial(), evs).main == WindowStatus::Absent ==> {
            let s = run(initial(), evs);
            &&& s.phase == Phase::Failed
            &&& run(s, later) == s
            &&& !s.reveal_scheduled
        },
{
    lemma_run_consistent(initial(), evs);
    let s = run(initial(), evs);
    if s.main == WindowStatus::Absent {
        lemma_terminal_absorbs(s, later);
    }
}

/// Looking up the main window and not finding it asks to terminate the process.
pub proof fn lemma_missing_main_terminates(s: Startup)
    requires
        consistent(s),
        s.phase == Phase::FindingMain,
    ensures
        next(s, Event::MainFound(false)).1 == Action::Terminate(Fatal::MainMissing),
        !next(s, Event::MainFound(false)).0.reveal_scheduled,
{
}

/// When the splash window cannot be built, setup is aborted, no reveal task is
/// ever spawned and the main window stays hidden.
pub proof fn lemma_splash_failure_aborts(evs: Seq<Event>, later: Seq<Event>)
    ensures
        ({
            let s = run(initial(), evs);
            s.phase == Phase::Failed && s.splash == WindowStatus::Absent ==> {
                &&& run(s, later) == s
                &&& !s.reveal_scheduled
                &&& s.main == WindowStatus::Hidden
            }
        }),
{
    lemma_run_consistent(initial(), evs);
    let s = run(initial(), evs);
    if s.phase == Phase::Failed {
        lemma_terminal_absorbs(s, later);
    }
}

/// A failed splash build answers with `AbortSetup` and leaves no reveal task.
pub proof fn lemma_splash_failure_step(s: Startup)
    requires
        consistent(s),
        s.phase == Phase::BuildingSplash,
    ensures
        next(s, Event::SplashBuilt(false)).1 == Action::AbortSetup,
        next(s, Event::SplashBuilt(false)).0.phase == Phase::Failed,
        !next(s, Event::SplashBuilt(false)).0.reveal_scheduled,
        next(s, Event::SplashBuilt(false)).0.main == WindowStatus::Hidden,
{
}

/// The sequence runs once: the splash window is only ever requested from the
/// idle state, and no transition leads back to it.
pub proof fn lemma_runs_once(s: Startup, e: Event)
    ensures
        next(s, e).1 == Action::BuildSplash ==> s.phase == Phase::Idle && next(s, e).0.phase != Phase::Idle,
        next(s, e).0.phase == Phase::Idle ==> s.phase == Phase::Idle,
{
}

/// The starting state is consistent.
pub proof fn lemma_initial_consistent()
    ensures
        consistent(initial()),
{
}

use crate::window::REVEAL_DELAY_SECS;

impl Startup {
    /// The state before the setup hook runs.
    pub fn new() -> (r: Startup)
        ensures
            r == initial(),
    {
        Startup {
            phase: Phase::Idle,
            splash: WindowStatus::Absent,
            main: WindowStatus::Hidden,
            reveal_scheduled: false,
            delay_elapsed: false,
            splash_close_attempted: false,
        }
    }

    /// Takes in an event and returns the action the host must perform next.
    pub fn step(&mut self, e: Event) -> (a: Action)
        ensures
            (*final(self), a) == next(*old(self), e),
    {
        let s = *self;
        match (s.phase, e) {
            (Phase::Idle, Event::Begin) => {
                self.phase = Phase::BuildingSplash;
                Action::BuildSplash
            },
            (Phase::BuildingSplash, Event::SplashBuilt(ok)) => {
                if ok {
                    self.phase = Phase::FindingMain;
                    self.splash = WindowStatus::Visible;
                    Action::FindMain
                } else {
                    self.phase = Phase::Failed;
                    Action::AbortSetup
                }
            },
            (Phase::FindingMain, Event::MainFound(found)) => {
                if found {
                    self.phase = Phase::Scheduled;
                    self.reveal_scheduled = true;
                    Action::SpawnReveal
                } else {
                    self.phase = Phase::Failed;
                    self.main = WindowStatus::Absent;
                    Action::Terminate(Fatal::MainMissing)
                }
            },
            (Phase::Scheduled, Event::TaskStarted) => {
                self.phase = Phase::Delaying;
                Action::Sleep(REVEAL_DELAY_SECS)
            },
            (Phase::Delaying, Event::Slept) => {
                self.phase = Phase::ClosingSplash;
                self.delay_elapsed = true;
                Action::CloseSplash
            },
            (Phase::ClosingSplash, Event::SplashClosed(ok)) => {
                self.phase = Phase::ShowingMain;
                if ok {
                    self.splash = WindowStatus::Closed;
                }
                self.splash_close_attempted = true;
                Action::ShowMain
            },
            (Phase::ShowingMain, Event::MainShown(ok)) => {
                if ok {
                    self.phase = Phase::Done;
                    self.main = WindowStatus::Visible;
                    Action::Nothing
                } else {
                    self.phase = Phase::Failed;
                    Action::Terminate(Fatal::ShowFailed)
                }
            },
            _ => Action::Nothing,
        }
    }
}

} // verus!
