//! The orchestrator's cycle as a state machine: from the phase it is in and
//! what the last step produced, what it does next and in what order. The
//! caller performs each action; the last action of every step produces the
//! next event (or never returns: the agent restarts itself).
use vstd::prelude::*;
use crate::agent::app::Outcome;
use crate::agent::commands::PendingAction;

verus! {

/// Where the cycle stands.
#[derive(Debug, Clone, Copy, PartialEq, Eq, Structural)]
pub enum RunPhase {
    /// Nothing done yet.
    Starting,
    /// The configuration is being read from NOC Manager.
    Fetching,
    /// The target page is being tested.
    Checking,
    /// Firefox is being started.
    Launching,
    /// The page is loading in Firefox.
    Loading,
    /// The page is shown and supervised.
    Running,
}

/// What the last action produced.
pub enum RunEvent {
    /// The agent has just started.
    Start,
    /// A usable, enabled configuration was read.
    Proceed,
    /// A wait was decided (its state and delay are the caller's).
    Wait,
    /// The target page answers.
    TargetReachable,
    /// Firefox and its WebDriver session are up.
    BrowserLaunched,
    /// The page is ready.
    PageReady,
    /// A remote command arrived while the page was loading.
    LoadInterrupted(PendingAction),
    /// The page did not become ready (time-out or lost session); a wait was
    /// decided.
    PageFailed,
    /// Supervision of the shown page ended.
    SupervisionEnded(Outcome),
}

/// One thing for the caller to do.
#[derive(Debug, Clone, Copy, PartialEq, Eq, Structural)]
pub enum RunAction {
    /// Bring the status screen to the front.
    ShowStatus,
    /// Hide the status screen, so that Firefox shows.
    HideStatus,
    /// Read the configuration (produces `Proceed` or `Wait`).
    FetchConfig,
    /// Test the target page (produces `TargetReachable` or `Wait`).
    CheckTarget,
    /// Start Firefox (produces `BrowserLaunched` or `Wait`).
    LaunchBrowser,
    /// Load the page (produces `PageReady`, `LoadInterrupted` or
    /// `PageFailed`).
    LoadPage,
    /// Show the state `Running` with the kiosk's URL.
    ShowRunning,
    /// Supervise the shown page (produces `SupervisionEnded`).
    Supervise,
    /// Show the state of the decided wait.
    ShowWait,
    /// Count the decided wait down.
    CountDown,
    /// Show that a remote browser restart is under way.
    ShowRemoteRestart,
    /// Show why the display ended.
    ShowOutcome,
    /// Mark a remote browser restart as under way.
    BeginBrowserRestart,
    /// Mark the browser restart as finished.
    EndBrowserRestart,
    /// Stop Firefox and its driver.
    ShutdownBrowser,
    /// Pause before the next cycle.
    Rest,
    /// Restart the agent's own process (never returns).
    RestartSelf,
}

/// A new cycle: the status screen in front, then the configuration.
pub open spec fn new_cycle() -> Seq<RunAction> {
    seq![RunAction::ShowStatus, RunAction::FetchConfig]
}

/// What ending the display does, once the status screen is in front.
pub open spec fn after_display(o: Outcome) -> Seq<RunAction> {
    match o {
        Outcome::Remote(PendingAction::RestartAgent) => seq![
            RunAction::ShowStatus,
            RunAction::ShutdownBrowser,
            RunAction::RestartSelf,
        ],
        Outcome::Remote(PendingAction::RestartBrowser) => seq![
            RunAction::ShowStatus,
            RunAction::BeginBrowserRestart,
            RunAction::ShowOutcome,
            RunAction::ShutdownBrowser,
            RunAction::Rest,
        ] + new_cycle(),
        _ => seq![
            RunAction::ShowStatus,
            RunAction::ShowOutcome,
            RunAction::ShutdownBrowser,
            RunAction::Rest,
        ] + new_cycle(),
    }
}

/// The step from `phase` on `event`: the next phase and the actions, in
/// order. An event that cannot occur in a phase changes nothing.
pub open spec fn run_step_spec(phase: RunPhase, event: RunEvent) -> (RunPhase, Seq<RunAction>) {
    match (phase, event) {
        (RunPhase::Starting, RunEvent::Start) => (RunPhase::Fetching, new_cycle()),
        (RunPhase::Fetching, RunEvent::Proceed) => (RunPhase::Checking, seq![RunAction::CheckTarget]),
        (RunPhase::Fetching, RunEvent::Wait)
        | (RunPhase::Checking, RunEvent::Wait)
        | (RunPhase::Launching, RunEvent::Wait) => (
            RunPhase::Fetching,
            seq![RunAction::ShowWait, RunAction::CountDown] + new_cycle(),
        ),
        (RunPhase::Checking, RunEvent::TargetReachable) => (
            RunPhase::Launching,
            seq![RunAction::LaunchBrowser],
        ),
        (RunPhase::Launching, RunEvent::BrowserLaunched) => (
            RunPhase::Loading,
            seq![RunAction::LoadPage],
        ),
        (RunPhase::Loading, RunEvent::PageReady) => (
            RunPhase::Running,
            seq![
                RunAction::EndBrowserRestart,
                RunAction::ShowRunning,
                RunAction::HideStatus,
                RunAction::Supervise,
            ],
        ),
        (RunPhase::Loading, RunEvent::LoadInterrupted(PendingAction::RestartAgent)) => (
            RunPhase::Loading,
            seq![RunAction::ShutdownBrowser, RunAction::RestartSelf],
        ),
        (RunPhase::Loading, RunEvent::LoadInterrupted(PendingAction::RestartBrowser)) => (
            RunPhase::Fetching,
            seq![
                RunAction::BeginBrowserRestart,
                RunAction::ShowStatus,
                RunAction::ShowRemoteRestart,
                RunAction::ShutdownBrowser,
                RunAction::Rest,
            ] + new_cycle(),
        ),
        (RunPhase::Loading, RunEvent::PageFailed) => (
            RunPhase::Fetching,
            seq![RunAction::ShowWait, RunAction::ShutdownBrowser, RunAction::CountDown]
                + new_cycle(),
        ),
        (RunPhase::Running, RunEvent::SupervisionEnded(o)) => (
            if o == Outcome::Remote(PendingAction::RestartAgent) {
                RunPhase::Running
            } else {
                RunPhase::Fetching
            },
            after_display(o),
        ),
        _ => (phase, Seq::empty()),
    }
}

fn push_new_cycle(v: &mut Vec<RunAction>)
    ensures
        final(v)@ == old(v)@ + new_cycle(),
{
    v.push(RunAction::ShowStatus);
    v.push(RunAction::FetchConfig);
}

/// The next step of the cycle; see [`run_step_spec`].
pub fn run_step(phase: RunPhase, event: &RunEvent) -> (r: (RunPhase, Vec<RunAction>))
    ensures
        r.0 == run_step_spec(phase, *event).0,
        r.1@ == run_step_spec(phase, *event).1,
{
    let mut v: Vec<RunAction> = Vec::new();
    match (phase, event) {
        (RunPhase::Starting, RunEvent::Start) => {
            push_new_cycle(&mut v);
            (RunPhase::Fetching, v)
        },
        (RunPhase::Fetching, RunEvent::Proceed) => {
            v.push(RunAction::CheckTarget);
            (RunPhase::Checking, v)
        },
        (RunPhase::Fetching, RunEvent::Wait)
        | (RunPhase::Checking, RunEvent::Wait)
        | (RunPhase::Launching, RunEvent::Wait) => {
            v.push(RunAction::ShowWait);
            v.push(RunAction::CountDown);
            push_new_cycle(&mut v);
            (RunPhase::Fetching, v)
        },
        (RunPhase::Checking, RunEvent::TargetReachable) => {
            v.push(RunAction::LaunchBrowser);
            (RunPhase::Launching, v)
        },
        (RunPhase::Launching, RunEvent::BrowserLaunched) => {
            v.push(RunAction::LoadPage);
            (RunPhase::Loading, v)
        },
        (RunPhase::Loading, RunEvent::PageReady) => {
            v.push(RunAction::EndBrowserRestart);
            v.push(RunAction::ShowRunning);
            v.push(RunAction::HideStatus);
            v.push(RunAction::Supervise);
            (RunPhase::Running, v)
        },
        (RunPhase::Loading, RunEvent::LoadInterrupted(PendingAction::RestartAgent)) => {
            v.push(RunAction::ShutdownBrowser);
            v.push(RunAction::RestartSelf);
            (RunPhase::Loading, v)
        },
        (RunPhase::Loading, RunEvent::LoadInterrupted(PendingAction::RestartBrowser)) => {
            v.push(RunAction::BeginBrowserRestart);
            v.push(RunAction::ShowStatus);
            v.push(RunAction::ShowRemoteRestart);
            v.push(RunAction::ShutdownBrowser);
            v.push(RunAction::Rest);
            push_new_cycle(&mut v);
            (RunPhase::Fetching, v)
        },
        (RunPhase::Loading, RunEvent::PageFailed) => {
            v.push(RunAction::ShowWait);
            v.push(RunAction::ShutdownBrowser);
            v.push(RunAction::CountDown);
            push_new_cycle(&mut v);
            (RunPhase::Fetching, v)
        },
        (RunPhase::Running, RunEvent::SupervisionEnded(o)) => {
            v.push(RunAction::ShowStatus);
            match o {
                Outcome::Remote(PendingAction::RestartAgent) => {
                    v.push(RunAction::ShutdownBrowser);
                    v.push(RunAction::RestartSelf);
                    (RunPhase::Running, v)
                },
                Outcome::Remote(PendingAction::RestartBrowser) => {
                    v.push(RunAction::BeginBrowserRestart);
                    v.push(RunAction::ShowOutcome);
                    v.push(RunAction::ShutdownBrowser);
                    v.push(RunAction::Rest);
                    push_new_cycle(&mut v);
                    (RunPhase::Fetching, v)
                },
                _ => {
                    v.push(RunAction::ShowOutcome);
                    v.push(RunAction::ShutdownBrowser);
                    v.push(RunAction::Rest);
                    push_new_cycle(&mut v);
                    (RunPhase::Fetching, v)
                },
            }
        },
        _ => (phase, v),
    }
}

// ------------------------------------------------------------------- laws

/// `true` when `a` occurs in `s`.
pub open spec fn has_action(s: Seq<RunAction>, a: RunAction) -> bool {
    exists|i: int| 0 <= i < s.len() && s[i] == a
}

/// The status screen is hidden only once the page is ready, right after the
/// state `Running` and the URL are shown, and supervision follows.
pub proof fn law_status_hidden_only_when_page_ready(phase: RunPhase, event: RunEvent)
    ensures
        has_action(run_step_spec(phase, event).1, RunAction::HideStatus) ==> phase
            == RunPhase::Loading && event is PageReady,
        has_action(run_step_spec(phase, event).1, RunAction::HideStatus) ==> run_step_spec(
            phase,
            event,
        ).1 == seq![
            RunAction::EndBrowserRestart,
            RunAction::ShowRunning,
            RunAction::HideStatus,
            RunAction::Supervise,
        ],
{
    let s = run_step_spec(phase, event).1;
    if has_action(s, RunAction::HideStatus) {
        let i = choose|i: int| 0 <= i < s.len() && s[i] == RunAction::HideStatus;
        lemma_hide_position(phase, event, i);
    }
}

proof fn lemma_hide_position(phase: RunPhase, event: RunEvent, i: int)
    requires
        0 <= i < run_step_spec(phase, event).1.len(),
        run_step_spec(phase, event).1[i] == RunAction::HideStatus,
    ensures
        phase == RunPhase::Loading && event is PageReady,
{
    let s = run_step_spec(phase, event).1;
    match (phase, event) {
        (RunPhase::Loading, RunEvent::PageReady) => {},
        (RunPhase::Running, RunEvent::SupervisionEnded(o)) => {
            assert(s == after_display(o));
            match o {
                Outcome::Remote(PendingAction::RestartAgent) => {},
                _ => {
                    assert(s[i] != RunAction::HideStatus);
                },
            }
        },
        _ => {},
    }
}

/// When supervision ends, the status screen comes to the front first, and
/// the browser is shut down.
pub proof fn law_status_shown_before_shutdown(o: Outcome)
    ensures
        run_step_spec(RunPhase::Running, RunEvent::SupervisionEnded(o)).1[0]
            == RunAction::ShowStatus,
        has_action(
            run_step_spec(RunPhase::Running, RunEvent::SupervisionEnded(o)).1,
            RunAction::ShutdownBrowser,
        ),
{
    let s = run_step_spec(RunPhase::Running, RunEvent::SupervisionEnded(o)).1;
    match o {
        Outcome::Remote(PendingAction::RestartAgent) => {
            assert(s[1] == RunAction::ShutdownBrowser);
        },
        Outcome::Remote(PendingAction::RestartBrowser) => {
            assert(s[3] == RunAction::ShutdownBrowser);
        },
        _ => {
            assert(s[2] == RunAction::ShutdownBrowser);
        },
    }
}

/// The agent restarts itself only on a remote `restart_agent`, received
/// while the page loads or while it is shown, and only after the browser
/// was shut down.
pub proof fn law_restart_self_only_on_remote_restart_agent(phase: RunPhase, event: RunEvent)
    ensures
        has_action(run_step_spec(phase, event).1, RunAction::RestartSelf) <==> (phase
            == RunPhase::Loading && event == RunEvent::LoadInterrupted(PendingAction::RestartAgent))
            || (phase == RunPhase::Running && event == RunEvent::SupervisionEnded(
            Outcome::Remote(PendingAction::RestartAgent),
        )),
        has_action(run_step_spec(phase, event).1, RunAction::RestartSelf) ==> ({
            let s = run_step_spec(phase, event).1;
            s.len() >= 2 && s[s.len() - 1] == RunAction::RestartSelf && s[s.len() - 2]
                == RunAction::ShutdownBrowser
        }),
{
    let s = run_step_spec(phase, event).1;
    if has_action(s, RunAction::RestartSelf) {
        let i = choose|i: int| 0 <= i < s.len() && s[i] == RunAction::RestartSelf;
        lemma_restart_position(phase, event, i);
    }
    match (phase, event) {
        (RunPhase::Loading, RunEvent::LoadInterrupted(PendingAction::RestartAgent)) => {
            assert(s[1] == RunAction::RestartSelf);
        },
        (RunPhase::Running, RunEvent::SupervisionEnded(o)) => {
            if o == Outcome::Remote(PendingAction::RestartAgent) {
                assert(s[2] == RunAction::RestartSelf);
            }
        },
        _ => {},
    }
}

proof fn lemma_restart_position(phase: RunPhase, event: RunEvent, i: int)
    requires
        0 <= i < run_step_spec(phase, event).1.len(),
        run_step_spec(phase, event).1[i] == RunAction::RestartSelf,
    ensures
        (phase == RunPhase::Loading && event == RunEvent::LoadInterrupted(
            PendingAction::RestartAgent,
        )) || (phase == RunPhase::Running && event == RunEvent::SupervisionEnded(
            Outcome::Remote(PendingAction::RestartAgent),
        )),
{
    let s = run_step_spec(phase, event).1;
    match (phase, event) {
        (RunPhase::Loading, RunEvent::LoadInterrupted(PendingAction::RestartBrowser)) => {
            assert(s[i] != RunAction::RestartSelf);
        },
        (RunPhase::Loading, RunEvent::PageFailed) => {
            assert(s[i] != RunAction::RestartSelf);
        },
        (RunPhase::Running, RunEvent::SupervisionEnded(o)) => {
            match o {
                Outcome::Remote(PendingAction::RestartAgent) => {},
                _ => {
                    assert(s[i] != RunAction::RestartSelf);
                },
            }
        },
        (RunPhase::Fetching, RunEvent::Wait)
        | (RunPhase::Checking, RunEvent::Wait)
        | (RunPhase::Launching, RunEvent::Wait) => {
            assert(s[i] != RunAction::RestartSelf);
        },
        _ => {},
    }
}

/// A scheduled restart or a configuration change restarts only Firefox:
/// the browser is shut down, the agent keeps running and a new cycle
/// starts.
pub proof fn law_cron_and_config_restart_only_firefox(o: Outcome)
    requires
        o is CronRestart || o is ConfigChanged,
    ensures
        run_step_spec(RunPhase::Running, RunEvent::SupervisionEnded(o)).0 == RunPhase::Fetching,
        run_step_spec(RunPhase::Running, RunEvent::SupervisionEnded(o)).1 == seq![
            RunAction::ShowStatus,
            RunAction::ShowOutcome,
            RunAction::ShutdownBrowser,
            RunAction::Rest,
            RunAction::ShowStatus,
            RunAction::FetchConfig,
        ],
        !has_action(
            run_step_spec(RunPhase::Running, RunEvent::SupervisionEnded(o)).1,
            RunAction::RestartSelf,
        ),
{
    let s = run_step_spec(RunPhase::Running, RunEvent::SupervisionEnded(o)).1;
    assert(s =~= seq![
        RunAction::ShowStatus,
        RunAction::ShowOutcome,
        RunAction::ShutdownBrowser,
        RunAction::Rest,
        RunAction::ShowStatus,
        RunAction::FetchConfig,
    ]);
    if has_action(s, RunAction::RestartSelf) {
        let i = choose|i: int| 0 <= i < s.len() && s[i] == RunAction::RestartSelf;
        assert(s[i] != RunAction::RestartSelf);
    }
}

} // verus!
