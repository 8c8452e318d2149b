//! The decisions of the orchestrator, the complete state machine of the
//! kiosk. The caller performs the I/O (HTTP, WebDriver, sleeping) and hands
//! each result back; these functions say what comes next.
use vstd::prelude::*;
use crate::agent::commands::PendingAction;
use crate::agent::firefox::{LaunchError, PageError};
use crate::agent::manager::{ready_selector_spec, FetchOutcome, KioskConfig, TargetCheck};
use crate::agent::scheduler::{opt_str_or_empty, CronRestart};
use crate::agent::state::{loading_message, loading_message_spec, KioskState};
use crate::manager::models::opt_view;
use crate::text::{decimal, owned, str_eq, trim_seq, u64_to_string};

verus! {

/// Show `state` (with `secondary` in place of its default message), then
/// count down `seconds` before the next cycle.
pub struct Wait {
    pub state: KioskState,
    pub secondary: Option<String>,
    pub seconds: u64,
}

/// What to do with the answer to a configuration request.
pub enum ConfigStep {
    /// Wait, then fetch again.
    Wait(Wait),
    /// The kiosk is configured and enabled: go on with it.
    Proceed(Box<KioskConfig>),
}

/// The cron text of a configuration: empty when absent.
pub open spec fn cron_text(o: Option<Seq<char>>) -> Seq<char> {
    match o {
        Some(s) => s,
        None => Seq::empty(),
    }
}

fn as_str_opt(o: &Option<String>) -> (r: Option<&str>)
    ensures
        opt_str_or_empty(r) == cron_text(opt_view(*o)),
{
    match o {
        Some(s) => Some(s.as_str()),
        None => None,
    }
}

/// The configuration answer: an unavailable Manager or an unknown kiosk is
/// retried after `retry_seconds`; a disabled kiosk is read again after
/// `poll_seconds`. A configuration that was found first updates the restart
/// schedule (`true` when its expression changed).
pub fn after_fetch(
    outcome: FetchOutcome,
    cron: &mut CronRestart,
    retry_seconds: u64,
    poll_seconds: u64,
) -> (r: (ConfigStep, bool))
    ensures
        outcome matches FetchOutcome::Unavailable(reason) ==> (r.0 matches ConfigStep::Wait(w)
            && w.state == KioskState::ManagerUnavailable && opt_view(w.secondary) == Some(
            reason@,
        ) && w.seconds == retry_seconds) && !r.1 && final(cron)@ == old(cron)@,
        outcome is NotFound ==> (r.0 matches ConfigStep::Wait(w) && w.state
            == KioskState::ConfigNotFound && w.secondary is None && w.seconds == retry_seconds)
            && !r.1 && final(cron)@ == old(cron)@,
        outcome matches FetchOutcome::Found(k) ==> r.1 == (trim_seq(
            cron_text(opt_view(k.restart_cron)),
        ) != old(cron)@.expression) && (r.1 ==> final(cron)@.expression == trim_seq(
            cron_text(opt_view(k.restart_cron)),
        )) && (!r.1 ==> final(cron)@ == old(cron)@) && if k.enabled {
            r.0 matches ConfigStep::Proceed(p) && p.url@ == k.url@ && p.enabled
                && opt_view(p.ready_selector) == opt_view(k.ready_selector) && p.name@ == k.name@
                && p.username@ == k.username@ && opt_view(p.restart_cron) == opt_view(
                k.restart_cron,
            )
        } else {
            r.0 matches ConfigStep::Wait(w) && w.state == KioskState::Disabled
                && w.secondary is None && w.seconds == poll_seconds
        },
{
    match outcome {
        FetchOutcome::Unavailable(reason) => (
            ConfigStep::Wait(
                Wait {
                    state: KioskState::ManagerUnavailable,
                    secondary: Some(reason),
                    seconds: retry_seconds,
                },
            ),
            false,
        ),
        FetchOutcome::NotFound => (
            ConfigStep::Wait(
                Wait { state: KioskState::ConfigNotFound, secondary: None, seconds: retry_seconds },
            ),
            false,
        ),
        FetchOutcome::Found(kiosk) => {
            let changed = cron.update(as_str_opt(&kiosk.restart_cron));
            if !kiosk.enabled {
                (
                    ConfigStep::Wait(
                        Wait { state: KioskState::Disabled, secondary: None, seconds: poll_seconds },
                    ),
                    changed,
                )
            } else {
                (ConfigStep::Proceed(kiosk), changed)
            }
        },
    }
}

/// The target test: Firefox is never shown on an unusable answer; the
/// reason is shown and the cycle retried after `retry_seconds`.
pub fn after_target_check(check: TargetCheck, retry_seconds: u64) -> (r: Option<Wait>)
    ensures
        check is Reachable ==> r is None,
        check matches TargetCheck::Unusable(reason) ==> (r matches Some(w) && w.state
            == KioskState::TargetUnavailable && opt_view(w.secondary) == Some(reason@)
            && w.seconds == retry_seconds),
{
    match check {
        TargetCheck::Reachable(_) => None,
        TargetCheck::Unusable(reason) => Some(
            Wait {
                state: KioskState::TargetUnavailable,
                secondary: Some(reason),
                seconds: retry_seconds,
            },
        ),
    }
}

/// Firefox could not start: a missing component waits at least 10 seconds.
pub fn after_launch_error(error: LaunchError, retry_seconds: u64) -> (r: Wait)
    ensures
        error matches LaunchError::MissingComponent(reason) ==> r.state
            == KioskState::FirefoxComponentMissing && opt_view(r.secondary) == Some(reason@)
            && r.seconds == if retry_seconds < 10 {
            10
        } else {
            retry_seconds
        },
        error matches LaunchError::Other(reason) ==> r.state == KioskState::FirefoxCrashed
            && opt_view(r.secondary) == Some(reason@) && r.seconds == retry_seconds,
{
    match error {
        LaunchError::MissingComponent(reason) => Wait {
            state: KioskState::FirefoxComponentMissing,
            secondary: Some(reason),
            seconds: if retry_seconds < 10 {
                10
            } else {
                retry_seconds
            },
        },
        LaunchError::Other(reason) => Wait {
            state: KioskState::FirefoxCrashed,
            secondary: Some(reason),
            seconds: retry_seconds,
        },
    }
}

/// The page did not get ready: Firefox is stopped, then retried.
pub fn after_page_error(error: &PageError, retry_seconds: u64) -> (r: Wait)
    ensures
        error is Timeout ==> r.state == KioskState::PageTimeout,
        error is SessionLost ==> r.state == KioskState::FirefoxCrashed,
        r.secondary is None,
        r.seconds == retry_seconds,
{
    match error {
        PageError::Timeout => Wait { state: KioskState::PageTimeout, secondary: None, seconds: retry_seconds },
        PageError::SessionLost(_) => Wait {
            state: KioskState::FirefoxCrashed,
            secondary: None,
            seconds: retry_seconds,
        },
    }
}

/// The time a page gets to load: at least 5 seconds.
pub open spec fn load_timeout_spec(configured: u64) -> u64 {
    if configured < 5 {
        5
    } else {
        configured
    }
}

/// One probe while the page loads.
pub enum LoadingStep {
    /// The page did not get ready in time.
    TimedOut,
    /// Show `state` with `message`, and `detail` on the third line.
    Show { state: KioskState, message: &'static str, detail: String },
}

/// After `elapsed` seconds: the time is up, or the page is still loading,
/// slowly once `slow_after` seconds have passed; the detail reads
/// `"{elapsed} s / {timeout} s"`.
pub fn loading_step(elapsed: u64, load_timeout_seconds: u64, slow_after: u64) -> (r: LoadingStep)
    ensures
        elapsed >= load_timeout_spec(load_timeout_seconds) ==> r is TimedOut,
        elapsed < load_timeout_spec(load_timeout_seconds) ==> (r matches LoadingStep::Show {
            state,
            message,
            detail,
        } && state == (if elapsed >= slow_after {
            KioskState::LoadingSlow
        } else {
            KioskState::LoadingPage
        }) && message@ == loading_message_spec(elapsed) && detail@ == decimal(elapsed as nat)
            + " s / "@ + decimal(load_timeout_spec(load_timeout_seconds) as nat) + " s"@),
{
    let timeout = if load_timeout_seconds < 5 {
        5
    } else {
        load_timeout_seconds
    };
    if elapsed >= timeout {
        return LoadingStep::TimedOut;
    }
    let state = if elapsed >= slow_after {
        KioskState::LoadingSlow
    } else {
        KioskState::LoadingPage
    };
    let mut detail = u64_to_string(elapsed);
    detail.append(" s / ");
    detail.append(u64_to_string(timeout).as_str());
    detail.append(" s");
    LoadingStep::Show { state, message: loading_message(elapsed), detail }
}

/// Why the kiosk leaves the `RUNNING` state.
pub enum Outcome {
    FirefoxGone(String),
    Disabled,
    ConfigChanged(String),
    CronRestart,
    /// A remote command arrived while the page was shown.
    Remote(PendingAction),
}

/// The configuration read again while the page is shown: a disabled kiosk,
/// another URL or another ready selector ends the display; anything else
/// keeps it (`None`).
pub fn after_poll(latest: &KioskConfig, current: &KioskConfig) -> (r: Option<Outcome>)
    ensures
        !latest.enabled ==> r matches Some(Outcome::Disabled),
        latest.enabled && latest.url@ != current.url@ ==> (r matches Some(
            Outcome::ConfigChanged(m),
        ) && m@ == "URL modifiée côté manager"@),
        latest.enabled && latest.url@ == current.url@ && ready_selector_spec(
            opt_view(latest.ready_selector),
        ) != ready_selector_spec(opt_view(current.ready_selector)) ==> (r matches Some(
            Outcome::ConfigChanged(m),
        ) && m@ == "ready_selector modifié côté manager"@),
        latest.enabled && latest.url@ == current.url@ && ready_selector_spec(
            opt_view(latest.ready_selector),
        ) == ready_selector_spec(opt_view(current.ready_selector)) ==> r is None,
{
    if !latest.enabled {
        return Some(Outcome::Disabled);
    }
    if !str_eq(latest.url.as_str(), current.url.as_str()) {
        return Some(Outcome::ConfigChanged(owned("URL modifiée côté manager")));
    }
    let a = latest.ready_selector();
    let b = current.ready_selector();
    if !str_eq(a.as_str(), b.as_str()) {
        return Some(Outcome::ConfigChanged(owned("ready_selector modifié côté manager")));
    }
    None
}

/// A configuration read while the page is shown. An unknown kiosk or an
/// unreachable Manager never interrupts the display; a configuration that
/// keeps it updates the restart schedule on the fly (`true` when its
/// expression changed), without restarting anything.
pub fn after_supervision_poll(
    outcome: &FetchOutcome,
    current: &KioskConfig,
    cron: &mut CronRestart,
) -> (r: (Option<Outcome>, bool))
    ensures
        !(outcome is Found) ==> r.0 is None && !r.1 && final(cron)@ == old(cron)@,
        outcome matches FetchOutcome::Found(latest) ==> ({
            let keeps = latest.enabled && latest.url@ == current.url@ && ready_selector_spec(
                opt_view(latest.ready_selector),
            ) == ready_selector_spec(opt_view(current.ready_selector));
            &&& keeps == r.0 is None
            &&& !latest.enabled ==> (r.0 matches Some(Outcome::Disabled))
            &&& latest.enabled && latest.url@ != current.url@ ==> (r.0 matches Some(
                Outcome::ConfigChanged(m),
            ) && m@ == "URL modifiée côté manager"@)
            &&& latest.enabled && latest.url@ == current.url@ && ready_selector_spec(
                opt_view(latest.ready_selector),
            ) != ready_selector_spec(opt_view(current.ready_selector)) ==> (r.0 matches Some(
                Outcome::ConfigChanged(m),
            ) && m@ == "ready_selector modifié côté manager"@)
            &&& keeps ==> r.1 == (trim_seq(cron_text(opt_view(latest.restart_cron)))
                != old(cron)@.expression)
            &&& keeps && !r.1 ==> final(cron)@ == old(cron)@
            &&& keeps && r.1 ==> final(cron)@.expression == trim_seq(
                cron_text(opt_view(latest.restart_cron)),
            )
            &&& !keeps ==> !r.1 && final(cron)@ == old(cron)@
        }),
{
    match outcome {
        FetchOutcome::Found(latest) => {
            let ended = after_poll(latest, current);
            if ended.is_some() {
                return (ended, false);
            }
            let changed = cron.update(as_str_opt(&latest.restart_cron));
            (None, changed)
        },
        _ => (None, false),
    }
}

/// What supervision asks next, in this order of priority.
pub enum SupervisionQuery {
    /// Take the pending remote command.
    Remote,
    /// Ask whether the WebDriver session is alive.
    Browser,
    /// Ask whether the restart schedule is due.
    Schedule,
}

/// One step of a second of supervision.
pub enum SupervisionDecision {
    /// Ask this, then decide again with the answer.
    Ask(SupervisionQuery),
    /// Leave the display for this reason.
    End(Outcome),
    /// Read the configuration again from NOC Manager (and restart the poll
    /// timer).
    Poll,
    /// Nothing to do: wait for the next second.
    Wait,
}

/// The message of a lost WebDriver session.
pub const FIREFOX_GONE: &'static str = "session Firefox perdue (fermeture ou crash)";

/// Decides one second of supervision from the answers gathered so far
/// (`None` when not yet asked): a remote command comes first, then a lost
/// browser, then the restart schedule, then the configuration poll once
/// `seconds_since_poll` reaches `poll_every`. A question is asked only when
/// everything before it allows the display to go on.
pub fn supervision_decision(
    remote: Option<Option<PendingAction>>,
    alive: Option<bool>,
    due: Option<bool>,
    seconds_since_poll: u64,
    poll_every: u64,
) -> (r: SupervisionDecision)
    ensures
        remote is None ==> r == SupervisionDecision::Ask(SupervisionQuery::Remote),
        remote matches Some(Some(a)) ==> r == SupervisionDecision::End(Outcome::Remote(a)),
        remote == Some(None::<PendingAction>) ==> match alive {
            None => r == SupervisionDecision::Ask(SupervisionQuery::Browser),
            Some(false) => r matches SupervisionDecision::End(Outcome::FirefoxGone(m)) && m@
                == FIREFOX_GONE@,
            Some(true) => match due {
                None => r == SupervisionDecision::Ask(SupervisionQuery::Schedule),
                Some(true) => r == SupervisionDecision::End(Outcome::CronRestart),
                Some(false) => if seconds_since_poll >= poll_every {
                    r is Poll
                } else {
                    r is Wait
                },
            },
        },
{
    match remote {
        None => SupervisionDecision::Ask(SupervisionQuery::Remote),
        Some(Some(a)) => SupervisionDecision::End(Outcome::Remote(a)),
        Some(None) => match alive {
            None => SupervisionDecision::Ask(SupervisionQuery::Browser),
            Some(false) => SupervisionDecision::End(Outcome::FirefoxGone(owned(FIREFOX_GONE))),
            Some(true) => match due {
                None => SupervisionDecision::Ask(SupervisionQuery::Schedule),
                Some(true) => SupervisionDecision::End(Outcome::CronRestart),
                Some(false) => if seconds_since_poll >= poll_every {
                    SupervisionDecision::Poll
                } else {
                    SupervisionDecision::Wait
                },
            },
        },
    }
}

/// The configuration is read again every `poll_seconds`, at least every 5.
pub fn poll_interval(poll_seconds: u64) -> (r: u64)
    ensures
        r == if poll_seconds < 5 {
            5
        } else {
            poll_seconds
        },
{
    if poll_seconds < 5 {
        5
    } else {
        poll_seconds
    }
}

/// What the status screen shows once the display is left (a remote
/// `restart_agent` is handled before): the state, and the secondary
/// message replacing its default.
pub fn outcome_screen(outcome: &Outcome) -> (r: (KioskState, Option<&'static str>))
    ensures
        outcome is FirefoxGone ==> r == (KioskState::FirefoxCrashed, None::<&'static str>),
        outcome is Disabled ==> r == (KioskState::Disabled, None::<&'static str>),
        outcome is ConfigChanged ==> r.0 == KioskState::Restarting && (r.1 matches Some(s)
            && s@ == "Mise à jour de l'affichage…"@),
        outcome is CronRestart ==> r == (KioskState::Restarting, None::<&'static str>),
        outcome is Remote ==> r == (KioskState::RemoteRestartBrowser, None::<&'static str>),
{
    match outcome {
        Outcome::FirefoxGone(_) => (KioskState::FirefoxCrashed, None),
        Outcome::Disabled => (KioskState::Disabled, None),
        Outcome::ConfigChanged(_) => (KioskState::Restarting, Some("Mise à jour de l'affichage…")),
        Outcome::CronRestart => (KioskState::Restarting, None),
        Outcome::Remote(_) => (KioskState::RemoteRestartBrowser, None),
    }
}

/// Pause between stopping Firefox and starting it again: 2 seconds after a
/// remote restart, else the configured delay.
pub fn restart_delay(remote_restart: bool, cfg_delay: u64) -> (r: u64)
    ensures
        r == if remote_restart {
            2
        } else {
            cfg_delay
        },
{
    if remote_restart {
        2
    } else {
        cfg_delay
    }
}

/// The countdown runs at least one second.
pub fn countdown_total(seconds: u64) -> (r: u64)
    ensures
        r == if seconds < 1 {
            1
        } else {
            seconds
        },
{
    if seconds < 1 {
        1
    } else {
        seconds
    }
}

/// `"Nouvelle tentative dans {n} seconde{s}"`, plural above one.
pub open spec fn countdown_detail_spec(remaining: u64) -> Seq<char> {
    "Nouvelle tentative dans "@ + decimal(remaining as nat) + " seconde"@ + (if remaining > 1 {
        "s"@
    } else {
        ""@
    })
}

pub fn countdown_detail(remaining: u64) -> (r: String)
    ensures
        r@ == countdown_detail_spec(remaining),
{
    let mut r = owned("Nouvelle tentative dans ");
    r.append(u64_to_string(remaining).as_str());
    r.append(" seconde");
    r.append(if remaining > 1 { "s" } else { "" });
    r
}

/// What a remote command does while the agent counts down.
#[derive(Debug, Clone, Copy, PartialEq, Eq, Structural)]
pub enum CountdownStep {
    /// Keep counting.
    Continue,
    /// Clean up, then restart the agent.
    RestartAgent,
    /// No browser to stop: start the cycle again at once.
    Restart,
}

pub fn countdown_step(taken: Option<PendingAction>) -> (r: CountdownStep)
    ensures
        taken is None ==> r == CountdownStep::Continue,
        taken == Some(PendingAction::RestartAgent) ==> r == CountdownStep::RestartAgent,
        taken == Some(PendingAction::RestartBrowser) ==> r == CountdownStep::Restart,
{
    match taken {
        None => CountdownStep::Continue,
        Some(PendingAction::RestartAgent) => CountdownStep::RestartAgent,
        Some(PendingAction::RestartBrowser) => CountdownStep::Restart,
    }
}

} // verus!
