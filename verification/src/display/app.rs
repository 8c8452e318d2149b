//! The decisions of NOC Display's application: what an attempt does with
//! the centralized RDP settings, and what the connection screen shows.
//! Window, COM and timers stay with the caller.
use vstd::prelude::*;
use crate::display::config::{Config, RdpSettings, UiSettings};
use crate::display::health::RdpConfigFetch;
use crate::display::state::{AppState, Machine, LOGON_TIMEOUT_MS};
use crate::display::status::{status_message_spec, Status};
use crate::manager::models::opt_view;
use crate::text::{
    decimal, hex8, hex_fixed, is_blank, owned, replace_all, replace_seq, trim_seq,
    u64_to_string,
};

verus! {

/// Delay before the first attempt, so that the branded screen is seen.
pub const STARTUP_DELAY_MS: u64 = 8000;

/// How long NOC Manager may stay unreachable before the screen says so.
pub const MANAGER_UNREACHABLE_AFTER_MS: u64 = 60000;

/// What an attempt does with the configuration it has just read.
pub enum AttemptStep {
    /// RDP is off in the local configuration: the idle welcome screen, with
    /// the connection state reset.
    Idle,
    /// Ask NOC Manager for the kiosk's RDP settings first.
    FetchFromManager,
    /// Connect with the local settings.
    Connect,
}

/// The first decision of an attempt, on the configuration read.
pub fn attempt_step(config: &Config) -> (r: AttemptStep)
    ensures
        !config.rdp.enabled ==> r is Idle,
        config.rdp.enabled && config.manager.provides_rdp ==> r is FetchFromManager,
        config.rdp.enabled && !config.manager.provides_rdp ==> r is Connect,
{
    if !config.rdp.enabled {
        AttemptStep::Idle
    } else if config.manager.provides_rdp {
        AttemptStep::FetchFromManager
    } else {
        AttemptStep::Connect
    }
}

/// The idle welcome screen, shown while RDP is off for the kiosk (locally
/// or on NOC Manager): the ready status and its message, without
/// animation.
pub fn idle_screen() -> (r: ScreenView)
    ensures
        r.status == Status::Ready,
        r.text@ == status_message_spec(Status::Ready),
        !r.animate,
{
    ScreenView { status: Status::Ready, text: owned(Status::Ready.message()), animate: false }
}

/// What an attempt works on: the application's connection state, without
/// the window and the RDP control, which the caller holds.
pub struct AppModel {
    /// The configuration in force.
    pub config: Config,
    pub machine: Machine,
    /// Number of the attempt: events of older attempts are ignored.
    pub generation: u64,
    /// Whether an RDP control exists.
    pub has_client: bool,
    pub transport_connected: bool,
    /// No `config.toml` was found at all.
    pub config_missing: bool,
    /// NOC Manager does not know this kiosk.
    pub kiosk_missing: bool,
    /// Since when NOC Manager could not be reached, in milliseconds.
    pub manager_unreachable_since: Option<u64>,
}

/// What the caller does next in an attempt.
pub enum AttemptAction {
    /// The configuration could not be read: fail the attempt with this
    /// reason (the state already records the failure).
    Fail(String),
    /// RDP is off: show the idle welcome screen ([`idle_screen`]).
    Idle,
    /// Show the connection screen, then ask NOC Manager for the kiosk's RDP
    /// settings ([`after_rdp_fetch`]).
    FetchFromManager,
    /// Show the connection screen, then connect with the local settings.
    Connect,
}

/// `n.wrapping_add(1)`.
pub open spec fn next_generation(n: u64) -> u64 {
    if n == u64::MAX {
        0
    } else {
        (n + 1) as u64
    }
}

/// The start of an attempt, at time `now` (milliseconds), with what
/// reading `config.toml` gave (`Err` with its message) and whether a file
/// exists at all: the previous control and its ready timer are dropped and
/// the generation advances; a configuration read is adopted, and then RDP
/// off gives the idle state, RDP on a new logon; a configuration that could
/// not be read fails the attempt, which is retried after the delay of the
/// configuration in force.
pub fn begin_attempt(
    app: &mut AppModel,
    read: Result<Config, String>,
    config_exists: bool,
    now: u64,
) -> (r: AttemptAction)
    requires
        now + LOGON_TIMEOUT_MS <= u64::MAX,
        now + old(app).config.rdp.retry_seconds * 1000 <= u64::MAX,
    ensures
        final(app).generation == next_generation(old(app).generation),
        !final(app).has_client,
        !final(app).transport_connected,
        !final(app).kiosk_missing,
        read matches Err(m) ==> (r matches AttemptAction::Fail(reason) && reason@ == m@)
            && final(app).config == old(app).config && final(app).config_missing
            == !config_exists && final(app).machine.state == (if old(
            app,
        ).machine.ever_connected {
            AppState::Reconnecting
        } else {
            AppState::Error
        }) && final(app).machine.retry_at == Some(
            (now + old(app).config.rdp.retry_seconds * 1000) as u64,
        ) && final(app).machine.deadline is None && final(app).machine.ever_connected == old(
            app,
        ).machine.ever_connected && final(app).manager_unreachable_since == old(
            app,
        ).manager_unreachable_since,
        read matches Ok(c) ==> final(app).config == c && !final(app).config_missing,
        read matches Ok(c) && !c.rdp.enabled ==> r is Idle && final(app).machine.state
            == AppState::Starting && final(app).machine.retry_at is None
            && final(app).machine.deadline is None && !final(app).machine.ever_connected
            && final(app).manager_unreachable_since is None,
        read matches Ok(c) && c.rdp.enabled ==> final(app).machine.state == AppState::Connecting
            && final(app).machine.retry_at is None && final(app).machine.deadline == Some(
            (now + LOGON_TIMEOUT_MS) as u64,
        ) && final(app).machine.ever_connected == old(app).machine.ever_connected,
        read matches Ok(c) && c.rdp.enabled && c.manager.provides_rdp ==> r is FetchFromManager
            && final(app).manager_unreachable_since == (match old(app).manager_unreachable_since {
            Some(t) => Some(t),
            None => Some(now),
        }),
        read matches Ok(c) && c.rdp.enabled && !c.manager.provides_rdp ==> r is Connect
            && final(app).manager_unreachable_since is None,
{
    app.transport_connected = false;
    app.generation = if app.generation == u64::MAX {
        0
    } else {
        app.generation + 1
    };
    app.has_client = false;
    match read {
        Err(message) => {
            app.config_missing = !config_exists;
            app.kiosk_missing = false;
            let delay = app.config.rdp.retry_seconds;
            app.machine.failure(now, delay);
            AttemptAction::Fail(message)
        },
        Ok(config) => {
            app.config_missing = false;
            app.kiosk_missing = false;
            let enabled = config.rdp.enabled;
            let provides = config.manager.provides_rdp;
            app.config = config;
            if !enabled {
                app.manager_unreachable_since = None;
                app.machine = Machine::new();
                return AttemptAction::Idle;
            }
            app.machine.connecting(now);
            if provides {
                if app.manager_unreachable_since.is_none() {
                    app.manager_unreachable_since = Some(now);
                }
                AttemptAction::FetchFromManager
            } else {
                app.manager_unreachable_since = None;
                AttemptAction::Connect
            }
        },
    }
}

/// What an attempt does once the centralized settings were asked for.
pub enum FetchStep {
    /// RDP is off for this kiosk: the idle welcome screen.
    Idle,
    /// Fail the attempt with this reason; `kiosk_missing` when Manager
    /// does not know the kiosk.
    Fail { reason: String, kiosk_missing: bool },
    /// Connect with the settings now in place.
    Connect,
}

/// The answer of NOC Manager (`Err` holds the HRESULT of a failed request).
/// A usable answer replaces server, port, login (the Windows account when
/// empty), certificate policy and password, for this attempt only.
pub fn after_rdp_fetch(fetch: Result<RdpConfigFetch, u32>, rdp: &mut RdpSettings, windows_user: &str) -> (r:
    FetchStep)
    ensures
        fetch matches Ok(RdpConfigFetch::KioskNotFound) ==> (r matches FetchStep::Fail {
            reason,
            kiosk_missing,
        } && kiosk_missing && reason@ == "RDP config: kiosk not found on Manager"@),
        fetch matches Ok(RdpConfigFetch::Found(c)) && !c.enabled ==> r is Idle,
        fetch matches Ok(RdpConfigFetch::Found(c)) && c.enabled && trim_seq(c.server@).len() == 0
            ==> (r matches FetchStep::Fail { reason, kiosk_missing } && !kiosk_missing && reason@
            == "RDP config from Manager: enabled but no server configured"@),
        fetch matches Ok(RdpConfigFetch::Found(c)) ==> (c.enabled && trim_seq(c.server@).len()
            != 0 ==> (r is Connect && final(rdp).server@ == c.server@ && final(rdp).port == c.port
            && final(rdp).username@ == (if trim_seq(c.username@).len() == 0 {
            windows_user@
        } else {
            c.username@
        }) && final(rdp).ignore_certificate_errors == c.ignore_certificate_errors && opt_view(
            final(rdp).password,
        ) == opt_view(c.password) && final(rdp).enabled == old(rdp).enabled
            && final(rdp).domain@ == old(rdp).domain@ && final(rdp).retry_seconds == old(
            rdp,
        ).retry_seconds)),
        fetch matches Err(code) ==> (r matches FetchStep::Fail { reason, kiosk_missing }
            && !kiosk_missing && reason@ == "RDP config fetch from Manager failed HRESULT="@
            + hex_fixed(code as nat, 8)),
        !(r is Connect) ==> *final(rdp) == *old(rdp),
{
    match fetch {
        Ok(RdpConfigFetch::KioskNotFound) => FetchStep::Fail {
            reason: owned("RDP config: kiosk not found on Manager"),
            kiosk_missing: true,
        },
        Ok(RdpConfigFetch::Found(remote)) => {
            if !remote.enabled {
                return FetchStep::Idle;
            }
            if is_blank(remote.server.as_str()) {
                return FetchStep::Fail {
                    reason: owned("RDP config from Manager: enabled but no server configured"),
                    kiosk_missing: false,
                };
            }
            let username = if is_blank(remote.username.as_str()) {
                owned(windows_user)
            } else {
                remote.username
            };
            rdp.server = remote.server;
            rdp.port = remote.port;
            rdp.username = username;
            rdp.ignore_certificate_errors = remote.ignore_certificate_errors;
            rdp.password = remote.password;
            FetchStep::Connect
        },
        Err(code) => {
            let mut reason = owned("RDP config fetch from Manager failed HRESULT=");
            reason.append(hex8(code).as_str());
            FetchStep::Fail { reason, kiosk_missing: false }
        },
    }
}

/// What the connection screen shows, or nothing (`None`) when the screen
/// is not to change: before the first attempt and once connected.
pub struct ScreenView {
    pub status: Status,
    pub text: String,
    pub animate: bool,
}

/// `reconnecting_text` with `{seconds}` replaced.
pub open spec fn countdown_spec(ui_reconnecting: Seq<char>, seconds: u64) -> Seq<char> {
    replace_seq(ui_reconnecting, "{seconds}"@, decimal(seconds as nat))
}

pub open spec fn screen_spec(
    state: AppState,
    provides_rdp: bool,
    unreachable_for_ms: Option<u64>,
    config_missing: bool,
    kiosk_missing: bool,
    seconds: u64,
    connecting: Seq<char>,
    disconnected: Seq<char>,
    error: Seq<char>,
    reconnecting: Seq<char>,
    manager_connecting: Seq<char>,
    manager_unreachable: Seq<char>,
) -> Option<(Status, Seq<char>, bool)> {
    match state {
        AppState::Starting | AppState::Connected => None,
        AppState::Connecting => Some(
            (
                Status::Loading,
                if provides_rdp && unreachable_for_ms is Some {
                    manager_connecting
                } else {
                    connecting
                },
                true,
            ),
        ),
        _ => if config_missing || kiosk_missing {
            Some(
                (
                    Status::Loading,
                    if config_missing {
                        "Aucune configuration trouvée…"@
                    } else {
                        "Aucune configuration kiosk trouvée…"@
                    },
                    true,
                ),
            )
        } else if unreachable_for_ms matches Some(e) && e < MANAGER_UNREACHABLE_AFTER_MS {
            Some((Status::Loading, manager_connecting, true))
        } else if unreachable_for_ms is Some {
            Some(
                (
                    Status::ServerUnavailable,
                    manager_unreachable + "\n"@ + countdown_spec(reconnecting, seconds),
                    false,
                ),
            )
        } else {
            Some(
                (
                    Status::ServerUnavailable,
                    (if state == AppState::Error {
                        error
                    } else {
                        disconnected
                    }) + "\n"@ + countdown_spec(reconnecting, seconds),
                    false,
                ),
            )
        },
    }
}

pub open spec fn screen_view_of(v: Option<ScreenView>) -> Option<(Status, Seq<char>, bool)> {
    match v {
        Some(s) => Some((s.status, s.text@, s.animate)),
        None => None,
    }
}

/// The connection screen for `state`. `unreachable_for_ms` is how long NOC
/// Manager has been unreachable, if it is; `seconds` the retry countdown.
/// A missing file or kiosk shows no countdown, only the animated icon: it
/// keeps checking by itself.
pub fn screen(
    state: AppState,
    provides_rdp: bool,
    unreachable_for_ms: Option<u64>,
    config_missing: bool,
    kiosk_missing: bool,
    seconds: u64,
    ui: &UiSettings,
) -> (r: Option<ScreenView>)
    ensures
        screen_view_of(r) == screen_spec(
            state,
            provides_rdp,
            unreachable_for_ms,
            config_missing,
            kiosk_missing,
            seconds,
            ui.connecting_text@,
            ui.disconnected_text@,
            ui.error_text@,
            ui.reconnecting_text@,
            ui.manager_connecting_text@,
            ui.manager_unreachable_text@,
        ),
{
    match state {
        AppState::Starting | AppState::Connected => None,
        AppState::Connecting => Some(
            ScreenView {
                status: Status::Loading,
                text: if provides_rdp && unreachable_for_ms.is_some() {
                    ui.manager_connecting_text.clone()
                } else {
                    ui.connecting_text.clone()
                },
                animate: true,
            },
        ),
        _ => {
            if config_missing || kiosk_missing {
                return Some(
                    ScreenView {
                        status: Status::Loading,
                        text: owned(
                            if config_missing {
                                "Aucune configuration trouvée…"
                            } else {
                                "Aucune configuration kiosk trouvée…"
                            },
                        ),
                        animate: true,
                    },
                );
            }
            proof {
                reveal_strlit("{seconds}");
            }
            let countdown = replace_all(
                ui.reconnecting_text.as_str(),
                "{seconds}",
                u64_to_string(seconds).as_str(),
            );
            match unreachable_for_ms {
                Some(e) => {
                    if e < MANAGER_UNREACHABLE_AFTER_MS {
                        return Some(
                            ScreenView {
                                status: Status::Loading,
                                text: ui.manager_connecting_text.clone(),
                                animate: true,
                            },
                        );
                    }
                    let mut text = ui.manager_unreachable_text.clone();
                    text.append("\n");
                    text.append(countdown.as_str());
                    Some(ScreenView { status: Status::ServerUnavailable, text, animate: false })
                },
                None => {
                    let mut text = if state == AppState::Error {
                        ui.error_text.clone()
                    } else {
                        ui.disconnected_text.clone()
                    };
                    text.append("\n");
                    text.append(countdown.as_str());
                    Some(ScreenView { status: Status::ServerUnavailable, text, animate: false })
                },
            }
        },
    }
}

} // verus!
