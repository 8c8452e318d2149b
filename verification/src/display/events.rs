//! Events of the RDP control, how the control's callbacks are classified,
//! and how the application answers each event.
use vstd::prelude::*;
use crate::display::state::AppState;
use crate::text::{hex8, hex_fixed, i64_to_string, owned, signed_decimal};

verus! {

#[derive(Debug, Clone, Copy)]
pub enum EventKind {
    Connecting,
    TransportConnected,
    LoginComplete,
    RemoteDesktopSizeChanged,
    Disconnected(i32),
    Fatal(i32),
    Warning(i32),
    InteractionRequired { source: &'static str, code: i32 },
    AutoReconnecting,
    AutoReconnected,
}

/// An event of one connection attempt (its generation).
#[derive(Debug, Clone, Copy)]
pub struct Event {
    pub generation: u64,
    pub kind: EventKind,
}

/// Identifier of the ready timer of attempt `generation`.
pub fn ready_timer_id(generation: u64) -> (r: u64)
    requires
        generation + 100 <= u64::MAX,
    ensures
        r == generation + 100,
{
    100 + generation
}

/// What the event sink does with a callback of the control.
#[derive(Debug, Clone, Copy)]
pub enum SinkAction {
    Nothing,
    /// Queue the event.
    Emit(EventKind),
    /// Hide the control at once, then queue the event unless a failure was
    /// already queued.
    Fail(EventKind),
    /// Answer `true` to the close confirmation.
    AllowClose,
    /// Refuse the server's public key, then fail.
    RefuseKey,
    /// Cancel the control's own reconnection, then fail.
    StopAutoReconnect,
}

/// The callbacks of `IMsTscAxEvents` by dispatch id; `number` is the first
/// argument when it is an integer, else -1. A logon completion after a
/// failure is ignored: it must never reveal the session.
pub open spec fn classify_spec(id: i32, number: i32, failed: bool) -> SinkAction {
    if id == 1 {
        SinkAction::Emit(EventKind::Connecting)
    } else if id == 2 {
        SinkAction::Emit(EventKind::TransportConnected)
    } else if id == 3 {
        if failed {
            SinkAction::Nothing
        } else {
            SinkAction::Emit(EventKind::LoginComplete)
        }
    } else if id == 4 {
        SinkAction::Fail(EventKind::Disconnected(number))
    } else if id == 10 {
        SinkAction::Fail(EventKind::Fatal(number))
    } else if id == 11 {
        SinkAction::Fail(EventKind::Warning(number))
    } else if id == 12 {
        SinkAction::Emit(EventKind::RemoteDesktopSizeChanged)
    } else if id == 15 {
        SinkAction::AllowClose
    } else if id == 16 {
        SinkAction::RefuseKey
    } else if id == 17 {
        SinkAction::StopAutoReconnect
    } else if id == 33 {
        SinkAction::Emit(EventKind::AutoReconnected)
    } else if id == 34 {
        SinkAction::Fail(EventKind::AutoReconnecting)
    } else {
        SinkAction::Nothing
    }
}

/// The event of a failing callback that names its source.
pub open spec fn interaction_event(id: i32, number: i32) -> Option<(Seq<char>, i32)> {
    if id == 18 {
        Some(("OnAuthenticationWarningDisplayed"@, 0i32))
    } else if id == 22 {
        Some(("OnLogonError"@, number))
    } else if id == 5 || id == 8 {
        Some(("ExternalFullscreenRequested"@, id))
    } else {
        None
    }
}

pub fn classify_dispatch(id: i32, number: i32, failed: bool) -> (r: SinkAction)
    ensures
        interaction_event(id, number) is None ==> r == classify_spec(id, number, failed),
        interaction_event(id, number) matches Some((src, code)) ==> (r matches SinkAction::Fail(
            EventKind::InteractionRequired { source, code: c },
        ) && source@ == src && c == code),
{
    if id == 1 {
        SinkAction::Emit(EventKind::Connecting)
    } else if id == 2 {
        SinkAction::Emit(EventKind::TransportConnected)
    } else if id == 3 {
        if failed {
            SinkAction::Nothing
        } else {
            SinkAction::Emit(EventKind::LoginComplete)
        }
    } else if id == 4 {
        SinkAction::Fail(EventKind::Disconnected(number))
    } else if id == 10 {
        SinkAction::Fail(EventKind::Fatal(number))
    } else if id == 11 {
        SinkAction::Fail(EventKind::Warning(number))
    } else if id == 12 {
        SinkAction::Emit(EventKind::RemoteDesktopSizeChanged)
    } else if id == 15 {
        SinkAction::AllowClose
    } else if id == 16 {
        SinkAction::RefuseKey
    } else if id == 17 {
        SinkAction::StopAutoReconnect
    } else if id == 18 {
        SinkAction::Fail(
            EventKind::InteractionRequired { source: "OnAuthenticationWarningDisplayed", code: 0 },
        )
    } else if id == 22 {
        SinkAction::Fail(EventKind::InteractionRequired { source: "OnLogonError", code: number })
    } else if id == 5 || id == 8 {
        SinkAction::Fail(
            EventKind::InteractionRequired { source: "ExternalFullscreenRequested", code: id },
        )
    } else if id == 33 {
        SinkAction::Emit(EventKind::AutoReconnected)
    } else if id == 34 {
        SinkAction::Fail(EventKind::AutoReconnecting)
    } else {
        SinkAction::Nothing
    }
}

/// The event a refused public key reports.
pub fn refused_key_event() -> (r: EventKind)
    ensures
        r matches EventKind::InteractionRequired { source, code } && source@
            == "OnReceivedTSPublicKey"@ && code == 0,
{
    EventKind::InteractionRequired { source: "OnReceivedTSPublicKey", code: 0 }
}

/// How the application answers a queued event.
pub enum EventResponse {
    /// Stale event or nothing to do.
    Skip,
    Log(&'static str),
    /// The transport is up: keep the control hidden and arm the ready timer.
    StartReadyTimer,
    /// The remote session may be ready; the source is logged.
    MarkReady(&'static str),
    /// Fail the attempt with this reason.
    Fail(String),
    /// Fail after reading the extended reason of a disconnection.
    DescribeDisconnect(i32),
}

/// `"RDP interaction refused source={source} code={code} hex=0x{code:08x}"`.
pub open spec fn interaction_reason(source: Seq<char>, code: i32) -> Seq<char> {
    "RDP interaction refused source="@ + source + " code="@ + signed_decimal(code as int)
        + " hex=0x"@ + hex_fixed((code as u32) as nat, 8)
}

/// Events of an older attempt, or without a control, are ignored. The
/// transport being up arms the ready timer only once per attempt, while
/// connecting and before any failure.
pub fn event_response(
    event: Event,
    generation: u64,
    has_client: bool,
    state: AppState,
    transport_connected: bool,
    failed: bool,
) -> (r: EventResponse)
    ensures
        event.generation != generation || !has_client ==> r is Skip,
        event.generation == generation && has_client ==> match event.kind {
            EventKind::Connecting => r matches EventResponse::Log(m) && m@ == "RDP OnConnecting"@,
            EventKind::TransportConnected => if state == AppState::Connecting
                && !transport_connected && !failed {
                r is StartReadyTimer
            } else {
                r is Skip
            },
            EventKind::LoginComplete => r matches EventResponse::MarkReady(s) && s@
                == "OnLoginComplete"@,
            EventKind::RemoteDesktopSizeChanged => if transport_connected {
                r matches EventResponse::MarkReady(s) && s@ == "OnRemoteDesktopSizeChange"@
            } else {
                r is Skip
            },
            EventKind::Disconnected(code) => r == EventResponse::DescribeDisconnect(code),
            EventKind::Fatal(code) => r matches EventResponse::Fail(m) && m@
                == "RDP fatal reason="@ + signed_decimal(code as int),
            EventKind::Warning(code) => r matches EventResponse::Fail(m) && m@
                == "RDP warning reason="@ + signed_decimal(code as int),
            EventKind::InteractionRequired { source, code } => r matches EventResponse::Fail(m)
                && m@ == interaction_reason(source@, code),
            EventKind::AutoReconnecting => r matches EventResponse::Fail(m) && m@
                == "RDP built-in reconnect cancelled; application retry policy"@,
            EventKind::AutoReconnected => r matches EventResponse::Fail(m) && m@
                == "RDP unexpected OnAutoReconnected; new controlled attempt required"@,
        },
{
    if event.generation != generation || !has_client {
        return EventResponse::Skip;
    }
    match event.kind {
        EventKind::Connecting => EventResponse::Log("RDP OnConnecting"),
        EventKind::TransportConnected => {
            if state == AppState::Connecting && !transport_connected && !failed {
                EventResponse::StartReadyTimer
            } else {
                EventResponse::Skip
            }
        },
        EventKind::LoginComplete => EventResponse::MarkReady("OnLoginComplete"),
        EventKind::RemoteDesktopSizeChanged => {
            if transport_connected {
                EventResponse::MarkReady("OnRemoteDesktopSizeChange")
            } else {
                EventResponse::Skip
            }
        },
        EventKind::Disconnected(code) => EventResponse::DescribeDisconnect(code),
        EventKind::Fatal(code) => {
            let mut m = owned("RDP fatal reason=");
            m.append(i64_to_string(code as i64).as_str());
            EventResponse::Fail(m)
        },
        EventKind::Warning(code) => {
            let mut m = owned("RDP warning reason=");
            m.append(i64_to_string(code as i64).as_str());
            EventResponse::Fail(m)
        },
        EventKind::InteractionRequired { source, code } => {
            let mut m = owned("RDP interaction refused source=");
            m.append(source);
            m.append(" code=");
            m.append(i64_to_string(code as i64).as_str());
            m.append(" hex=0x");
            m.append(hex8(code as u32).as_str());
            EventResponse::Fail(m)
        },
        EventKind::AutoReconnecting => EventResponse::Fail(
            owned("RDP built-in reconnect cancelled; application retry policy"),
        ),
        EventKind::AutoReconnected => EventResponse::Fail(
            owned("RDP unexpected OnAutoReconnected; new controlled attempt required"),
        ),
    }
}

} // verus!
