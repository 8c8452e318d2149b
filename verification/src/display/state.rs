//! The connection state machine of NOC Display. Instants are monotonic
//! clock readings in milliseconds.
use vstd::prelude::*;

verus! {

#[derive(Debug, Clone, Copy, PartialEq, Eq, Structural)]
pub enum AppState {
    Starting,
    Connecting,
    Connected,
    Reconnecting,
    Error,
}

pub open spec fn app_code_spec(s: AppState) -> Seq<char> {
    match s {
        AppState::Starting => "STARTING"@,
        AppState::Connecting => "CONNECTING"@,
        AppState::Connected => "CONNECTED"@,
        AppState::Reconnecting => "RECONNECTING"@,
        AppState::Error => "ERROR"@,
    }
}

impl AppState {
    /// Short label sent in the heartbeat to NOC Manager.
    pub fn code(self) -> (r: &'static str)
        ensures
            r@ == app_code_spec(self),
    {
        match self {
            AppState::Starting => "STARTING",
            AppState::Connecting => "CONNECTING",
            AppState::Connected => "CONNECTED",
            AppState::Reconnecting => "RECONNECTING",
            AppState::Error => "ERROR",
        }
    }
}

/// How long a logon may take, in milliseconds.
pub const LOGON_TIMEOUT_MS: u64 = 45000;

pub struct Machine {
    pub state: AppState,
    /// When the next attempt is due.
    pub retry_at: Option<u64>,
    /// When the attempt in progress gives up.
    pub deadline: Option<u64>,
    pub ever_connected: bool,
}

/// `true` once the scheduled retry time has come.
pub open spec fn retry_due_spec(m: Machine, now: u64) -> bool {
    match m.retry_at {
        Some(t) => now >= t,
        None => false,
    }
}

/// `true` once the logon deadline has passed.
pub open spec fn timed_out_spec(m: Machine, now: u64) -> bool {
    match m.deadline {
        Some(t) => now >= t,
        None => false,
    }
}

/// Whole seconds left before the retry, rounded up (0 when none is due).
pub open spec fn seconds_spec(m: Machine, now: u64) -> nat {
    match m.retry_at {
        Some(t) => if t > now {
            ((t - now + 999) / 1000) as nat
        } else {
            0
        },
        None => 0,
    }
}

/// The states the connection steps keep: a logon deadline exactly while
/// connecting; a pending retry exactly after a failure; a reconnection
/// screen only after a session was once established, an error screen only
/// before; starting only while nothing has happened.
pub open spec fn machine_ok(m: Machine) -> bool {
    &&& (m.deadline is Some) == (m.state == AppState::Connecting)
    &&& (m.retry_at is Some) == (m.state == AppState::Error || m.state == AppState::Reconnecting)
    &&& (m.state == AppState::Connected || m.state == AppState::Reconnecting) ==> m.ever_connected
    &&& m.state == AppState::Error ==> !m.ever_connected
    &&& m.state == AppState::Starting ==> !m.ever_connected
}

/// One step of the connection state machine.
pub enum MachineStep {
    /// An attempt starts at this time.
    Connecting(u64),
    /// The logon completed.
    LoginComplete,
    /// The attempt or the session failed at this time; retry after this
    /// many seconds.
    Failure(u64, u32),
}

/// The machine as [`Machine::new`] makes it.
pub open spec fn fresh_machine() -> Machine {
    Machine { state: AppState::Starting, retry_at: None, deadline: None, ever_connected: false }
}

/// The machine after one step.
pub open spec fn machine_after(m: Machine, step: MachineStep) -> Machine {
    match step {
        MachineStep::Connecting(now) => Machine {
            state: AppState::Connecting,
            retry_at: None,
            deadline: Some((now + LOGON_TIMEOUT_MS) as u64),
            ..m
        },
        MachineStep::LoginComplete => if m.state == AppState::Connecting {
            Machine { state: AppState::Connected, ever_connected: true, deadline: None, ..m }
        } else {
            m
        },
        MachineStep::Failure(now, delay) => Machine {
            state: if m.ever_connected {
                AppState::Reconnecting
            } else {
                AppState::Error
            },
            deadline: None,
            retry_at: Some((now + delay * 1000) as u64),
            ..m
        },
    }
}

/// The machine after a sequence of steps, in order.
pub open spec fn machine_after_steps(m: Machine, steps: Seq<MachineStep>) -> Machine
    decreases steps.len(),
{
    if steps.len() == 0 {
        m
    } else {
        machine_after(machine_after_steps(m, steps.drop_last()), steps.last())
    }
}

/// From a new machine, any sequence of steps keeps the machine consistent
/// ([`machine_ok`]): a logon deadline exactly while connecting, a pending
/// retry exactly after a failure, connected or reconnecting only after a
/// session was once established.
pub proof fn law_machine_ok_after_any_steps(steps: Seq<MachineStep>)
    ensures
        machine_ok(machine_after_steps(fresh_machine(), steps)),
    decreases steps.len(),
{
    if steps.len() > 0 {
        law_machine_ok_after_any_steps(steps.drop_last());
    }
}

/// Once a session was established, the machine remembers it through any
/// later steps.
pub proof fn law_ever_connected_stays(m: Machine, steps: Seq<MachineStep>)
    requires
        m.ever_connected,
    ensures
        machine_after_steps(m, steps).ever_connected,
    decreases steps.len(),
{
    if steps.len() > 0 {
        law_ever_connected_stays(m, steps.drop_last());
    }
}

impl Machine {
    pub fn new() -> (r: Self)
        ensures
            r == fresh_machine(),
            machine_ok(r),
            r.state == AppState::Starting,
            r.retry_at is None,
            r.deadline is None,
            !r.ever_connected,
    {
        Machine { state: AppState::Starting, retry_at: None, deadline: None, ever_connected: false }
    }

    /// An attempt starts: the logon has 45 seconds to complete.
    pub fn connecting(&mut self, now: u64)
        requires
            now + LOGON_TIMEOUT_MS <= u64::MAX,
        ensures
            final(self).state == AppState::Connecting,
            final(self).retry_at is None,
            final(self).deadline == Some((now + LOGON_TIMEOUT_MS) as u64),
            final(self).ever_connected == old(self).ever_connected,
            *final(self) == machine_after(*old(self), MachineStep::Connecting(now)),
            machine_ok(*old(self)) ==> machine_ok(*final(self)),
    {
        self.state = AppState::Connecting;
        self.retry_at = None;
        self.deadline = Some(now + LOGON_TIMEOUT_MS);
    }

    /// The logon completed. Accepted only while connecting: a late event
    /// after a failure changes nothing.
    pub fn login_complete(&mut self) -> (r: bool)
        ensures
            r == (old(self).state == AppState::Connecting),
            r ==> final(self).state == AppState::Connected && final(self).ever_connected
                && final(self).deadline is None && final(self).retry_at == old(self).retry_at,
            !r ==> *final(self) == *old(self),
            *final(self) == machine_after(*old(self), MachineStep::LoginComplete),
            machine_ok(*old(self)) ==> machine_ok(*final(self)),
    {
        if self.state != AppState::Connecting {
            return false;
        }
        self.state = AppState::Connected;
        self.ever_connected = true;
        self.deadline = None;
        true
    }

    /// The attempt or the session failed: retry after `delay` seconds.
    /// A machine that was ever connected shows a reconnection, otherwise an
    /// error.
    pub fn failure(&mut self, now: u64, delay: u32)
        requires
            now + delay * 1000 <= u64::MAX,
        ensures
            final(self).state == if old(self).ever_connected {
                AppState::Reconnecting
            } else {
                AppState::Error
            },
            final(self).deadline is None,
            final(self).retry_at == Some((now + delay * 1000) as u64),
            final(self).ever_connected == old(self).ever_connected,
            *final(self) == machine_after(*old(self), MachineStep::Failure(now, delay)),
            machine_ok(*old(self)) ==> machine_ok(*final(self)),
    {
        self.state = if self.ever_connected {
            AppState::Reconnecting
        } else {
            AppState::Error
        };
        self.deadline = None;
        self.retry_at = Some(now + (delay as u64) * 1000);
    }

    /// Seconds left before the next attempt, rounded up.
    pub fn seconds(&self, now: u64) -> (r: u64)
        ensures
            r == seconds_spec(*self, now),
    {
        match self.retry_at {
            Some(t) => if t > now {
                let d = t - now;
                d / 1000 + if d % 1000 == 0 { 0 } else { 1 }
            } else {
                0
            },
            None => 0,
        }
    }

    pub fn retry_due(&self, now: u64) -> (r: bool)
        ensures
            r == retry_due_spec(*self, now),
    {
        match self.retry_at {
            Some(t) => now >= t,
            None => false,
        }
    }

    pub fn timed_out(&self, now: u64) -> (r: bool)
        ensures
            r == timed_out_spec(*self, now),
    {
        match self.deadline {
            Some(t) => now >= t,
            None => false,
        }
    }
}

/// The countdown shows zero exactly when no retry is pending or the retry
/// is due.
pub proof fn law_countdown_zero_iff_due(m: Machine, now: u64)
    ensures
        (seconds_spec(m, now) == 0) == (m.retry_at is None || retry_due_spec(m, now)),
{
    if let Some(t) = m.retry_at {
        if t > now {
            assert((t - now + 999) / 1000 >= 1);
        }
    }
}

/// Right after a failure with a delay of `d` seconds, the countdown shows
/// `d`, and the retry becomes due exactly `d` seconds later.
pub proof fn law_failure_schedules_retry(m: Machine, now: u64, d: u32, later: u64)
    requires
        m.retry_at == Some((now + d * 1000) as u64),
        now + d * 1000 <= u64::MAX,
    ensures
        seconds_spec(m, now) == d,
        retry_due_spec(m, later) == (later >= now + d * 1000),
{
    if d > 0 {
        assert((d * 1000 + 999) / 1000 == d) by (nonlinear_arith)
            requires d > 0;
    }
}

/// A logon that started at `now` times out exactly 45 seconds later.
pub proof fn law_logon_deadline(m: Machine, now: u64, later: u64)
    requires
        m.deadline == Some((now + LOGON_TIMEOUT_MS) as u64),
        now + LOGON_TIMEOUT_MS <= u64::MAX,
    ensures
        timed_out_spec(m, later) == (later >= now + LOGON_TIMEOUT_MS),
{
}

} // verus!
