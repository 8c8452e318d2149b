//! Remote commands sent by NOC Manager (`restart_browser`,
//! `restart_agent`): the one-slot queue shared by the poller and the
//! orchestrator, and the record of the last command id already handled.
use vstd::prelude::*;
use crate::agent::state::KioskState;
use crate::text::str_eq;

verus! {

#[derive(Debug, Clone, Copy, PartialEq, Eq, Structural)]
pub enum PendingAction {
    RestartBrowser,
    RestartAgent,
}

/// Mathematical value of a [`RemoteControl`].
pub struct RemoteSpec {
    pub pending: Option<PendingAction>,
    pub browser_restart_in_progress: bool,
}

/// At most one pending command; `restart_agent` outranks everything else.
pub struct RemoteControl {
    pending: Option<PendingAction>,
    /// A browser restart is already running: a new `restart_browser` must
    /// not trigger a second one.
    browser_restart_in_progress: bool,
}

impl View for RemoteControl {
    type V = RemoteSpec;

    closed spec fn view(&self) -> RemoteSpec {
        RemoteSpec {
            pending: self.pending,
            browser_restart_in_progress: self.browser_restart_in_progress,
        }
    }
}

/// State after queueing `action` in `s`, and whether it was accepted.
pub open spec fn queue_spec(s: RemoteSpec, action: PendingAction) -> (RemoteSpec, bool) {
    match action {
        PendingAction::RestartAgent => (
            RemoteSpec { pending: Some(PendingAction::RestartAgent), ..s },
            true,
        ),
        PendingAction::RestartBrowser => if s.pending == Some(PendingAction::RestartAgent)
            || s.browser_restart_in_progress || s.pending == Some(
            PendingAction::RestartBrowser,
        ) {
            (s, false)
        } else {
            (RemoteSpec { pending: Some(PendingAction::RestartBrowser), ..s }, true)
        },
    }
}

impl RemoteControl {
    /// Nothing pending, no restart running.
    pub fn new() -> (r: Self)
        ensures
            r@ == (RemoteSpec { pending: None, browser_restart_in_progress: false }),
    {
        RemoteControl { pending: None, browser_restart_in_progress: false }
    }

    /// Queues a command. `false` = ignored (a restart is already running or
    /// outranks it); its id stays marked as handled.
    pub fn queue(&mut self, action: PendingAction) -> (r: bool)
        ensures
            (final(self)@, r) == queue_spec(old(self)@, action),
    {
        match action {
            PendingAction::RestartAgent => {
                self.pending = Some(PendingAction::RestartAgent);
                true
            },
            PendingAction::RestartBrowser => {
                if self.pending == Some(PendingAction::RestartAgent) {
                    return false;
                }
                if self.browser_restart_in_progress || self.pending == Some(
                    PendingAction::RestartBrowser,
                ) {
                    return false;
                }
                self.pending = Some(PendingAction::RestartBrowser);
                true
            },
        }
    }

    /// Takes and consumes the pending command.
    pub fn take(&mut self) -> (r: Option<PendingAction>)
        ensures
            r == old(self)@.pending,
            final(self)@ == (RemoteSpec { pending: None, ..old(self)@ }),
    {
        let r = self.pending;
        self.pending = None;
        r
    }

    pub fn begin_browser_restart(&mut self)
        ensures
            final(self)@ == (RemoteSpec { browser_restart_in_progress: true, ..old(self)@ }),
    {
        self.browser_restart_in_progress = true;
    }

    pub fn end_browser_restart(&mut self)
        ensures
            final(self)@ == (RemoteSpec { browser_restart_in_progress: false, ..old(self)@ }),
    {
        self.browser_restart_in_progress = false;
    }

    pub fn browser_restart_in_progress(&self) -> (r: bool)
        ensures
            r == self@.browser_restart_in_progress,
    {
        self.browser_restart_in_progress
    }
}

impl Default for RemoteControl {
    fn default() -> (r: Self)
        ensures
            r@ == (RemoteSpec { pending: None, browser_restart_in_progress: false }),
    {
        RemoteControl::new()
    }
}

/// `restart_agent` is never displaced: once queued, a `restart_browser` is
/// refused and leaves the state unchanged, and taking yields `restart_agent`.
pub proof fn law_restart_agent_has_priority(s: RemoteSpec)
    ensures
        ({
            let a = queue_spec(s, PendingAction::RestartAgent);
            &&& a.1
            &&& a.0.pending == Some(PendingAction::RestartAgent)
            &&& queue_spec(a.0, PendingAction::RestartBrowser) == (a.0, false)
        }),
{
}

/// While a browser restart is running, a new `restart_browser` is refused
/// and changes nothing.
pub proof fn law_no_second_browser_restart(s: RemoteSpec)
    requires
        s.browser_restart_in_progress,
    ensures
        queue_spec(s, PendingAction::RestartBrowser) == (s, false),
{
}

/// A duplicate `restart_browser` is refused while the first one waits.
pub proof fn law_browser_restart_queued_once(s: RemoteSpec)
    requires
        queue_spec(s, PendingAction::RestartBrowser).1,
    ensures
        ({
            let a = queue_spec(s, PendingAction::RestartBrowser).0;
            queue_spec(a, PendingAction::RestartBrowser) == (a, false)
        }),
{
}

/// An accepted command is what the next take returns.
pub proof fn law_accepted_command_is_taken(s: RemoteSpec, action: PendingAction)
    requires
        queue_spec(s, action).1,
    ensures
        queue_spec(s, action).0.pending == Some(action),
{
}

/// The last command id already handled; the orchestrator never runs a
/// command twice.
pub struct CommandStore {
    last_command_id: u64,
}

impl View for CommandStore {
    type V = u64;

    closed spec fn view(&self) -> u64 {
        self.last_command_id
    }
}

impl CommandStore {
    /// A store that resumes from the id read from disk (0 when none).
    pub fn new(last_command_id: u64) -> (r: Self)
        ensures
            r@ == last_command_id,
    {
        CommandStore { last_command_id }
    }

    pub fn last_command_id(&self) -> (r: u64)
        ensures
            r == self@,
    {
        self.last_command_id
    }

    /// Marks a command as handled, before anything destructive runs.
    pub fn mark_processed(&mut self, id: u64)
        ensures
            final(self)@ == id,
    {
        self.last_command_id = id;
    }
}

/// A command as served by NOC Manager.
pub struct RemoteCommand {
    pub id: u64,
    pub action: String,
}

/// Whether a command with id `id` runs when `last` is the last id handled.
pub open spec fn accepts(last: u64, id: u64) -> bool {
    id > last
}

/// The last id handled after a command with id `id` was polled.
pub open spec fn handled_after(last: u64, id: u64) -> u64 {
    if accepts(last, id) {
        id
    } else {
        last
    }
}

/// The first step of handling a polled command: ids up to the last handled
/// one are ignored (`false`; the id is remembered so that it is logged
/// once), others are marked handled at once (`true`).
pub fn accept_command(command: &RemoteCommand, store: &mut CommandStore, last_ignored_logged: &mut u64) -> (r: (bool, bool))
    ensures
        r.0 == accepts(old(store)@, command.id),
        final(store)@ == handled_after(old(store)@, command.id),
        r.0 ==> *final(last_ignored_logged) == *old(last_ignored_logged),
        !r.0 ==> *final(last_ignored_logged) == command.id && r.1 == (*old(
            last_ignored_logged,
        ) != command.id),
        r.0 ==> !r.1,
{
    if command.id <= store.last_command_id() {
        let log = *last_ignored_logged != command.id;
        *last_ignored_logged = command.id;
        return (false, log);
    }
    store.mark_processed(command.id);
    (true, false)
}

/// A command is never run twice: once a command has been accepted, neither
/// it nor any command with a lower id is accepted again.
pub proof fn law_accepted_command_never_replayed(last: u64, id: u64, later_id: u64)
    requires
        accepts(last, id),
        later_id <= id,
    ensures
        !accepts(handled_after(last, id), later_id),
{
}

/// The last handled id never decreases, whatever the Manager serves.
pub proof fn law_last_handled_never_decreases(last: u64, id: u64)
    ensures
        handled_after(last, id) >= last,
{
}

/// What running an accepted command did.
pub struct Execution {
    /// State to show, with the status screen brought to the front.
    pub show: Option<KioskState>,
    /// Whether the command was queued for the orchestrator.
    pub queued: bool,
}

/// The last step: `restart_browser` and `restart_agent` show their state
/// and are queued; any other action only gets logged.
pub fn execute_command(action: &str, remote: &mut RemoteControl) -> (r: Execution)
    ensures
        action@ == "restart_browser"@ ==> r.show == Some(KioskState::RemoteRestartBrowser) && (
        final(remote)@, r.queued) == queue_spec(old(remote)@, PendingAction::RestartBrowser),
        action@ == "restart_agent"@ ==> r.show == Some(KioskState::RemoteRestartAgent) && (
        final(remote)@, r.queued) == queue_spec(old(remote)@, PendingAction::RestartAgent),
        action@ != "restart_browser"@ && action@ != "restart_agent"@ ==> r.show is None
            && !r.queued && final(remote)@ == old(remote)@,
{
    proof {
        reveal_strlit("restart_browser");
        reveal_strlit("restart_agent");
        assert("restart_browser"@[8] != "restart_agent"@[8]);
    }
    if str_eq(action, "restart_browser") {
        let queued = remote.queue(PendingAction::RestartBrowser);
        Execution { show: Some(KioskState::RemoteRestartBrowser), queued }
    } else if str_eq(action, "restart_agent") {
        let queued = remote.queue(PendingAction::RestartAgent);
        Execution { show: Some(KioskState::RemoteRestartAgent), queued }
    } else {
        Execution { show: None, queued: false }
    }
}

/// Whether an endpoint of NOC Manager answers, as a poller tracks it to log
/// each change once: the new state, and whether it changed.
pub fn endpoint_transition(endpoint_ok: bool, available: bool) -> (r: (bool, bool))
    ensures
        r.0 == available,
        r.1 == (endpoint_ok != available),
{
    (available, endpoint_ok != available)
}

} // verus!
