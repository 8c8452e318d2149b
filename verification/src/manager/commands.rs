//! Remote commands queued for agents: at most one pending command per kiosk,
//! identified by an id that increases with every queued command.
use vstd::prelude::*;
use crate::manager::storage::{get_spec, Storage};
use crate::text::{owned, str_eq};

verus! {

/// The only actions an agent will ever be asked to run.
pub const RESTART_BROWSER: &'static str = "restart_browser";

pub const RESTART_AGENT: &'static str = "restart_agent";

/// `true` for the two allowed actions.
pub open spec fn allowed_action(a: Seq<char>) -> bool {
    a == RESTART_BROWSER@ || a == RESTART_AGENT@
}

pub fn is_allowed_action(action: &str) -> (r: bool)
    ensures
        r == allowed_action(action@),
{
    str_eq(action, RESTART_BROWSER) || str_eq(action, RESTART_AGENT)
}

/// Mathematical value of a [`KioskCommand`].
pub struct CommandSpec {
    pub id: u64,
    pub action: Seq<char>,
    pub created_at: Option<u64>,
}

#[derive(Debug)]
pub struct KioskCommand {
    pub id: u64,
    pub action: String,
    /// Unix seconds; absent in hand-written state files.
    pub created_at: Option<u64>,
}

impl View for KioskCommand {
    type V = CommandSpec;

    open spec fn view(&self) -> CommandSpec {
        CommandSpec { id: self.id, action: self.action@, created_at: self.created_at }
    }
}

impl Clone for KioskCommand {
    fn clone(&self) -> (r: Self)
        ensures
            r@ == self@,
    {
        KioskCommand { id: self.id, action: self.action.clone(), created_at: self.created_at }
    }
}

pub open spec fn opt_command_view(o: Option<KioskCommand>) -> Option<CommandSpec> {
    match o {
        Some(c) => Some(c@),
        None => None,
    }
}

#[derive(Debug)]
pub enum CommandError {
    KioskNotFound,
    InvalidAction,
    CommandNotFound,
    IdMismatch,
    Storage(String),
}

impl CommandError {
    /// Machine-readable code used in JSON error bodies.
    pub fn code(&self) -> (r: &'static str)
        ensures
            r@ == match self {
                CommandError::KioskNotFound => "kiosk_not_found"@,
                CommandError::InvalidAction => "invalid_action"@,
                CommandError::CommandNotFound => "command_not_found"@,
                CommandError::IdMismatch => "command_id_mismatch"@,
                CommandError::Storage(_) => "storage_error"@,
            },
    {
        match self {
            CommandError::KioskNotFound => "kiosk_not_found",
            CommandError::InvalidAction => "invalid_action",
            CommandError::CommandNotFound => "command_not_found",
            CommandError::IdMismatch => "command_id_mismatch",
            CommandError::Storage(_) => "storage_error",
        }
    }

    /// Human-readable message.
    pub fn message(&self) -> (r: String)
        ensures
            r@ == match self {
                CommandError::KioskNotFound => "kiosk not found"@,
                CommandError::InvalidAction => "action must be one of "@ + RESTART_BROWSER@
                    + ", "@ + RESTART_AGENT@,
                CommandError::CommandNotFound => "no pending command"@,
                CommandError::IdMismatch => "command id does not match the pending command"@,
                CommandError::Storage(e) => e@,
            },
    {
        match self {
            CommandError::KioskNotFound => owned("kiosk not found"),
            CommandError::InvalidAction => {
                let mut m = owned("action must be one of ");
                m.append(RESTART_BROWSER);
                m.append(", ");
                m.append(RESTART_AGENT);
                m
            },
            CommandError::CommandNotFound => owned("no pending command"),
            CommandError::IdMismatch => owned("command id does not match the pending command"),
            CommandError::Storage(e) => e.clone(),
        }
    }
}

/// One pending command of one kiosk.
pub struct PendingCommand {
    pub username: String,
    pub command: KioskCommand,
}

pub open spec fn entry_view(e: PendingCommand) -> (Seq<char>, CommandSpec) {
    (e.username@, e.command@)
}

pub open spec fn entries_view(es: Seq<PendingCommand>) -> Seq<(Seq<char>, CommandSpec)> {
    es.map_values(|e: PendingCommand| entry_view(e))
}

/// The command of the last entry for `u`.
pub open spec fn lookup(es: Seq<(Seq<char>, CommandSpec)>, u: Seq<char>) -> Option<CommandSpec>
    decreases es.len(),
{
    if es.len() == 0 {
        None
    } else if es.last().0 == u {
        Some(es.last().1)
    } else {
        lookup(es.drop_last(), u)
    }
}

/// No username occurs twice.
pub open spec fn distinct_keys(es: Seq<(Seq<char>, CommandSpec)>) -> bool {
    forall|i: int, j: int| 0 <= i < es.len() && 0 <= j < es.len() && i != j ==> es[i].0 != es[j].0
}

/// The entries without the one of `u`.
pub open spec fn without_key(es: Seq<(Seq<char>, CommandSpec)>, u: Seq<char>) -> Seq<
    (Seq<char>, CommandSpec),
>
    decreases es.len(),
{
    if es.len() == 0 {
        es
    } else if es.last().0 == u {
        without_key(es.drop_last(), u)
    } else {
        without_key(es.drop_last(), u).push(es.last())
    }
}

proof fn lemma_lookup_none(es: Seq<(Seq<char>, CommandSpec)>, u: Seq<char>)
    ensures
        lookup(es, u) is None <==> forall|i: int| 0 <= i < es.len() ==> (#[trigger] es[i]).0 != u,
    decreases es.len(),
{
    if es.len() > 0 {
        lemma_lookup_none(es.drop_last(), u);
        if lookup(es, u) is None {
            assert forall|i: int| 0 <= i < es.len() implies (#[trigger] es[i]).0 != u by {
                if i < es.len() - 1 {
                    assert(es[i] == es.drop_last()[i]);
                }
            }
        } else {
            if es.last().0 != u {
                let i = choose|i: int|
                    0 <= i < es.drop_last().len() && (#[trigger] es.drop_last()[i]).0 == u;
                assert(es[i] == es.drop_last()[i]);
            }
        }
    }
}

proof fn lemma_lookup_at(es: Seq<(Seq<char>, CommandSpec)>, i: int)
    requires
        distinct_keys(es),
        0 <= i < es.len(),
    ensures
        lookup(es, es[i].0) == Some(es[i].1),
    decreases es.len(),
{
    if i < es.len() - 1 {
        assert(es.last().0 != es[i].0);
        assert(es.drop_last()[i] == es[i]);
        assert(distinct_keys(es.drop_last())) by {
            assert forall|a: int, b: int|
                0 <= a < es.drop_last().len() && 0 <= b < es.drop_last().len() && a != b implies es.drop_last()[a].0
                != es.drop_last()[b].0 by {
                assert(es.drop_last()[a] == es[a] && es.drop_last()[b] == es[b]);
            }
        }
        lemma_lookup_at(es.drop_last(), i);
    }
}

proof fn lemma_lookup_update(
    es: Seq<(Seq<char>, CommandSpec)>,
    i: int,
    c: CommandSpec,
    v: Seq<char>,
)
    requires
        distinct_keys(es),
        0 <= i < es.len(),
    ensures
        lookup(es.update(i, (es[i].0, c)), v) == if v == es[i].0 {
            Some(c)
        } else {
            lookup(es, v)
        },
    decreases es.len(),
{
    let u = es[i].0;
    let upd = es.update(i, (u, c));
    if i == es.len() - 1 {
        assert(upd.drop_last() =~= es.drop_last());
    } else {
        assert(upd.last() == es.last());
        assert(upd.drop_last() =~= es.drop_last().update(i, (u, c)));
        assert(es.drop_last()[i] == es[i]);
        assert(distinct_keys(es.drop_last())) by {
            assert forall|a: int, b: int|
                0 <= a < es.drop_last().len() && 0 <= b < es.drop_last().len() && a != b implies es.drop_last()[a].0
                != es.drop_last()[b].0 by {
                assert(es.drop_last()[a] == es[a] && es.drop_last()[b] == es[b]);
            }
        }
        lemma_lookup_update(es.drop_last(), i, c, v);
        assert(es.last().0 != u);
    }
}

proof fn lemma_without_key(es: Seq<(Seq<char>, CommandSpec)>, u: Seq<char>, v: Seq<char>)
    ensures
        lookup(without_key(es, u), v) == if v == u {
            None
        } else {
            lookup(es, v)
        },
        forall|j: int|
            0 <= j < without_key(es, u).len() ==> es.contains(#[trigger] without_key(es, u)[j]),
    decreases es.len(),
{
    if es.len() > 0 {
        lemma_without_key(es.drop_last(), u, v);
        let r = without_key(es.drop_last(), u);
        assert forall|j: int| 0 <= j < without_key(es, u).len() implies es.contains(
            #[trigger] without_key(es, u)[j],
        ) by {
            if j < r.len() {
                let k = choose|k: int| 0 <= k < es.drop_last().len() && es.drop_last()[k] == r[j];
                assert(es[k] == r[j]);
            } else {
                assert(es[es.len() - 1] == es.last());
            }
        }
        if es.last().0 != u {
            assert(without_key(es, u).drop_last() =~= r);
        }
    }
}

proof fn lemma_without_key_distinct(es: Seq<(Seq<char>, CommandSpec)>, u: Seq<char>)
    requires
        distinct_keys(es),
    ensures
        distinct_keys(without_key(es, u)),
    decreases es.len(),
{
    if es.len() > 0 {
        let d = es.drop_last();
        assert(distinct_keys(d)) by {
            assert forall|a: int, b: int|
                0 <= a < d.len() && 0 <= b < d.len() && a != b implies d[a].0 != d[b].0 by {
                assert(d[a] == es[a] && d[b] == es[b]);
            }
        }
        lemma_without_key_distinct(d, u);
        lemma_without_key(d, u, u);
        let r = without_key(d, u);
        if es.last().0 != u {
            let w = r.push(es.last());
            assert forall|a: int, b: int|
                0 <= a < w.len() && 0 <= b < w.len() && a != b implies w[a].0 != w[b].0 by {
                if a < r.len() && b < r.len() {
                    assert(w[a] == r[a] && w[b] == r[b]);
                } else if a < r.len() {
                    assert(w[a] == r[a]);
                    assert(d.contains(r[a]));
                    let k = choose|k: int| 0 <= k < d.len() && d[k] == r[a];
                    assert(es[k] == d[k]);
                } else {
                    assert(w[b] == r[b]);
                    assert(d.contains(r[b]));
                    let k = choose|k: int| 0 <= k < d.len() && d[k] == r[b];
                    assert(es[k] == d[k]);
                }
            }
        }
    }
}

/// Mathematical value of a [`CommandStore`]: the next id to hand out and
/// the pending commands.
pub struct CommandStoreSpec {
    pub next_id: u64,
    pub pending: Seq<(Seq<char>, CommandSpec)>,
}

/// One pending command per kiosk.
pub struct CommandStore {
    next_id: u64,
    pending: Vec<PendingCommand>,
}

impl View for CommandStore {
    type V = CommandStoreSpec;

    closed spec fn view(&self) -> CommandStoreSpec {
        CommandStoreSpec { next_id: self.next_id, pending: entries_view(self.pending@) }
    }
}

/// `after` holds `c` as the pending command of `u` (none for `None`) and
/// the same pending command as `before` for every other kiosk.
pub open spec fn replaces_pending(
    before: CommandStoreSpec,
    after: CommandStoreSpec,
    u: Seq<char>,
    c: Option<CommandSpec>,
) -> bool {
    forall|v: Seq<char>|
        #[trigger] lookup(after.pending, v) == if v == u {
            c
        } else {
            lookup(before.pending, v)
        }
}

/// The id handed out after `id`.
pub open spec fn following_id(id: u64) -> u64 {
    if id == u64::MAX {
        id
    } else {
        (id + 1) as u64
    }
}

impl CommandStore {
    #[verifier::type_invariant]
    spec fn inv(&self) -> bool {
        distinct_keys(entries_view(self.pending@))
    }

    /// An empty store whose first id is 1.
    pub fn new() -> (s: Self)
        ensures
            s@.next_id == 1,
            s@.pending.len() == 0,
    {
        let s = CommandStore { next_id: 1, pending: Vec::new() };
        assert(entries_view(s.pending@) =~= Seq::<(Seq<char>, CommandSpec)>::empty());
        s
    }

    /// A store holding `entries` (a later entry for a kiosk replaces an
    /// earlier one) whose next id is `next_id`.
    pub fn restore(next_id: u64, entries: Vec<PendingCommand>) -> (s: Self)
        ensures
            s@.next_id == next_id,
            forall|v: Seq<char>| lookup(s@.pending, v) == lookup(entries_view(entries@), v),
    {
        let mut s = CommandStore::new();
        proof {
            use_type_invariant(&s);
        }
        s.next_id = next_id;
        let ghost es = entries_view(entries@);
        let mut i: usize = 0;
        while i < entries.len()
            invariant
                i <= entries@.len(),
                es == entries_view(entries@),
                s@.next_id == next_id,
                forall|v: Seq<char>| lookup(s@.pending, v) == lookup(es.take(i as int), v),
            decreases entries@.len() - i,
        {
            let e = &entries[i];
            let c = e.command.clone();
            s.put(e.username.as_str(), c);
            proof {
                assert(es.take(i + 1).drop_last() =~= es.take(i as int));
                assert(es.take(i + 1).last() == entry_view(entries@[i as int]));
            }
            i = i + 1;
        }
        assert(es.take(i as int) =~= es);
        s
    }

    /// The id the next queued command receives.
    pub fn next_id(&self) -> (r: u64)
        ensures
            r == self@.next_id,
    {
        self.next_id
    }

    fn find(&self, username: &str) -> (r: Option<usize>)
        ensures
            match r {
                Some(i) => i < self.pending@.len() && self.pending@[i as int].username@ == username@,
                None => lookup(self@.pending, username@) is None,
            },
    {
        proof {
            use_type_invariant(self);
        }
        let mut i: usize = 0;
        while i < self.pending.len()
            invariant
                i <= self.pending@.len(),
                forall|j: int| 0 <= j < i ==> (#[trigger] self.pending@[j]).username@ != username@,
            decreases self.pending@.len() - i,
        {
            if str_eq(self.pending[i].username.as_str(), username) {
                return Some(i);
            }
            i = i + 1;
        }
        proof {
            let es = entries_view(self.pending@);
            assert forall|j: int| 0 <= j < es.len() implies (#[trigger] es[j]).0 != username@ by {
                assert(es[j] == entry_view(self.pending@[j]));
            }
            lemma_lookup_none(es, username@);
        }
        None
    }

    /// Pending command for one kiosk, if any.
    pub fn pending(&self, username: &str) -> (r: Option<KioskCommand>)
        ensures
            opt_command_view(r) == lookup(self@.pending, username@),
    {
        proof {
            use_type_invariant(self);
        }
        match self.find(username) {
            Some(i) => {
                proof {
                    let es = entries_view(self.pending@);
                    assert(es[i as int] == entry_view(self.pending@[i as int]));
                    lemma_lookup_at(es, i as int);
                }
                Some(self.pending[i].command.clone())
            },
            None => None,
        }
    }

    /// Snapshot of every pending command.
    pub fn all_pending(&self) -> (r: Vec<PendingCommand>)
        ensures
            entries_view(r@) == self@.pending,
    {
        let mut r: Vec<PendingCommand> = Vec::new();
        let mut i: usize = 0;
        while i < self.pending.len()
            invariant
                i <= self.pending@.len(),
                entries_view(r@) == entries_view(self.pending@).take(i as int),
            decreases self.pending@.len() - i,
        {
            let e = PendingCommand {
                username: self.pending[i].username.clone(),
                command: self.pending[i].command.clone(),
            };
            let ghost before = r@;
            r.push(e);
            assert(entries_view(r@) =~= entries_view(before).push(entry_view(self.pending@[i as int])));
            assert(entries_view(self.pending@).take(i + 1) =~= entries_view(self.pending@).take(
                i as int,
            ).push(entry_view(self.pending@[i as int])));
            i = i + 1;
        }
        assert(entries_view(self.pending@).take(i as int) =~= entries_view(self.pending@));
        r
    }

    /// Stores `command` as the pending command of `username`, replacing any
    /// previous one.
    fn put(&mut self, username: &str, command: KioskCommand)
        ensures
            final(self)@.next_id == old(self)@.next_id,
            replaces_pending(old(self)@, final(self)@, username@, Some(command@)),
    {
        proof {
            use_type_invariant(&*self);
        }
        let ghost es = entries_view(self.pending@);
        let ghost c = command@;
        let mut pending = Vec::new();
        std::mem::swap(&mut pending, &mut self.pending);
        assert(entries_view(pending@) == es);
        match find_in(&pending, username) {
            Some(i) => {
                let entry = PendingCommand { username: owned(username), command };
                pending.set(i, entry);
                proof {
                    assert(es[i as int].0 == username@);
                    assert(entries_view(pending@) =~= es.update(i as int, (es[i as int].0, c)));
                    assert forall|v: Seq<char>| #[trigger]
                        lookup(entries_view(pending@), v) == if v == username@ {
                            Some(c)
                        } else {
                            lookup(es, v)
                        } by {
                        lemma_lookup_update(es, i as int, c, v);
                    }
                    assert forall|a: int, b: int|
                        0 <= a < entries_view(pending@).len() && 0 <= b < entries_view(
                            pending@,
                        ).len() && a != b implies entries_view(pending@)[a].0 != entries_view(
                        pending@,
                    )[b].0 by {
                        assert(entries_view(pending@)[a].0 == es[a].0);
                        assert(entries_view(pending@)[b].0 == es[b].0);
                    }
                }
            },
            None => {
                let entry = PendingCommand { username: owned(username), command };
                pending.push(entry);
                proof {
                    assert(entries_view(pending@) =~= es.push((username@, c)));
                    lemma_lookup_none(es, username@);
                    let n = es.push((username@, c));
                    assert forall|a: int, b: int|
                        0 <= a < n.len() && 0 <= b < n.len() && a != b implies n[a].0
                        != n[b].0 by {
                        if a < es.len() {
                            assert(n[a] == es[a]);
                        }
                        if b < es.len() {
                            assert(n[b] == es[b]);
                        }
                    }
                    assert forall|v: Seq<char>| #[trigger]
                        lookup(n, v) == if v == username@ {
                            Some(c)
                        } else {
                            lookup(es, v)
                        } by {
                        assert(n.drop_last() =~= es);
                    }
                }
            },
        }
        self.pending = pending;
    }

    /// Queues a command, replacing any previous pending one for that kiosk.
    /// The new command takes the next id; ids then advance (saturating).
    pub fn queue(&mut self, username: &str, action: &str, created_at: Option<u64>) -> (r:
        KioskCommand)
        ensures
            r@ == (CommandSpec { id: old(self)@.next_id, action: action@, created_at }),
            final(self)@.next_id == following_id(old(self)@.next_id),
            replaces_pending(old(self)@, final(self)@, username@, Some(r@)),
    {
        proof {
            use_type_invariant(&*self);
        }
        let id = self.next_id;
        self.next_id = if self.next_id == u64::MAX {
            self.next_id
        } else {
            self.next_id + 1
        };
        let command = KioskCommand { id, action: owned(action), created_at };
        let result = command.clone();
        self.put(username, command);
        result
    }

    /// Removes the pending command once the agent confirms it ran. An ack for
    /// another id never deletes the pending command.
    pub fn ack(&mut self, username: &str, id: u64) -> (r: Result<(), CommandError>)
        ensures
            final(self)@.next_id == old(self)@.next_id,
            match lookup(old(self)@.pending, username@) {
                None => (r matches Err(CommandError::CommandNotFound) && final(self)@
                    == old(self)@),
                Some(c) => if c.id != id {
                    (r matches Err(CommandError::IdMismatch) && final(self)@ == old(self)@)
                } else {
                    r is Ok && replaces_pending(old(self)@, final(self)@, username@, None)
                },
            },
    {
        proof {
            use_type_invariant(&*self);
        }
        let pending = match self.pending(username) {
            Some(c) => c,
            None => {
                return Err(CommandError::CommandNotFound);
            },
        };
        if pending.id != id {
            return Err(CommandError::IdMismatch);
        }
        let ghost es = entries_view(self.pending@);
        let mut kept: Vec<PendingCommand> = Vec::new();
        let mut i: usize = 0;
        while i < self.pending.len()
            invariant
                i <= self.pending@.len(),
                es == entries_view(self.pending@),
                entries_view(kept@) == without_key(es.take(i as int), username@),
            decreases self.pending@.len() - i,
        {
            let ghost pre = es.take(i as int);
            let ghost post = es.take(i + 1);
            assert(post.drop_last() =~= pre);
            assert(post.last() == entry_view(self.pending@[i as int]));
            if !str_eq(self.pending[i].username.as_str(), username) {
                let e = PendingCommand {
                    username: self.pending[i].username.clone(),
                    command: self.pending[i].command.clone(),
                };
                let ghost before = kept@;
                kept.push(e);
                assert(entries_view(kept@) =~= entries_view(before).push(post.last()));
            }
            i = i + 1;
        }
        assert(es.take(i as int) =~= es);
        proof {
            lemma_without_key_distinct(es, username@);
            assert forall|v: Seq<char>| #[trigger]
                lookup(entries_view(kept@), v) == if v == username@ {
                    None
                } else {
                    lookup(es, v)
                } by {
                lemma_without_key(es, username@, v);
            }
        }
        self.pending = kept;
        Ok(())
    }
}

fn find_in(pending: &Vec<PendingCommand>, username: &str) -> (r: Option<usize>)
    requires
        distinct_keys(entries_view(pending@)),
    ensures
        match r {
            Some(i) => i < pending@.len() && pending@[i as int].username@ == username@,
            None => lookup(entries_view(pending@), username@) is None,
        },
{
    let mut i: usize = 0;
    while i < pending.len()
        invariant
            i <= pending@.len(),
            forall|j: int| 0 <= j < i ==> (#[trigger] pending@[j]).username@ != username@,
        decreases pending@.len() - i,
    {
        if str_eq(pending[i].username.as_str(), username) {
            return Some(i);
        }
        i = i + 1;
    }
    proof {
        let es = entries_view(pending@);
        assert forall|j: int| 0 <= j < es.len() implies (#[trigger] es[j]).0 != username@ by {
            assert(es[j] == entry_view(pending@[j]));
        }
        lemma_lookup_none(es, username@);
    }
    None
}

/// Entry point of the web UI and the admin API: the kiosk must exist, the
/// action must be allowed; then a fresh id is allocated and the previous
/// pending command is replaced. The creation time is read from the clock.
pub fn queue_command(kiosks: &Storage, commands: &mut CommandStore, username: &str, action: &str) -> (r:
    Result<KioskCommand, CommandError>)
    ensures
        get_spec(kiosks@, username@) is None ==> (r matches Err(CommandError::KioskNotFound)
            && final(commands)@ == old(commands)@),
        get_spec(kiosks@, username@) is Some && !allowed_action(action@) ==> (r matches Err(
            CommandError::InvalidAction,
        ) && final(commands)@ == old(commands)@),
        get_spec(kiosks@, username@) is Some && allowed_action(action@) ==> (r matches Ok(c)
            && c.id == old(commands)@.next_id && c.action@ == action@ && final(commands)@.next_id
            == following_id(old(commands)@.next_id) && replaces_pending(
            old(commands)@,
            final(commands)@,
            username@,
            Some(c@),
        )),
{
    if kiosks.get(username).is_none() {
        return Err(CommandError::KioskNotFound);
    }
    if !is_allowed_action(action) {
        return Err(CommandError::InvalidAction);
    }
    let created_at = crate::clock::unix_seconds();
    Ok(commands.queue(username, action, created_at))
}

// ------------------------------------------------------------------- laws

/// What `pending` reads back after `queue`: the command just queued for that
/// kiosk, and for every other kiosk what it read before.
pub proof fn law_pending_after_queue(
    before: CommandStoreSpec,
    after: CommandStoreSpec,
    u: Seq<char>,
    c: CommandSpec,
    v: Seq<char>,
)
    requires
        replaces_pending(before, after, u, Some(c)),
    ensures
        lookup(after.pending, u) == Some(c),
        v != u ==> lookup(after.pending, v) == lookup(before.pending, v),
{
    assert(lookup(after.pending, u) == Some(c));
    assert(lookup(after.pending, v) == if v == u {
        Some(c)
    } else {
        lookup(before.pending, v)
    });
}

/// Acknowledging the command just queued for a kiosk leaves that kiosk with
/// no pending command and every other kiosk with the one it had before the
/// queue.
pub proof fn law_ack_undoes_queue(
    s0: CommandStoreSpec,
    s1: CommandStoreSpec,
    s2: CommandStoreSpec,
    u: Seq<char>,
    c: CommandSpec,
)
    requires
        replaces_pending(s0, s1, u, Some(c)),
        replaces_pending(s1, s2, u, None),
    ensures
        replaces_pending(s0, s2, u, None),
{
    assert forall|v: Seq<char>|
        #[trigger] lookup(s2.pending, v) == if v == u {
            None
        } else {
            lookup(s0.pending, v)
        } by {
        assert(lookup(s2.pending, v) == if v == u {
            None
        } else {
            lookup(s1.pending, v)
        });
        assert(lookup(s1.pending, v) == if v == u {
            Some(c)
        } else {
            lookup(s0.pending, v)
        });
    }
}

} // verus!
