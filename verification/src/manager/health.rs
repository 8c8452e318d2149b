//! Heartbeats sent periodically by NOC Agent and NOC Display, and their
//! rendering as Prometheus metrics for Grafana. Purely in-memory.
use vstd::prelude::*;
use crate::text::{chars_of, decimal, owned, str_eq, u64_to_string};

verus! {

pub const APP_AGENT: &'static str = "agent";

pub const APP_DISPLAY: &'static str = "display";

/// `true` for the two applications that send heartbeats.
pub open spec fn allowed_app(a: Seq<char>) -> bool {
    a == APP_AGENT@ || a == APP_DISPLAY@
}

pub fn is_allowed_app(app: &str) -> (r: bool)
    ensures
        r == allowed_app(app@),
{
    str_eq(app, APP_AGENT) || str_eq(app, APP_DISPLAY)
}

/// Mathematical value of a [`Heartbeat`].
pub struct HeartbeatSpec {
    pub version: Seq<char>,
    pub build: Seq<char>,
    pub state: Seq<char>,
    pub last_seen: u64,
}

pub struct Heartbeat {
    pub version: String,
    pub build: String,
    pub state: String,
    pub last_seen: u64,
}

impl View for Heartbeat {
    type V = HeartbeatSpec;

    open spec fn view(&self) -> HeartbeatSpec {
        HeartbeatSpec {
            version: self.version@,
            build: self.build@,
            state: self.state@,
            last_seen: self.last_seen,
        }
    }
}

impl Clone for Heartbeat {
    fn clone(&self) -> (r: Self)
        ensures
            r@ == self@,
    {
        Heartbeat {
            version: self.version.clone(),
            build: self.build.clone(),
            state: self.state.clone(),
            last_seen: self.last_seen,
        }
    }
}

/// What a client sends: its version, build and state.
pub struct HeartbeatBody {
    pub version: String,
    pub build: String,
    pub state: String,
}

/// `true` when a heartbeat was received recently enough to be considered
/// alive.
pub open spec fn up_spec(last_seen: u64, now: u64, stale_after_seconds: u64) -> bool {
    (if now >= last_seen {
        now - last_seen
    } else {
        0
    }) <= stale_after_seconds
}

pub fn is_up(heartbeat: &Heartbeat, now: u64, stale_after_seconds: u64) -> (r: bool)
    ensures
        r == up_spec(heartbeat.last_seen, now, stale_after_seconds),
{
    now.saturating_sub(heartbeat.last_seen) <= stale_after_seconds
}

/// Current Unix time in seconds (0 before 1970).
pub fn now_unix() -> u64 {
    match crate::clock::unix_seconds() {
        Some(s) => s,
        None => 0,
    }
}

// ---------------------------------------------------------------- ordering

/// Lexicographic order of character sequences, by code point (the order of
/// `String` comparison, since UTF-8 preserves code point order).
pub open spec fn lex_lt(a: Seq<char>, b: Seq<char>) -> bool
    decreases a.len(),
{
    if a.len() == 0 {
        b.len() > 0
    } else if b.len() == 0 {
        false
    } else if (a[0] as u32) < (b[0] as u32) {
        true
    } else if a[0] == b[0] {
        lex_lt(a.drop_first(), b.drop_first())
    } else {
        false
    }
}

proof fn lemma_char_eq(a: char, b: char)
    ensures
        (a as u32 == b as u32) == (a == b),
{
}

pub proof fn lemma_lex_irreflexive(a: Seq<char>)
    ensures
        !lex_lt(a, a),
    decreases a.len(),
{
    if a.len() > 0 {
        lemma_lex_irreflexive(a.drop_first());
    }
}

pub proof fn lemma_lex_total(a: Seq<char>, b: Seq<char>)
    ensures
        a == b || lex_lt(a, b) || lex_lt(b, a),
        !(lex_lt(a, b) && lex_lt(b, a)),
    decreases a.len(),
{
    if a.len() > 0 && b.len() > 0 {
        lemma_char_eq(a[0], b[0]);
        lemma_lex_total(a.drop_first(), b.drop_first());
        if a[0] == b[0] && a.drop_first() == b.drop_first() {
            assert(a =~= seq![a[0]] + a.drop_first());
            assert(b =~= seq![b[0]] + b.drop_first());
        }
    } else if a.len() == 0 && b.len() == 0 {
        assert(a =~= b);
    }
}

pub proof fn lemma_lex_transitive(a: Seq<char>, b: Seq<char>, c: Seq<char>)
    requires
        lex_lt(a, b),
        lex_lt(b, c),
    ensures
        lex_lt(a, c),
    decreases a.len(),
{
    if a.len() > 0 && b.len() > 0 && c.len() > 0 {
        lemma_char_eq(a[0], b[0]);
        lemma_char_eq(b[0], c[0]);
        lemma_char_eq(a[0], c[0]);
        if a[0] == b[0] && b[0] == c[0] {
            lemma_lex_transitive(a.drop_first(), b.drop_first(), c.drop_first());
        }
    }
}

/// `a < b` on character sequences.
pub fn lex_less(a: &Vec<char>, b: &Vec<char>) -> (r: bool)
    ensures
        r == lex_lt(a@, b@),
{
    let mut i: usize = 0;
    assert(a@.subrange(0, a.len() as int) =~= a@);
    assert(b@.subrange(0, b.len() as int) =~= b@);
    while i < a.len() && i < b.len() && a[i] == b[i]
        invariant
            i <= a.len(),
            i <= b.len(),
            lex_lt(a@, b@) == lex_lt(a@.subrange(i as int, a.len() as int), b@.subrange(
                i as int,
                b.len() as int,
            )),
        decreases a.len() - i,
    {
        let ghost x = a@.subrange(i as int, a.len() as int);
        let ghost y = b@.subrange(i as int, b.len() as int);
        assert(x.drop_first() =~= a@.subrange(i + 1, a.len() as int));
        assert(y.drop_first() =~= b@.subrange(i + 1, b.len() as int));
        assert(x[0] == a@[i as int] && y[0] == b@[i as int]);
        i = i + 1;
    }
    let ghost x = a@.subrange(i as int, a.len() as int);
    let ghost y = b@.subrange(i as int, b.len() as int);
    if i == a.len() {
        i < b.len()
    } else if i == b.len() {
        false
    } else {
        assert(x[0] == a@[i as int] && y[0] == b@[i as int]);
        proof {
            lemma_char_eq(a@[i as int], b@[i as int]);
        }
        (a[i] as u32) < (b[i] as u32)
    }
}

/// A heartbeat key: application and username.
pub open spec fn key_lt(a: (Seq<char>, Seq<char>), b: (Seq<char>, Seq<char>)) -> bool {
    lex_lt(a.0, b.0) || (a.0 == b.0 && lex_lt(a.1, b.1))
}

pub proof fn lemma_key_total(a: (Seq<char>, Seq<char>), b: (Seq<char>, Seq<char>))
    ensures
        a == b || key_lt(a, b) || key_lt(b, a),
        !(key_lt(a, b) && key_lt(b, a)),
        !key_lt(a, a),
{
    lemma_lex_total(a.0, b.0);
    lemma_lex_total(a.1, b.1);
    lemma_lex_irreflexive(a.0);
    lemma_lex_irreflexive(a.1);
}

pub proof fn lemma_key_transitive(
    a: (Seq<char>, Seq<char>),
    b: (Seq<char>, Seq<char>),
    c: (Seq<char>, Seq<char>),
)
    requires
        key_lt(a, b),
        key_lt(b, c),
    ensures
        key_lt(a, c),
{
    if lex_lt(a.0, b.0) && lex_lt(b.0, c.0) {
        lemma_lex_transitive(a.0, b.0, c.0);
    } else if lex_lt(a.1, b.1) && lex_lt(b.1, c.1) {
        lemma_lex_transitive(a.1, b.1, c.1);
    }
}

// ------------------------------------------------------------------ store

/// One recorded client.
pub struct HealthEntry {
    pub app: String,
    pub username: String,
    pub heartbeat: Heartbeat,
}

pub type EntrySpec = ((Seq<char>, Seq<char>), HeartbeatSpec);

pub open spec fn health_entry_view(e: HealthEntry) -> EntrySpec {
    ((e.app@, e.username@), e.heartbeat@)
}

pub open spec fn health_entries_view(es: Seq<HealthEntry>) -> Seq<EntrySpec> {
    es.map_values(|e: HealthEntry| health_entry_view(e))
}

/// Keys strictly increase along the sequence.
pub open spec fn strictly_sorted(es: Seq<EntrySpec>) -> bool {
    forall|i: int, j: int| 0 <= i < j < es.len() ==> key_lt(es[i].0, es[j].0)
}

/// The heartbeat recorded for `k`.
pub open spec fn heartbeat_of(es: Seq<EntrySpec>, k: (Seq<char>, Seq<char>)) -> Option<
    HeartbeatSpec,
>
    decreases es.len(),
{
    if es.len() == 0 {
        None
    } else if es.last().0 == k {
        Some(es.last().1)
    } else {
        heartbeat_of(es.drop_last(), k)
    }
}

/// The latest heartbeat of every (application, username) pair.
pub struct HealthStore {
    entries: Vec<HealthEntry>,
}

impl View for HealthStore {
    type V = Seq<EntrySpec>;

    closed spec fn view(&self) -> Seq<EntrySpec> {
        health_entries_view(self.entries@)
    }
}

pub open spec fn opt_heartbeat_view(o: Option<Heartbeat>) -> Option<HeartbeatSpec> {
    match o {
        Some(h) => Some(h@),
        None => None,
    }
}

proof fn lemma_heartbeat_of_at(es: Seq<EntrySpec>, i: int)
    requires
        strictly_sorted(es),
        0 <= i < es.len(),
    ensures
        heartbeat_of(es, es[i].0) == Some(es[i].1),
    decreases es.len(),
{
    if i < es.len() - 1 {
        lemma_key_total(es[i].0, es.last().0);
        assert(key_lt(es[i].0, es[es.len() - 1].0));
        assert(es.drop_last()[i] == es[i]);
        lemma_heartbeat_of_at(es.drop_last(), i);
    }
}

proof fn lemma_heartbeat_of_none(es: Seq<EntrySpec>, k: (Seq<char>, Seq<char>))
    requires
        forall|j: int| 0 <= j < es.len() ==> (#[trigger] es[j]).0 != k,
    ensures
        heartbeat_of(es, k) is None,
    decreases es.len(),
{
    if es.len() > 0 {
        assert(es[es.len() - 1] == es.last());
        assert forall|j: int| 0 <= j < es.drop_last().len() implies (
        #[trigger] es.drop_last()[j]).0 != k by {
            assert(es.drop_last()[j] == es[j]);
        }
        lemma_heartbeat_of_none(es.drop_last(), k);
    }
}

proof fn lemma_heartbeat_of_insert(es: Seq<EntrySpec>, p: int, e: EntrySpec, k: (
    Seq<char>,
    Seq<char>,
))
    requires
        0 <= p <= es.len(),
        forall|j: int| 0 <= j < es.len() ==> (#[trigger] es[j]).0 != e.0,
    ensures
        heartbeat_of(es.insert(p, e), k) == if k == e.0 {
            Some(e.1)
        } else {
            heartbeat_of(es, k)
        },
    decreases es.len(),
{
    let n = es.insert(p, e);
    if p == es.len() {
        assert(n.drop_last() =~= es);
        if k == e.0 {
        } else {
        }
    } else {
        assert(n.last() == es.last());
        assert(n.drop_last() =~= es.drop_last().insert(p, e));
        assert forall|j: int| 0 <= j < es.drop_last().len() implies (
        #[trigger] es.drop_last()[j]).0 != e.0 by {
            assert(es.drop_last()[j] == es[j]);
        }
        assert(es[es.len() - 1] == es.last());
        lemma_heartbeat_of_insert(es.drop_last(), p, e, k);
    }
}

proof fn lemma_heartbeat_of_update(es: Seq<EntrySpec>, p: int, h: HeartbeatSpec, k: (
    Seq<char>,
    Seq<char>,
))
    requires
        strictly_sorted(es),
        0 <= p < es.len(),
    ensures
        heartbeat_of(es.update(p, (es[p].0, h)), k) == if k == es[p].0 {
            Some(h)
        } else {
            heartbeat_of(es, k)
        },
    decreases es.len(),
{
    let n = es.update(p, (es[p].0, h));
    if p == es.len() - 1 {
        assert(n.drop_last() =~= es.drop_last());
    } else {
        assert(n.last() == es.last());
        assert(n.drop_last() =~= es.drop_last().update(p, (es[p].0, h)));
        lemma_key_total(es[p].0, es.last().0);
        assert(key_lt(es[p].0, es[es.len() - 1].0));
        assert(es.drop_last()[p] == es[p]);
        lemma_heartbeat_of_update(es.drop_last(), p, h, k);
    }
}

pub fn key_less(app_a: &Vec<char>, user_a: &Vec<char>, app_b: &Vec<char>, user_b: &Vec<char>) -> (r:
    bool)
    ensures
        r == key_lt((app_a@, user_a@), (app_b@, user_b@)),
{
    if lex_less(app_a, app_b) {
        true
    } else if vec_eq(app_a, app_b) {
        lex_less(user_a, user_b)
    } else {
        false
    }
}

fn vec_eq(a: &Vec<char>, b: &Vec<char>) -> (r: bool)
    ensures
        r == (a@ == b@),
{
    if a.len() != b.len() {
        return false;
    }
    let mut i: usize = 0;
    while i < a.len()
        invariant
            i <= a.len(),
            a.len() == b.len(),
            forall|j: int| 0 <= j < i ==> a@[j] == b@[j],
        decreases a.len() - i,
    {
        if a[i] != b[i] {
            return false;
        }
        i = i + 1;
    }
    assert(a@ =~= b@);
    true
}

impl Default for HealthStore {
    fn default() -> (s: Self)
        ensures
            s@.len() == 0,
    {
        HealthStore::new()
    }
}

impl HealthStore {
    #[verifier::type_invariant]
    spec fn inv(&self) -> bool {
        strictly_sorted(health_entries_view(self.entries@))
    }

    /// An empty store.
    pub fn new() -> (s: Self)
        ensures
            s@.len() == 0,
    {
        let s = HealthStore { entries: Vec::new() };
        assert(health_entries_view(s.entries@) =~= Seq::<EntrySpec>::empty());
        s
    }

    /// Records a heartbeat received at time `now` (Unix seconds).
    pub fn record_at(&mut self, app: &str, username: &str, body: HeartbeatBody, now: u64)
        ensures
            strictly_sorted(final(self)@),
            forall|k: (Seq<char>, Seq<char>)|
                heartbeat_of(final(self)@, k) == if k == (app@, username@) {
                    Some(
                        HeartbeatSpec {
                            version: body.version@,
                            build: body.build@,
                            state: body.state@,
                            last_seen: now,
                        },
                    )
                } else {
                    heartbeat_of(old(self)@, k)
                },
    {
        proof {
            use_type_invariant(&*self);
        }
        let ghost key = (app@, username@);
        let heartbeat = Heartbeat {
            version: body.version,
            build: body.build,
            state: body.state,
            last_seen: now,
        };
        let ghost h = heartbeat@;
        let a = chars_of(app);
        let u = chars_of(username);
        let mut entries = Vec::new();
        std::mem::swap(&mut entries, &mut self.entries);
        let ghost es = health_entries_view(entries@);
        let mut p: usize = 0;
        while p < entries.len()
            invariant
                p <= entries@.len(),
                es == health_entries_view(entries@),
                strictly_sorted(es),
                es == old(self)@,
                key == (app@, username@),
                h == heartbeat@,
                h == (HeartbeatSpec {
                    version: body.version@,
                    build: body.build@,
                    state: body.state@,
                    last_seen: now,
                }),
                a@ == key.0,
                u@ == key.1,
                forall|j: int| 0 <= j < p ==> key_lt((#[trigger] es[j]).0, key),
            decreases entries@.len() - p,
        {
            let ea = chars_of(entries[p].app.as_str());
            let eu = chars_of(entries[p].username.as_str());
            assert(es[p as int].0 == (ea@, eu@));
            if vec_eq(&ea, &a) && vec_eq(&eu, &u) {
                let entry = HealthEntry {
                    app: owned(app),
                    username: owned(username),
                    heartbeat,
                };
                entries.set(p, entry);
                proof {
                    let n = health_entries_view(entries@);
                    assert(n =~= es.update(p as int, (es[p as int].0, h)));
                    assert forall|i: int, j: int| 0 <= i < j < n.len() implies key_lt(
                        n[i].0,
                        n[j].0,
                    ) by {
                        assert(n[i].0 == es[i].0 && n[j].0 == es[j].0);
                    }
                    assert forall|k: (Seq<char>, Seq<char>)| #[trigger]
                        heartbeat_of(n, k) == if k == key {
                            Some(h)
                        } else {
                            heartbeat_of(es, k)
                        } by {
                        lemma_heartbeat_of_update(es, p as int, h, k);
                    }
                }
                self.entries = entries;
                return;
            }
            if key_less(&a, &u, &ea, &eu) {
                let entry = HealthEntry {
                    app: owned(app),
                    username: owned(username),
                    heartbeat,
                };
                entries.insert(p, entry);
                proof {
                    let e = (key, h);
                    let n = health_entries_view(entries@);
                    assert(n =~= es.insert(p as int, e));
                    assert forall|j: int| 0 <= j < es.len() implies (#[trigger] es[j]).0
                        != key by {
                        if j < p {
                            lemma_key_total(es[j].0, key);
                        } else if j > p {
                            lemma_key_transitive(key, es[p as int].0, es[j].0);
                            lemma_key_total(es[j].0, key);
                        } else {
                            lemma_key_total(es[j].0, key);
                        }
                    }
                    assert forall|i: int, j: int| 0 <= i < j < n.len() implies key_lt(
                        n[i].0,
                        n[j].0,
                    ) by {
                        if j < p {
                            assert(n[i] == es[i] && n[j] == es[j]);
                        } else if j == p {
                            assert(n[i] == es[i]);
                        } else if i < p {
                            assert(n[i] == es[i] && n[j] == es[j - 1]);
                            if j - 1 > p {
                                lemma_key_transitive(key, es[p as int].0, es[j - 1].0);
                            }
                            lemma_key_transitive(es[i].0, key, es[j - 1].0);
                        } else if i == p {
                            assert(n[j] == es[j - 1]);
                            if j - 1 > p {
                                lemma_key_transitive(key, es[p as int].0, es[j - 1].0);
                            }
                        } else {
                            assert(n[i] == es[i - 1] && n[j] == es[j - 1]);
                        }
                    }
                    assert forall|k: (Seq<char>, Seq<char>)| #[trigger]
                        heartbeat_of(n, k) == if k == key {
                            Some(h)
                        } else {
                            heartbeat_of(es, k)
                        } by {
                        lemma_heartbeat_of_insert(es, p as int, e, k);
                    }
                }
                self.entries = entries;
                return;
            }
            proof {
                lemma_key_total(es[p as int].0, key);
            }
            p = p + 1;
        }
        let entry = HealthEntry { app: owned(app), username: owned(username), heartbeat };
        entries.push(entry);
        proof {
            let e = (key, h);
            let n = health_entries_view(entries@);
            assert(n =~= es.insert(p as int, e));
            assert forall|j: int| 0 <= j < es.len() implies (#[trigger] es[j]).0 != key by {
                lemma_key_total(es[j].0, key);
            }
            assert forall|i: int, j: int| 0 <= i < j < n.len() implies key_lt(
                n[i].0,
                n[j].0,
            ) by {
                assert(n[i] == es[i]);
                if j < es.len() {
                    assert(n[j] == es[j]);
                }
            }
            assert forall|k: (Seq<char>, Seq<char>)| #[trigger]
                heartbeat_of(n, k) == if k == key {
                    Some(h)
                } else {
                    heartbeat_of(es, k)
                } by {
                lemma_heartbeat_of_insert(es, p as int, e, k);
            }
        }
        self.entries = entries;
    }

    /// Records a heartbeat received now. Nothing is said of the time read
    /// from the clock.
    pub fn record(&mut self, app: &str, username: &str, body: HeartbeatBody)
        ensures
            strictly_sorted(final(self)@),
            forall|k: (Seq<char>, Seq<char>)|
                k != (app@, username@) ==> heartbeat_of(final(self)@, k) == heartbeat_of(
                    old(self)@,
                    k,
                ),
            heartbeat_of(final(self)@, (app@, username@)) matches Some(h) && h.version
                == body.version@ && h.build == body.build@ && h.state == body.state@,
    {
        let now = now_unix();
        self.record_at(app, username, body, now);
    }

    /// Latest heartbeat for one (app, username) pair, if any was received.
    pub fn get(&self, app: &str, username: &str) -> (r: Option<Heartbeat>)
        ensures
            opt_heartbeat_view(r) == heartbeat_of(self@, (app@, username@)),
    {
        proof {
            use_type_invariant(self);
        }
        let ghost key = (app@, username@);
        let ghost es = health_entries_view(self.entries@);
        let mut i: usize = 0;
        while i < self.entries.len()
            invariant
                i <= self.entries@.len(),
                es == health_entries_view(self.entries@),
                strictly_sorted(es),
                key == (app@, username@),
                forall|j: int| 0 <= j < i ==> (#[trigger] es[j]).0 != key,
            decreases self.entries@.len() - i,
        {
            if str_eq(self.entries[i].app.as_str(), app) && str_eq(
                self.entries[i].username.as_str(),
                username,
            ) {
                proof {
                    assert(es[i as int].0 == key);
                    lemma_heartbeat_of_at(es, i as int);
                }
                return Some(self.entries[i].heartbeat.clone());
            }
            i = i + 1;
        }
        proof {
            lemma_heartbeat_of_none(es, key);
        }
        None
    }

    /// Every recorded client, ordered by (application, username).
    pub fn snapshot(&self) -> (r: Vec<HealthEntry>)
        ensures
            health_entries_view(r@) == self@,
            strictly_sorted(health_entries_view(r@)),
    {
        proof {
            use_type_invariant(self);
        }
        let mut r: Vec<HealthEntry> = Vec::new();
        let mut i: usize = 0;
        while i < self.entries.len()
            invariant
                i <= self.entries@.len(),
                health_entries_view(r@) == health_entries_view(self.entries@).take(i as int),
            decreases self.entries@.len() - i,
        {
            let e = HealthEntry {
                app: self.entries[i].app.clone(),
                username: self.entries[i].username.clone(),
                heartbeat: self.entries[i].heartbeat.clone(),
            };
            let ghost before = r@;
            r.push(e);
            assert(health_entries_view(r@) =~= health_entries_view(before).push(
                health_entry_view(self.entries@[i as int]),
            ));
            assert(health_entries_view(self.entries@).take(i + 1) =~= health_entries_view(
                self.entries@,
            ).take(i as int).push(health_entry_view(self.entries@[i as int])));
            i = i + 1;
        }
        assert(health_entries_view(self.entries@).take(i as int) =~= health_entries_view(
            self.entries@,
        ));
        r
    }
}

// -------------------------------------------------------------- rendering

/// Escapes a Prometheus label value: backslash, double quote and newline.
pub open spec fn escape_label(s: Seq<char>) -> Seq<char>
    decreases s.len(),
{
    if s.len() == 0 {
        s
    } else {
        escape_label(s.drop_last()) + escape_char(s.last())
    }
}

pub open spec fn escape_char(c: char) -> Seq<char> {
    if c == '\\' {
        seq!['\\', '\\']
    } else if c == '"' {
        seq!['\\', '"']
    } else if c == '\n' {
        seq!['\\', 'n']
    } else {
        seq![c]
    }
}

pub fn escape(value: &str) -> (r: String)
    ensures
        r@ == escape_label(value@),
{
    let v = chars_of(value);
    let mut out = String::new();
    let mut i: usize = 0;
    while i < v.len()
        invariant
            i <= v.len(),
            v@ == value@,
            out@ == escape_label(v@.take(i as int)),
        decreases v.len() - i,
    {
        let c = v[i];
        let ghost before = out@;
        if c == '\\' {
            out.push('\\');
            out.push('\\');
        } else if c == '"' {
            out.push('\\');
            out.push('"');
        } else if c == '\n' {
            out.push('\\');
            out.push('n');
        } else {
            out.push(c);
        }
        assert(v@.take(i + 1).drop_last() =~= v@.take(i as int));
        assert(out@ =~= before + escape_char(c));
        i = i + 1;
    }
    assert(v@.take(i as int) =~= v@);
    out
}

/// Reads an escaped label value back, as a Prometheus parser does.
pub open spec fn unescape_label(t: Seq<char>) -> Seq<char>
    decreases t.len(),
{
    if t.len() == 0 {
        t
    } else if t[0] == '\\' && t.len() >= 2 {
        (if t[1] == 'n' {
            seq!['\n']
        } else {
            seq![t[1]]
        }) + unescape_label(t.subrange(2, t.len() as int))
    } else {
        seq![t[0]] + unescape_label(t.drop_first())
    }
}

proof fn lemma_escape_label_concat(a: Seq<char>, b: Seq<char>)
    ensures
        escape_label(a + b) == escape_label(a) + escape_label(b),
    decreases b.len(),
{
    if b.len() == 0 {
        assert(a + b =~= a);
        assert(escape_label(a) + escape_label(b) =~= escape_label(a));
    } else {
        lemma_escape_label_concat(a, b.drop_last());
        assert((a + b).drop_last() =~= a + b.drop_last());
        assert((a + b).last() == b.last());
        assert(escape_label(a) + escape_label(b) =~= escape_label(a) + escape_label(
            b.drop_last(),
        ) + escape_char(b.last()));
    }
}

/// A label value reads back exactly as it was: escaping loses nothing.
pub proof fn law_label_escape_round_trip(s: Seq<char>)
    ensures
        unescape_label(escape_label(s)) == s,
    decreases s.len(),
{
    if s.len() > 0 {
        let c = s[0];
        let rest = s.drop_first();
        lemma_escape_label_concat(seq![c], rest);
        assert(seq![c] + rest =~= s);
        assert(escape_label(seq![c]) =~= escape_char(c)) by {
            let one = seq![c];
            assert(one.drop_last() =~= Seq::<char>::empty());
            assert(escape_label(one.drop_last()) =~= Seq::<char>::empty());
            assert(one.last() == c);
            assert(escape_label(one) == escape_label(one.drop_last()) + escape_char(one.last()));
        }
        law_label_escape_round_trip(rest);
        let t = escape_label(s);
        let e = escape_label(rest);
        assert(t =~= escape_char(c) + e);
        if c == '\\' || c == '"' || c == '\n' {
            assert(t.subrange(2, t.len() as int) =~= e);
        } else {
            assert(t.drop_first() =~= e);
        }
        assert(unescape_label(t) =~= seq![c] + rest);
    }
}

/// An escaped label value holds no line break: each sample stays on its line.
pub proof fn law_escaped_label_is_one_line(s: Seq<char>)
    ensures
        !escape_label(s).contains('\n'),
    decreases s.len(),
{
    if s.len() > 0 {
        law_escaped_label_is_one_line(s.drop_last());
        let a = escape_label(s.drop_last());
        let b = escape_char(s.last());
        assert(escape_label(s) == a + b);
        if (a + b).contains('\n') {
            let k = choose|k: int| 0 <= k < (a + b).len() && (a + b)[k] == '\n';
            if k < a.len() {
                assert(a[k] == (a + b)[k]);
            } else {
                assert(b[k - a.len()] == (a + b)[k]);
            }
        }
    }
}

pub open spec fn labels(e: EntrySpec) -> Seq<char> {
    "{app=\""@ + escape_label(e.0.0) + "\",username=\""@ + escape_label(e.0.1) + "\""@
}

pub open spec fn up_line(e: EntrySpec, now: u64, stale: u64) -> Seq<char> {
    "noc_up"@ + labels(e) + "} "@ + (if up_spec(e.1.last_seen, now, stale) {
        "1"@
    } else {
        "0"@
    }) + "\n"@
}

pub open spec fn seen_line(e: EntrySpec) -> Seq<char> {
    "noc_last_seen_seconds"@ + labels(e) + "} "@ + decimal(e.1.last_seen as nat) + "\n"@
}

pub open spec fn info_line(e: EntrySpec) -> Seq<char> {
    "noc_info"@ + labels(e) + ",version=\""@ + escape_label(e.1.version) + "\",build=\""@
        + escape_label(e.1.build) + "\",state=\""@ + escape_label(e.1.state) + "\"} 1\n"@
}

/// One line per entry, rendered by `line`.
pub open spec fn lines(es: Seq<EntrySpec>, line: spec_fn(EntrySpec) -> Seq<char>) -> Seq<char>
    decreases es.len(),
{
    if es.len() == 0 {
        Seq::empty()
    } else {
        lines(es.drop_last(), line) + line(es.last())
    }
}

pub const UP_HELP: &'static str =
    "# HELP noc_up 1 if a heartbeat arrived within the staleness window, 0 otherwise.\n# TYPE noc_up gauge\n";

pub const SEEN_HELP: &'static str =
    "# HELP noc_last_seen_seconds Unix timestamp of the last heartbeat received.\n# TYPE noc_last_seen_seconds gauge\n";

pub const INFO_HELP: &'static str =
    "# HELP noc_info Build metadata of the last heartbeat received. Value is always 1.\n# TYPE noc_info gauge\n";

/// The Prometheus text exposition (version 0.0.4) of the store at time `now`.
pub open spec fn prometheus_text(es: Seq<EntrySpec>, now: u64, stale: u64) -> Seq<char> {
    UP_HELP@ + lines(es, |e: EntrySpec| up_line(e, now, stale)) + SEEN_HELP@ + lines(
        es,
        |e: EntrySpec| seen_line(e),
    ) + INFO_HELP@ + lines(es, |e: EntrySpec| info_line(e))
}

proof fn lemma_lines_step(es: Seq<EntrySpec>, i: int, line: spec_fn(EntrySpec) -> Seq<char>)
    requires
        0 <= i < es.len(),
    ensures
        lines(es.take(i + 1), line) == lines(es.take(i), line) + line(es[i]),
{
    assert(es.take(i + 1).drop_last() =~= es.take(i));
    assert(es.take(i + 1).last() == es[i]);
}

fn push_labels(out: &mut String, e: &HealthEntry)
    ensures
        final(out)@ == old(out)@ + labels(health_entry_view(*e)),
{
    out.append("{app=\"");
    out.append(escape(e.app.as_str()).as_str());
    out.append("\",username=\"");
    out.append(escape(e.username.as_str()).as_str());
    out.append("\"");
}

/// Renders the metrics of `store` as of time `now`.
pub fn render_prometheus_at(store: &HealthStore, stale_after_seconds: u64, now: u64) -> (r: String)
    ensures
        r@ == prometheus_text(store@, now, stale_after_seconds),
{
    let snapshot = store.snapshot();
    let ghost es = health_entries_view(snapshot@);
    let ghost up_f = |e: EntrySpec| up_line(e, now, stale_after_seconds);
    let ghost seen_f = |e: EntrySpec| seen_line(e);
    let ghost info_f = |e: EntrySpec| info_line(e);
    let mut out = owned(UP_HELP);
    let ghost base = out@;
    let mut i: usize = 0;
    while i < snapshot.len()
        invariant
            i <= snapshot@.len(),
            es == health_entries_view(snapshot@),
            out@ == base + lines(es.take(i as int), up_f),
            up_f == (|e: EntrySpec| up_line(e, now, stale_after_seconds)),
        decreases snapshot@.len() - i,
    {
        let e = &snapshot[i];
        let ghost prev = out@;
        let ghost ev = health_entry_view(*e);
        out.append("noc_up");
        push_labels(&mut out, e);
        out.append("} ");
        out.append(if is_up(&e.heartbeat, now, stale_after_seconds) { "1" } else { "0" });
        out.append("\n");
        proof {
            assert(out@ =~= prev + up_line(ev, now, stale_after_seconds));
            lemma_lines_step(es, i as int, up_f);
            assert(out@ =~= base + lines(es.take(i + 1), up_f));
        }
        i = i + 1;
    }
    assert(es.take(i as int) =~= es);
    out.append(SEEN_HELP);
    let ghost base2 = out@;
    let mut i: usize = 0;
    while i < snapshot.len()
        invariant
            i <= snapshot@.len(),
            es == health_entries_view(snapshot@),
            out@ == base2 + lines(es.take(i as int), seen_f),
            seen_f == (|e: EntrySpec| seen_line(e)),
        decreases snapshot@.len() - i,
    {
        let e = &snapshot[i];
        let ghost prev = out@;
        let ghost ev = health_entry_view(*e);
        out.append("noc_last_seen_seconds");
        push_labels(&mut out, e);
        out.append("} ");
        out.append(u64_to_string(e.heartbeat.last_seen).as_str());
        out.append("\n");
        proof {
            assert(out@ =~= prev + seen_line(ev));
            lemma_lines_step(es, i as int, seen_f);
            assert(out@ =~= base2 + lines(es.take(i + 1), seen_f));
        }
        i = i + 1;
    }
    assert(es.take(i as int) =~= es);
    out.append(INFO_HELP);
    let ghost base3 = out@;
    let mut i: usize = 0;
    while i < snapshot.len()
        invariant
            i <= snapshot@.len(),
            es == health_entries_view(snapshot@),
            out@ == base3 + lines(es.take(i as int), info_f),
            info_f == (|e: EntrySpec| info_line(e)),
        decreases snapshot@.len() - i,
    {
        let e = &snapshot[i];
        let ghost prev = out@;
        let ghost ev = health_entry_view(*e);
        out.append("noc_info");
        push_labels(&mut out, e);
        out.append(",version=\"");
        out.append(escape(e.heartbeat.version.as_str()).as_str());
        out.append("\",build=\"");
        out.append(escape(e.heartbeat.build.as_str()).as_str());
        out.append("\",state=\"");
        out.append(escape(e.heartbeat.state.as_str()).as_str());
        out.append("\"} 1\n");
        proof {
            assert(out@ =~= prev + info_line(ev));
            lemma_lines_step(es, i as int, info_f);
            assert(out@ =~= base3 + lines(es.take(i + 1), info_f));
        }
        i = i + 1;
    }
    assert(es.take(i as int) =~= es);
    out
}

/// Renders the metrics of `store` as of now. Nothing is said of the time
/// read from the clock.
pub fn render_prometheus(store: &HealthStore, stale_after_seconds: u64) -> (r: String)
    ensures
        exists|now: u64| r@ == prometheus_text(store@, now, stale_after_seconds),
{
    let now = now_unix();
    render_prometheus_at(store, stale_after_seconds, now)
}

} // verus!
