//! Read models of the supervision dashboard. They never carry URLs with
//! credentials or RDP passwords.
use vstd::prelude::*;
use crate::manager::commands::{opt_command_view, CommandSpec, KioskCommand};
use crate::manager::health::{
    is_up, key_less, key_lt, lemma_key_total, lemma_key_transitive, opt_heartbeat_view, up_spec,
    Heartbeat, HeartbeatSpec,
};
use crate::text::chars_of;
use crate::manager::models::{clone_opt, display_name_spec, opt_view, Kiosk, KioskSpec};
use crate::text::{decimal, owned, str_eq, u64_to_string};

verus! {

/// The overall status of a kiosk: `"disabled"`, or `"ready"` when both its
/// agent and its display sent a recent heartbeat in the expected states
/// (`RUNNING` and `CONNECTED`), else `"attention"`.
pub open spec fn kiosk_status_spec(
    enabled: bool,
    agent: Option<HeartbeatSpec>,
    display: Option<HeartbeatSpec>,
    now: u64,
    stale: u64,
) -> Seq<char> {
    if !enabled {
        "disabled"@
    } else {
        match (agent, display) {
            (Some(a), Some(d)) => if up_spec(a.last_seen, now, stale) && up_spec(
                d.last_seen,
                now,
                stale,
            ) && a.state == "RUNNING"@ && d.state == "CONNECTED"@ {
                "ready"@
            } else {
                "attention"@
            },
            _ => "attention"@,
        }
    }
}

pub open spec fn opt_ref_heartbeat_view(o: Option<&Heartbeat>) -> Option<HeartbeatSpec> {
    match o {
        Some(h) => Some(h@),
        None => None,
    }
}

pub fn kiosk_status(
    kiosk: &Kiosk,
    agent: Option<&Heartbeat>,
    display: Option<&Heartbeat>,
    now: u64,
    stale: u64,
) -> (r: &'static str)
    ensures
        r@ == kiosk_status_spec(
            kiosk.enabled,
            opt_ref_heartbeat_view(agent),
            opt_ref_heartbeat_view(display),
            now,
            stale,
        ),
{
    if !kiosk.enabled {
        return "disabled";
    }
    match (agent, display) {
        (Some(a), Some(d)) => {
            if is_up(a, now, stale) && is_up(d, now, stale) && str_eq(a.state.as_str(), "RUNNING")
                && str_eq(d.state.as_str(), "CONNECTED") {
                "ready"
            } else {
                "attention"
            }
        },
        _ => "attention",
    }
}

/// A kiosk is `"ready"` exactly when it is enabled and both its agent and
/// its display have sent a heartbeat, each at most `stale` seconds before
/// `now` (a heartbeat stamped after `now` counts as fresh), the agent in
/// state `RUNNING` and the display in state `CONNECTED`.
pub proof fn law_ready_iff_both_fresh(
    enabled: bool,
    agent: Option<HeartbeatSpec>,
    display: Option<HeartbeatSpec>,
    now: u64,
    stale: u64,
)
    ensures
        (kiosk_status_spec(enabled, agent, display, now, stale) == "ready"@) <==> {
            &&& enabled
            &&& agent is Some
            &&& display is Some
            &&& (now >= agent->0.last_seen ==> now - agent->0.last_seen <= stale)
            &&& (now >= display->0.last_seen ==> now - display->0.last_seen <= stale)
            &&& agent->0.state == "RUNNING"@
            &&& display->0.state == "CONNECTED"@
        },
{
    reveal_strlit("ready");
    reveal_strlit("attention");
    reveal_strlit("disabled");
    assert("ready"@ != "attention"@) by {
        assert("ready"@[0] != "attention"@[0]);
    }
    assert("ready"@ != "disabled"@) by {
        assert("ready"@[0] != "disabled"@[0]);
    }
}

/// `"online"` for a recent heartbeat, `"stale"` otherwise.
pub open spec fn presence_spec(last_seen: u64, now: u64, stale: u64) -> Seq<char> {
    if up_spec(last_seen, now, stale) {
        "online"@
    } else {
        "stale"@
    }
}

pub fn presence(beat: &Heartbeat, now: u64, stale: u64) -> (r: &'static str)
    ensures
        r@ == presence_spec(beat.last_seen, now, stale),
{
    if is_up(beat, now, stale) {
        "online"
    } else {
        "stale"
    }
}

/// One heartbeat sender as listed on the dashboard.
pub struct Client {
    pub app: String,
    pub username: String,
    pub heartbeat: Heartbeat,
    pub presence: &'static str,
    /// The kiosk this client belongs to, if any.
    pub kiosk: Option<String>,
}

/// One kiosk as listed on the dashboard.
pub struct KioskView {
    pub username: String,
    pub display_username: String,
    pub name: String,
    pub enabled: bool,
    pub status: &'static str,
    pub agent: Option<Heartbeat>,
    pub display: Option<Heartbeat>,
    pub pending: Option<String>,
    pub restart_cron: Option<String>,
}

/// The pending command as shown: `"{action} · #{id}"`.
pub open spec fn pending_label(c: CommandSpec) -> Seq<char> {
    c.action + " · #"@ + decimal(c.id as nat)
}

pub open spec fn opt_pending_label(c: Option<CommandSpec>) -> Option<Seq<char>> {
    match c {
        Some(c) => Some(pending_label(c)),
        None => None,
    }
}

fn as_ref_heartbeat(o: &Option<Heartbeat>) -> (r: Option<&Heartbeat>)
    ensures
        opt_ref_heartbeat_view(r) == opt_heartbeat_view(*o),
{
    match o {
        Some(h) => Some(h),
        None => None,
    }
}

/// The dashboard row of `kiosk`, given the latest heartbeats of its agent
/// and of its display and its pending command.
pub fn kiosk_view(
    kiosk: &Kiosk,
    agent: Option<Heartbeat>,
    display: Option<Heartbeat>,
    pending: Option<KioskCommand>,
    now: u64,
    stale: u64,
) -> (r: KioskView)
    ensures
        r.username@ == kiosk.username@,
        r.display_username@ == display_name_spec(kiosk@),
        r.name@ == kiosk.name@,
        r.enabled == kiosk.enabled,
        r.status@ == kiosk_status_spec(
            kiosk.enabled,
            opt_heartbeat_view(agent),
            opt_heartbeat_view(display),
            now,
            stale,
        ),
        opt_heartbeat_view(r.agent) == opt_heartbeat_view(agent),
        opt_heartbeat_view(r.display) == opt_heartbeat_view(display),
        opt_view(r.pending) == opt_pending_label(opt_command_view(pending)),
        opt_view(r.restart_cron) == opt_view(kiosk.restart_cron),
{
    let status = kiosk_status(
        kiosk,
        as_ref_heartbeat(&agent),
        as_ref_heartbeat(&display),
        now,
        stale,
    );
    let pending_text = match &pending {
        Some(c) => {
            let mut t = c.action.clone();
            t.append(" · #");
            t.append(u64_to_string(c.id).as_str());
            Some(t)
        },
        None => None,
    };
    KioskView {
        username: kiosk.username.clone(),
        display_username: owned(kiosk.display_username()),
        name: kiosk.name.clone(),
        enabled: kiosk.enabled,
        status,
        agent,
        display,
        pending: pending_text,
        restart_cron: clone_opt(&kiosk.restart_cron),
    }
}

/// The kiosk a heartbeat sender belongs to: for the agent, the kiosk of
/// that username; for the display, the kiosk whose display identity it is.
pub open spec fn owns_client(k: KioskSpec, app: Seq<char>, username: Seq<char>) -> bool {
    if app == "agent"@ {
        k.username == username
    } else {
        display_name_spec(k) == username
    }
}

/// Index of the first kiosk owning the client.
pub open spec fn first_owner(ks: Seq<KioskSpec>, app: Seq<char>, username: Seq<char>, i: int) -> Option<
    int,
>
    decreases ks.len() - i,
    when 0 <= i <= ks.len()
{
    if i == ks.len() {
        None
    } else if owns_client(ks[i], app, username) {
        Some(i)
    } else {
        first_owner(ks, app, username, i + 1)
    }
}

pub open spec fn owner_name(ks: Seq<KioskSpec>, app: Seq<char>, username: Seq<char>) -> Option<
    Seq<char>,
> {
    match first_owner(ks, app, username, 0) {
        Some(i) => Some(ks[i].username),
        None => None,
    }
}

/// The agent username of the kiosk a client belongs to, if any.
pub fn client_kiosk(kiosks: &Vec<Kiosk>, app: &str, username: &str) -> (r: Option<String>)
    ensures
        opt_view(r) == owner_name(kiosks@.map_values(|k: Kiosk| k@), app@, username@),
{
    let ghost ks = kiosks@.map_values(|k: Kiosk| k@);
    let is_agent = str_eq(app, "agent");
    let mut i: usize = 0;
    while i < kiosks.len()
        invariant
            i <= kiosks@.len(),
            ks == kiosks@.map_values(|k: Kiosk| k@),
            is_agent == (app@ == "agent"@),
            first_owner(ks, app@, username@, 0) == first_owner(ks, app@, username@, i as int),
        decreases kiosks@.len() - i,
    {
        let k = &kiosks[i];
        assert(ks[i as int] == k@);
        let owns = if is_agent {
            str_eq(k.username.as_str(), username)
        } else {
            str_eq(k.display_username(), username)
        };
        if owns {
            return Some(k.username.clone());
        }
        i = i + 1;
    }
    None
}

/// The dashboard entry of one heartbeat sender.
pub fn client(
    kiosks: &Vec<Kiosk>,
    app: String,
    username: String,
    heartbeat: Heartbeat,
    now: u64,
    stale: u64,
) -> (r: Client)
    ensures
        r.app@ == app@,
        r.username@ == username@,
        r.heartbeat@ == heartbeat@,
        r.presence@ == presence_spec(heartbeat.last_seen, now, stale),
        opt_view(r.kiosk) == owner_name(kiosks@.map_values(|k: Kiosk| k@), app@, username@),
{
    let presence = presence(&heartbeat, now, stale);
    let kiosk = client_kiosk(kiosks, app.as_str(), username.as_str());
    Client { app, username, heartbeat, presence, kiosk }
}

// ---------------------------------------------------------------- order

/// The Unicode lowercase mapping of a text (`str::to_lowercase`), a
/// function of the text alone.
pub uninterp spec fn lowercase_of(s: Seq<char>) -> Seq<char>;

/// `str::to_lowercase`.
#[verifier::external_body]
fn to_lowercase(s: &str) -> (r: String)
    ensures
        r@ == lowercase_of(s@),
{
    s.to_lowercase()
}

/// Rows are listed by name, ignoring case, then by username.
pub open spec fn row_key(v: KioskView) -> (Seq<char>, Seq<char>) {
    (lowercase_of(v.name@), v.username@)
}

/// `ix` lists distinct positions below `n`, one per row.
pub open spec fn is_permutation(ix: Seq<int>, n: int) -> bool {
    &&& ix.len() == n
    &&& forall|j: int| 0 <= j < ix.len() ==> 0 <= #[trigger] ix[j] < n
    &&& forall|j: int, k: int| 0 <= j < k < ix.len() ==> ix[j] != ix[k]
}

/// `rows` are the rows of `orig` in the order `ix`, sorted by key, rows of
/// equal key keeping their order in the input.
pub open spec fn sorted_rows(rows: Seq<KioskView>, orig: Seq<KioskView>, ix: Seq<int>) -> bool {
    &&& is_permutation(ix, orig.len() as int)
    &&& rows.len() == ix.len()
    &&& forall|j: int| 0 <= j < rows.len() ==> #[trigger] rows[j] == orig[ix[j]]
    &&& forall|j: int, k: int|
        0 <= j < k < rows.len() ==> !key_lt(row_key(#[trigger] rows[k]), row_key(#[trigger] rows[j]))
    &&& forall|j: int, k: int|
        0 <= j < k < rows.len() && row_key(rows[j]) == row_key(rows[k]) ==> ix[j] < ix[k]
}

/// The dashboard rows in display order (a stable sort).
pub fn sort_views(views: Vec<KioskView>) -> (r: Vec<KioskView>)
    ensures
        exists|ix: Seq<int>| sorted_rows(r@, views@, ix),
{
    let ghost orig = views@;
    let n = views.len();
    assert(orig.len() == n);
    let mut rest = views;
    let mut out: Vec<KioskView> = Vec::new();
    let ghost mut ix: Seq<int> = Seq::empty();
    let mut i: usize = 0;
    while rest.len() > 0
        invariant
            orig.len() <= usize::MAX,
            i + rest@.len() == orig.len(),
            rest@ == orig.subrange(i as int, orig.len() as int),
            out@.len() == ix.len(),
            ix.len() == i,
            forall|j: int| 0 <= j < ix.len() ==> 0 <= #[trigger] ix[j] < i,
            forall|j: int, k: int| 0 <= j < k < ix.len() ==> ix[j] != ix[k],
            forall|j: int| 0 <= j < out@.len() ==> #[trigger] out@[j] == orig[ix[j]],
            forall|j: int, k: int|
                0 <= j < k < out@.len() ==> !key_lt(
                    row_key(#[trigger] out@[k]),
                    row_key(#[trigger] out@[j]),
                ),
            forall|j: int, k: int|
                0 <= j < k < out@.len() && row_key(out@[j]) == row_key(out@[k]) ==> ix[j]
                    < ix[k],
        decreases rest@.len(),
    {
        let v = rest.remove(0);
        assert(v == orig[i as int]);
        assert(rest@ =~= orig.subrange(i + 1, orig.len() as int));
        let lname = to_lowercase(v.name.as_str());
        let vn = chars_of(lname.as_str());
        let vu = chars_of(v.username.as_str());
        let ghost kv = row_key(v);
        let mut p: usize = 0;
        while p < out.len()
            invariant
                p <= out@.len(),
                kv == row_key(v),
                vn@ == kv.0,
                vu@ == kv.1,
                forall|j: int| 0 <= j < p ==> !key_lt(kv, row_key(#[trigger] out@[j])),
            ensures
                p <= out@.len(),
                forall|j: int| 0 <= j < p ==> !key_lt(kv, row_key(#[trigger] out@[j])),
                p < out@.len() ==> key_lt(kv, row_key(out@[p as int])),
            decreases out@.len() - p,
        {
            let on = to_lowercase(out[p].name.as_str());
            let a = chars_of(on.as_str());
            let b = chars_of(out[p].username.as_str());
            if key_less(&vn, &vu, &a, &b) {
                break;
            }
            p = p + 1;
        }
        proof {
            // every row from p on sorts strictly after v
            assert forall|j: int| p <= j < out@.len() implies key_lt(kv, row_key(
                #[trigger] out@[j],
            )) by {
                if j > p {
                    lemma_key_total(row_key(out@[p as int]), row_key(out@[j]));
                    if row_key(out@[p as int]) != row_key(out@[j]) {
                        lemma_key_transitive(kv, row_key(out@[p as int]), row_key(out@[j]));
                    }
                }
            }
        }
        let ghost before = out@;
        let ghost ix0 = ix;
        out.insert(p, v);
        proof {
            ix = ix0.insert(p as int, i as int);
            assert forall|j: int, k: int| 0 <= j < k < out@.len() implies !key_lt(
                row_key(#[trigger] out@[k]),
                row_key(#[trigger] out@[j]),
            ) by {
                if k < p {
                    assert(out@[j] == before[j] && out@[k] == before[k]);
                } else if k == p {
                    assert(out@[j] == before[j]);
                    lemma_key_total(kv, row_key(before[j]));
                } else if j < p {
                    assert(out@[j] == before[j] && out@[k] == before[k - 1]);
                    lemma_key_total(kv, row_key(before[j]));
                    lemma_key_total(row_key(before[k - 1]), row_key(before[j]));
                    if key_lt(row_key(before[k - 1]), row_key(before[j])) {
                        lemma_key_transitive(kv, row_key(before[k - 1]), row_key(before[j]));
                    }
                } else if j == p {
                    assert(out@[k] == before[k - 1]);
                    lemma_key_total(kv, row_key(before[k - 1]));
                } else {
                    assert(out@[j] == before[j - 1] && out@[k] == before[k - 1]);
                }
            }
            assert forall|j: int, k: int|
                0 <= j < k < out@.len() && row_key(out@[j]) == row_key(out@[k]) implies ix[j]
                < ix[k] by {
                if k < p {
                } else if k == p {
                    assert(ix[k] == i);
                } else if j < p {
                    assert(out@[k] == before[k - 1]);
                    assert(key_lt(kv, row_key(before[k - 1])));
                    lemma_key_total(kv, row_key(before[j]));
                    lemma_key_transitive(kv, row_key(before[k - 1]), row_key(before[j]));
                    lemma_key_total(row_key(before[j]), row_key(before[k - 1]));
                } else if j == p {
                    assert(out@[k] == before[k - 1]);
                    assert(key_lt(kv, row_key(before[k - 1])));
                    lemma_key_total(kv, row_key(before[k - 1]));
                } else {
                }
            }
            assert forall|j: int| 0 <= j < out@.len() implies #[trigger] out@[j] == orig[ix[j]] by {
                if j < p {
                } else if j == p {
                } else {
                    assert(out@[j] == before[j - 1]);
                }
            }
        }
        i = i + 1;
    }
    proof {
        assert(is_permutation(ix, orig.len() as int));
        assert(sorted_rows(out@, orig, ix));
    }
    out
}

} // verus!
