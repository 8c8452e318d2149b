//! The kiosk inventory. A change is computed first and committed only once
//! the caller has stored it, so a failed write leaves the inventory as it was.
use vstd::prelude::*;
use crate::manager::models::{clone_opt, kiosks_view, validate, validate_spec, Kiosk, KioskSpec, PasswordAction};
use crate::text::owned;

verus! {

/// Mathematical value of a [`PasswordAction`].
pub enum PasswordActionSpec {
    Keep,
    SetTo(Seq<char>),
    Clear,
}

impl View for PasswordAction {
    type V = PasswordActionSpec;

    open spec fn view(&self) -> PasswordActionSpec {
        match self {
            PasswordAction::Keep => PasswordActionSpec::Keep,
            PasswordAction::SetTo(p) => PasswordActionSpec::SetTo(p@),
            PasswordAction::Clear => PasswordActionSpec::Clear,
        }
    }
}

/// Index of the first kiosk of `ks` at or after `i` whose username is `u`.
pub open spec fn find_from(ks: Seq<KioskSpec>, u: Seq<char>, i: int) -> Option<int>
    decreases ks.len() - i,
{
    if i < 0 || i >= ks.len() {
        None
    } else if ks[i].username == u {
        Some(i)
    } else {
        find_from(ks, u, i + 1)
    }
}

/// The first kiosk whose username is `u`.
pub open spec fn get_spec(ks: Seq<KioskSpec>, u: Seq<char>) -> Option<KioskSpec> {
    match find_from(ks, u, 0) {
        Some(i) => Some(ks[i]),
        None => None,
    }
}

/// The kiosks of `ks` whose username is not `u`, in order.
pub open spec fn without(ks: Seq<KioskSpec>, u: Seq<char>) -> Seq<KioskSpec>
    decreases ks.len(),
{
    if ks.len() == 0 {
        ks
    } else if ks.last().username == u {
        without(ks.drop_last(), u)
    } else {
        without(ks.drop_last(), u).push(ks.last())
    }
}

pub open spec fn not_found_msg(u: Seq<char>) -> Seq<char> {
    "kiosk '"@ + u + "' not found"@
}

/// The list that adding `k` produces, or the validation error.
pub open spec fn add_spec(ks: Seq<KioskSpec>, k: KioskSpec) -> Result<Seq<KioskSpec>, Seq<char>> {
    match validate_spec(k, ks, None) {
        Ok(()) => Ok(ks.push(k)),
        Err(e) => Err(e),
    }
}

/// The stored password after an update that holds `action`.
pub open spec fn password_after(
    current: Option<Seq<char>>,
    action: PasswordActionSpec,
) -> Option<Seq<char>> {
    match action {
        PasswordActionSpec::Keep => current,
        PasswordActionSpec::SetTo(p) => Some(p),
        PasswordActionSpec::Clear => None,
    }
}

/// The kiosk written by an update: the submitted one, with the password
/// that `action` decides.
pub open spec fn updated_kiosk(
    ks: Seq<KioskSpec>,
    i: int,
    k: KioskSpec,
    action: PasswordActionSpec,
) -> KioskSpec {
    KioskSpec {
        rdp: crate::manager::models::RdpConfigSpec {
            password: password_after(ks[i].rdp.password, action),
            ..k.rdp
        },
        ..k
    }
}

/// The list that replacing kiosk `previous` by `k` produces, or the error.
pub open spec fn update_spec(
    ks: Seq<KioskSpec>,
    previous: Seq<char>,
    k: KioskSpec,
    action: PasswordActionSpec,
) -> Result<Seq<KioskSpec>, Seq<char>> {
    match find_from(ks, previous, 0) {
        None => Err(not_found_msg(previous)),
        Some(i) => {
            let written = updated_kiosk(ks, i, k, action);
            match validate_spec(written, ks, Some(previous)) {
                Ok(()) => Ok(ks.update(i, written)),
                Err(e) => Err(e),
            }
        },
    }
}

/// The list that deleting `u` produces, or the error when no kiosk has it.
pub open spec fn delete_spec(ks: Seq<KioskSpec>, u: Seq<char>) -> Result<
    Seq<KioskSpec>,
    Seq<char>,
> {
    if without(ks, u).len() == ks.len() {
        Err(not_found_msg(u))
    } else {
        Ok(without(ks, u))
    }
}

pub open spec fn list_result_view(r: Result<Vec<Kiosk>, String>) -> Result<
    Seq<KioskSpec>,
    Seq<char>,
> {
    match r {
        Ok(v) => Ok(kiosks_view(v@)),
        Err(e) => Err(e@),
    }
}

pub open spec fn opt_kiosk_view(o: Option<Kiosk>) -> Option<KioskSpec> {
    match o {
        Some(k) => Some(k@),
        None => None,
    }
}

/// In-memory kiosk list.
pub struct Storage {
    kiosks: Vec<Kiosk>,
}

impl View for Storage {
    type V = Seq<KioskSpec>;

    closed spec fn view(&self) -> Seq<KioskSpec> {
        kiosks_view(self.kiosks@)
    }
}

fn clone_all(ks: &Vec<Kiosk>) -> (r: Vec<Kiosk>)
    ensures
        kiosks_view(r@) == kiosks_view(ks@),
{
    let mut r: Vec<Kiosk> = Vec::new();
    let mut i: usize = 0;
    while i < ks.len()
        invariant
            i <= ks.len(),
            kiosks_view(r@) == kiosks_view(ks@).take(i as int),
        decreases ks.len() - i,
    {
        let c = ks[i].clone();
        assert(c@ == ks@[i as int]@);
        let ghost before = r@;
        r.push(c);
        assert(kiosks_view(r@) =~= kiosks_view(before).push(c@));
        assert(kiosks_view(ks@).take(i + 1) =~= kiosks_view(ks@).take(i as int).push(c@));
        i = i + 1;
    }
    assert(kiosks_view(ks@).take(i as int) =~= kiosks_view(ks@));
    r
}

fn position(ks: &Vec<Kiosk>, username: &str) -> (r: Option<usize>)
    ensures
        match r {
            Some(i) => find_from(kiosks_view(ks@), username@, 0) == Some(i as int),
            None => find_from(kiosks_view(ks@), username@, 0) is None,
        },
        r matches Some(i) ==> i < ks.len(),
{
    let ghost kv = kiosks_view(ks@);
    let mut i: usize = 0;
    while i < ks.len()
        invariant
            i <= ks.len(),
            kv == kiosks_view(ks@),
            find_from(kv, username@, 0) == find_from(kv, username@, i as int),
        decreases ks.len() - i,
    {
        assert(kv[i as int] == ks@[i as int]@);
        if crate::text::str_eq(ks[i].username.as_str(), username) {
            return Some(i);
        }
        i = i + 1;
    }
    None
}

impl Storage {
    /// An inventory holding `kiosks`, in order.
    pub fn new(kiosks: Vec<Kiosk>) -> (s: Self)
        ensures
            s@ == kiosks_view(kiosks@),
    {
        Storage { kiosks }
    }

    /// Every kiosk, in order.
    pub fn all(&self) -> (r: Vec<Kiosk>)
        ensures
            kiosks_view(r@) == self@,
    {
        clone_all(&self.kiosks)
    }

    /// The first kiosk whose username is `username`.
    pub fn get(&self, username: &str) -> (r: Option<Kiosk>)
        ensures
            opt_kiosk_view(r) == get_spec(self@, username@),
    {
        match position(&self.kiosks, username) {
            Some(i) => Some(self.kiosks[i].clone()),
            None => None,
        }
    }

    /// The list that adding `kiosk` produces, once it is validated against
    /// the inventory. The inventory itself is unchanged until `commit`.
    pub fn add(&self, kiosk: Kiosk) -> (r: Result<Vec<Kiosk>, String>)
        ensures
            list_result_view(r) == add_spec(self@, kiosk@),
    {
        match validate(&kiosk, self.kiosks.as_slice(), None) {
            Ok(()) => {
                let mut next = clone_all(&self.kiosks);
                let ghost before = kiosks_view(next@);
                next.push(kiosk);
                assert(kiosks_view(next@) =~= before.push(kiosk@));
                Ok(next)
            },
            Err(e) => Err(e),
        }
    }

    /// The list that replacing kiosk `previous_username` by `kiosk`
    /// produces. The stored password is resolved from `password` against the
    /// kiosk being replaced.
    pub fn update(&self, previous_username: &str, kiosk: Kiosk, password: PasswordAction) -> (r:
        Result<Vec<Kiosk>, String>)
        ensures
            list_result_view(r) == update_spec(self@, previous_username@, kiosk@, password@),
    {
        let index = match position(&self.kiosks, previous_username) {
            Some(i) => i,
            None => {
                let mut msg = owned("kiosk '");
                msg.append(previous_username);
                msg.append("' not found");
                return Err(msg);
            },
        };
        let mut kiosk = kiosk;
        let ghost submitted = kiosk@;
        kiosk.rdp.password = match password {
            PasswordAction::Keep => clone_opt(&self.kiosks[index].rdp.password),
            PasswordAction::SetTo(value) => Some(value),
            PasswordAction::Clear => None,
        };
        assert(kiosk@ == updated_kiosk(self@, index as int, submitted, password@));
        match validate(&kiosk, self.kiosks.as_slice(), Some(previous_username)) {
            Ok(()) => {
                let mut next = clone_all(&self.kiosks);
                let ghost before = kiosks_view(next@);
                let ghost written = kiosk@;
                next.set(index, kiosk);
                assert(kiosks_view(next@) =~= before.update(index as int, written));
                Ok(next)
            },
            Err(e) => Err(e),
        }
    }

    /// The list without kiosk `username`, or an error when there is none.
    pub fn delete(&self, username: &str) -> (r: Result<Vec<Kiosk>, String>)
        ensures
            list_result_view(r) == delete_spec(self@, username@),
    {
        let mut next: Vec<Kiosk> = Vec::new();
        let mut i: usize = 0;
        while i < self.kiosks.len()
            invariant
                i <= self.kiosks.len(),
                kiosks_view(next@) == without(kiosks_view(self.kiosks@).take(i as int), username@),
            decreases self.kiosks.len() - i,
        {
            let ghost pre = kiosks_view(self.kiosks@).take(i as int);
            let ghost post = kiosks_view(self.kiosks@).take(i + 1);
            assert(post.drop_last() =~= pre);
            assert(post.last() == self.kiosks@[i as int]@);
            if !crate::text::str_eq(self.kiosks[i].username.as_str(), username) {
                let ghost before = kiosks_view(next@);
                next.push(self.kiosks[i].clone());
                assert(kiosks_view(next@) =~= before.push(post.last()));
            }
            i = i + 1;
        }
        assert(kiosks_view(self.kiosks@).take(i as int) =~= kiosks_view(self.kiosks@));
        if next.len() == self.kiosks.len() {
            let mut msg = owned("kiosk '");
            msg.append(username);
            msg.append("' not found");
            return Err(msg);
        }
        Ok(next)
    }

    /// Replaces the inventory by a list that has been stored.
    pub fn commit(&mut self, kiosks: Vec<Kiosk>)
        ensures
            final(self)@ == kiosks_view(kiosks@),
    {
        self.kiosks = kiosks;
    }
}

// ------------------------------------------------------------------- laws

/// No two kiosks share a username.
pub open spec fn unique_usernames(ks: Seq<KioskSpec>) -> bool {
    forall|i: int, j: int|
        0 <= i < ks.len() && 0 <= j < ks.len() && i != j ==> ks[i].username != ks[j].username
}

proof fn lemma_find_none(ks: Seq<KioskSpec>, u: Seq<char>, i: int)
    requires
        0 <= i,
        forall|j: int| i <= j < ks.len() ==> (#[trigger] ks[j]).username != u,
    ensures
        find_from(ks, u, i) is None,
    decreases ks.len() - i,
{
    if i < ks.len() {
        lemma_find_none(ks, u, i + 1);
    }
}

proof fn lemma_find_last(ks: Seq<KioskSpec>, u: Seq<char>, i: int)
    requires
        0 <= i < ks.len(),
        ks.last().username == u,
        forall|j: int| i <= j < ks.len() - 1 ==> (#[trigger] ks[j]).username != u,
    ensures
        find_from(ks, u, i) == Some(ks.len() - 1),
    decreases ks.len() - i,
{
    if i < ks.len() - 1 {
        lemma_find_last(ks, u, i + 1);
    }
}

proof fn lemma_without_excludes(ks: Seq<KioskSpec>, u: Seq<char>)
    ensures
        forall|j: int| 0 <= j < without(ks, u).len() ==> (#[trigger] without(ks, u)[j]).username != u,
        forall|j: int| 0 <= j < without(ks, u).len() ==> ks.contains(#[trigger] without(ks, u)[j]),
    decreases ks.len(),
{
    if ks.len() > 0 {
        lemma_without_excludes(ks.drop_last(), u);
        let r = without(ks.drop_last(), u);
        assert forall|j: int| 0 <= j < without(ks, u).len() implies ks.contains(
            #[trigger] without(ks, u)[j],
        ) by {
            if j < r.len() {
                let k = choose|k: int| 0 <= k < ks.drop_last().len() && ks.drop_last()[k] == r[j];
                assert(ks[k] == r[j]);
            } else {
                assert(ks[ks.len() - 1] == ks.last());
            }
        }
    }
}

/// Reading back what was added: once a kiosk with a trimmed username is
/// added, looking that username up gives the kiosk.
pub proof fn law_get_after_add(ks: Seq<KioskSpec>, k: KioskSpec)
    requires
        k.username == crate::text::trim_seq(k.username),
        add_spec(ks, k) is Ok,
    ensures
        get_spec(add_spec(ks, k)->Ok_0, k.username) == Some(k),
{
    let next = ks.push(k);
    assert forall|j: int| 0 <= j < next.len() - 1 implies (#[trigger] next[j]).username
        != k.username by {
        assert(next[j] == ks[j]);
    }
    lemma_find_last(next, k.username, 0);
}

/// A deleted username is no longer found.
pub proof fn law_get_after_delete(ks: Seq<KioskSpec>, u: Seq<char>)
    requires
        delete_spec(ks, u) is Ok,
    ensures
        get_spec(delete_spec(ks, u)->Ok_0, u) is None,
{
    lemma_without_excludes(ks, u);
    lemma_find_none(without(ks, u), u, 0);
}

/// Adding a kiosk whose username is trimmed keeps usernames unique.
pub proof fn law_add_keeps_usernames_unique(ks: Seq<KioskSpec>, k: KioskSpec)
    requires
        unique_usernames(ks),
        k.username == crate::text::trim_seq(k.username),
        add_spec(ks, k) is Ok,
    ensures
        unique_usernames(add_spec(ks, k)->Ok_0),
{
    let next = ks.push(k);
    assert forall|i: int, j: int|
        0 <= i < next.len() && 0 <= j < next.len() && i != j implies next[i].username
        != next[j].username by {
        if i < ks.len() && j < ks.len() {
            assert(next[i] == ks[i] && next[j] == ks[j]);
        } else if i < ks.len() {
            assert(next[i] == ks[i]);
        } else {
            assert(next[j] == ks[j]);
        }
    }
}

/// An update that keeps the password stores the password the replaced
/// kiosk had.
pub proof fn law_update_keep_preserves_password(
    ks: Seq<KioskSpec>,
    previous: Seq<char>,
    k: KioskSpec,
)
    requires
        update_spec(ks, previous, k, PasswordActionSpec::Keep) is Ok,
    ensures
        ({
            let i = find_from(ks, previous, 0)->0;
            update_spec(ks, previous, k, PasswordActionSpec::Keep)->Ok_0[i].rdp.password
                == ks[i].rdp.password
        }),
{
    lemma_find_bounds(ks, previous, 0);
}

/// An update that clears the password stores the submitted kiosk, in the
/// place of the one it replaces, with no password at all, whatever the
/// replaced kiosk had.
pub proof fn law_update_clear_removes_password(
    ks: Seq<KioskSpec>,
    previous: Seq<char>,
    k: KioskSpec,
)
    requires
        update_spec(ks, previous, k, PasswordActionSpec::Clear) is Ok,
    ensures
        ({
            let i = find_from(ks, previous, 0)->0;
            let stored = update_spec(ks, previous, k, PasswordActionSpec::Clear)->Ok_0;
            &&& 0 <= i < ks.len()
            &&& ks[i].username == previous
            &&& stored.len() == ks.len()
            &&& stored[i].rdp.password is None
            &&& stored[i] == (KioskSpec {
                rdp: crate::manager::models::RdpConfigSpec { password: None, ..k.rdp },
                ..k
            })
            &&& forall|j: int| 0 <= j < ks.len() && j != i ==> stored[j] == ks[j]
        }),
{
    lemma_find_bounds(ks, previous, 0);
}

/// An update that sets a password stores the submitted kiosk, in the place
/// of the one it replaces, with exactly that password.
pub proof fn law_update_set_stores_password(
    ks: Seq<KioskSpec>,
    previous: Seq<char>,
    k: KioskSpec,
    password: Seq<char>,
)
    requires
        update_spec(ks, previous, k, PasswordActionSpec::SetTo(password)) is Ok,
    ensures
        ({
            let i = find_from(ks, previous, 0)->0;
            let stored = update_spec(ks, previous, k, PasswordActionSpec::SetTo(password))->Ok_0;
            &&& 0 <= i < ks.len()
            &&& stored[i].rdp.password == Some(password)
            &&& stored[i] == (KioskSpec {
                rdp: crate::manager::models::RdpConfigSpec { password: Some(password), ..k.rdp },
                ..k
            })
        }),
{
    lemma_find_bounds(ks, previous, 0);
}

proof fn lemma_find_bounds(ks: Seq<KioskSpec>, u: Seq<char>, i: int)
    ensures
        find_from(ks, u, i) matches Some(j) ==> 0 <= j < ks.len() && ks[j].username == u,
    decreases ks.len() - i,
{
    if 0 <= i < ks.len() && ks[i].username != u {
        lemma_find_bounds(ks, u, i + 1);
    }
}

} // verus!
