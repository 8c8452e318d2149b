//! Reusable RDP destinations. Accounts and passwords belong to kiosks, never
//! to servers.
use vstd::prelude::*;
use vstd::set_lib::{lemma_int_range, lemma_len_subset, lemma_map_size, set_int_range};
use crate::manager::models::{ascii_alnum, is_ascii_alnum};
use crate::text::{
    owned, digit, any_ws, chars_of, concat, contains_seq, contains_str, decimal, eq_ignore_ascii_case,
    eq_ignore_ascii_case_spec, has_char, has_whitespace, is_empty_str, parse_u16, parse_u16_spec,
    str_eq, trim, trim_seq, u64_to_string,
};

verus! {

/// Mathematical value of an [`RdpServer`].
pub struct RdpServerSpec {
    pub id: Seq<char>,
    pub name: Seq<char>,
    pub address: Seq<char>,
    pub port: u16,
    pub ignore_certificate_errors: bool,
}

pub struct RdpServer {
    pub id: String,
    pub name: String,
    pub address: String,
    pub port: u16,
    pub ignore_certificate_errors: bool,
}

impl View for RdpServer {
    type V = RdpServerSpec;

    open spec fn view(&self) -> RdpServerSpec {
        RdpServerSpec {
            id: self.id@,
            name: self.name@,
            address: self.address@,
            port: self.port,
            ignore_certificate_errors: self.ignore_certificate_errors,
        }
    }
}

impl Clone for RdpServer {
    fn clone(&self) -> (r: Self)
        ensures
            r@ == self@,
    {
        RdpServer {
            id: self.id.clone(),
            name: self.name.clone(),
            address: self.address.clone(),
            port: self.port,
            ignore_certificate_errors: self.ignore_certificate_errors,
        }
    }
}

pub open spec fn servers_view(ss: Seq<RdpServer>) -> Seq<RdpServerSpec> {
    ss.map_values(|s: RdpServer| s@)
}

/// What the server form submits. A checkbox is only submitted when checked.
pub struct ServerForm {
    pub name: String,
    pub address: String,
    pub port: String,
    pub ignore_certificate_errors: Option<String>,
}

impl Default for ServerForm {
    fn default() -> (r: Self)
        ensures
            r.name@.len() == 0 && r.address@.len() == 0 && r.port@.len() == 0
                && r.ignore_certificate_errors is None,
    {
        ServerForm {
            name: String::new(),
            address: String::new(),
            port: String::new(),
            ignore_certificate_errors: None,
        }
    }
}

pub const MSG_NAME_REQUIRED: &'static str = "Le nom du serveur est obligatoire";

pub const MSG_ADDRESS: &'static str =
    "Indiquez une adresse IP ou un nom DNS, sans URL ni identifiants";

pub const MSG_PORT: &'static str = "Le port doit être compris entre 1 et 65535";

pub const MSG_NOT_FOUND: &'static str = "Serveur introuvable";

pub const MSG_NAME_TAKEN: &'static str = "Un serveur porte déjà ce nom";

pub const MSG_BAD_ID: &'static str = "Identifiant de serveur RDP invalide ou dupliqué";

/// An address is a bare IP or DNS name: no whitespace, no scheme, no
/// credentials, path, query or fragment.
pub open spec fn address_ok(a: Seq<char>) -> bool {
    &&& a.len() > 0
    &&& !any_ws(a)
    &&& !contains_seq(a, "://"@)
    &&& !a.contains('@')
    &&& !a.contains('/')
    &&& !a.contains('\\')
    &&& !a.contains('?')
    &&& !a.contains('#')
}

/// The first problem of a server record, if any.
pub open spec fn validate_spec(s: RdpServerSpec) -> Result<(), Seq<char>> {
    if s.name.len() == 0 {
        Err(MSG_NAME_REQUIRED@)
    } else if !address_ok(s.address) {
        Err(MSG_ADDRESS@)
    } else if s.port == 0 {
        Err(MSG_PORT@)
    } else {
        Ok(())
    }
}

pub open spec fn unit_result_view(r: Result<(), String>) -> Result<(), Seq<char>> {
    match r {
        Ok(()) => Ok(()),
        Err(e) => Err(e@),
    }
}

pub fn validate(s: &RdpServer) -> (r: Result<(), String>)
    ensures
        unit_result_view(r) == validate_spec(s@),
{
    if is_empty_str(s.name.as_str()) {
        return Err(owned(MSG_NAME_REQUIRED));
    }
    if is_empty_str(s.address.as_str()) || has_whitespace(s.address.as_str()) || contains_str(
        s.address.as_str(),
        "://",
    ) || has_char(s.address.as_str(), '@') || has_char(s.address.as_str(), '/') || has_char(
        s.address.as_str(),
        '\\',
    ) || has_char(s.address.as_str(), '?') || has_char(s.address.as_str(), '#') {
        return Err(owned(MSG_ADDRESS));
    }
    if s.port == 0 {
        return Err(owned(MSG_PORT));
    }
    Ok(())
}

// ------------------------------------------------------------ identifiers

pub open spec fn id_char(c: char) -> bool {
    ascii_alnum(c) || c == '-'
}

/// A stored identifier: non-empty, ASCII letters, digits and dashes.
pub open spec fn id_ok(id: Seq<char>) -> bool {
    id.len() > 0 && forall|i: int| 0 <= i < id.len() ==> id_char(#[trigger] id[i])
}

fn is_valid_id(id: &str) -> (r: bool)
    ensures
        r == id_ok(id@),
{
    let v = chars_of(id);
    if v.len() == 0 {
        return false;
    }
    let mut i: usize = 0;
    while i < v.len()
        invariant
            i <= v.len(),
            v@ == id@,
            forall|j: int| 0 <= j < i ==> id_char(#[trigger] id@[j]),
        decreases v.len() - i,
    {
        if !(is_ascii_alnum(v[i]) || v[i] == '-') {
            assert(!id_char(id@[i as int]));
            return false;
        }
        i = i + 1;
    }
    true
}

/// Index of the first server that fails, with its error: an invalid record,
/// or an invalid or repeated identifier.
pub open spec fn catalog_error(ss: Seq<RdpServerSpec>, i: int) -> Option<Seq<char>>
    decreases ss.len() - i,
    when 0 <= i <= ss.len()
{
    if i == ss.len() {
        None
    } else if validate_spec(ss[i]) is Err {
        Some(validate_spec(ss[i])->Err_0)
    } else if !id_ok(ss[i].id) || exists|j: int| 0 <= j < i && ss[j].id == ss[i].id {
        Some(MSG_BAD_ID@)
    } else {
        catalog_error(ss, i + 1)
    }
}

/// Checks a catalog read from disk, server by server.
pub fn check_catalog(servers: &Vec<RdpServer>) -> (r: Result<(), String>)
    ensures
        unit_result_view(r) == match catalog_error(servers_view(servers@), 0) {
            None => Ok(()),
            Some(e) => Err(e),
        },
{
    let ghost ss = servers_view(servers@);
    let mut i: usize = 0;
    while i < servers.len()
        invariant
            i <= servers.len(),
            ss == servers_view(servers@),
            catalog_error(ss, 0) == catalog_error(ss, i as int),
        decreases servers.len() - i,
    {
        assert(ss[i as int] == servers@[i as int]@);
        match validate(&servers[i]) {
            Err(e) => {
                return Err(e);
            },
            Ok(()) => {},
        }
        let mut duplicate = false;
        let mut j: usize = 0;
        while j < i
            invariant
                j <= i < servers.len(),
                ss == servers_view(servers@),
                duplicate == exists|k: int| 0 <= k < j && ss[k].id == ss[i as int].id,
            decreases i - j,
        {
            assert(ss[j as int] == servers@[j as int]@);
            if str_eq(servers[j].id.as_str(), servers[i].id.as_str()) {
                duplicate = true;
            }
            j = j + 1;
        }
        if !is_valid_id(servers[i].id.as_str()) || duplicate {
            return Err(owned(MSG_BAD_ID));
        }
        i = i + 1;
    }
    Ok(())
}

// ------------------------------------------------------------ fresh ids

/// `"rdp-{n}"`.
pub open spec fn numbered_id(n: nat) -> Seq<char> {
    "rdp-"@ + decimal(n)
}

pub open spec fn id_taken(ss: Seq<RdpServerSpec>, id: Seq<char>) -> bool {
    exists|i: int| 0 <= i < ss.len() && ss[i].id == id
}

/// `n` is the smallest positive number whose `"rdp-{n}"` is free.
pub open spec fn first_free_number(ss: Seq<RdpServerSpec>, n: nat) -> bool {
    &&& n >= 1
    &&& !id_taken(ss, numbered_id(n))
    &&& forall|m: nat| 1 <= m < n ==> id_taken(ss, #[trigger] numbered_id(m))
}

proof fn lemma_decimal_len(n: nat)
    ensures
        decimal(n).len() >= 1,
        n >= 10 ==> decimal(n).len() >= 2,
    decreases n,
{
    if n >= 10 {
        lemma_decimal_len(n / 10);
    }
}

proof fn lemma_digit_injective(x: nat, y: nat)
    requires
        x < 10,
        y < 10,
        digit(x) == digit(y),
    ensures
        x == y,
{
    assert((digit(x) as u32) == 48 + x);
    assert((digit(y) as u32) == 48 + y);
}

proof fn lemma_decimal_injective(a: nat, b: nat)
    requires
        decimal(a) == decimal(b),
    ensures
        a == b,
    decreases a,
{
    lemma_decimal_len(a);
    lemma_decimal_len(b);
    if a >= 10 && b >= 10 {
        let da = decimal(a);
        let db = decimal(b);
        assert(da.drop_last() =~= decimal(a / 10));
        assert(db.drop_last() =~= decimal(b / 10));
        assert(da.last() == db.last());
        lemma_decimal_injective(a / 10, b / 10);
        lemma_digit_injective(a % 10, b % 10);
    } else if a < 10 && b < 10 {
        assert(decimal(a) == seq![digit(a)]);
        assert(decimal(b) == seq![digit(b)]);
        assert(seq![digit(a)][0] == digit(a));
        assert(seq![digit(b)][0] == digit(b));
        assert(decimal(a)[0] == decimal(b)[0]);
        lemma_digit_injective(a, b);
    } else {
    }
}

proof fn lemma_numbered_id_injective(a: nat, b: nat)
    requires
        numbered_id(a) == numbered_id(b),
    ensures
        a == b,
{
    let p = "rdp-"@;
    assert(numbered_id(a).subrange(p.len() as int, numbered_id(a).len() as int) =~= decimal(a));
    assert(numbered_id(b).subrange(p.len() as int, numbered_id(b).len() as int) =~= decimal(b));
    lemma_decimal_injective(a, b);
}

/// Among `"rdp-1"` .. `"rdp-{len+1}"` one is always free.
proof fn lemma_some_number_free(ss: Seq<RdpServerSpec>)
    ensures
        exists|m: nat| 1 <= m <= ss.len() + 1 && !id_taken(ss, #[trigger] numbered_id(m)),
{
    if forall|m: nat| 1 <= m <= ss.len() + 1 ==> id_taken(ss, #[trigger] numbered_id(m)) {
        let range = set_int_range(1, ss.len() as int + 2);
        lemma_int_range(1, ss.len() as int + 2);
        let f = |m: int| numbered_id(m as nat);
        let image = range.map(f);
        assert forall|x: int, y: int| range.contains(x) && range.contains(y) && #[trigger] f(x)
            == #[trigger] f(y) implies x == y by {
            lemma_numbered_id_injective(x as nat, y as nat);
        }
        lemma_map_size(range, image, f);
        let ids = ss.map_values(|s: RdpServerSpec| s.id);
        assert forall|x: Seq<char>| image.contains(x) implies ids.to_set().contains(x) by {
            let m = choose|m: int| range.contains(m) && f(m) == x;
            assert(id_taken(ss, numbered_id(m as nat)));
            let i = choose|i: int| 0 <= i < ss.len() && ss[i].id == numbered_id(m as nat);
            assert(ids[i] == x);
        }
        ids.lemma_cardinality_of_set();
        lemma_len_subset(image, ids.to_set());
        assert(false);
    }
}

fn id_is_taken(servers: &Vec<RdpServer>, id: &str) -> (r: bool)
    ensures
        r == id_taken(servers_view(servers@), id@),
{
    let ghost ss = servers_view(servers@);
    let mut i: usize = 0;
    while i < servers.len()
        invariant
            i <= servers.len(),
            ss == servers_view(servers@),
            forall|j: int| 0 <= j < i ==> (#[trigger] ss[j]).id != id@,
        decreases servers.len() - i,
    {
        assert(ss[i as int] == servers@[i as int]@);
        if str_eq(servers[i].id.as_str(), id) {
            return true;
        }
        i = i + 1;
    }
    false
}

fn numbered(n: u64) -> (r: String)
    ensures
        r@ == numbered_id(n as nat),
{
    concat("rdp-", u64_to_string(n).as_str())
}

/// The smallest free `"rdp-{n}"`.
fn fresh_id(servers: &Vec<RdpServer>) -> (r: (String, Ghost<nat>))
    requires
        servers@.len() < u64::MAX,
    ensures
        first_free_number(servers_view(servers@), r.1@),
        r.0@ == numbered_id(r.1@),
{
    let ghost ss = servers_view(servers@);
    proof {
        lemma_some_number_free(ss);
    }
    let bound: u64 = servers.len() as u64 + 1;
    let mut n: u64 = 1;
    loop
        invariant
            1 <= n <= bound,
            bound == ss.len() + 1,
            ss == servers_view(servers@),
            forall|m: nat| 1 <= m < n ==> id_taken(ss, #[trigger] numbered_id(m)),
            exists|m: nat| 1 <= m <= ss.len() + 1 && !id_taken(ss, #[trigger] numbered_id(m)),
        decreases bound - n,
    {
        let candidate = numbered(n);
        if !id_is_taken(servers, candidate.as_str()) {
            return (candidate, Ghost(n as nat));
        }
        if n == bound {
            proof {
                let m = choose|m: nat| 1 <= m <= ss.len() + 1 && !id_taken(ss, #[trigger] numbered_id(m));
                if m < n {
                }
            }
            assert(false);
            return (candidate, Ghost(n as nat));
        }
        n = n + 1;
    }
}

// ------------------------------------------------------------------ store

/// The server a form describes, with identifier `id`: names and addresses
/// are trimmed; an empty port means 3389, an unreadable one 0.
pub open spec fn server_of_form(
    id: Seq<char>,
    name: Seq<char>,
    address: Seq<char>,
    port: Seq<char>,
    ignore: bool,
) -> RdpServerSpec {
    RdpServerSpec {
        id,
        name: trim_seq(name),
        address: trim_seq(address),
        port: if trim_seq(port).len() == 0 {
            3389
        } else {
            match parse_u16_spec(trim_seq(port)) {
                Some(p) => p,
                None => 0,
            }
        },
        ignore_certificate_errors: ignore,
    }
}

/// Another server already has this name, ignoring ASCII case.
pub open spec fn name_taken(ss: Seq<RdpServerSpec>, s: RdpServerSpec) -> bool {
    exists|i: int|
        0 <= i < ss.len() && ss[i].id != s.id && eq_ignore_ascii_case_spec(ss[i].name, s.name)
}

/// Index of the server with identifier `id`.
pub open spec fn index_of(ss: Seq<RdpServerSpec>, id: Seq<char>, i: int) -> Option<int>
    decreases ss.len() - i,
    when 0 <= i <= ss.len()
{
    if i == ss.len() {
        None
    } else if ss[i].id == id {
        Some(i)
    } else {
        index_of(ss, id, i + 1)
    }
}

/// The catalog once `s` is stored: it replaces the first server with its
/// identifier, or is appended.
pub open spec fn stored(ss: Seq<RdpServerSpec>, s: RdpServerSpec) -> Seq<RdpServerSpec> {
    match index_of(ss, s.id, 0) {
        Some(i) => ss.update(i, s),
        None => ss.push(s),
    }
}

pub open spec fn opt_str_view(o: Option<&str>) -> Option<Seq<char>> {
    match o {
        Some(s) => Some(s@),
        None => None,
    }
}

/// The identifier a new server gets: the smallest free `"rdp-{n}"`.
pub open spec fn new_server_id(ss: Seq<RdpServerSpec>) -> Seq<char> {
    numbered_id(choose|n: nat| first_free_number(ss, n))
}

proof fn lemma_first_free_unique(ss: Seq<RdpServerSpec>, n: nat)
    requires
        first_free_number(ss, n),
    ensures
        new_server_id(ss) == numbered_id(n),
{
    let c = choose|m: nat| first_free_number(ss, m);
    assert(first_free_number(ss, c));
    if c < n {
        assert(id_taken(ss, numbered_id(c)));
    } else if n < c {
        assert(id_taken(ss, numbered_id(n)));
    }
}

/// Saving a form: an edit of an unknown server is refused; then the record
/// is validated and its name must be free (ignoring ASCII case) among the
/// other servers; the catalog then stores it.
pub open spec fn save_spec(
    ss: Seq<RdpServerSpec>,
    id: Option<Seq<char>>,
    name: Seq<char>,
    address: Seq<char>,
    port: Seq<char>,
    ignore: bool,
) -> Result<(Seq<RdpServerSpec>, RdpServerSpec), Seq<char>> {
    if id matches Some(i) && !id_taken(ss, i) {
        Err(MSG_NOT_FOUND@)
    } else {
        let sid = match id {
            Some(i) => i,
            None => new_server_id(ss),
        };
        let s = server_of_form(sid, name, address, port, ignore);
        if validate_spec(s) is Err {
            Err(validate_spec(s)->Err_0)
        } else if name_taken(ss, s) {
            Err(MSG_NAME_TAKEN@)
        } else {
            Ok((stored(ss, s), s))
        }
    }
}

/// The server catalog, in order.
pub struct ServerStore {
    servers: Vec<RdpServer>,
}

impl View for ServerStore {
    type V = Seq<RdpServerSpec>;

    closed spec fn view(&self) -> Seq<RdpServerSpec> {
        servers_view(self.servers@)
    }
}

fn clone_servers(ss: &Vec<RdpServer>) -> (r: Vec<RdpServer>)
    ensures
        servers_view(r@) == servers_view(ss@),
{
    let mut r: Vec<RdpServer> = Vec::new();
    let mut i: usize = 0;
    while i < ss.len()
        invariant
            i <= ss.len(),
            servers_view(r@) == servers_view(ss@).take(i as int),
        decreases ss.len() - i,
    {
        let c = ss[i].clone();
        let ghost before = r@;
        r.push(c);
        assert(servers_view(r@) =~= servers_view(before).push(c@));
        assert(servers_view(ss@).take(i + 1) =~= servers_view(ss@).take(i as int).push(c@));
        i = i + 1;
    }
    assert(servers_view(ss@).take(i as int) =~= servers_view(ss@));
    r
}

fn index_in(servers: &Vec<RdpServer>, id: &str) -> (r: Option<usize>)
    ensures
        match r {
            Some(i) => index_of(servers_view(servers@), id@, 0) == Some(i as int) && i
                < servers@.len(),
            None => index_of(servers_view(servers@), id@, 0) is None,
        },
{
    let ghost ss = servers_view(servers@);
    let mut i: usize = 0;
    while i < servers.len()
        invariant
            i <= servers.len(),
            ss == servers_view(servers@),
            index_of(ss, id@, 0) == index_of(ss, id@, i as int),
        decreases servers.len() - i,
    {
        assert(ss[i as int] == servers@[i as int]@);
        if str_eq(servers[i].id.as_str(), id) {
            return Some(i);
        }
        i = i + 1;
    }
    None
}

proof fn lemma_index_of_taken(ss: Seq<RdpServerSpec>, id: Seq<char>, i: int)
    requires
        0 <= i <= ss.len(),
    ensures
        index_of(ss, id, i) is Some <==> exists|j: int| i <= j < ss.len() && ss[j].id == id,
    decreases ss.len() - i,
{
    if i < ss.len() {
        lemma_index_of_taken(ss, id, i + 1);
    }
}

fn name_used(servers: &Vec<RdpServer>, server: &RdpServer) -> (r: bool)
    ensures
        r == name_taken(servers_view(servers@), server@),
{
    let ghost ss = servers_view(servers@);
    let ghost s = server@;
    let mut i: usize = 0;
    while i < servers.len()
        invariant
            i <= servers.len(),
            ss == servers_view(servers@),
            s == server@,
            forall|j: int|
                0 <= j < i ==> !((#[trigger] ss[j]).id != s.id && eq_ignore_ascii_case_spec(
                    ss[j].name,
                    s.name,
                )),
        decreases servers.len() - i,
    {
        assert(ss[i as int] == servers@[i as int]@);
        if !str_eq(servers[i].id.as_str(), server.id.as_str()) && eq_ignore_ascii_case(
            servers[i].name.as_str(),
            server.name.as_str(),
        ) {
            return true;
        }
        i = i + 1;
    }
    false
}

pub open spec fn save_result_view(r: Result<(Vec<RdpServer>, RdpServer), String>) -> Result<
    (Seq<RdpServerSpec>, RdpServerSpec),
    Seq<char>,
> {
    match r {
        Ok((v, s)) => Ok((servers_view(v@), s@)),
        Err(e) => Err(e@),
    }
}

impl ServerStore {
    /// A catalog read from disk; refused when a record or an identifier is
    /// invalid, or an identifier repeats.
    pub fn load(servers: Vec<RdpServer>) -> (r: Result<ServerStore, String>)
        ensures
            match catalog_error(servers_view(servers@), 0) {
                None => r matches Ok(s) && s@ == servers_view(servers@),
                Some(e) => r matches Err(m) && m@ == e,
            },
    {
        match check_catalog(&servers) {
            Ok(()) => Ok(ServerStore { servers }),
            Err(e) => Err(e),
        }
    }

    /// Every server, in order.
    pub fn all(&self) -> (r: Vec<RdpServer>)
        ensures
            servers_view(r@) == self@,
    {
        clone_servers(&self.servers)
    }

    /// The first server with identifier `id`.
    pub fn get(&self, id: &str) -> (r: Option<RdpServer>)
        ensures
            match index_of(self@, id@, 0) {
                Some(i) => r matches Some(s) && s@ == self@[i],
                None => r is None,
            },
    {
        match index_in(&self.servers, id) {
            Some(i) => {
                assert(self@[i as int] == self.servers@[i as int]@);
                Some(self.servers[i].clone())
            },
            None => None,
        }
    }

    /// Saves `form` as server `id` (an edit) or as a new server with the
    /// smallest free `"rdp-{n}"` identifier. Returns the catalog to store and
    /// the saved server; the store itself is unchanged until `commit`.
    pub fn save(&self, id: Option<&str>, form: &ServerForm) -> (r: Result<
        (Vec<RdpServer>, RdpServer),
        String,
    >)
        requires
            self@.len() < u64::MAX,
        ensures
            save_result_view(r) == save_spec(
                self@,
                opt_str_view(id),
                form.name@,
                form.address@,
                form.port@,
                form.ignore_certificate_errors is Some,
            ),
    {
        let ghost ss = self@;
        let server_id = match id {
            Some(i) => {
                if !id_is_taken(&self.servers, i) {
                    return Err(owned(MSG_NOT_FOUND));
                }
                owned(i)
            },
            None => {
                let (fresh, Ghost(n)) = fresh_id(&self.servers);
                proof {
                    lemma_first_free_unique(ss, n);
                }
                fresh
            },
        };
        let port_text = trim(form.port.as_str());
        let port: u16 = if is_empty_str(port_text.as_str()) {
            3389
        } else {
            match parse_u16(port_text.as_str()) {
                Some(p) => p,
                None => 0,
            }
        };
        let server = RdpServer {
            id: server_id,
            name: trim(form.name.as_str()),
            address: trim(form.address.as_str()),
            port,
            ignore_certificate_errors: form.ignore_certificate_errors.is_some(),
        };
        let ghost s = server@;
        assert(s == server_of_form(
            server.id@,
            form.name@,
            form.address@,
            form.port@,
            form.ignore_certificate_errors is Some,
        ));
        match validate(&server) {
            Err(e) => {
                return Err(e);
            },
            Ok(()) => {},
        }
        if name_used(&self.servers, &server) {
            return Err(owned(MSG_NAME_TAKEN));
        }
        let mut next = clone_servers(&self.servers);
        let saved = server.clone();
        match index_in(&next, server.id.as_str()) {
            Some(k) => {
                let ghost before = servers_view(next@);
                next.set(k, server);
                assert(servers_view(next@) =~= before.update(k as int, s));
            },
            None => {
                let ghost before = servers_view(next@);
                next.push(server);
                assert(servers_view(next@) =~= before.push(s));
            },
        }
        Ok((next, saved))
    }

    /// Replaces the catalog by one that has been stored.
    pub fn commit(&mut self, servers: Vec<RdpServer>)
        ensures
            final(self)@ == servers_view(servers@),
    {
        self.servers = servers;
    }
}

// ------------------------------------------------------------------- laws

/// No two servers share an identifier.
pub open spec fn unique_ids(ss: Seq<RdpServerSpec>) -> bool {
    forall|i: int, j: int| 0 <= i < j < ss.len() ==> ss[i].id != ss[j].id
}

proof fn lemma_index_of_found(ss: Seq<RdpServerSpec>, id: Seq<char>, i: int)
    requires
        0 <= i <= ss.len(),
    ensures
        index_of(ss, id, i) matches Some(k) ==> i <= k < ss.len() && ss[k].id == id,
        index_of(ss, id, i) is None ==> forall|k: int| i <= k < ss.len() ==> ss[k].id != id,
    decreases ss.len() - i,
{
    if i < ss.len() {
        lemma_index_of_found(ss, id, i + 1);
    }
}

/// A catalog with unique identifiers keeps them unique through any
/// successful save: an edit keeps its identifier, a new server gets a free
/// one.
pub proof fn law_save_keeps_ids_unique(
    ss: Seq<RdpServerSpec>,
    id: Option<Seq<char>>,
    name: Seq<char>,
    address: Seq<char>,
    port: Seq<char>,
    ignore: bool,
)
    requires
        unique_ids(ss),
        save_spec(ss, id, name, address, port, ignore) is Ok,
    ensures
        unique_ids(save_spec(ss, id, name, address, port, ignore)->Ok_0.0),
{
    let r = save_spec(ss, id, name, address, port, ignore)->Ok_0;
    let s = r.1;
    lemma_index_of_found(ss, s.id, 0);
    match index_of(ss, s.id, 0) {
        Some(k) => {
            assert(r.0 == ss.update(k, s));
        },
        None => {
            assert(r.0 == ss.push(s));
            if id is None {
                lemma_some_number_free(ss);
                let m = choose|m: nat| 1 <= m <= ss.len() + 1 && !id_taken(ss, #[trigger] numbered_id(m));
                lemma_least_free_exists(ss, m);
                let n = choose|n: nat| first_free_number(ss, n);
                lemma_first_free_unique(ss, n);
            }
            assert forall|i: int, j: int| 0 <= i < j < r.0.len() implies r.0[i].id != r.0[j].id by {
                if j == ss.len() {
                    assert(r.0[i] == ss[i]);
                }
            }
        },
    }
}

/// If some number is free, a smallest one is.
proof fn lemma_least_free_exists(ss: Seq<RdpServerSpec>, m: nat)
    requires
        m >= 1,
        !id_taken(ss, numbered_id(m)),
    ensures
        exists|n: nat| first_free_number(ss, n),
    decreases m,
{
    if forall|k: nat| 1 <= k < m ==> id_taken(ss, #[trigger] numbered_id(k)) {
        assert(first_free_number(ss, m));
    } else {
        let k = choose|k: nat| 1 <= k < m && !id_taken(ss, #[trigger] numbered_id(k));
        lemma_least_free_exists(ss, k);
    }
}

} // verus!
