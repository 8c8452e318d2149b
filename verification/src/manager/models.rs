//! Kiosk records administered by NOC Manager, their validation and the
//! normalization of what the web form submits.
use vstd::prelude::*;
use crate::text::{
    all_ws, chars_of, contains_seq, contains_str, decimal, has_char, has_prefix, is_blank,
    lemma_trim_empty_iff_all_ws, lemma_trim_idempotent, owned, split_words, starts_with, str_eq,
    trim, trim_seq, u64_to_string, views_of, words, collapse_whitespace, collapse_ws,
    lemma_collapse_ws_idempotent, lemma_collapse_ws_not_blank,
};

verus! {

pub open spec fn opt_view(o: Option<String>) -> Option<Seq<char>> {
    match o {
        Some(s) => Some(s@),
        None => None,
    }
}

pub fn clone_opt(o: &Option<String>) -> (r: Option<String>)
    ensures
        opt_view(r) == opt_view(*o),
{
    match o {
        Some(s) => Some(s.clone()),
        None => None,
    }
}

/// Mathematical value of an [`RdpConfig`].
pub struct RdpConfigSpec {
    pub server_id: Option<Seq<char>>,
    pub enabled: bool,
    pub server: Seq<char>,
    pub port: u16,
    pub password: Option<Seq<char>>,
    pub ignore_certificate_errors: bool,
}

/// Centralized RDP connection settings, served to NOC Display. The login
/// username is `Kiosk.username`, which can differ from the Display lookup
/// identity.
pub struct RdpConfig {
    pub server_id: Option<String>,
    pub enabled: bool,
    pub server: String,
    pub port: u16,
    /// `None` = no centrally-managed password; NOC Display falls back to its
    /// local secret for this kiosk.
    pub password: Option<String>,
    pub ignore_certificate_errors: bool,
}

impl View for RdpConfig {
    type V = RdpConfigSpec;

    open spec fn view(&self) -> RdpConfigSpec {
        RdpConfigSpec {
            server_id: opt_view(self.server_id),
            enabled: self.enabled,
            server: self.server@,
            port: self.port,
            password: opt_view(self.password),
            ignore_certificate_errors: self.ignore_certificate_errors,
        }
    }
}

/// Default RDP port.
pub const DEFAULT_RDP_PORT: u16 = 3389;

impl Default for RdpConfig {
    fn default() -> (r: Self)
        ensures
            r@ == (RdpConfigSpec {
                server_id: None,
                enabled: false,
                server: Seq::empty(),
                port: DEFAULT_RDP_PORT,
                password: None,
                ignore_certificate_errors: false,
            }),
    {
        RdpConfig {
            server_id: None,
            enabled: false,
            server: String::new(),
            port: DEFAULT_RDP_PORT,
            password: None,
            ignore_certificate_errors: false,
        }
    }
}

impl Clone for RdpConfig {
    fn clone(&self) -> (r: Self)
        ensures
            r@ == self@,
    {
        RdpConfig {
            server_id: clone_opt(&self.server_id),
            enabled: self.enabled,
            server: self.server.clone(),
            port: self.port,
            password: clone_opt(&self.password),
            ignore_certificate_errors: self.ignore_certificate_errors,
        }
    }
}

/// Mathematical value of a [`Kiosk`].
pub struct KioskSpec {
    pub username: Seq<char>,
    pub display_username: Option<Seq<char>>,
    pub name: Seq<char>,
    pub url: Seq<char>,
    pub enabled: bool,
    pub restart_cron: Option<Seq<char>>,
    pub rdp: RdpConfigSpec,
}

/// A kiosk: the Linux account of its agent, the Display identity showing it,
/// the page it displays and its optional restart schedule.
pub struct Kiosk {
    pub username: String,
    pub display_username: Option<String>,
    pub name: String,
    pub url: String,
    pub enabled: bool,
    /// `None` means: no scheduled restart.
    pub restart_cron: Option<String>,
    pub rdp: RdpConfig,
}

impl View for Kiosk {
    type V = KioskSpec;

    open spec fn view(&self) -> KioskSpec {
        KioskSpec {
            username: self.username@,
            display_username: opt_view(self.display_username),
            name: self.name@,
            url: self.url@,
            enabled: self.enabled,
            restart_cron: opt_view(self.restart_cron),
            rdp: self.rdp@,
        }
    }
}

impl Clone for Kiosk {
    fn clone(&self) -> (r: Self)
        ensures
            r@ == self@,
    {
        Kiosk {
            username: self.username.clone(),
            display_username: clone_opt(&self.display_username),
            name: self.name.clone(),
            url: self.url.clone(),
            enabled: self.enabled,
            restart_cron: clone_opt(&self.restart_cron),
            rdp: self.rdp.clone(),
        }
    }
}

pub open spec fn kiosks_view(ks: Seq<Kiosk>) -> Seq<KioskSpec> {
    ks.map_values(|k: Kiosk| k@)
}

/// The identity NOC Display looks the kiosk up by: the explicit display name
/// unless it is blank, else the agent username.
pub open spec fn display_name_spec(k: KioskSpec) -> Seq<char> {
    match k.display_username {
        Some(d) if !all_ws(d) => d,
        _ => k.username,
    }
}

impl Kiosk {
    pub fn display_username(&self) -> (r: &str)
        ensures
            r@ == display_name_spec(self@),
    {
        match &self.display_username {
            Some(d) => {
                if !is_blank(d.as_str()) {
                    return d.as_str();
                }
            },
            None => {},
        }
        self.username.as_str()
    }
}

/// What to do with the centrally-stored RDP password on an update: an empty
/// password input never means "clear" by itself.
pub enum PasswordAction {
    Keep,
    SetTo(String),
    Clear,
}

// ------------------------------------------------------------- validation

/// ASCII letter or digit.
pub open spec fn ascii_alnum(c: char) -> bool {
    let u = c as u32;
    (48 <= u <= 57) || (65 <= u <= 90) || (97 <= u <= 122)
}

pub fn is_ascii_alnum(c: char) -> (r: bool)
    ensures
        r == ascii_alnum(c),
{
    let u = c as u32;
    (48 <= u && u <= 57) || (65 <= u && u <= 90) || (97 <= u && u <= 122)
}

/// Letters, digits, dashes, dots and underscores: the characters of an
/// account name.
pub open spec fn account_char(c: char) -> bool {
    ascii_alnum(c) || c == '-' || c == '_' || c == '.'
}

pub open spec fn all_account_chars(s: Seq<char>) -> bool {
    forall|i: int| 0 <= i < s.len() ==> account_char(#[trigger] s[i])
}

pub fn only_account_chars(s: &str) -> (r: bool)
    ensures
        r == all_account_chars(s@),
{
    let v = chars_of(s);
    let mut i: usize = 0;
    while i < v.len()
        invariant
            i <= v.len(),
            v@ == s@,
            forall|j: int| 0 <= j < i ==> account_char(#[trigger] s@[j]),
        decreases v.len() - i,
    {
        let c = v[i];
        if !(is_ascii_alnum(c) || c == '-' || c == '_' || c == '.') {
            assert(!account_char(s@[i as int]));
            return false;
        }
        i = i + 1;
    }
    true
}

pub const MSG_AGENT_REQUIRED: &'static str = "La session Agent est obligatoire";

pub const MSG_AGENT_CHARS: &'static str =
    "Session Agent : seuls lettres, chiffres, tirets, points et underscores sont acceptés";

pub const MSG_AGENT_TAKEN_PREFIX: &'static str = "La session Agent '";

pub const MSG_AGENT_TAKEN_SUFFIX: &'static str = "' est déjà configurée";

pub const MSG_NAME_REQUIRED: &'static str = "Le nom du kiosque est obligatoire";

pub const MSG_DISPLAY_CHARS: &'static str =
    "Nom Display : seuls lettres, chiffres, tirets, points et underscores sont acceptés";

pub const MSG_DISPLAY_TAKEN_PREFIX: &'static str = "Le Display '";

pub const MSG_DISPLAY_TAKEN_SUFFIX: &'static str = "' est déjà associé à un kiosque";

pub const MSG_URL_REQUIRED: &'static str = "L’URL est obligatoire";

pub const MSG_URL_SCHEME: &'static str = "L’URL doit commencer par http:// ou https://";

pub const MSG_RDP_REQUIRED: &'static str = "RDP activé : indiquez un serveur et un port entre 1 et 65535";

pub const MSG_RDP_SERVER: &'static str =
    "Le serveur RDP doit être un nom DNS ou une adresse IP, sans schéma URL ni identifiants";

pub const MSG_CRON_COUNT_PREFIX: &'static str =
    "La planification exige 5 champs (minute heure jour mois jour-de-semaine), ";

pub const MSG_CRON_COUNT_SUFFIX: &'static str = " reçu(s)";

pub const MSG_CRON_CHAR_PREFIX: &'static str = "Caractère invalide dans le champ cron '";

pub const QUOTE: &'static str = "'";

pub const HTTP: &'static str = "http://";

pub const HTTPS: &'static str = "https://";

pub const SCHEME_SEP: &'static str = "://";

/// Character allowed in a cron field.
pub open spec fn cron_char(c: char) -> bool {
    let u = c as u32;
    (48 <= u <= 57) || c == '*' || c == '/' || c == ',' || c == '-'
}

pub open spec fn all_cron_chars(s: Seq<char>) -> bool {
    forall|i: int| 0 <= i < s.len() ==> cron_char(#[trigger] s[i])
}

/// Index of the first field holding a character that is not allowed.
pub open spec fn first_bad_field(ws: Seq<Seq<char>>, i: int) -> Option<int>
    decreases ws.len() - i,
{
    if i < 0 || i >= ws.len() {
        None
    } else if !all_cron_chars(ws[i]) {
        Some(i)
    } else {
        first_bad_field(ws, i + 1)
    }
}

/// Minimal 5-field cron check: `minute hour day-of-month month day-of-week`.
pub open spec fn validate_cron_spec(expr: Seq<char>) -> Result<(), Seq<char>> {
    let ws = words(expr);
    if ws.len() != 5 {
        Err(MSG_CRON_COUNT_PREFIX@ + decimal(ws.len()) + MSG_CRON_COUNT_SUFFIX@)
    } else {
        match first_bad_field(ws, 0) {
            Some(i) => Err(MSG_CRON_CHAR_PREFIX@ + ws[i] + QUOTE@),
            None => Ok(()),
        }
    }
}

pub open spec fn result_view(r: Result<(), String>) -> Result<(), Seq<char>> {
    match r {
        Ok(()) => Ok(()),
        Err(e) => Err(e@),
    }
}

fn only_cron_chars(s: &str) -> (r: bool)
    ensures
        r == all_cron_chars(s@),
{
    let v = chars_of(s);
    let mut i: usize = 0;
    while i < v.len()
        invariant
            i <= v.len(),
            v@ == s@,
            forall|j: int| 0 <= j < i ==> cron_char(#[trigger] s@[j]),
        decreases v.len() - i,
    {
        let c = v[i];
        let u = c as u32;
        if !((48 <= u && u <= 57) || c == '*' || c == '/' || c == ',' || c == '-') {
            assert(!cron_char(s@[i as int]));
            return false;
        }
        i = i + 1;
    }
    true
}

/// Checks the shape of a cron expression: five fields of digits and `*/,-`.
pub fn validate_cron(expr: &str) -> (r: Result<(), String>)
    ensures
        result_view(r) == validate_cron_spec(expr@),
{
    let fields = split_words(expr);
    let ghost ws = words(expr@);
    if fields.len() != 5 {
        let mut msg = owned(MSG_CRON_COUNT_PREFIX);
        msg.append(u64_to_string(fields.len() as u64).as_str());
        msg.append(MSG_CRON_COUNT_SUFFIX);
        assert(ws.len() == fields@.len());
        return Err(msg);
    }
    let mut i: usize = 0;
    while i < fields.len()
        invariant
            i <= fields.len(),
            fields.len() == 5,
            views_of(fields@) == ws,
            ws == words(expr@),
            first_bad_field(ws, 0) == first_bad_field(ws, i as int),
        decreases fields.len() - i,
    {
        assert(ws[i as int] == fields@[i as int]@);
        if !only_cron_chars(fields[i].as_str()) {
            let mut msg = owned(MSG_CRON_CHAR_PREFIX);
            msg.append(fields[i].as_str());
            msg.append(QUOTE);
            assert(!all_cron_chars(ws[i as int]));
            assert(first_bad_field(ws, i as int) == Some(i as int));
            return Err(msg);
        }
        i = i + 1;
    }
    Ok(())
}

/// The validation of a kiosk against the configured list.
/// `previous` is the username being edited (allowed to keep its own name).
pub open spec fn validate_spec(
    k: KioskSpec,
    existing: Seq<KioskSpec>,
    previous: Option<Seq<char>>,
) -> Result<(), Seq<char>> {
    let username = trim_seq(k.username);
    let is_rename = match previous {
        Some(p) => p != username,
        None => true,
    };
    let display = display_name_spec(k);
    let url = trim_seq(k.url);
    let server = trim_seq(k.rdp.server);
    if username.len() == 0 {
        Err(MSG_AGENT_REQUIRED@)
    } else if !all_account_chars(username) {
        Err(MSG_AGENT_CHARS@)
    } else if is_rename && exists|i: int|
        0 <= i < existing.len() && (#[trigger] existing[i]).username == username {
        Err(MSG_AGENT_TAKEN_PREFIX@ + username + MSG_AGENT_TAKEN_SUFFIX@)
    } else if trim_seq(k.name).len() == 0 {
        Err(MSG_NAME_REQUIRED@)
    } else if !all_account_chars(display) {
        Err(MSG_DISPLAY_CHARS@)
    } else if exists|i: int|
        0 <= i < existing.len() && previous != Some((#[trigger] existing[i]).username)
            && display_name_spec(existing[i]) == display {
        Err(MSG_DISPLAY_TAKEN_PREFIX@ + display + MSG_DISPLAY_TAKEN_SUFFIX@)
    } else if url.len() == 0 {
        Err(MSG_URL_REQUIRED@)
    } else if !starts_with(url, HTTP@) && !starts_with(url, HTTPS@) {
        Err(MSG_URL_SCHEME@)
    } else if k.restart_cron matches Some(c) && !all_ws(c) && validate_cron_spec(c) is Err {
        validate_cron_spec(k.restart_cron->0)
    } else if k.rdp.enabled && (server.len() == 0 || k.rdp.port == 0) {
        Err(MSG_RDP_REQUIRED@)
    } else if k.rdp.enabled && (contains_seq(server, SCHEME_SEP@) || server.contains('@')
        || server.contains('/')) {
        Err(MSG_RDP_SERVER@)
    } else {
        Ok(())
    }
}

fn username_taken(existing: &[Kiosk], username: &String) -> (r: bool)
    ensures
        r == exists|i: int|
            0 <= i < existing@.len() && (#[trigger] kiosks_view(existing@)[i]).username
                == username@,
{
    let mut i: usize = 0;
    while i < existing.len()
        invariant
            i <= existing@.len(),
            forall|j: int|
                0 <= j < i ==> (#[trigger] kiosks_view(existing@)[j]).username != username@,
        decreases existing@.len() - i,
    {
        if existing[i].username == *username {
            assert(kiosks_view(existing@)[i as int].username == username@);
            return true;
        }
        i = i + 1;
    }
    false
}

fn display_taken(existing: &[Kiosk], previous: Option<&str>, display: &str) -> (r: bool)
    ensures
        r == exists|i: int|
            0 <= i < existing@.len() && match previous {
                Some(p) => p@ != (#[trigger] kiosks_view(existing@)[i]).username,
                None => true,
            } && display_name_spec(kiosks_view(existing@)[i]) == display@,
{
    let mut i: usize = 0;
    while i < existing.len()
        invariant
            i <= existing@.len(),
            forall|j: int|
                0 <= j < i ==> !(match previous {
                    Some(p) => p@ != (#[trigger] kiosks_view(existing@)[j]).username,
                    None => true,
                } && display_name_spec(kiosks_view(existing@)[j]) == display@),
        decreases existing@.len() - i,
    {
        let k = &existing[i];
        let other = match previous {
            Some(p) => !str_eq(k.username.as_str(), p),
            None => true,
        };
        if other && str_eq(k.display_username(), display) {
            assert(kiosks_view(existing@)[i as int] == k@);
            return true;
        }
        assert(kiosks_view(existing@)[i as int] == k@);
        i = i + 1;
    }
    false
}

pub open spec fn prev_view(p: Option<&str>) -> Option<Seq<char>> {
    match p {
        Some(s) => Some(s@),
        None => None,
    }
}

/// Validates a kiosk. `existing` is the full list, used for the uniqueness
/// checks; `previous_username` is the username being edited.
pub fn validate(kiosk: &Kiosk, existing: &[Kiosk], previous_username: Option<&str>) -> (r: Result<
    (),
    String,
>)
    ensures
        result_view(r) == validate_spec(
            kiosk@,
            kiosks_view(existing@),
            prev_view(previous_username),
        ),
{
    let ghost ex = kiosks_view(existing@);
    let ghost prev = prev_view(previous_username);
    let username = trim(kiosk.username.as_str());
    if is_blank(username.as_str()) {
        proof {
            lemma_trim_idempotent(kiosk.username@);
            lemma_trim_empty_iff_all_ws(username@);
        }
        return Err(owned(MSG_AGENT_REQUIRED));
    }
    proof {
        lemma_trim_idempotent(kiosk.username@);
        lemma_trim_empty_iff_all_ws(username@);
    }
    if !only_account_chars(username.as_str()) {
        return Err(owned(MSG_AGENT_CHARS));
    }
    let is_rename = match previous_username {
        Some(p) => !str_eq(p, username.as_str()),
        None => true,
    };
    if is_rename && username_taken(existing, &username) {
        let mut msg = owned(MSG_AGENT_TAKEN_PREFIX);
        msg.append(username.as_str());
        msg.append(MSG_AGENT_TAKEN_SUFFIX);
        return Err(msg);
    }
    if is_blank(kiosk.name.as_str()) {
        proof {
            lemma_trim_empty_iff_all_ws(kiosk.name@);
        }
        return Err(owned(MSG_NAME_REQUIRED));
    }
    proof {
        lemma_trim_empty_iff_all_ws(kiosk.name@);
    }
    let display = kiosk.display_username();
    if !only_account_chars(display) {
        return Err(owned(MSG_DISPLAY_CHARS));
    }
    if display_taken(existing, previous_username, display) {
        let mut msg = owned(MSG_DISPLAY_TAKEN_PREFIX);
        msg.append(display);
        msg.append(MSG_DISPLAY_TAKEN_SUFFIX);
        proof {
            assert forall|i: int|
                0 <= i < ex.len() implies (prev != Some((#[trigger] ex[i]).username)) == (
            match previous_username {
                Some(p) => p@ != ex[i].username,
                None => true,
            }) by {}
        }
        return Err(msg);
    }
    proof {
        assert forall|i: int|
            0 <= i < ex.len() implies (prev != Some((#[trigger] ex[i]).username)) == (
        match previous_username {
            Some(p) => p@ != ex[i].username,
            None => true,
        }) by {}
    }
    let url = trim(kiosk.url.as_str());
    if is_blank(url.as_str()) {
        proof {
            lemma_trim_idempotent(kiosk.url@);
            lemma_trim_empty_iff_all_ws(url@);
        }
        return Err(owned(MSG_URL_REQUIRED));
    }
    proof {
        lemma_trim_idempotent(kiosk.url@);
        lemma_trim_empty_iff_all_ws(url@);
    }
    if !has_prefix(url.as_str(), HTTP) && !has_prefix(url.as_str(), HTTPS) {
        return Err(owned(MSG_URL_SCHEME));
    }
    match &kiosk.restart_cron {
        Some(cron) => {
            if !is_blank(cron.as_str()) {
                match validate_cron(cron.as_str()) {
                    Ok(()) => {},
                    Err(e) => {
                        return Err(e);
                    },
                }
            }
        },
        None => {},
    }
    if kiosk.rdp.enabled {
        let server = trim(kiosk.rdp.server.as_str());
        if is_blank(server.as_str()) || kiosk.rdp.port == 0 {
            proof {
                lemma_trim_idempotent(kiosk.rdp.server@);
                lemma_trim_empty_iff_all_ws(server@);
            }
            return Err(owned(MSG_RDP_REQUIRED));
        }
        proof {
            lemma_trim_idempotent(kiosk.rdp.server@);
            lemma_trim_empty_iff_all_ws(server@);
        }
        if contains_str(server.as_str(), SCHEME_SEP) || has_char(server.as_str(), '@') || has_char(
            server.as_str(),
            '/',
        ) {
            return Err(owned(MSG_RDP_SERVER));
        }
    }
    Ok(())
}

// ------------------------------------------------------------ URL scheme

/// Two kiosks that differ only in their URL, each of which begins, once
/// trimmed, with `http://` or with `https://`, get the same answer: a kiosk
/// valid in every other respect is accepted with either scheme.
pub proof fn law_url_http_and_https_alike(
    k1: KioskSpec,
    k2: KioskSpec,
    existing: Seq<KioskSpec>,
    previous: Option<Seq<char>>,
)
    requires
        k2 == (KioskSpec { url: k2.url, ..k1 }),
        starts_with(trim_seq(k1.url), "http://"@) || starts_with(trim_seq(k1.url), "https://"@),
        starts_with(trim_seq(k2.url), "http://"@) || starts_with(trim_seq(k2.url), "https://"@),
    ensures
        validate_spec(k1, existing, previous) == validate_spec(k2, existing, previous),
{
    reveal_strlit("http://");
    reveal_strlit("https://");
    assert(HTTP@ == "http://"@);
    assert(HTTPS@ == "https://"@);
}

proof fn lemma_differs_at(a: Seq<char>, b: Seq<char>, i: int)
    requires
        0 <= i < a.len(),
        0 <= i < b.len(),
        a[i] != b[i],
    ensures
        a != b,
{
}

/// A kiosk is refused with the URL-scheme message only when its trimmed URL
/// begins neither with `http://` nor with `https://`; and a non-blank URL
/// that begins with neither is always refused.
pub proof fn law_url_scheme_refusal(
    k: KioskSpec,
    existing: Seq<KioskSpec>,
    previous: Option<Seq<char>>,
)
    ensures
        validate_spec(k, existing, previous) == Err::<(), Seq<char>>(MSG_URL_SCHEME@) ==> !starts_with(
            trim_seq(k.url),
            "http://"@,
        ) && !starts_with(trim_seq(k.url), "https://"@),
        trim_seq(k.url).len() > 0 && !starts_with(trim_seq(k.url), "http://"@) && !starts_with(
            trim_seq(k.url),
            "https://"@,
        ) ==> validate_spec(k, existing, previous) is Err,
{
    reveal_strlit("http://");
    reveal_strlit("https://");
    assert(HTTP@ == "http://"@);
    assert(HTTPS@ == "https://"@);
    reveal_strlit("L’URL doit commencer par http:// ou https://");
    reveal_strlit("La session Agent est obligatoire");
    reveal_strlit(
        "Session Agent : seuls lettres, chiffres, tirets, points et underscores sont acceptés",
    );
    reveal_strlit("La session Agent '");
    reveal_strlit("Le nom du kiosque est obligatoire");
    reveal_strlit(
        "Nom Display : seuls lettres, chiffres, tirets, points et underscores sont acceptés",
    );
    reveal_strlit("Le Display '");
    reveal_strlit("L’URL est obligatoire");
    reveal_strlit("RDP activé : indiquez un serveur et un port entre 1 et 65535");
    reveal_strlit(
        "Le serveur RDP doit être un nom DNS ou une adresse IP, sans schéma URL ni identifiants",
    );
    reveal_strlit("La planification exige 5 champs (minute heure jour mois jour-de-semaine), ");
    reveal_strlit("Caractère invalide dans le champ cron '");
    let m = MSG_URL_SCHEME@;
    let r = validate_spec(k, existing, previous);
    if r == Err::<(), Seq<char>>(m) && (starts_with(trim_seq(k.url), "http://"@) || starts_with(
        trim_seq(k.url),
        "https://"@,
    )) {
        let username = trim_seq(k.username);
        let display = display_name_spec(k);
        lemma_differs_at(MSG_AGENT_REQUIRED@, m, 1);
        lemma_differs_at(MSG_AGENT_CHARS@, m, 0);
        lemma_differs_at(MSG_AGENT_TAKEN_PREFIX@ + username + MSG_AGENT_TAKEN_SUFFIX@, m, 1);
        lemma_differs_at(MSG_NAME_REQUIRED@, m, 1);
        lemma_differs_at(MSG_DISPLAY_CHARS@, m, 0);
        lemma_differs_at(MSG_DISPLAY_TAKEN_PREFIX@ + display + MSG_DISPLAY_TAKEN_SUFFIX@, m, 1);
        lemma_differs_at(MSG_URL_REQUIRED@, m, 6);
        lemma_differs_at(MSG_RDP_REQUIRED@, m, 0);
        lemma_differs_at(MSG_RDP_SERVER@, m, 1);
        match k.restart_cron {
            Some(c) => {
                let ws = words(c);
                lemma_differs_at(
                    MSG_CRON_COUNT_PREFIX@ + decimal(ws.len()) + MSG_CRON_COUNT_SUFFIX@,
                    m,
                    1,
                );
                match first_bad_field(ws, 0) {
                    Some(i) => {
                        lemma_differs_at(MSG_CRON_CHAR_PREFIX@ + ws[i] + QUOTE@, m, 0);
                    },
                    None => {},
                }
            },
            None => {},
        }
        assert(false);
    }
}

// ---------------------------------------------------------- normalization

pub open spec fn normalize_spec(k: KioskSpec) -> KioskSpec {
    KioskSpec {
        username: trim_seq(k.username),
        display_username: match k.display_username {
            Some(d) if trim_seq(d).len() > 0 => Some(trim_seq(d)),
            _ => None,
        },
        name: trim_seq(k.name),
        url: trim_seq(k.url),
        restart_cron: match k.restart_cron {
            Some(c) if !all_ws(c) => Some(collapse_ws(c)),
            _ => None,
        },
        rdp: RdpConfigSpec { server: trim_seq(k.rdp.server), ..k.rdp },
        ..k
    }
}

/// Normalizing is idempotent: a kiosk already normalized stays as it is.
pub proof fn law_normalize_idempotent(k: KioskSpec)
    ensures
        normalize_spec(normalize_spec(k)) == normalize_spec(k),
{
    let n = normalize_spec(k);
    lemma_trim_idempotent(k.username);
    lemma_trim_idempotent(k.name);
    lemma_trim_idempotent(k.url);
    lemma_trim_idempotent(k.rdp.server);
    match k.display_username {
        Some(d) => {
            lemma_trim_idempotent(d);
        },
        None => {},
    }
    match k.restart_cron {
        Some(c) => {
            if !all_ws(c) {
                lemma_collapse_ws_idempotent(c);
                lemma_collapse_ws_not_blank(c);
            }
        },
        None => {},
    }
    assert(normalize_spec(n).rdp == n.rdp);
    assert(normalize_spec(n).display_username == n.display_username);
    assert(normalize_spec(n).restart_cron == n.restart_cron);
}

/// Normalizes user input coming from the web form.
pub fn normalize(kiosk: &mut Kiosk)
    ensures
        final(kiosk)@ == normalize_spec(old(kiosk)@),
{
    kiosk.username = trim(kiosk.username.as_str());
    let display = match &kiosk.display_username {
        Some(d) => {
            let t = trim(d.as_str());
            if is_blank(t.as_str()) {
                proof {
                    lemma_trim_idempotent(d@);
                    lemma_trim_empty_iff_all_ws(t@);
                }
                None
            } else {
                proof {
                    lemma_trim_idempotent(d@);
                    lemma_trim_empty_iff_all_ws(t@);
                }
                Some(t)
            }
        },
        None => None,
    };
    kiosk.display_username = display;
    kiosk.name = trim(kiosk.name.as_str());
    kiosk.url = trim(kiosk.url.as_str());
    let cron = match &kiosk.restart_cron {
        Some(c) => {
            if !is_blank(c.as_str()) {
                Some(collapse_whitespace(c.as_str()))
            } else {
                None
            }
        },
        None => None,
    };
    kiosk.restart_cron = cron;
    kiosk.rdp.server = trim(kiosk.rdp.server.as_str());
}

} // verus!
