//! NOC Display's per-account settings (`config.toml`), their defaults and
//! their validation.
use vstd::prelude::*;
use crate::text::{contains_seq, contains_str, decimal, has_char, is_blank, owned, trim_seq, u64_to_string};

verus! {

pub struct ManagerSettings {
    /// Heartbeats are off by default: NOC Display does not depend on NOC
    /// Manager unless asked to.
    pub enabled: bool,
    pub host: String,
    pub port: u16,
    pub heartbeat_seconds: u32,
    /// When set, the RDP server, port, password and certificate policy come
    /// from NOC Manager at every attempt, looked up by the Windows account.
    pub provides_rdp: bool,
}

impl Default for ManagerSettings {
    fn default() -> (r: Self)
        ensures
            !r.enabled && r.host@.len() == 0 && r.port == 8080 && r.heartbeat_seconds == 30
                && !r.provides_rdp,
    {
        ManagerSettings {
            enabled: false,
            host: String::new(),
            port: 8080,
            heartbeat_seconds: 30,
            provides_rdp: false,
        }
    }
}

pub struct RdpSettings {
    pub enabled: bool,
    pub server: String,
    pub port: u16,
    pub username: String,
    pub password: Option<String>,
    pub ignore_certificate_errors: bool,
    pub domain: String,
    pub retry_seconds: u32,
}

/// What the RDP settings show in logs and debug output: only whether RDP
/// is on, and the password as `[REDACTED]`.
pub open spec fn rdp_debug_text(s: RdpSettings) -> Seq<char> {
    "RdpSettings { enabled: "@ + (if s.enabled {
        "true"@
    } else {
        "false"@
    }) + ", password: \"[REDACTED]\", .. }"@
}

impl RdpSettings {
    /// The debug text of the settings ([`rdp_debug_text`]).
    pub fn debug_text(&self) -> (r: String)
        ensures
            r@ == rdp_debug_text(*self),
    {
        let mut r = String::new();
        r.append("RdpSettings { enabled: ");
        if self.enabled {
            r.append("true");
        } else {
            r.append("false");
        }
        r.append(", password: \"[REDACTED]\", .. }");
        r
    }
}

/// The debug text never depends on the password, the server, the login or
/// any other setting than whether RDP is on: two settings that agree on it
/// show the same text.
pub proof fn law_debug_text_hides_the_settings(a: RdpSettings, b: RdpSettings)
    requires
        a.enabled == b.enabled,
    ensures
        rdp_debug_text(a) == rdp_debug_text(b),
{
}

impl Default for RdpSettings {
    fn default() -> (r: Self)
        ensures
            !r.enabled && r.server@.len() == 0 && r.port == 3389 && r.username@.len() == 0
                && r.password is None && !r.ignore_certificate_errors && r.domain@.len() == 0
                && r.retry_seconds == 10,
    {
        RdpSettings {
            enabled: false,
            server: String::new(),
            port: 3389,
            username: String::new(),
            password: None,
            ignore_certificate_errors: false,
            domain: String::new(),
            retry_seconds: 10,
        }
    }
}

pub struct UiSettings {
    pub connecting_text: String,
    pub disconnected_text: String,
    pub error_text: String,
    /// `{seconds}` is replaced by the countdown.
    pub reconnecting_text: String,
    /// Shown while NOC Manager is being reached for the RDP settings.
    pub manager_connecting_text: String,
    /// Shown once NOC Manager stayed unreachable.
    pub manager_unreachable_text: String,
    pub development_exit_enabled: bool,
}

impl Default for UiSettings {
    fn default() -> (r: Self)
        ensures
            r.connecting_text@ == "Connexion en cours…"@,
            r.disconnected_text@ == "Connexion interrompue"@,
            r.error_text@ == "Connexion impossible"@,
            r.reconnecting_text@ == "Nouvelle tentative dans {seconds} secondes"@,
            r.manager_connecting_text@ == "Connexion à NOC Manager…"@,
            r.manager_unreachable_text@ == "NOC Manager injoignable"@,
            r.development_exit_enabled,
    {
        UiSettings {
            connecting_text: owned("Connexion en cours…"),
            disconnected_text: owned("Connexion interrompue"),
            error_text: owned("Connexion impossible"),
            reconnecting_text: owned("Nouvelle tentative dans {seconds} secondes"),
            manager_connecting_text: owned("Connexion à NOC Manager…"),
            manager_unreachable_text: owned("NOC Manager injoignable"),
            development_exit_enabled: true,
        }
    }
}

pub struct Config {
    pub rdp: RdpSettings,
    pub ui: UiSettings,
    pub manager: ManagerSettings,
}

impl Default for Config {
    fn default() -> (r: Self)
        ensures
            !r.rdp.enabled && r.rdp.port == 3389 && r.rdp.retry_seconds == 10
                && !r.manager.enabled && !r.manager.provides_rdp,
    {
        Config { rdp: RdpSettings::default(), ui: UiSettings::default(), manager: ManagerSettings::default() }
    }
}

// ------------------------------------------------------------- lengths

/// Number of UTF-16 code units of `s` (`encode_utf16().count()`).
pub open spec fn utf16_len(s: Seq<char>) -> nat
    decreases s.len(),
{
    if s.len() == 0 {
        0
    } else {
        utf16_len(s.drop_last()) + if (s.last() as u32) >= 0x10000 {
            2nat
        } else {
            1nat
        }
    }
}

/// Number of UTF-8 bytes of `s` (`str::len`).
pub open spec fn utf8_len(s: Seq<char>) -> nat
    decreases s.len(),
{
    if s.len() == 0 {
        0
    } else {
        utf8_len(s.drop_last()) + if (s.last() as u32) < 0x80 {
            1nat
        } else if (s.last() as u32) < 0x800 {
            2nat
        } else if (s.last() as u32) < 0x10000 {
            3nat
        } else {
            4nat
        }
    }
}

/// `char::is_control`: the general category Cc.
pub open spec fn is_control(c: char) -> bool {
    (c as u32) <= 0x1F || (0x7F <= (c as u32) && (c as u32) <= 0x9F)
}

pub open spec fn any_control(s: Seq<char>) -> bool {
    exists|i: int| 0 <= i < s.len() && is_control(s[i])
}

/// `utf16_len(s) > limit`, computed without overflow.
fn utf16_longer_than(s: &str, limit: u64) -> (r: bool)
    ensures
        r == (utf16_len(s@) > limit),
{
    let v = crate::text::chars_of(s);
    let mut n: u64 = 0;
    let mut i: usize = 0;
    while i < v.len()
        invariant
            i <= v.len(),
            v@ == s@,
            n == utf16_len(v@.take(i as int)),
            n <= limit,
        decreases v.len() - i,
    {
        assert(v@.take(i + 1).drop_last() =~= v@.take(i as int));
        let w: u64 = if (v[i] as u32) >= 0x10000 { 2 } else { 1 };
        if w > limit - n {
            proof {
                lemma_utf16_monotone(v@, i + 1);
            }
            assert(v@.take(v@.len() as int) =~= v@);
            return true;
        }
        n = n + w;
        i = i + 1;
    }
    assert(v@.take(i as int) =~= v@);
    false
}

proof fn lemma_utf16_monotone(s: Seq<char>, k: int)
    requires
        0 <= k <= s.len(),
    ensures
        utf16_len(s.take(k)) <= utf16_len(s),
    decreases s.len() - k,
{
    if k < s.len() {
        lemma_utf16_monotone(s, k + 1);
        assert(s.take(k + 1).drop_last() =~= s.take(k));
    } else {
        assert(s.take(k) =~= s);
    }
}

proof fn lemma_utf8_monotone(s: Seq<char>, k: int)
    requires
        0 <= k <= s.len(),
    ensures
        utf8_len(s.take(k)) <= utf8_len(s),
    decreases s.len() - k,
{
    if k < s.len() {
        lemma_utf8_monotone(s, k + 1);
        assert(s.take(k + 1).drop_last() =~= s.take(k));
    } else {
        assert(s.take(k) =~= s);
    }
}

/// `str::len() > limit`, computed without overflow.
fn utf8_longer_than(s: &str, limit: u64) -> (r: bool)
    ensures
        r == (utf8_len(s@) > limit),
{
    let v = crate::text::chars_of(s);
    let mut n: u64 = 0;
    let mut i: usize = 0;
    while i < v.len()
        invariant
            i <= v.len(),
            v@ == s@,
            n == utf8_len(v@.take(i as int)),
            n <= limit,
        decreases v.len() - i,
    {
        assert(v@.take(i + 1).drop_last() =~= v@.take(i as int));
        let u = v[i] as u32;
        let w: u64 = if u < 0x80 {
            1
        } else if u < 0x800 {
            2
        } else if u < 0x10000 {
            3
        } else {
            4
        };
        if w > limit - n {
            proof {
                lemma_utf8_monotone(v@, i + 1);
            }
            assert(v@.take(v@.len() as int) =~= v@);
            return true;
        }
        n = n + w;
        i = i + 1;
    }
    assert(v@.take(i as int) =~= v@);
    false
}

fn has_control(s: &str) -> (r: bool)
    ensures
        r == any_control(s@),
{
    let v = crate::text::chars_of(s);
    let mut i: usize = 0;
    while i < v.len()
        invariant
            i <= v.len(),
            v@ == s@,
            forall|j: int| 0 <= j < i ==> !is_control(s@[j]),
        decreases v.len() - i,
    {
        let u = v[i] as u32;
        if u <= 0x1F || (0x7F <= u && u <= 0x9F) {
            assert(is_control(s@[i as int]));
            return true;
        }
        i = i + 1;
    }
    false
}

// -------------------------------------------------------------- validation

pub const MSG_PORT_RETRY: &'static str = "Port ou intervalle de reconnexion invalide";

pub const MSG_PASSWORD: &'static str =
    "Mot de passe RDP invalide (vide, trop long ou caractère nul)";

pub const MSG_RDP_FIELD: &'static str = "Paramètre RDP invalide";

pub const MSG_RDP_REQUIRED: &'static str = "Serveur et utilisateur RDP requis";

pub const MSG_RDP_SERVER: &'static str =
    "rdp.server doit être un nom DNS ou une adresse IP, sans URL ni identifiants";

pub const MSG_UI_TEXT: &'static str = "Texte UI invalide";

pub const MSG_MANAGER_REQUIRED: &'static str =
    "Hôte et port NOC Manager requis (heartbeat ou RDP centralisé activé)";

pub const MSG_MANAGER_HOST: &'static str = "Hôte NOC Manager invalide";

pub open spec fn field_bad(s: Seq<char>) -> bool {
    utf8_len(s) > 1024 || any_control(s)
}

pub open spec fn ui_text_bad(s: Seq<char>) -> bool {
    s.len() == 0 || utf8_len(s) > 2048 || s.contains('\0')
}

/// The first rule a configuration breaks, if any. Error messages never
/// repeat a value of the file: they could hold a secret.
pub open spec fn config_error(c: Config) -> Option<Seq<char>> {
    if c.rdp.port == 0 || !(1 <= c.rdp.retry_seconds <= 3600) {
        Some(MSG_PORT_RETRY@)
    } else if c.rdp.password matches Some(p) && (p@.len() == 0 || utf16_len(p@) > 512
        || p@.contains('\0')) {
        Some(MSG_PASSWORD@)
    } else if field_bad(c.rdp.server@) || field_bad(c.rdp.username@) || field_bad(c.rdp.domain@) {
        Some(MSG_RDP_FIELD@)
    } else if c.rdp.enabled && !c.manager.provides_rdp && (trim_seq(c.rdp.server@).len() == 0
        || trim_seq(c.rdp.username@).len() == 0) {
        Some(MSG_RDP_REQUIRED@)
    } else if contains_seq(c.rdp.server@, "://"@) || c.rdp.server@.contains('@')
        || c.rdp.server@.contains('/') {
        Some(MSG_RDP_SERVER@)
    } else if ui_text_bad(c.ui.connecting_text@) || ui_text_bad(c.ui.disconnected_text@)
        || ui_text_bad(c.ui.error_text@) || ui_text_bad(c.ui.reconnecting_text@) {
        Some(MSG_UI_TEXT@)
    } else if (c.manager.enabled || c.manager.provides_rdp) && (trim_seq(c.manager.host@).len()
        == 0 || c.manager.port == 0) {
        Some(MSG_MANAGER_REQUIRED@)
    } else if (c.manager.enabled || c.manager.provides_rdp) && field_bad(c.manager.host@) {
        Some(MSG_MANAGER_HOST@)
    } else {
        None
    }
}

/// One of the fixed messages of [`Config::validate`].
pub open spec fn fixed_message(m: Seq<char>) -> bool {
    ||| m == MSG_PORT_RETRY@
    ||| m == MSG_PASSWORD@
    ||| m == MSG_RDP_FIELD@
    ||| m == MSG_RDP_REQUIRED@
    ||| m == MSG_RDP_SERVER@
    ||| m == MSG_UI_TEXT@
    ||| m == MSG_MANAGER_REQUIRED@
    ||| m == MSG_MANAGER_HOST@
}

/// A configuration error is always one of the fixed messages: it never
/// repeats any part of the configuration, its password included.
pub proof fn law_errors_never_quote_the_configuration(c: Config)
    ensures
        config_error(c) matches Some(m) ==> fixed_message(m),
{
}

fn is_field_bad(s: &str) -> (r: bool)
    ensures
        r == field_bad(s@),
{
    utf8_longer_than(s, 1024) || has_control(s)
}

fn is_ui_text_bad(s: &str) -> (r: bool)
    ensures
        r == ui_text_bad(s@),
{
    s.unicode_len() == 0 || utf8_longer_than(s, 2048) || has_char(s, '\0')
}

impl Config {
    /// Checks a configuration read from `config.toml`.
    pub fn validate(&self) -> (r: Result<(), String>)
        ensures
            match config_error(*self) {
                None => r is Ok,
                Some(m) => r matches Err(e) && e@ == m,
            },
    {
        if self.rdp.port == 0 || !(1 <= self.rdp.retry_seconds && self.rdp.retry_seconds <= 3600) {
            return Err(owned(MSG_PORT_RETRY));
        }
        match &self.rdp.password {
            Some(p) => {
                if p.as_str().unicode_len() == 0 || utf16_longer_than(p.as_str(), 512) || has_char(
                    p.as_str(),
                    '\0',
                ) {
                    return Err(owned(MSG_PASSWORD));
                }
            },
            None => {},
        }
        if is_field_bad(self.rdp.server.as_str()) || is_field_bad(self.rdp.username.as_str())
            || is_field_bad(self.rdp.domain.as_str()) {
            return Err(owned(MSG_RDP_FIELD));
        }
        if self.rdp.enabled && !self.manager.provides_rdp && (is_blank(self.rdp.server.as_str())
            || is_blank(self.rdp.username.as_str())) {
            return Err(owned(MSG_RDP_REQUIRED));
        }
        if contains_str(self.rdp.server.as_str(), "://") || has_char(self.rdp.server.as_str(), '@')
            || has_char(self.rdp.server.as_str(), '/') {
            return Err(owned(MSG_RDP_SERVER));
        }
        if is_ui_text_bad(self.ui.connecting_text.as_str()) || is_ui_text_bad(
            self.ui.disconnected_text.as_str(),
        ) || is_ui_text_bad(self.ui.error_text.as_str()) || is_ui_text_bad(
            self.ui.reconnecting_text.as_str(),
        ) {
            return Err(owned(MSG_UI_TEXT));
        }
        if self.manager.enabled || self.manager.provides_rdp {
            if is_blank(self.manager.host.as_str()) || self.manager.port == 0 {
                return Err(owned(MSG_MANAGER_REQUIRED));
            }
            if is_field_bad(self.manager.host.as_str()) {
                return Err(owned(MSG_MANAGER_HOST));
            }
        }
        Ok(())
    }

    /// The identity block shown on the connection screen.
    pub fn details(&self, name: &str) -> (r: String)
        ensures
            r@ == "Utilisateur Windows : "@ + name@ + "\nRDP — utilisateur : "@ + self.rdp.username@
                + "   •   Serveur : "@ + self.rdp.server@ + ":"@ + decimal(self.rdp.port as nat),
    {
        let mut r = owned("Utilisateur Windows : ");
        r.append(name);
        r.append("\nRDP — utilisateur : ");
        r.append(self.rdp.username.as_str());
        r.append("   •   Serveur : ");
        r.append(self.rdp.server.as_str());
        r.append(":");
        r.append(u64_to_string(self.rdp.port as u64).as_str());
        r
    }
}

/// A configuration file over 64 KiB is refused before it is parsed.
pub fn check_config_size(len: usize) -> (r: Result<(), String>)
    ensures
        len <= 65536 ==> r is Ok,
        len > 65536 ==> (r matches Err(e) && e@ == "config.toml dépasse 64 Kio"@),
{
    if len > 65536 {
        Err(owned("config.toml dépasse 64 Kio"))
    } else {
        Ok(())
    }
}

/// `s.trim_start_matches('\u{feff}')`: byte order marks are ignored.
pub open spec fn strip_bom_spec(s: Seq<char>) -> Seq<char>
    decreases s.len(),
{
    if s.len() > 0 && s[0] == '\u{feff}' {
        strip_bom_spec(s.drop_first())
    } else {
        s
    }
}

pub fn strip_bom(text: &str) -> (r: &str)
    ensures
        r@ == strip_bom_spec(text@),
{
    let n = text.unicode_len();
    let mut i: usize = 0;
    assert(text@.subrange(0, n as int) =~= text@);
    while i < n && text.get_char(i) == '\u{feff}'
        invariant
            i <= n,
            n == text@.len(),
            strip_bom_spec(text@) == strip_bom_spec(text@.subrange(i as int, n as int)),
        decreases n - i,
    {
        assert(text@.subrange(i as int, n as int).drop_first() =~= text@.subrange(i + 1, n as int));
        i = i + 1;
    }
    text.substring_char(i, n)
}

} // verus!
