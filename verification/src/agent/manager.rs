//! What NOC Agent reads from NOC Manager, and how it judges the target page
//! before showing Firefox.
use vstd::prelude::*;
use crate::manager::models::{clone_opt, opt_view};
use crate::text::{
    concat, decimal, is_blank, owned, trim, trim_end_char, trim_end_char_seq, trim_seq,
    u64_to_string,
};

verus! {

/// A kiosk's configuration as served by NOC Manager.
pub struct KioskConfig {
    pub username: String,
    pub name: String,
    pub url: String,
    pub enabled: bool,
    pub restart_cron: Option<String>,
    /// Optional CSS selector awaited besides `readyState == "complete"`.
    pub ready_selector: Option<String>,
}

impl Clone for KioskConfig {
    fn clone(&self) -> (r: Self)
        ensures
            r.username@ == self.username@,
            r.name@ == self.name@,
            r.url@ == self.url@,
            r.enabled == self.enabled,
            opt_view(r.restart_cron) == opt_view(self.restart_cron),
            opt_view(r.ready_selector) == opt_view(self.ready_selector),
    {
        KioskConfig {
            username: self.username.clone(),
            name: self.name.clone(),
            url: self.url.clone(),
            enabled: self.enabled,
            restart_cron: clone_opt(&self.restart_cron),
            ready_selector: clone_opt(&self.ready_selector),
        }
    }
}

/// The awaited selector, trimmed; empty when there is none.
pub open spec fn ready_selector_spec(o: Option<Seq<char>>) -> Seq<char> {
    match o {
        Some(s) => trim_seq(s),
        None => Seq::empty(),
    }
}

/// The name shown for the kiosk: its name, or its username when unnamed.
pub open spec fn label_spec(name: Seq<char>, username: Seq<char>) -> Seq<char> {
    if name.len() == 0 {
        username
    } else {
        name
    }
}

impl KioskConfig {
    pub fn ready_selector(&self) -> (r: String)
        ensures
            r@ == ready_selector_spec(opt_view(self.ready_selector)),
    {
        match &self.ready_selector {
            Some(s) => trim(s.as_str()),
            None => String::new(),
        }
    }

    pub fn label(&self) -> (r: &str)
        ensures
            r@ == label_spec(self.name@, self.username@),
    {
        if self.name.as_str().unicode_len() == 0 {
            self.username.as_str()
        } else {
            self.name.as_str()
        }
    }
}

pub enum FetchOutcome {
    Found(Box<KioskConfig>),
    /// Manager answers but does not know this kiosk (404).
    NotFound,
    /// Manager unreachable, failing, or an unreadable answer.
    Unavailable(String),
}

pub enum TargetCheck {
    /// The service answers (2xx, 3xx, 401, 403).
    Reachable(u16),
    /// The service answers with something unusable, or not at all. The
    /// message can be shown as is.
    Unusable(String),
}

pub open spec fn target_check_view(t: TargetCheck) -> Result<u16, Seq<char>> {
    match t {
        TargetCheck::Reachable(c) => Ok(c),
        TargetCheck::Unusable(m) => Err(m@),
    }
}

/// How a target's HTTP status is judged: 2xx and 3xx are reachable, and so
/// are 401 and 403 (Firefox may hold a cookie the agent lacks). Firefox is
/// never shown on a 404 or a 5xx.
pub open spec fn classify_status_spec(code: u16) -> Result<u16, Seq<char>> {
    if 200 <= code <= 399 || code == 401 || code == 403 {
        Ok(code)
    } else if code == 404 {
        Err("Page introuvable — HTTP 404"@)
    } else if code == 410 {
        Err("Page supprimée — HTTP 410"@)
    } else if 500 <= code <= 599 {
        Err("Erreur du service — HTTP "@ + decimal(code as nat))
    } else {
        Err("Réponse inattendue — HTTP "@ + decimal(code as nat))
    }
}

pub fn classify_status(code: u16) -> (r: TargetCheck)
    ensures
        target_check_view(r) == classify_status_spec(code),
{
    if (200 <= code && code <= 399) || code == 401 || code == 403 {
        TargetCheck::Reachable(code)
    } else if code == 404 {
        TargetCheck::Unusable(owned("Page introuvable — HTTP 404"))
    } else if code == 410 {
        TargetCheck::Unusable(owned("Page supprimée — HTTP 410"))
    } else if 500 <= code && code <= 599 {
        TargetCheck::Unusable(concat("Erreur du service — HTTP ", u64_to_string(code as u64).as_str()))
    } else {
        TargetCheck::Unusable(
            concat("Réponse inattendue — HTTP ", u64_to_string(code as u64).as_str()),
        )
    }
}

/// The message shown when the target cannot be reached, from the kind of
/// transport error.
pub open spec fn unreachable_spec(is_timeout: bool, is_connect: bool, is_request: bool) -> Seq<
    char,
> {
    if is_timeout {
        "Le serveur ne répond pas (délai dépassé)"@
    } else if is_connect {
        "Impossible de joindre le serveur"@
    } else if is_request {
        "Adresse du service invalide"@
    } else {
        "Impossible de joindre le serveur"@
    }
}

pub fn unreachable_message(is_timeout: bool, is_connect: bool, is_request: bool) -> (r: String)
    ensures
        r@ == unreachable_spec(is_timeout, is_connect, is_request),
{
    if is_timeout {
        owned("Le serveur ne répond pas (délai dépassé)")
    } else if is_connect {
        owned("Impossible de joindre le serveur")
    } else if is_request {
        owned("Adresse du service invalide")
    } else {
        owned("Impossible de joindre le serveur")
    }
}

/// Short message for the log; never a URL with credentials.
pub open spec fn short_error_spec(is_timeout: bool, is_connect: bool) -> Seq<char> {
    if is_timeout {
        "timeout"@
    } else if is_connect {
        "connexion refusée / DNS"@
    } else {
        "erreur réseau"@
    }
}

pub fn short_error(is_timeout: bool, is_connect: bool) -> (r: String)
    ensures
        r@ == short_error_spec(is_timeout, is_connect),
{
    if is_timeout {
        owned("timeout")
    } else if is_connect {
        owned("connexion refusée / DNS")
    } else {
        owned("erreur réseau")
    }
}

/// `{manager_url without trailing slashes}{path}`.
pub open spec fn endpoint_spec(manager_url: Seq<char>, path: Seq<char>) -> Seq<char> {
    trim_end_char_seq(manager_url, '/') + path
}

/// `GET {manager}/api/kiosk/{username}`.
pub fn kiosk_endpoint(manager_url: &str, username: &str) -> (r: String)
    ensures
        r@ == endpoint_spec(manager_url@, "/api/kiosk/"@ + username@),
{
    let mut r = trim_end_char(manager_url, '/');
    r.append("/api/kiosk/");
    r.append(username);
    r
}

/// `GET {manager}/api/kiosk/{username}/command`.
pub fn command_endpoint(manager_url: &str, username: &str) -> (r: String)
    ensures
        r@ == endpoint_spec(manager_url@, "/api/kiosk/"@ + username@ + "/command"@),
{
    let mut r = kiosk_endpoint(manager_url, username);
    r.append("/command");
    r
}

/// `POST {manager}/api/kiosk/{username}/command/{id}/ack`.
pub fn ack_endpoint(manager_url: &str, username: &str, id: u64) -> (r: String)
    ensures
        r@ == endpoint_spec(
            manager_url@,
            "/api/kiosk/"@ + username@ + "/command/"@ + decimal(id as nat) + "/ack"@,
        ),
{
    let mut r = kiosk_endpoint(manager_url, username);
    r.append("/command/");
    r.append(u64_to_string(id).as_str());
    r.append("/ack");
    r
}

/// `POST {manager}/api/heartbeat/agent/{username}`.
pub fn heartbeat_endpoint(manager_url: &str, username: &str) -> (r: String)
    ensures
        r@ == endpoint_spec(manager_url@, "/api/heartbeat/agent/"@ + username@),
{
    let mut r = trim_end_char(manager_url, '/');
    r.append("/api/heartbeat/agent/");
    r.append(username);
    r
}

/// What an answer of NOC Manager to a configuration request means, from its
/// HTTP status: 404 = unknown kiosk, another failure = unavailable
/// (`"HTTP {code}"`), a success = the body is to be read (`None`).
pub open spec fn fetch_status_spec(status: u16) -> Option<Result<(), Seq<char>>> {
    if status == 404 {
        Some(Ok(()))
    } else if !(200 <= status <= 299) {
        Some(Err("HTTP "@ + decimal(status as nat)))
    } else {
        None
    }
}

pub open spec fn fetch_outcome_view(o: FetchOutcome) -> Option<Result<(), Seq<char>>> {
    match o {
        FetchOutcome::Found(_) => None,
        FetchOutcome::NotFound => Some(Ok(())),
        FetchOutcome::Unavailable(m) => Some(Err(m@)),
    }
}

/// The outcome a non-success status decides by itself; `None` when the
/// body has to be read.
pub fn fetch_status(status: u16) -> (r: Option<FetchOutcome>)
    ensures
        match r {
            Some(o) => fetch_status_spec(status) == fetch_outcome_view(o),
            None => fetch_status_spec(status) is None,
        },
{
    if status == 404 {
        Some(FetchOutcome::NotFound)
    } else if !(200 <= status && status <= 299) {
        Some(FetchOutcome::Unavailable(concat("HTTP ", u64_to_string(status as u64).as_str())))
    } else {
        None
    }
}

/// Why a request to NOC Manager failed, from its HTTP status: `None` for a
/// success (2xx), else `HTTP {status}`.
pub open spec fn http_failure_spec(status: u16) -> Option<Seq<char>> {
    if 200 <= status <= 299 {
        None
    } else {
        Some("HTTP "@ + decimal(status as nat))
    }
}

/// See [`http_failure_spec`]; used for acknowledgements and heartbeats.
pub fn http_failure(status: u16) -> (r: Option<String>)
    ensures
        opt_view(r) == http_failure_spec(status),
{
    if 200 <= status && status <= 299 {
        None
    } else {
        Some(concat("HTTP ", u64_to_string(status as u64).as_str()))
    }
}

/// Why a command poll failed: a missing endpoint (404) is named as such,
/// since an older Manager may not offer commands yet.
pub open spec fn command_poll_failure_spec(status: u16) -> Option<Seq<char>> {
    if status == 404 {
        Some("endpoint de commandes absent (HTTP 404)"@)
    } else {
        http_failure_spec(status)
    }
}

/// See [`command_poll_failure_spec`].
pub fn command_poll_failure(status: u16) -> (r: Option<String>)
    ensures
        opt_view(r) == command_poll_failure_spec(status),
{
    if status == 404 {
        Some(owned("endpoint de commandes absent (HTTP 404)"))
    } else {
        http_failure(status)
    }
}

/// A configuration read from NOC Manager is usable only with a URL.
pub fn accept_config(config: KioskConfig) -> (r: FetchOutcome)
    ensures
        trim_seq(config.url@).len() == 0 ==> (r matches FetchOutcome::Unavailable(m) && m@
            == "configuration sans URL"@),
        trim_seq(config.url@).len() != 0 ==> (r matches FetchOutcome::Found(c) && c.url@
            == config.url@ && c.enabled == config.enabled && c.username@ == config.username@
            && c.name@ == config.name@ && opt_view(c.restart_cron) == opt_view(
            config.restart_cron,
        ) && opt_view(c.ready_selector) == opt_view(config.ready_selector)),
{
    if is_blank(config.url.as_str()) {
        FetchOutcome::Unavailable(owned("configuration sans URL"))
    } else {
        FetchOutcome::Found(Box::new(config))
    }
}

} // verus!
