//! What NOC Display exchanges with NOC Manager: its heartbeat, and the
//! centralized RDP settings of its kiosk.
use vstd::prelude::*;
use crate::text::{owned};

verus! {

/// The centralized RDP settings, as served by
/// `GET /api/kiosk/{username}/rdp`.
pub struct RdpConfigResponse {
    pub enabled: bool,
    pub server: String,
    pub port: u16,
    /// The login; empty means the Windows account's own name.
    pub username: String,
    pub password: Option<String>,
    pub ignore_certificate_errors: bool,
}

impl RdpConfigResponse {
    /// The settings of an answer that only says whether RDP is enabled:
    /// every other field at its default.
    pub fn with_enabled(enabled: bool) -> (r: Self)
        ensures
            r.enabled == enabled && r.server@.len() == 0 && r.port == 3389 && r.username@.len()
                == 0 && r.password is None && !r.ignore_certificate_errors,
    {
        RdpConfigResponse {
            enabled,
            server: String::new(),
            port: 3389,
            username: String::new(),
            password: None,
            ignore_certificate_errors: false,
        }
    }
}

/// Manager does not know the kiosk (404), distinct from a network failure.
pub enum RdpConfigFetch {
    Found(RdpConfigResponse),
    KioskNotFound,
}

/// `/api/kiosk/{username}/rdp`.
pub fn rdp_config_path(username: &str) -> (r: String)
    ensures
        r@ == "/api/kiosk/"@ + username@ + "/rdp"@,
{
    let mut r = owned("/api/kiosk/");
    r.append(username);
    r.append("/rdp");
    r
}

/// `/api/heartbeat/display/{username}`.
pub fn heartbeat_path(username: &str) -> (r: String)
    ensures
        r@ == "/api/heartbeat/display/"@ + username@,
{
    let mut r = owned("/api/heartbeat/display/");
    r.append(username);
    r
}

/// The heartbeat body: `{"version":"..","build":"..","state":".."}`. The
/// values are codes and build stamps, written as they are.
pub fn heartbeat_body(version: &str, build: &str, state: &str) -> (r: String)
    ensures
        r@ == "{\"version\":\""@ + version@ + "\",\"build\":\""@ + build@ + "\",\"state\":\""@
            + state@ + "\"}"@,
{
    let mut r = owned("{\"version\":\"");
    r.append(version);
    r.append("\",\"build\":\"");
    r.append(build);
    r.append("\",\"state\":\"");
    r.append(state);
    r.append("\"}");
    r
}

} // verus!
