//! The properties NOC Display sets on the RDP control before connecting:
//! a noninteractive, fail-closed profile.
use vstd::prelude::*;
use crate::display::config::RdpSettings;


verus! {

/// A property value of the control.
pub enum Value {
    Str(String),
    Int(i32),
    Bool(bool),
}

/// Server authentication: 0 skips it (certificate errors ignored by
/// configuration), 1 requires it; 2, which would prompt, is never used.
pub open spec fn authentication_level_spec(ignore_certificate_errors: bool) -> i32 {
    if ignore_certificate_errors {
        0
    } else {
        1
    }
}

pub fn authentication_level(ignore_certificate_errors: bool) -> (r: i32)
    ensures
        r == authentication_level_spec(ignore_certificate_errors),
{
    if ignore_certificate_errors {
        0
    } else {
        1
    }
}

/// A property to set, by name.
pub struct Property {
    pub name: &'static str,
    pub value: Value,
}

/// The control's own properties: server, login (no domain), desktop size,
/// 32-bit colour, not full screen.
pub fn control_properties(config: &RdpSettings, width: i32, height: i32) -> (r: Vec<Property>)
    ensures
        r@.len() == 7,
        r@[0].name@ == "Server"@ && (r@[0].value matches Value::Str(s) && s@ == config.server@),
        r@[1].name@ == "UserName"@ && (r@[1].value matches Value::Str(s) && s@
            == config.username@),
        r@[2].name@ == "Domain"@ && (r@[2].value matches Value::Str(s) && s@.len() == 0),
        r@[3].name@ == "DesktopWidth"@ && r@[3].value == Value::Int(width),
        r@[4].name@ == "DesktopHeight"@ && r@[4].value == Value::Int(height),
        r@[5].name@ == "ColorDepth"@ && r@[5].value == Value::Int(32),
        r@[6].name@ == "FullScreen"@ && r@[6].value == Value::Bool(false),
{
    let mut r = Vec::new();
    r.push(Property { name: "Server", value: Value::Str(config.server.clone()) });
    r.push(Property { name: "UserName", value: Value::Str(config.username.clone()) });
    r.push(Property { name: "Domain", value: Value::Str(String::new()) });
    r.push(Property { name: "DesktopWidth", value: Value::Int(width) });
    r.push(Property { name: "DesktopHeight", value: Value::Int(height) });
    r.push(Property { name: "ColorDepth", value: Value::Int(32) });
    r.push(Property { name: "FullScreen", value: Value::Bool(false) });
    r
}

/// The advanced settings: the port, the authentication level, no
/// reconnection of the control's own, no connection bar, no focus grab, no
/// redirection of drives, printers, ports, smart cards or clipboard, and
/// bounded connection timeouts (20 s per try, 30 s overall).
pub fn advanced_properties(config: &RdpSettings) -> (r: Vec<Property>)
    ensures
        r@.len() == 12,
        r@[0].name@ == "RDPPort"@ && r@[0].value == Value::Int(config.port as i32),
        r@[1].name@ == "AuthenticationLevel"@ && r@[1].value == Value::Int(
            authentication_level_spec(config.ignore_certificate_errors),
        ),
        r@[2].name@ == "EnableAutoReconnect"@ && r@[2].value == Value::Bool(false),
        r@[3].name@ == "DisplayConnectionBar"@ && r@[3].value == Value::Bool(false),
        r@[4].name@ == "GrabFocusOnConnect"@ && r@[4].value == Value::Bool(false),
        r@[5].name@ == "RedirectDrives"@ && r@[5].value == Value::Bool(false),
        r@[6].name@ == "RedirectPrinters"@ && r@[6].value == Value::Bool(false),
        r@[7].name@ == "RedirectPorts"@ && r@[7].value == Value::Bool(false),
        r@[8].name@ == "RedirectSmartCards"@ && r@[8].value == Value::Bool(false),
        r@[9].name@ == "RedirectClipboard"@ && r@[9].value == Value::Bool(false),
        r@[10].name@ == "singleConnectionTimeout"@ && r@[10].value == Value::Int(20),
        r@[11].name@ == "overallConnectionTimeout"@ && r@[11].value == Value::Int(30),
{
    let mut r = Vec::new();
    r.push(Property { name: "RDPPort", value: Value::Int(config.port as i32) });
    r.push(
        Property {
            name: "AuthenticationLevel",
            value: Value::Int(authentication_level(config.ignore_certificate_errors)),
        },
    );
    r.push(Property { name: "EnableAutoReconnect", value: Value::Bool(false) });
    r.push(Property { name: "DisplayConnectionBar", value: Value::Bool(false) });
    r.push(Property { name: "GrabFocusOnConnect", value: Value::Bool(false) });
    r.push(Property { name: "RedirectDrives", value: Value::Bool(false) });
    r.push(Property { name: "RedirectPrinters", value: Value::Bool(false) });
    r.push(Property { name: "RedirectPorts", value: Value::Bool(false) });
    r.push(Property { name: "RedirectSmartCards", value: Value::Bool(false) });
    r.push(Property { name: "RedirectClipboard", value: Value::Bool(false) });
    r.push(Property { name: "singleConnectionTimeout", value: Value::Int(20) });
    r.push(Property { name: "overallConnectionTimeout", value: Value::Int(30) });
    r
}

/// The settings of the control's non-scriptable interfaces, which keep it
/// from ever prompting: no credential prompt on server or client, no
/// credential saving, negotiated security layer, no connection bar, one
/// monitor, no redirection of devices or drives plugged in later. COM
/// booleans: 0 is false, -1 true.
pub fn no_prompt_settings() -> (r: Vec<Property>)
    ensures
        r@.len() == 9,
        r@[0].name@ == "AllowPromptingForCredentials"@ && r@[0].value == Value::Int(0),
        r@[1].name@ == "PromptForCredentials"@ && r@[1].value == Value::Int(0),
        r@[2].name@ == "PromptForCredsOnClient"@ && r@[2].value == Value::Int(0),
        r@[3].name@ == "AllowCredentialSaving"@ && r@[3].value == Value::Int(0),
        r@[4].name@ == "NegotiateSecurityLayer"@ && r@[4].value == Value::Int(-1i32),
        r@[5].name@ == "DisableConnectionBar"@ && r@[5].value == Value::Int(-1i32),
        r@[6].name@ == "UseMultimon"@ && r@[6].value == Value::Int(0),
        r@[7].name@ == "RedirectDynamicDevices"@ && r@[7].value == Value::Int(0),
        r@[8].name@ == "RedirectDynamicDrives"@ && r@[8].value == Value::Int(0),
{
    let mut r = Vec::new();
    r.push(Property { name: "AllowPromptingForCredentials", value: Value::Int(0) });
    r.push(Property { name: "PromptForCredentials", value: Value::Int(0) });
    r.push(Property { name: "PromptForCredsOnClient", value: Value::Int(0) });
    r.push(Property { name: "AllowCredentialSaving", value: Value::Int(0) });
    r.push(Property { name: "NegotiateSecurityLayer", value: Value::Int(-1) });
    r.push(Property { name: "DisableConnectionBar", value: Value::Int(-1) });
    r.push(Property { name: "UseMultimon", value: Value::Int(0) });
    r.push(Property { name: "RedirectDynamicDevices", value: Value::Int(0) });
    r.push(Property { name: "RedirectDynamicDrives", value: Value::Int(0) });
    r
}

/// Whether the control kept the noninteractive security policy, read back
/// after configuring it: prompting off (`prompt` is 0) and the
/// authentication level, read as a 32-bit integer (`level_is_int`), the one
/// that was set. Otherwise the attempt is refused.
pub fn policy_retained(prompt: i16, level_is_int: bool, level: u32, ignore_certificate_errors: bool) -> (r:
    bool)
    ensures
        r == (prompt == 0 && level_is_int && level == authentication_level_spec(
            ignore_certificate_errors,
        )),
{
    prompt == 0 && level_is_int && level == authentication_level(ignore_certificate_errors) as u32
}

/// Whether CredSSP stayed off for the xRDP logon, read back after setting
/// it: a COM boolean (`is_bool`) that is false (0). Otherwise the attempt is
/// refused.
pub fn credssp_off_retained(is_bool: bool, value: i16) -> (r: bool)
    ensures
        r == (is_bool && value == 0),
{
    is_bool && value == 0
}

} // verus!
