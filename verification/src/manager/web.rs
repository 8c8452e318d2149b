//! What the administration pages compute: escaping of user values, the
//! kiosk a form submits, and the confirmation shown after a command.
use vstd::prelude::*;
use crate::manager::commands::{allowed_action, is_allowed_action};
use crate::manager::models::{
    normalize, normalize_spec, DEFAULT_RDP_PORT, Kiosk, KioskSpec, RdpConfig, RdpConfigSpec,
};


verus! {

/// HTML escaping of one character.
pub open spec fn esc_char(c: char) -> Seq<char> {
    if c == '&' {
        "&amp;"@
    } else if c == '<' {
        "&lt;"@
    } else if c == '>' {
        "&gt;"@
    } else if c == '"' {
        "&quot;"@
    } else if c == '\'' {
        "&#39;"@
    } else {
        seq![c]
    }
}

/// HTML escaping of user-provided values.
pub open spec fn esc_spec(s: Seq<char>) -> Seq<char>
    decreases s.len(),
{
    if s.len() == 0 {
        s
    } else {
        esc_spec(s.drop_last()) + esc_char(s.last())
    }
}

pub fn esc(input: &str) -> (r: String)
    ensures
        r@ == esc_spec(input@),
{
    let v = crate::text::chars_of(input);
    let mut out = String::new();
    let mut i: usize = 0;
    while i < v.len()
        invariant
            i <= v.len(),
            v@ == input@,
            out@ == esc_spec(v@.take(i as int)),
        decreases v.len() - i,
    {
        let c = v[i];
        let ghost before = out@;
        if c == '&' {
            out.append("&amp;");
        } else if c == '<' {
            out.append("&lt;");
        } else if c == '>' {
            out.append("&gt;");
        } else if c == '"' {
            out.append("&quot;");
        } else if c == '\'' {
            out.append("&#39;");
        } else {
            out.push(c);
        }
        assert(v@.take(i + 1).drop_last() =~= v@.take(i as int));
        assert(out@ =~= before + esc_char(c));
        i = i + 1;
    }
    assert(v@.take(i as int) =~= v@);
    out
}

/// Escaped text never holds a markup character.
pub proof fn law_escaped_has_no_markup(s: Seq<char>)
    ensures
        !esc_spec(s).contains('<'),
        !esc_spec(s).contains('>'),
        !esc_spec(s).contains('"'),
        !esc_spec(s).contains('\''),
    decreases s.len(),
{
    if s.len() > 0 {
        law_escaped_has_no_markup(s.drop_last());
        let a = esc_spec(s.drop_last());
        let b = esc_char(s.last());
        assert(esc_spec(s) == a + b);
        reveal_strlit("&amp;");
        reveal_strlit("&lt;");
        reveal_strlit("&gt;");
        reveal_strlit("&quot;");
        reveal_strlit("&#39;");
        assert forall|c: char| c == '<' || c == '>' || c == '"' || c == '\'' implies !(a
            + b).contains(c) by {
            if (a + b).contains(c) {
                let k = choose|k: int| 0 <= k < (a + b).len() && (a + b)[k] == c;
                if k < a.len() {
                    assert(a[k] == c);
                } else {
                    assert(b[k - a.len()] == c);
                }
            }
        }
    }
}

/// What the kiosk form submits. A checkbox is only submitted when checked.
pub struct KioskForm {
    pub name: String,
    pub username: String,
    pub url: String,
    pub enabled: Option<String>,
    pub restart_cron: String,
}

/// The kiosk a form describes, before normalization: no display name, RDP
/// off.
pub open spec fn form_kiosk_spec(f: KioskForm) -> KioskSpec {
    KioskSpec {
        username: f.username@,
        display_username: None,
        name: f.name@,
        url: f.url@,
        enabled: f.enabled is Some,
        restart_cron: Some(f.restart_cron@),
        rdp: RdpConfigSpec {
            server_id: None,
            enabled: false,
            server: Seq::empty(),
            port: DEFAULT_RDP_PORT,
            password: None,
            ignore_certificate_errors: false,
        },
    }
}

impl KioskForm {
    /// The normalized kiosk of the form.
    pub fn to_kiosk(&self) -> (r: Kiosk)
        ensures
            r@ == normalize_spec(form_kiosk_spec(*self)),
    {
        let mut kiosk = Kiosk {
            username: self.username.clone(),
            display_username: None,
            name: self.name.clone(),
            url: self.url.clone(),
            enabled: self.enabled.is_some(),
            restart_cron: Some(self.restart_cron.clone()),
            rdp: RdpConfig::default(),
        };
        normalize(&mut kiosk);
        kiosk
    }
}

/// `?sent=restart_browser` after a command has been queued.
pub struct IndexQuery {
    pub sent: Option<String>,
}

impl IndexQuery {
    /// The action to confirm on the list page: only an allowed action is
    /// ever echoed back.
    pub fn flash_action(&self) -> (r: Option<&str>)
        ensures
            match self.sent {
                Some(a) => if allowed_action(a@) {
                    r matches Some(s) && s@ == a@
                } else {
                    r is None
                },
                None => r is None,
            },
    {
        match &self.sent {
            Some(a) => {
                if is_allowed_action(a.as_str()) {
                    Some(a.as_str())
                } else {
                    None
                }
            },
            None => None,
        }
    }
}

} // verus!
