//! The RDP password: the configured one first, else the secret stored with
//! DPAPI for the Windows account (encryption itself stays outside).
use vstd::prelude::*;
use crate::display::config::RdpSettings;
use crate::text::{decimal, owned, u64_to_string};

verus! {

/// The UTF-16 code units of one character.
pub open spec fn utf16_units(c: char) -> Seq<u16> {
    let u = c as u32;
    if u < 0x10000 {
        seq![u as u16]
    } else {
        seq![(0xD800 + ((u - 0x10000) / 0x400)) as u16, (0xDC00 + ((u - 0x10000) % 0x400)) as u16]
    }
}

/// `str::encode_utf16`.
pub open spec fn utf16_of(s: Seq<char>) -> Seq<u16>
    decreases s.len(),
{
    if s.len() == 0 {
        Seq::empty()
    } else {
        utf16_of(s.drop_last()) + utf16_units(s.last())
    }
}

pub fn encode_utf16(s: &str) -> (r: Vec<u16>)
    ensures
        r@ == utf16_of(s@),
{
    let v = crate::text::chars_of(s);
    let mut r: Vec<u16> = Vec::new();
    let mut i: usize = 0;
    while i < v.len()
        invariant
            i <= v.len(),
            v@ == s@,
            r@ == utf16_of(v@.take(i as int)),
        decreases v.len() - i,
    {
        let u = v[i] as u32;
        let ghost before = r@;
        assert(v@.take(i + 1).drop_last() =~= v@.take(i as int));
        if u < 0x10000 {
            r.push(u as u16);
        } else {
            r.push((0xD800 + (u - 0x10000) / 0x400) as u16);
            r.push((0xDC00 + (u - 0x10000) % 0x400) as u16);
        }
        assert(r@ =~= before + utf16_units(v@[i as int]));
        i = i + 1;
    }
    assert(v@.take(i as int) =~= v@);
    r
}

/// A password, as UTF-16 code units.
pub struct Secret(pub Vec<u16>);

/// The configured password takes priority; `None` means: ask DPAPI.
pub fn configured_secret(target: &RdpSettings) -> (r: Option<Secret>)
    ensures
        match target.password {
            Some(p) => r matches Some(s) && s.0@ == utf16_of(p@),
            None => r is None,
        },
{
    match &target.password {
        Some(p) => Some(Secret(encode_utf16(p.as_str()))),
        None => None,
    }
}

/// The text DPAPI binds a stored secret to: the endpoint and the account,
/// so that a secret never serves another server or login.
pub open spec fn entropy_spec(t: RdpSettings) -> Seq<char> {
    "DisplayClient/v1\0"@ + t.server@ + "\0"@ + decimal(t.port as nat) + "\0"@ + t.domain@
        + "\0"@ + t.username@
}

pub fn entropy_text(target: &RdpSettings) -> (r: String)
    ensures
        r@ == entropy_spec(*target),
{
    let mut r = owned("DisplayClient/v1\0");
    r.append(target.server.as_str());
    r.append("\0");
    r.append(u64_to_string(target.port as u64).as_str());
    r.append("\0");
    r.append(target.domain.as_str());
    r.append("\0");
    r.append(target.username.as_str());
    r
}

/// Provisioning needs a server and a login to bind the secret to.
pub fn provisioning_target_ok(target: &RdpSettings) -> (r: bool)
    ensures
        r == (target.server@.len() > 0 && target.username@.len() > 0),
{
    target.server.as_str().unicode_len() > 0 && target.username.as_str().unicode_len() > 0
}

/// The two passwords typed while provisioning must match.
pub fn same_secret(a: &Secret, b: &Secret) -> (r: bool)
    ensures
        r == (a.0@ == b.0@),
{
    if a.0.len() != b.0.len() {
        return false;
    }
    let mut i: usize = 0;
    while i < a.0.len()
        invariant
            i <= a.0.len(),
            a.0.len() == b.0.len(),
            forall|j: int| 0 <= j < i ==> a.0@[j] == b.0@[j],
        decreases a.0.len() - i,
    {
        if a.0[i] != b.0[i] {
            return false;
        }
        i = i + 1;
    }
    assert(a.0@ =~= b.0@);
    true
}

/// A stored secret file larger than 64 KiB is refused before decryption.
pub fn secret_file_ok(len: usize) -> (r: bool)
    ensures
        r == (len <= 65536),
{
    len <= 65536
}

} // verus!
