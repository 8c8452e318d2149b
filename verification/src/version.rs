//! The version of the NOC suite, shown on screen and by `--version`:
//! independent of each application's own version.
use vstd::prelude::*;
use crate::text::{trim, trim_seq};

verus! {

/// `s.trim_start_matches('v')`.
pub open spec fn strip_v(s: Seq<char>) -> Seq<char>
    decreases s.len(),
{
    if s.len() > 0 && s[0] == 'v' {
        strip_v(s.drop_first())
    } else {
        s
    }
}

/// The suite version from the release tag or the `VERSION` file: trimmed,
/// without its leading `v`.
pub fn suite_version(raw: &str) -> (r: String)
    ensures
        r@ == strip_v(trim_seq(raw@)),
{
    let t = trim(raw);
    let v = crate::text::chars_of(t.as_str());
    let mut i: usize = 0;
    assert(v@.subrange(0, v@.len() as int) =~= t@);
    while i < v.len() && v[i] == 'v'
        invariant
            i <= v.len(),
            v@ == t@,
            strip_v(t@) == strip_v(v@.subrange(i as int, v@.len() as int)),
        decreases v.len() - i,
    {
        assert(v@.subrange(i as int, v@.len() as int).drop_first() =~= v@.subrange(
            i + 1,
            v@.len() as int,
        ));
        i = i + 1;
    }
    let mut r = String::new();
    let mut p: usize = i;
    while p < v.len()
        invariant
            i <= p <= v.len(),
            r@ == v@.subrange(i as int, p as int),
        decreases v.len() - p,
    {
        r.push(v[p]);
        p = p + 1;
        assert(r@ =~= v@.subrange(i as int, p as int));
    }
    r
}

} // verus!
