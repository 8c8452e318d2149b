//! Where geckodriver, the Flatpak command and the Firefox wrapper are looked
//! for, and the arguments Firefox is started with. Whether a file exists is
//! asked by the caller.
use vstd::prelude::*;
use crate::agent::config::{
    expand_tilde, expand_tilde_spec, join, join_spec, opt_str_view, FirefoxConfig,
};
use crate::text::{is_blank, owned, trim, trim_seq};

verus! {

/// `dir/program` for every directory of `$PATH`, in order.
pub open spec fn which_spec(program: Seq<char>, dirs: Seq<Seq<char>>) -> Seq<Seq<char>> {
    dirs.map_values(|d: Seq<char>| join_spec(d, program))
}

pub open spec fn strings_view(v: Seq<String>) -> Seq<Seq<char>> {
    v.map_values(|s: String| s@)
}

pub fn which_candidates(program: &str, path_dirs: &Vec<String>) -> (r: Vec<String>)
    ensures
        strings_view(r@) == which_spec(program@, strings_view(path_dirs@)),
{
    let mut r: Vec<String> = Vec::new();
    let mut i: usize = 0;
    while i < path_dirs.len()
        invariant
            i <= path_dirs.len(),
            strings_view(r@) == which_spec(program@, strings_view(path_dirs@).take(i as int)),
        decreases path_dirs.len() - i,
    {
        let c = join(path_dirs[i].as_str(), program);
        let ghost before = r@;
        r.push(c);
        assert(strings_view(r@) =~= strings_view(before).push(c@));
        assert(strings_view(path_dirs@).take(i + 1) =~= strings_view(path_dirs@).take(i as int).push(
            path_dirs@[i as int]@,
        ));
        assert(which_spec(program@, strings_view(path_dirs@).take(i + 1)) =~= which_spec(
            program@,
            strings_view(path_dirs@).take(i as int),
        ).push(c@));
        i = i + 1;
    }
    assert(strings_view(path_dirs@).take(i as int) =~= strings_view(path_dirs@));
    r
}

/// The usual places of geckodriver outside `$PATH`.
pub open spec fn gecko_fallbacks() -> Seq<Seq<char>> {
    seq!["/usr/bin/geckodriver"@, "/usr/local/bin/geckodriver"@, "/snap/bin/geckodriver"@]
}

/// Where geckodriver is looked for: only the configured path when there is
/// one (`~` expanded); else `$PATH`, then the usual places.
pub open spec fn gecko_candidates_spec(
    configured: Seq<char>,
    home: Option<Seq<char>>,
    dirs: Seq<Seq<char>>,
) -> Seq<Seq<char>> {
    if trim_seq(configured).len() != 0 {
        seq![expand_tilde_spec(trim_seq(configured), home)]
    } else {
        which_spec("geckodriver"@, dirs) + gecko_fallbacks()
    }
}

pub fn geckodriver_candidates(cfg: &FirefoxConfig, home: Option<&str>, path_dirs: &Vec<String>) -> (r:
    Vec<String>)
    ensures
        strings_view(r@) == gecko_candidates_spec(
            cfg.geckodriver@,
            opt_str_view(home),
            strings_view(path_dirs@),
        ),
{
    if !is_blank(cfg.geckodriver.as_str()) {
        let t = trim(cfg.geckodriver.as_str());
        let mut r = Vec::new();
        r.push(expand_tilde(t.as_str(), home));
        assert(strings_view(r@) =~= seq![r@[0]@]);
        return r;
    }
    let mut r = which_candidates("geckodriver", path_dirs);
    let ghost before = strings_view(r@);
    r.push(owned("/usr/bin/geckodriver"));
    r.push(owned("/usr/local/bin/geckodriver"));
    r.push(owned("/snap/bin/geckodriver"));
    assert(strings_view(r@) =~= before + gecko_fallbacks());
    r
}

/// The first candidate that exists.
pub open spec fn first_existing_spec(c: Seq<Seq<char>>, exists: Seq<bool>, i: int) -> Option<
    Seq<char>,
>
    decreases c.len() - i,
    when 0 <= i <= c.len()
{
    if i == c.len() {
        None
    } else if exists[i] {
        Some(c[i])
    } else {
        first_existing_spec(c, exists, i + 1)
    }
}

pub open spec fn opt_string_view(o: Option<String>) -> Option<Seq<char>> {
    match o {
        Some(s) => Some(s@),
        None => None,
    }
}

/// `exists[i]` tells whether `candidates[i]` is a file.
pub fn first_existing(candidates: &Vec<String>, exists: &Vec<bool>) -> (r: Option<String>)
    requires
        exists@.len() == candidates@.len(),
    ensures
        opt_string_view(r) == first_existing_spec(strings_view(candidates@), exists@, 0),
{
    let ghost c = strings_view(candidates@);
    let mut i: usize = 0;
    while i < candidates.len()
        invariant
            i <= candidates.len(),
            exists@.len() == candidates@.len(),
            c == strings_view(candidates@),
            first_existing_spec(c, exists@, 0) == first_existing_spec(c, exists@, i as int),
        decreases candidates.len() - i,
    {
        if exists[i] {
            return Some(candidates[i].clone());
        }
        i = i + 1;
    }
    None
}

/// The geckodriver to run: the first candidate that exists.
pub fn resolve_geckodriver(
    cfg: &FirefoxConfig,
    home: Option<&str>,
    path_dirs: &Vec<String>,
    exists: &Vec<bool>,
) -> (r: Option<String>)
    requires
        exists@.len() == gecko_candidates_spec(
            cfg.geckodriver@,
            opt_str_view(home),
            strings_view(path_dirs@),
        ).len(),
    ensures
        opt_string_view(r) == first_existing_spec(
            gecko_candidates_spec(cfg.geckodriver@, opt_str_view(home), strings_view(path_dirs@)),
            exists@,
            0,
        ),
{
    let c = geckodriver_candidates(cfg, home, path_dirs);
    first_existing(&c, exists)
}

/// Where the `flatpak` command is looked for: the configured path, then
/// `$PATH`.
pub open spec fn flatpak_candidates_spec(configured: Seq<char>, dirs: Seq<Seq<char>>) -> Seq<
    Seq<char>,
> {
    seq![configured] + which_spec("flatpak"@, dirs)
}

pub fn flatpak_candidates(cfg: &FirefoxConfig, path_dirs: &Vec<String>) -> (r: Vec<String>)
    ensures
        strings_view(r@) == flatpak_candidates_spec(cfg.flatpak@, strings_view(path_dirs@)),
{
    let mut r = Vec::new();
    r.push(cfg.flatpak.clone());
    let mut rest = which_candidates("flatpak", path_dirs);
    let ghost a = strings_view(r@);
    let ghost b = strings_view(rest@);
    r.append(&mut rest);
    assert(strings_view(r@) =~= a + b);
    r
}

/// The `flatpak` command to run: the first candidate that exists.
pub fn flatpak_bin(cfg: &FirefoxConfig, path_dirs: &Vec<String>, exists: &Vec<bool>) -> (r:
    Option<String>)
    requires
        exists@.len() == flatpak_candidates_spec(cfg.flatpak@, strings_view(path_dirs@)).len(),
    ensures
        opt_string_view(r) == first_existing_spec(
            flatpak_candidates_spec(cfg.flatpak@, strings_view(path_dirs@)),
            exists@,
            0,
        ),
{
    let c = flatpak_candidates(cfg, path_dirs);
    first_existing(&c, exists)
}

/// The wrapper given to geckodriver as the Firefox binary: by default
/// `base/firefox-flatpak-wrapper.sh`, else the configured path (`~`
/// expanded, relative to `base`). Never `/usr/bin/firefox`.
pub open spec fn wrapper_spec(configured: Seq<char>, base: Seq<char>, home: Option<Seq<char>>) -> Seq<
    char,
> {
    if trim_seq(configured).len() == 0 {
        join_spec(base, "firefox-flatpak-wrapper.sh"@)
    } else {
        let p = expand_tilde_spec(trim_seq(configured), home);
        if p.len() > 0 && p[0] == '/' {
            p
        } else {
            join_spec(base, p)
        }
    }
}

pub fn wrapper_candidate(cfg: &FirefoxConfig, base: &str, home: Option<&str>) -> (r: String)
    ensures
        r@ == wrapper_spec(cfg.wrapper@, base@, opt_str_view(home)),
{
    if is_blank(cfg.wrapper.as_str()) {
        join(base, "firefox-flatpak-wrapper.sh")
    } else {
        let t = trim(cfg.wrapper.as_str());
        let p = expand_tilde(t.as_str(), home);
        join(base, p.as_str())
    }
}

/// Firefox's arguments: `--kiosk` when asked, then the persistent profile.
pub open spec fn firefox_args_spec(kiosk: bool, profile: Seq<char>) -> Seq<Seq<char>> {
    (if kiosk {
        seq!["--kiosk"@]
    } else {
        Seq::empty()
    }) + seq!["-profile"@, profile]
}

pub fn firefox_args(kiosk: bool, profile: &str) -> (r: Vec<String>)
    ensures
        strings_view(r@) == firefox_args_spec(kiosk, profile@),
{
    let mut r = Vec::new();
    if kiosk {
        r.push(owned("--kiosk"));
    }
    r.push(owned("-profile"));
    r.push(owned(profile));
    assert(strings_view(r@) =~= firefox_args_spec(kiosk, profile@));
    r
}

pub enum LaunchError {
    /// geckodriver or the Flatpak wrapper is missing: the
    /// `FIREFOX_COMPONENT_MISSING` state.
    MissingComponent(String),
    Other(String),
}

pub enum PageError {
    /// The page did not get ready in time.
    Timeout,
    /// The WebDriver session was lost (Firefox closed or crashed).
    SessionLost(String),
}

/// `s[i..j]` is one of `s.lines()`: it starts the text or follows a line
/// break, ends at a line break or at a non-empty end, and holds none.
pub open spec fn is_line(s: Seq<char>, i: int, j: int) -> bool {
    &&& 0 <= i <= j <= s.len()
    &&& (i == 0 || s[i - 1] == '\n')
    &&& (j < s.len() && s[j] == '\n' || j == s.len() && i < s.len())
    &&& forall|k: int| i <= k < j ==> s[k] != '\n'
}

/// The output of `flatpak ps --columns=application` lists `app_id`: some
/// line, trimmed, is exactly it.
pub open spec fn lists_app(output: Seq<char>, app_id: Seq<char>) -> bool {
    exists|i: int, j: int| is_line(output, i, j) && trim_seq(output.subrange(i, j)) == app_id
}

pub fn output_lists_app(output: &str, app_id: &str) -> (r: bool)
    ensures
        r == lists_app(output@, app_id@),
{
    let v = crate::text::chars_of(output);
    let n = v.len();
    let mut start: usize = 0;
    let mut k: usize = 0;
    while k < n
        invariant
            start <= k <= n,
            n == v@.len(),
            v@ == output@,
            start == 0 || v@[start - 1] == '\n',
            forall|m: int| start <= m < k ==> v@[m] != '\n',
            forall|i: int, j: int|
                is_line(output@, i, j) && j < start ==> trim_seq(output@.subrange(i, j)) != app_id@,
        decreases n - k,
    {
        if v[k] == '\n' {
            let line = string_from(&v, start, k);
            let t = trim(line.as_str());
            if crate::text::str_eq(t.as_str(), app_id) {
                assert(is_line(output@, start as int, k as int));
                return true;
            }
            proof {
                assert forall|i: int, j: int|
                    is_line(output@, i, j) && j < k + 1 implies trim_seq(output@.subrange(i, j))
                    != app_id@ by {
                    if j >= start {
                        // the only line ending in [start, k] is [start, k)
                        if i < start {
                            assert(output@[start - 1] == '\n');
                        }
                        if i > start {
                            assert(output@[i - 1] != '\n');
                        }
                        if j < k {
                            assert(output@[j] != '\n');
                        }
                    }
                }
            }
            start = k + 1;
        }
        k = k + 1;
    }
    if start < n {
        let line = string_from(&v, start, n);
        let t = trim(line.as_str());
        if crate::text::str_eq(t.as_str(), app_id) {
            assert(is_line(output@, start as int, n as int));
            return true;
        }
    }
    proof {
        assert forall|i: int, j: int| is_line(output@, i, j) implies trim_seq(output@.subrange(i, j))
            != app_id@ by {
            if j >= start {
                if i < start {
                    assert(output@[start - 1] == '\n');
                }
                if i > start {
                    assert(output@[i - 1] != '\n');
                }
                if j < n {
                    assert(output@[j] != '\n');
                }
            }
        }
    }
    false
}

fn string_from(v: &Vec<char>, from: usize, to: usize) -> (r: String)
    requires
        from <= to <= v@.len(),
    ensures
        r@ == v@.subrange(from as int, to as int),
{
    let mut r = String::new();
    let mut p: usize = from;
    while p < to
        invariant
            from <= p <= to <= v@.len(),
            r@ == v@.subrange(from as int, p as int),
        decreases to - p,
    {
        r.push(v[p]);
        p = p + 1;
        assert(r@ =~= v@.subrange(from as int, p as int));
    }
    r
}

} // verus!
