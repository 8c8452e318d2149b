//! The agent's settings (`config.toml`) with their defaults, and how the
//! paths they hold are resolved. Paths are Unix paths held as strings; the
//! home directory is read by the caller.
use vstd::prelude::*;
use crate::text::{concat, has_prefix, owned, starts_with};

verus! {

pub struct ManagerConfig {
    /// E.g. `http://192.168.10.64:8080`.
    pub url: String,
    /// Interval between configuration reads while all is well.
    pub poll_seconds: u64,
    /// Wait before retrying after a Manager error.
    pub retry_seconds: u64,
    /// Interval between remote command polls.
    pub command_poll_seconds: u64,
    /// Interval between heartbeats sent to NOC Manager.
    pub heartbeat_seconds: u64,
    /// Timeout of HTTP requests to NOC Manager.
    pub timeout_seconds: u64,
}

impl ManagerConfig {
    /// The settings of a Manager at `url`, every interval at its default.
    pub fn with_url(url: String) -> (r: Self)
        ensures
            r.url@ == url@,
            r.poll_seconds == 30,
            r.retry_seconds == 10,
            r.command_poll_seconds == 5,
            r.heartbeat_seconds == 30,
            r.timeout_seconds == 10,
    {
        ManagerConfig {
            url,
            poll_seconds: 30,
            retry_seconds: 10,
            command_poll_seconds: 5,
            heartbeat_seconds: 30,
            timeout_seconds: 10,
        }
    }

    /// Seconds between remote command polls: at least one.
    pub fn command_poll_interval(&self) -> (r: u64)
        ensures
            r == if self.command_poll_seconds < 1 {
                1
            } else {
                self.command_poll_seconds
            },
    {
        if self.command_poll_seconds < 1 {
            1
        } else {
            self.command_poll_seconds
        }
    }

    /// Seconds between heartbeats: at least one.
    pub fn heartbeat_interval(&self) -> (r: u64)
        ensures
            r == if self.heartbeat_seconds < 1 {
                1
            } else {
                self.heartbeat_seconds
            },
    {
        if self.heartbeat_seconds < 1 {
            1
        } else {
            self.heartbeat_seconds
        }
    }

    /// Timeout of the background requests (command polls, acks and
    /// heartbeats), which must never hold up the screen: the configured
    /// timeout kept between one and five seconds.
    pub fn background_timeout(&self) -> (r: u64)
        ensures
            r == if self.timeout_seconds < 1 {
                1
            } else if self.timeout_seconds > 5 {
                5
            } else {
                self.timeout_seconds
            },
    {
        if self.timeout_seconds < 1 {
            1
        } else if self.timeout_seconds > 5 {
            5
        } else {
            self.timeout_seconds
        }
    }
}

/// Timeout of an HTTP client: at least one second.
pub fn client_timeout(seconds: u64) -> (r: u64)
    ensures
        r == if seconds < 1 {
            1
        } else {
            seconds
        },
{
    if seconds < 1 {
        1
    } else {
        seconds
    }
}

pub struct UiConfig {
    pub background: String,
    pub logo: String,
}

impl Default for UiConfig {
    fn default() -> (r: Self)
        ensures
            r.background@ == "background.jpg"@,
            r.logo@ == "logo.png"@,
    {
        UiConfig { background: owned("background.jpg"), logo: owned("logo.png") }
    }
}

pub struct FirefoxConfig {
    pub flatpak: String,
    pub app_id: String,
    /// Wrapper given to geckodriver as the Firefox binary; empty means
    /// `<base>/firefox-flatpak-wrapper.sh`.
    pub wrapper: String,
    /// Path of geckodriver; empty means a search of `$PATH`.
    pub geckodriver: String,
    /// Persistent Firefox profile; `~` is expanded.
    pub profile_dir: String,
    pub load_timeout_seconds: u64,
    pub slow_loading_after_seconds: u64,
    pub retry_seconds: u64,
    /// Pause between stopping Firefox and starting it again.
    pub restart_delay_seconds: u64,
    /// Pass `--kiosk` to Firefox.
    pub kiosk: bool,
    /// Last resort when Firefox will not stop: `flatpak kill <app_id>`.
    pub force_kill: bool,
    pub geckodriver_timeout_seconds: u64,
}

impl Default for FirefoxConfig {
    fn default() -> (r: Self)
        ensures
            r.flatpak@ == "/usr/bin/flatpak"@,
            r.app_id@ == "org.mozilla.firefox"@,
            r.wrapper@.len() == 0,
            r.geckodriver@.len() == 0,
            r.profile_dir@ == "~/.var/app/org.mozilla.firefox/noc-agent-profile"@,
            r.load_timeout_seconds == 60,
            r.slow_loading_after_seconds == 15,
            r.retry_seconds == 10,
            r.restart_delay_seconds == 3,
            r.kiosk,
            r.force_kill,
            r.geckodriver_timeout_seconds == 30,
    {
        FirefoxConfig {
            flatpak: owned("/usr/bin/flatpak"),
            app_id: owned("org.mozilla.firefox"),
            wrapper: String::new(),
            geckodriver: String::new(),
            profile_dir: owned("~/.var/app/org.mozilla.firefox/noc-agent-profile"),
            load_timeout_seconds: 60,
            slow_loading_after_seconds: 15,
            retry_seconds: 10,
            restart_delay_seconds: 3,
            kiosk: true,
            force_kill: true,
            geckodriver_timeout_seconds: 30,
        }
    }
}

pub struct TargetConfig {
    /// Accept self-signed TLS certificates when testing the target.
    pub insecure: bool,
    pub timeout_seconds: u64,
}

impl Default for TargetConfig {
    fn default() -> (r: Self)
        ensures
            !r.insecure,
            r.timeout_seconds == 10,
    {
        TargetConfig { insecure: false, timeout_seconds: 10 }
    }
}

pub struct LogConfig {
    pub file: String,
}

impl Default for LogConfig {
    fn default() -> (r: Self)
        ensures
            r.file@ == "noc-agent.log"@,
    {
        LogConfig { file: owned("noc-agent.log") }
    }
}

pub struct Config {
    pub manager: ManagerConfig,
    pub ui: UiConfig,
    pub firefox: FirefoxConfig,
    pub target: TargetConfig,
    pub log: LogConfig,
}

/// A configuration with where it was read from.
pub struct Loaded {
    pub config: Config,
    /// Directory relative paths (assets, log) are resolved against.
    pub base: String,
    pub file: String,
}

// ------------------------------------------------------------------ paths

/// `PathBuf::join` on Unix: an absolute `p` replaces `base`; otherwise a
/// separator is added unless `base` is empty or already ends with one.
pub open spec fn join_spec(base: Seq<char>, p: Seq<char>) -> Seq<char> {
    if p.len() > 0 && p[0] == '/' {
        p
    } else if base.len() == 0 || base.last() == '/' {
        base + p
    } else {
        base + seq!['/'] + p
    }
}

pub fn join(base: &str, p: &str) -> (r: String)
    ensures
        r@ == join_spec(base@, p@),
{
    proof {
        reveal_strlit("/");
        if p@.len() > 0 {
            assert(p@.subrange(0, 1)[0] == p@[0]);
            if p@[0] == '/' {
                assert(p@.subrange(0, 1) =~= "/"@);
            }
        }
    }
    if has_prefix(p, "/") {
        return owned(p);
    }
    let n = base.unicode_len();
    if n == 0 {
        return owned(p);
    }
    if base.get_char(n - 1) == '/' {
        return concat(base, p);
    }
    let mut r = owned(base);
    r.push('/');
    r.append(p);
    r
}

/// A leading `~/` is replaced by the home directory, when it is known.
pub open spec fn expand_tilde_spec(value: Seq<char>, home: Option<Seq<char>>) -> Seq<char> {
    if starts_with(value, "~/"@) && home is Some {
        join_spec(home->0, value.subrange(2, value.len() as int))
    } else {
        value
    }
}

pub open spec fn opt_str_view(o: Option<&str>) -> Option<Seq<char>> {
    match o {
        Some(s) => Some(s@),
        None => None,
    }
}

pub fn expand_tilde(value: &str, home: Option<&str>) -> (r: String)
    ensures
        r@ == expand_tilde_spec(value@, opt_str_view(home)),
{
    if has_prefix(value, "~/") {
        match home {
            Some(h) => {
                proof {
                    reveal_strlit("~/");
                }
                let rest = value.substring_char(2, value.unicode_len());
                return join(h, rest);
            },
            None => {},
        }
    }
    owned(value)
}

/// `value` with `~` expanded, made absolute against `base`.
pub open spec fn resolve_spec(base: Seq<char>, value: Seq<char>, home: Option<Seq<char>>) -> Seq<
    char,
> {
    let e = expand_tilde_spec(value, home);
    if e.len() > 0 && e[0] == '/' {
        e
    } else {
        join_spec(base, e)
    }
}

pub fn resolve(base: &str, value: &str, home: Option<&str>) -> (r: String)
    ensures
        r@ == resolve_spec(base@, value@, opt_str_view(home)),
{
    let e = expand_tilde(value, home);
    join(base, e.as_str())
}

impl Config {
    /// Where the log file goes.
    pub fn log_path(&self, base: &str, home: Option<&str>) -> (r: String)
        ensures
            r@ == resolve_spec(base@, self.log.file@, opt_str_view(home)),
    {
        resolve(base, self.log.file.as_str(), home)
    }

    /// The places an asset is looked for, in order: relative to `base`,
    /// then in `base/assets`.
    pub fn asset_candidates(base: &str, name: &str, home: Option<&str>) -> (r: Vec<String>)
        ensures
            r@.len() == 2,
            r@[0]@ == resolve_spec(base@, name@, opt_str_view(home)),
            r@[1]@ == join_spec(join_spec(base@, "assets"@), name@),
    {
        let direct = resolve(base, name, home);
        let assets = join(base, "assets");
        let in_assets = join(assets.as_str(), name);
        let mut r = Vec::new();
        r.push(direct);
        r.push(in_assets);
        r
    }

    /// The first candidate that exists (`exists[i]` tells whether
    /// `asset_candidates(..)[i]` does), else the direct path.
    pub fn asset_path(base: &str, name: &str, home: Option<&str>, exists: &Vec<bool>) -> (r:
        String)
        requires
            exists@.len() == 2,
        ensures
            r@ == if exists@[0] || !exists@[1] {
                resolve_spec(base@, name@, opt_str_view(home))
            } else {
                join_spec(join_spec(base@, "assets"@), name@)
            },
    {
        let mut c = Config::asset_candidates(base, name, home);
        if exists[0] || !exists[1] {
            c.swap_remove(0)
        } else {
            c.pop().unwrap()
        }
    }
}

/// Where `config.toml` is looked for, in order: `$NOC_AGENT_CONFIG`, the
/// working directory, `~/.config/noc-agent`, the executable's directory,
/// `/etc/noc-agent`.
pub open spec fn config_candidates_spec(
    explicit: Option<Seq<char>>,
    home: Option<Seq<char>>,
    exe_dir: Option<Seq<char>>,
) -> Seq<Seq<char>> {
    (match explicit {
        Some(e) => seq![e],
        None => Seq::empty(),
    }) + seq!["config.toml"@] + (match home {
        Some(h) => seq![join_spec(h, ".config/noc-agent/config.toml"@)],
        None => Seq::empty(),
    }) + (match exe_dir {
        Some(d) => seq![join_spec(d, "config.toml"@)],
        None => Seq::empty(),
    }) + seq!["/etc/noc-agent/config.toml"@]
}

pub open spec fn strings_view(v: Seq<String>) -> Seq<Seq<char>> {
    v.map_values(|s: String| s@)
}

pub fn config_candidates(explicit: Option<&str>, home: Option<&str>, exe_dir: Option<&str>) -> (r:
    Vec<String>)
    ensures
        strings_view(r@) == config_candidates_spec(
            opt_str_view(explicit),
            opt_str_view(home),
            opt_str_view(exe_dir),
        ),
{
    let mut r: Vec<String> = Vec::new();
    match explicit {
        Some(e) => r.push(owned(e)),
        None => {},
    }
    r.push(owned("config.toml"));
    match home {
        Some(h) => r.push(join(h, ".config/noc-agent/config.toml")),
        None => {},
    }
    match exe_dir {
        Some(d) => r.push(join(d, "config.toml")),
        None => {},
    }
    r.push(owned("/etc/noc-agent/config.toml"));
    assert(strings_view(r@) =~= config_candidates_spec(
        opt_str_view(explicit),
        opt_str_view(home),
        opt_str_view(exe_dir),
    ));
    r
}

pub open spec fn opt_string_view(o: Option<String>) -> Option<Seq<char>> {
    match o {
        Some(s) => Some(s@),
        None => None,
    }
}

/// The first value that is non-empty once trimmed, trimmed.
pub open spec fn first_nonblank(vs: Seq<Option<Seq<char>>>) -> Option<Seq<char>>
    decreases vs.len(),
{
    if vs.len() == 0 {
        None
    } else {
        match vs[0] {
            Some(v) if crate::text::trim_seq(v).len() > 0 => Some(crate::text::trim_seq(v)),
            _ => first_nonblank(vs.drop_first()),
        }
    }
}

/// The current Linux user: the first non-blank of `$USER`, `$LOGNAME`,
/// `$USERNAME` (in `env_values`), then the output of `id -un`, else
/// `"unknown"`.
pub fn pick_username(env_values: &Vec<Option<String>>, id_output: Option<&str>) -> (r: String)
    ensures
        r@ == match first_nonblank(env_values@.map_values(|o: Option<String>| opt_string_view(o))) {
            Some(v) => v,
            None => match first_nonblank(seq![opt_str_view(id_output)]) {
                Some(v) => v,
                None => "unknown"@,
            },
        },
{
    let ghost vs = env_values@.map_values(|o: Option<String>| opt_string_view(o));
    let mut i: usize = 0;
    assert(vs.subrange(0, vs.len() as int) =~= vs);
    while i < env_values.len()
        invariant
            i <= env_values.len(),
            vs == env_values@.map_values(|o: Option<String>| opt_string_view(o)),
            first_nonblank(vs) == first_nonblank(vs.subrange(i as int, vs.len() as int)),
        decreases env_values.len() - i,
    {
        let ghost rest = vs.subrange(i as int, vs.len() as int);
        assert(rest.drop_first() =~= vs.subrange(i + 1, vs.len() as int));
        assert(rest[0] == opt_string_view(env_values@[i as int]));
        match &env_values[i] {
            Some(v) => {
                let t = crate::text::trim(v.as_str());
                if t.as_str().unicode_len() > 0 {
                    return t;
                }
            },
            None => {},
        }
        i = i + 1;
    }
    assert(vs.subrange(i as int, vs.len() as int) =~= Seq::<Option<Seq<char>>>::empty());
    assert(first_nonblank(vs) is None);
    let ghost ids = seq![opt_str_view(id_output)];
    assert(ids.drop_first() =~= Seq::<Option<Seq<char>>>::empty());
    assert(first_nonblank(ids.drop_first()) is None);
    match id_output {
        Some(v) => {
            let t = crate::text::trim(v);
            if t.as_str().unicode_len() > 0 {
                return t;
            }
        },
        None => {},
    }
    owned("unknown")
}

} // verus!
