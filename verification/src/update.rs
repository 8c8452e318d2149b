//! Startup self-update of the manager and the agent: whether a program looks
//! for a new release, the name of its staging directory, how its command
//! line is handed to the helper script, and what it does while the helper
//! runs. The program itself spawns the helper, watches its files and sleeps.
use vstd::prelude::*;
use crate::text::{decimal, hex2, hex_fixed, join_seqs, join_strings, str_eq, u128_to_string, u64_to_string, views_of};

verus! {

/// Command-line arguments with which no update is attempted.
pub open spec fn is_no_update_flag(a: Seq<char>) -> bool {
    ||| a == "--version"@
    ||| a == "-V"@
    ||| a == "--set-credentials"@
    ||| a == "--no-update"@
}

fn no_update_flag(a: &str) -> (r: bool)
    ensures
        r == is_no_update_flag(a@),
{
    str_eq(a, "--version") || str_eq(a, "-V") || str_eq(a, "--set-credentials") || str_eq(
        a,
        "--no-update",
    )
}

/// `true` when the optional value is present and equal to `s`.
pub open spec fn set_to(v: Option<&str>, s: Seq<char>) -> bool {
    match v {
        Some(x) => x@ == s,
        None => false,
    }
}

/// Whether `app` looks for an update at startup. `skip` is the value of
/// `NOC_SKIP_UPDATE` (which a freshly installed executable finds set to its
/// own name), `disabled` that of `NOC_DISABLE_UPDATES`, `args` the whole
/// command line.
pub fn update_wanted(app: &str, skip: Option<&str>, disabled: Option<&str>, args: &Vec<String>) -> (r:
    bool)
    ensures
        r == !(set_to(skip, app@) || set_to(disabled, "1"@) || exists|i: int|
            0 <= i < args.len() && is_no_update_flag(#[trigger] args@[i]@)),
{
    let skipped = match skip {
        Some(s) => str_eq(s, app),
        None => false,
    };
    let off = match disabled {
        Some(d) => str_eq(d, "1"),
        None => false,
    };
    if skipped || off {
        return false;
    }
    let mut i: usize = 0;
    while i < args.len()
        invariant
            i <= args.len(),
            forall|j: int| 0 <= j < i ==> !is_no_update_flag(#[trigger] args@[j]@),
        decreases args.len() - i,
    {
        if no_update_flag(args[i].as_str()) {
            return false;
        }
        i = i + 1;
    }
    true
}

/// Name of the staging directory of one update attempt:
/// `{app}-{pid}-{nonce}`.
pub fn stage_name(app: &str, pid: u32, nonce: u128) -> (r: String)
    ensures
        r@ == app@ + "-"@ + decimal(pid as nat) + "-"@ + decimal(nonce as nat),
{
    let mut r = String::new();
    r.append(app);
    r.append("-");
    r.append(u64_to_string(pid as u64).as_str());
    r.append("-");
    r.append(u128_to_string(nonce).as_str());
    r
}

/// The helper's encoding of one argument: `x`, then two lowercase
/// hexadecimal digits per byte.
pub open spec fn hex_arg(bytes: Seq<u8>) -> Seq<char>
    decreases bytes.len(),
{
    if bytes.len() == 0 {
        seq!['x']
    } else {
        hex_arg(bytes.drop_last()) + hex_fixed(bytes.last() as nat, 2)
    }
}

/// Encodes one argument, given as its bytes (UTF-16LE on Windows, raw bytes
/// elsewhere).
pub fn encode_arg(bytes: &Vec<u8>) -> (r: String)
    ensures
        r@ == hex_arg(bytes@),
{
    let mut r = String::new();
    r.push('x');
    assert(r@ =~= seq!['x']);
    let mut i: usize = 0;
    while i < bytes.len()
        invariant
            i <= bytes.len(),
            r@ == hex_arg(bytes@.take(i as int)),
        decreases bytes.len() - i,
    {
        assert(bytes@.take(i + 1).drop_last() =~= bytes@.take(i as int));
        r.append(hex2(bytes[i]).as_str());
        i = i + 1;
    }
    assert(bytes@.take(i as int) =~= bytes@);
    r
}

/// The arguments handed to the helper: each one encoded, one per line.
pub open spec fn encoded_args(args: Seq<Vec<u8>>) -> Seq<char> {
    join_seqs(Seq::new(args.len(), |i: int| hex_arg(args[i]@)), "\n"@)
}

/// Encodes the program's arguments (without the program name) for the
/// helper, which starts the new executable with the same ones.
pub fn encode_args(args: &Vec<Vec<u8>>) -> (r: String)
    ensures
        r@ == encoded_args(args@),
{
    let mut parts: Vec<String> = Vec::new();
    let mut i: usize = 0;
    while i < args.len()
        invariant
            i <= args.len(),
            parts.len() == i,
            forall|j: int| 0 <= j < i ==> (#[trigger] parts@[j])@ == hex_arg(args@[j]@),
        decreases args.len() - i,
    {
        parts.push(encode_arg(&args[i]));
        i = i + 1;
    }
    assert(views_of(parts@) =~= Seq::new(args@.len(), |k: int| hex_arg(args@[k]@)));
    join_strings(&parts, "\n")
}

/// What the waiting program does after one look at the update helper.
pub enum HelperStep {
    /// The helper took over the installation: leave, so that it can replace
    /// the executable and start it again.
    HandOff,
    /// The helper installed a new executable: start it in place of this
    /// process.
    Restart,
    /// The helper ended without an update: go on with the current version.
    KeepCurrent,
    /// The helper ran past its time limit: stop it and go on with the
    /// current version.
    TimedOut,
    /// Look again a moment later.
    Wait,
}

/// How long the program waits for the helper, in milliseconds.
pub const HELPER_TIME_LIMIT_MS: u64 = 45000;

/// The helper's exit code when it installed a new executable.
pub const INSTALLED_EXIT_CODE: i32 = 20;

/// The step that follows one look at the helper.
pub open spec fn helper_step_spec(
    ready: bool,
    exited: Option<Option<i32>>,
    elapsed_ms: u64,
    in_place_restart: bool,
) -> HelperStep {
    if ready {
        HelperStep::HandOff
    } else {
        match exited {
            Some(code) => if in_place_restart && code == Some(INSTALLED_EXIT_CODE) {
                HelperStep::Restart
            } else {
                HelperStep::KeepCurrent
            },
            None => if elapsed_ms >= HELPER_TIME_LIMIT_MS {
                HelperStep::TimedOut
            } else {
                HelperStep::Wait
            },
        }
    }
}

/// Decides after one look at the helper. `ready`: the helper has signalled
/// that it accepts the hand-off (Windows); `exited`: `None` while it runs,
/// else its exit code (`None` when it has none); `elapsed_ms`: time since it
/// was started; `in_place_restart`: the system can replace this process by
/// the new executable (Unix).
pub fn helper_step(
    ready: bool,
    exited: Option<Option<i32>>,
    elapsed_ms: u64,
    in_place_restart: bool,
) -> (r: HelperStep)
    ensures
        r == helper_step_spec(ready, exited, elapsed_ms, in_place_restart),
        (r is HandOff) <==> ready,
{
    if ready {
        return HelperStep::HandOff;
    }
    match exited {
        Some(code) => {
            let installed = match code {
                Some(c) => c == INSTALLED_EXIT_CODE,
                None => false,
            };
            if in_place_restart && installed {
                HelperStep::Restart
            } else {
                HelperStep::KeepCurrent
            }
        },
        None => {
            if elapsed_ms >= HELPER_TIME_LIMIT_MS {
                HelperStep::TimedOut
            } else {
                HelperStep::Wait
            }
        },
    }
}

/// After the new executable failed to start in place of this process,
/// whether the previous one must be put back: only while the file at the
/// executable's path is still the one that was installed (same inode).
pub fn restore_previous(installed_inode: u64, current_inode: Option<u64>) -> (r: bool)
    ensures
        r == (current_inode == Some(installed_inode)),
{
    match current_inode {
        Some(n) => n == installed_inode,
        None => false,
    }
}

} // verus!
