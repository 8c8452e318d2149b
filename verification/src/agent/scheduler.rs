//! Scheduled restart of Firefox from the kiosk's `restart_cron` field. Only
//! Firefox is restarted: NOC Agent itself never is. Times are Unix seconds.
use vstd::prelude::*;
use std::str::FromStr;
use cron::Schedule;
use chrono::TimeZone;
use crate::text::{collapse_ws, join_strings, split_words, str_eq, trim, trim_seq, words, concat};

verus! {

/// Whether the `cron` crate accepts an expression; a function of the text
/// alone.
pub uninterp spec fn cron_accepts(expression: Seq<char>) -> bool;

/// `Schedule::from_str(..).is_ok()`: whether the crate accepts the
/// expression.
#[verifier::external_body]
fn accepts_cron(expression: &str) -> (r: bool)
    ensures
        r == cron_accepts(expression@),
{
    Schedule::from_str(expression).is_ok()
}

/// Last instant handled, in Unix seconds: the end of year 9999.
pub const LAST_TIME: i64 = 253402300799;

/// The first wall-clock time after `wall` that the schedule written
/// `expression` matches (`None` when the expression is refused or nothing
/// matches), reading times as UTC date-times: a function of the text and
/// the time alone.
pub uninterp spec fn cron_next(expression: Seq<char>, wall: i64) -> Option<i64>;

/// `Schedule::from_str(expression)` then `schedule.after(&start).next()`,
/// where `start` is the UTC date-time whose reading is `wall`, a wall-clock
/// time of the local zone. The crate starts its search one second after
/// `start`, and a UTC calendar has no gaps, so a result lies after `wall`.
#[verifier::external_body]
fn next_wall_time(expression: &str, wall: i64) -> (r: Option<i64>)
    requires
        0 <= wall <= LAST_TIME,
    ensures
        r == cron_next(expression@, wall),
        r matches Some(t) ==> t > wall,
{
    let schedule = Schedule::from_str(expression).ok()?;
    let start = chrono::DateTime::from_timestamp(wall, 0)?;
    schedule.after(&start).next().map(|d| d.timestamp())
}

/// `Local.offset_from_utc_datetime(..).local_minus_utc()`: the offset of
/// the local zone from UTC at instant `t`, in seconds. It is given for every
/// instant of the range, and a chrono offset is less than a day either way;
/// which offset depends on the machine, and is not claimed.
#[verifier::external_body]
fn local_offset(t: i64) -> (r: Option<i32>)
    requires
        0 <= t <= LAST_TIME,
    ensures
        r is Some,
        r matches Some(o) ==> -86400 < o < 86400,
{
    let utc = chrono::DateTime::from_timestamp(t, 0)?.naive_utc();
    Some(chrono::Local.offset_from_utc_datetime(&utc).local_minus_utc())
}

/// `Local.from_local_datetime(..).single()`: the instant at which the local
/// clock reads `wall`, `None` when the local clock skips that reading or
/// shows it twice. That instant differs from `wall` by the zone's offset,
/// less than a day; which instant depends on the machine, and is not
/// claimed.
#[verifier::external_body]
fn instant_of_wall(wall: i64) -> (r: Option<i64>)
    requires
        0 <= wall <= LAST_TIME,
    ensures
        r matches Some(t) ==> wall - 86400 < t < wall + 86400,
{
    let naive = chrono::DateTime::from_timestamp(wall, 0)?.naive_utc();
    chrono::Local.from_local_datetime(&naive).single().map(|d| d.timestamp())
}

/// How many matching wall-clock times are tried before giving up (more
/// than the seconds of a day, so that an every-second schedule crosses any
/// skipped hour).
pub const SEARCH_LIMIT: u32 = 90000;

/// The `k`-th wall-clock match after `wall` (the first for `k == 0`), while
/// the matches stay in range.
pub open spec fn wall_match(e: Seq<char>, wall: i64, k: nat) -> Option<i64>
    decreases k,
{
    if k == 0 {
        cron_next(e, wall)
    } else {
        match wall_match(e, wall, (k - 1) as nat) {
            Some(c) => if c <= LAST_TIME {
                cron_next(e, c)
            } else {
                None
            },
            None => None,
        }
    }
}

/// The run chosen among the matches after the wall-clock time `wall`, given
/// the local clock's answers (`answers[k]`: the instant at which it shows
/// the `k`-th match once, `None` when it skips or repeats it): the first
/// match shown after `from`. `None` when the matches run out, leave the
/// range, or the answers end.
pub open spec fn first_run(
    e: Seq<char>,
    wall: i64,
    from: i64,
    answers: Seq<Option<i64>>,
    k: nat,
) -> Option<i64>
    decreases answers.len() - k,
{
    if k >= answers.len() {
        None
    } else {
        match wall_match(e, wall, k) {
            None => None,
            Some(c) => if c > LAST_TIME {
                None
            } else {
                match answers[k as int] {
                    Some(t) => if t > from {
                        Some(t)
                    } else {
                        first_run(e, wall, from, answers, k + 1)
                    },
                    None => first_run(e, wall, from, answers, k + 1),
                }
            },
        }
    }
}

/// Answers the local clock can give: each instant lies within a day of its
/// match.
pub open spec fn answers_fit(e: Seq<char>, wall: i64, answers: Seq<Option<i64>>) -> bool {
    forall|k: int|
        0 <= k < answers.len() ==> (#[trigger] answers[k] matches Some(t) ==> wall_match(
            e,
            wall,
            k as nat,
        ) matches Some(c) && c - 86400 < t < c + 86400)
}

/// `next` is the next run of the schedule `e` after instant `from`, for
/// some offset of the local zone at `from` and some answers of the local
/// clock: the first match, after the wall-clock time at `from`, that the
/// local clock shows once after `from`.
pub open spec fn is_next_run(e: Seq<char>, from: i64, next: Option<i64>) -> bool {
    exists|offset: int, answers: Seq<Option<i64>>|
        #![trigger first_run(e, (from + offset) as i64, from, answers, 0)]
        -86400 < offset < 86400 && answers.len() <= SEARCH_LIMIT && answers_fit(
            e,
            (from + offset) as i64,
            answers,
        ) && next == first_run(e, (from + offset) as i64, from, answers, 0)
}

proof fn lemma_first_run_found(
    e: Seq<char>,
    wall: i64,
    from: i64,
    s: Seq<Option<i64>>,
    j: nat,
    n: nat,
    t: i64,
)
    requires
        j <= n < s.len(),
        forall|i: int|
            j <= i < n ==> (wall_match(e, wall, i as nat) matches Some(c) && c <= LAST_TIME && !(
            #[trigger] s[i] matches Some(u) && u > from)),
        wall_match(e, wall, n) matches Some(c) && c <= LAST_TIME,
        s[n as int] == Some(t),
        t > from,
    ensures
        first_run(e, wall, from, s, j) == Some(t),
    decreases n - j,
{
    if j < n {
        assert(!(s[j as int] matches Some(u) && u > from));
        lemma_first_run_found(e, wall, from, s, j + 1, n, t);
    }
}

proof fn lemma_first_run_none(
    e: Seq<char>,
    wall: i64,
    from: i64,
    s: Seq<Option<i64>>,
    j: nat,
    n: nat,
)
    requires
        j <= n <= s.len(),
        forall|i: int|
            j <= i < n ==> (wall_match(e, wall, i as nat) matches Some(c) && c <= LAST_TIME && !(
            #[trigger] s[i] matches Some(u) && u > from)),
        n == s.len() || wall_match(e, wall, n) is None || (wall_match(e, wall, n) matches Some(c)
            && c > LAST_TIME),
    ensures
        first_run(e, wall, from, s, j) is None,
    decreases n - j,
{
    if j < n {
        assert(!(s[j as int] matches Some(u) && u > from));
        lemma_first_run_none(e, wall, from, s, j + 1, n);
    }
}

/// No run at all is always possible: the local clock may skip or repeat
/// every match. Nothing here tells the machine's time zone.
proof fn lemma_no_run_is_a_next_run(e: Seq<char>, from: i64)
    ensures
        is_next_run(e, from, None),
{
    let answers = Seq::<Option<i64>>::empty();
    assert(first_run(e, (from + 0int) as i64, from, answers, 0) is None);
    assert(answers_fit(e, (from + 0int) as i64, answers));
}

proof fn lemma_first_run_after(e: Seq<char>, wall: i64, from: i64, s: Seq<Option<i64>>, k: nat)
    ensures
        first_run(e, wall, from, s, k) matches Some(t) ==> t > from,
    decreases s.len() - k,
{
    if k < s.len() {
        lemma_first_run_after(e, wall, from, s, k + 1);
    }
}

/// The next run of the schedule written `e` (normalized) after instant
/// `from`, given the local zone's answers: `offset`, the zone's offset from
/// UTC at `from`, and `answers[k]`, the instant at which the local clock
/// shows the `k`-th wall-clock match once (`None` when it skips or repeats
/// it). The matches are taken from the wall-clock time `from + offset`; the
/// first one shown after `from` is the run.
pub fn first_run_given(e: &str, from: i64, offset: i32, answers: &Vec<Option<i64>>) -> (r:
    Option<i64>)
    requires
        0 <= from <= LAST_TIME,
        -86400 < offset < 86400,
        0 <= from + offset <= LAST_TIME,
        answers@.len() <= SEARCH_LIMIT,
    ensures
        r == first_run(e@, (from + offset) as i64, from, answers@, 0),
{
    let wall0: i64 = from + offset as i64;
    let mut wall: i64 = wall0;
    let mut k: usize = 0;
    while k < answers.len()
        invariant
            k <= answers@.len(),
            0 <= wall0 <= LAST_TIME,
            0 <= wall <= LAST_TIME,
            wall0 == from + offset,
            k == 0 ==> wall == wall0,
            k > 0 ==> wall_match(e@, wall0, (k - 1) as nat) == Some(wall),
            forall|i: int|
                0 <= i < k ==> (wall_match(e@, wall0, i as nat) matches Some(c) && c <= LAST_TIME
                    && !(#[trigger] answers@[i] matches Some(u) && u > from)),
        decreases answers@.len() - k,
    {
        let candidate = next_wall_time(e, wall);
        assert(candidate == wall_match(e@, wall0, k as nat));
        let c = match candidate {
            Some(c) => c,
            None => {
                proof {
                    lemma_first_run_none(e@, wall0, from, answers@, 0, k as nat);
                }
                return None;
            },
        };
        if c > LAST_TIME {
            proof {
                lemma_first_run_none(e@, wall0, from, answers@, 0, k as nat);
            }
            return None;
        }
        match answers[k] {
            Some(t) => {
                if t > from {
                    proof {
                        lemma_first_run_found(e@, wall0, from, answers@, 0, k as nat, t);
                    }
                    return Some(t);
                }
            },
            None => {},
        }
        wall = c;
        k = k + 1;
    }
    proof {
        lemma_first_run_none(e@, wall0, from, answers@, 0, k as nat);
    }
    None
}

/// `answers[k]` is what `clock` answered for the `k`-th wall-clock match
/// after `wall`: each match is in range and was asked in turn.
pub open spec fn asked_clock<F: Fn(i64) -> Option<i64>>(
    clock: F,
    e: Seq<char>,
    wall: i64,
    answers: Seq<Option<i64>>,
) -> bool {
    &&& matches_in_range(e, wall, answers.len())
    &&& forall|k: int|
        0 <= k < answers.len() ==> call_ensures(
            clock,
            (wall_match(e, wall, k as nat)->0,),
            #[trigger] answers[k],
        )
}

/// The first `n` wall-clock matches after `wall` exist and are in range.
pub open spec fn matches_in_range(e: Seq<char>, wall: i64, n: nat) -> bool {
    forall|k: nat|
        k < n ==> (#[trigger] wall_match(e, wall, k) matches Some(c) && c <= LAST_TIME)
}

/// The search over the matches after `wall` stopped for a reason: the
/// limit was reached, the last answer is after `from`, or the matches ran
/// out or left the range.
pub open spec fn search_done(e: Seq<char>, wall: i64, from: i64, answers: Seq<Option<i64>>) -> bool {
    ||| answers.len() == SEARCH_LIMIT
    ||| (answers.len() > 0 && (answers.last() matches Some(t) && t > from))
    ||| wall_match(e, wall, answers.len()) is None
    ||| (wall_match(e, wall, answers.len()) matches Some(c) && c > LAST_TIME)
}

/// `r` is the next run of the schedule written `e` after instant `from`,
/// found in a zone `offset` seconds ahead of UTC by asking `clock` for the
/// instant of each wall-clock match in turn, from the wall-clock time at
/// `from`, until one is shown after `from`.
pub open spec fn clock_run<F: Fn(i64) -> Option<i64>>(
    clock: F,
    e: Seq<char>,
    from: i64,
    offset: int,
    r: Option<i64>,
) -> bool {
    let wall = (from + offset) as i64;
    &&& -86400 < offset < 86400
    &&& 0 <= from + offset <= LAST_TIME
    &&& (cron_next(e, wall) matches Some(c) ==> c > wall)
    &&& exists|answers: Seq<Option<i64>>|
        #![trigger first_run(e, wall, from, answers, 0)]
        answers.len() <= SEARCH_LIMIT && asked_clock(clock, e, wall, answers) && search_done(
            e,
            wall,
            from,
            answers,
        ) && r == first_run(e, wall, from, answers, 0)
}

/// The next run of the schedule written `e` (normalized) after instant
/// `from`, in a zone `offset` seconds ahead of UTC, where `clock` gives the
/// instant at which the local clock shows a wall-clock time once (`None`
/// when it skips or repeats it): the matches are taken in turn from the
/// wall-clock time `from + offset`, and the clock is asked for each until
/// one is shown after `from`.
pub fn next_run_by<F: Fn(i64) -> Option<i64>>(e: &str, from: i64, offset: i32, clock: F) -> (r:
    Option<i64>)
    requires
        0 <= from <= LAST_TIME,
        -86400 < offset < 86400,
        0 <= from + offset <= LAST_TIME,
        forall|w: i64| 0 <= w <= LAST_TIME ==> #[trigger] call_requires(clock, (w,)),
    ensures
        clock_run(clock, e@, from, offset as int, r),
        r matches Some(t) ==> t > from,
{
    let wall0: i64 = from + offset as i64;
    let mut answers: Vec<Option<i64>> = Vec::new();
    let mut wall: i64 = wall0;
    let ghost mut seen = false;
    while answers.len() < SEARCH_LIMIT as usize
        invariant_except_break
            answers@.len() == 0 ==> wall == wall0,
            answers@.len() > 0 ==> wall_match(e@, wall0, (answers@.len() - 1) as nat) == Some(
                wall,
            ),
        invariant
            answers@.len() <= SEARCH_LIMIT,
            0 <= wall0 <= LAST_TIME,
            0 <= wall <= LAST_TIME,
            wall0 == from + offset,
            forall|w: i64| 0 <= w <= LAST_TIME ==> #[trigger] call_requires(clock, (w,)),
            asked_clock(clock, e@, wall0, answers@),
            answers@.len() > 0 ==> seen,
            seen ==> (cron_next(e@, wall0) matches Some(c) ==> c > wall0),
        ensures
            seen,
            search_done(e@, wall0, from, answers@),
        decreases SEARCH_LIMIT - answers@.len(),
    {
        let candidate = next_wall_time(e, wall);
        assert(candidate == wall_match(e@, wall0, answers@.len() as nat));
        proof {
            seen = true;
        }
        let c = match candidate {
            Some(c) => c,
            None => {
                break;
            },
        };
        if c > LAST_TIME {
            break;
        }
        let answer = clock(c);
        let ghost before = answers@;
        answers.push(answer);
        proof {
            assert forall|k: nat| k < answers@.len() implies (#[trigger] wall_match(e@, wall0, k)
                matches Some(cc) && cc <= LAST_TIME) by {
                if k < before.len() {
                    assert(matches_in_range(e@, wall0, before.len()));
                }
            }
            assert forall|k: int| 0 <= k < answers@.len() implies call_ensures(
                clock,
                (wall_match(e@, wall0, k as nat)->0,),
                #[trigger] answers@[k],
            ) by {
                if k < before.len() {
                    assert(answers@[k] == before[k]);
                }
            }
        }
        let shown_after = match answer {
            Some(t) => t > from,
            None => false,
        };
        if shown_after {
            break;
        }
        wall = c;
    }
    let r = first_run_given(e, from, offset, &answers);
    proof {
        lemma_first_run_after(e@, wall0, from, answers@, 0);
        assert(r == first_run(e@, wall0, from, answers@, 0));
    }
    r
}

/// A run found by asking a clock that answers within a day of each
/// wall-clock time is a next run of the schedule.
proof fn lemma_clock_run_is_next_run<F: Fn(i64) -> Option<i64>>(
    clock: F,
    e: Seq<char>,
    from: i64,
    offset: int,
    r: Option<i64>,
)
    requires
        clock_run(clock, e, from, offset, r),
        forall|w: i64, o: Option<i64>|
            #[trigger] call_ensures(clock, (w,), o) ==> (o matches Some(t) ==> w - 86400 < t < w
                + 86400),
    ensures
        is_next_run(e, from, r),
{
    let wall = (from + offset) as i64;
    let answers = choose|answers: Seq<Option<i64>>|
        #![trigger first_run(e, wall, from, answers, 0)]
        answers.len() <= SEARCH_LIMIT && asked_clock(clock, e, wall, answers) && search_done(
            e,
            wall,
            from,
            answers,
        ) && r == first_run(e, wall, from, answers, 0);
    assert forall|k: int| 0 <= k < answers.len() implies (#[trigger] answers[k] matches Some(t)
        ==> wall_match(e, wall, k as nat) matches Some(c) && c - 86400 < t < c + 86400) by {
        assert(wall_match(e, wall, k as nat) matches Some(c) && call_ensures(clock, (c,), answers[k]));
    }
    assert(answers_fit(e, wall, answers));
}

/// `r` is the next run found by asking the local clock, in a zone `offset`
/// seconds ahead of UTC; none when the wall-clock time at `from` is out of
/// range.
spec fn local_run(e: Seq<char>, from: i64, offset: int, r: Option<i64>) -> bool {
    if 0 <= from + offset <= LAST_TIME {
        clock_run(instant_of_wall, e, from, offset, r)
    } else {
        r is None
    }
}

/// The next run of the schedule written `e` (normalized) after instant
/// `from`: reads the local zone's offset at `from`, then asks the local
/// clock for the instant of each match in turn ([`next_run_by`]).
fn next_after(e: &str, from: i64) -> (r: Option<i64>)
    requires
        0 <= from <= LAST_TIME,
    ensures
        r matches Some(t) ==> t > from,
        is_next_run(e@, from, r),
        exists|offset: int| -86400 < offset < 86400 && #[trigger] local_run(e@, from, offset, r),
{
    let offset = match local_offset(from) {
        Some(o) => o,
        None => {
            return None;
        },
    };
    let wall0: i64 = from + offset as i64;
    if wall0 < 0 || wall0 > LAST_TIME {
        proof {
            lemma_no_run_is_a_next_run(e@, from);
            assert(local_run(e@, from, offset as int, None));
        }
        return None;
    }
    let r = next_run_by(e, from, offset, instant_of_wall);
    proof {
        lemma_clock_run_is_next_run(instant_of_wall, e@, from, offset as int, r);
        assert(local_run(e@, from, offset as int, r));
    }
    r
}

/// With a local clock that shows every wall-clock time once, `offset`
/// seconds ahead of UTC (no skipped or repeated hour), the next run after
/// `from` is the schedule's first match after the wall-clock time at
/// `from`, at the instant the clock shows it: no match of the schedule
/// comes between `from` and the run, and there is no run only when the
/// schedule has no match left in range.
pub proof fn law_next_run_is_first_match<F: Fn(i64) -> Option<i64>>(
    clock: F,
    e: Seq<char>,
    from: i64,
    offset: int,
    r: Option<i64>,
)
    requires
        clock_run(clock, e, from, offset, r),
        forall|w: i64, o: Option<i64>|
            #[trigger] call_ensures(clock, (w,), o) ==> o == Some((w - offset) as i64),
    ensures
        r == (match cron_next(e, (from + offset) as i64) {
            Some(c) => if c <= LAST_TIME {
                Some((c - offset) as i64)
            } else {
                None
            },
            None => None,
        }),
        r matches Some(t) ==> t > from,
{
    let wall = (from + offset) as i64;
    let answers = choose|answers: Seq<Option<i64>>|
        #![trigger first_run(e, wall, from, answers, 0)]
        answers.len() <= SEARCH_LIMIT && asked_clock(clock, e, wall, answers) && search_done(
            e,
            wall,
            from,
            answers,
        ) && r == first_run(e, wall, from, answers, 0);
    if answers.len() > 0 {
        assert(wall_match(e, wall, 0) matches Some(c) && c <= LAST_TIME && call_ensures(
            clock,
            (c,),
            answers[0],
        ));
    }
}

/// The current time from the system clock, as Unix seconds up to
/// [`LAST_TIME`]; `None` for a reading outside that range.
fn current_time() -> (r: Option<i64>)
    ensures
        r matches Some(t) ==> 0 <= t <= LAST_TIME,
{
    match crate::clock::unix_seconds() {
        Some(s) => {
            if s <= LAST_TIME as u64 {
                Some(s as i64)
            } else {
                None
            }
        },
        None => None,
    }
}

/// The `cron` crate expects 6 or 7 fields (seconds first): classic 5-field
/// expressions get a leading `0`; words are rejoined by single spaces.
pub open spec fn normalize_cron_spec(expression: Seq<char>) -> Seq<char> {
    if words(expression).len() == 5 {
        "0 "@ + collapse_ws(expression)
    } else {
        collapse_ws(expression)
    }
}

pub fn normalize(expression: &str) -> (r: String)
    ensures
        r@ == normalize_cron_spec(expression@),
{
    let fields = split_words(expression);
    let joined = join_strings(&fields, " ");
    proof {
        reveal_strlit(" ");
        assert(" "@ =~= seq![' ']);
    }
    if fields.len() == 5 {
        concat("0 ", joined.as_str())
    } else {
        joined
    }
}

/// The start of the minute containing `t`.
pub open spec fn minute_of(t: int) -> int {
    t - t % 60
}

/// The instant at which the local minute containing `now` began, for a
/// zone `offset` seconds ahead of UTC: the local clock's seconds set to
/// zero.
pub open spec fn local_minute(now: int, offset: int) -> int {
    minute_of(now + offset) - offset
}

fn truncate_to_minute(t: i64) -> (r: i64)
    requires
        t >= i64::MIN + 60,
    ensures
        r == minute_of(t as int),
{
    if t >= 0 {
        t - t % 60
    } else {
        let p = -(t + 1);
        proof {
            assert(t % 60 == 59 - p % 60);
        }
        t - (59 - p % 60)
    }
}

/// Mathematical value of a [`CronRestart`].
pub struct CronSpec {
    pub expression: Seq<char>,
    /// A schedule was parsed from the expression.
    pub scheduled: bool,
    pub next: Option<i64>,
    pub last_fired_minute: Option<i64>,
}

/// `true` when the (trimmed) expression is non-empty and the crate accepts
/// its normalized form.
pub open spec fn schedulable(expression: Seq<char>) -> bool {
    expression.len() > 0 && cron_accepts(normalize_cron_spec(expression))
}

pub struct CronRestart {
    expression: String,
    /// The normalized expression, when the crate accepts it.
    schedule: Option<String>,
    next: Option<i64>,
    /// Minute of the last firing: at most one firing per minute.
    last_fired_minute: Option<i64>,
}

impl View for CronRestart {
    type V = CronSpec;

    closed spec fn view(&self) -> CronSpec {
        CronSpec {
            expression: self.expression@,
            scheduled: self.schedule is Some,
            next: self.next,
            last_fired_minute: self.last_fired_minute,
        }
    }
}

pub open spec fn opt_str_or_empty(o: Option<&str>) -> Seq<char> {
    match o {
        Some(s) => s@,
        None => Seq::empty(),
    }
}

impl CronRestart {
    #[verifier::type_invariant]
    spec fn inv(&self) -> bool {
        &&& (self.schedule is Some) == schedulable(self.expression@)
        &&& self.schedule matches Some(n) ==> n@ == normalize_cron_spec(self.expression@)
        &&& self.schedule is None ==> self.next is None
    }

    /// No schedule.
    pub fn new() -> (r: Self)
        ensures
            r@ == (CronSpec {
                expression: Seq::empty(),
                scheduled: false,
                next: None,
                last_fired_minute: None,
            }),
    {
        CronRestart { expression: String::new(), schedule: None, next: None, last_fired_minute: None }
    }

    pub fn expression(&self) -> (r: &str)
        ensures
            r@ == self@.expression,
    {
        self.expression.as_str()
    }

    /// Applies a new expression on the fly. `true` when the (trimmed)
    /// expression changed; the next run is then computed from now, and is
    /// `None` when nothing can be scheduled.
    pub fn update(&mut self, expression: Option<&str>) -> (r: bool)
        ensures
            r == (trim_seq(opt_str_or_empty(expression)) != old(self)@.expression),
            !r ==> final(self)@ == old(self)@,
            r ==> final(self)@.expression == trim_seq(opt_str_or_empty(expression))
                && final(self)@.scheduled == schedulable(final(self)@.expression)
                && (!final(self)@.scheduled ==> final(self)@.next is None)
                && (final(self)@.scheduled ==> exists|now: i64|
                0 <= now <= LAST_TIME && #[trigger] is_next_run(
                    normalize_cron_spec(final(self)@.expression),
                    now,
                    final(self)@.next,
                )) && final(self)@.last_fired_minute == old(self)@.last_fired_minute,
    {
        proof {
            use_type_invariant(&*self);
        }
        proof {
            reveal_strlit("");
            assert(""@ =~= Seq::<char>::empty());
        }
        let raw = match expression {
            Some(e) => trim(e),
            None => trim(""),
        };
        if str_eq(raw.as_str(), self.expression.as_str()) {
            return false;
        }
        let schedule = if raw.as_str().unicode_len() == 0 {
            None
        } else {
            let normalized = normalize(raw.as_str());
            if accepts_cron(normalized.as_str()) {
                Some(normalized)
            } else {
                None
            }
        };
        let mut next: Option<i64> = None;
        let ghost mut at: i64 = 0;
        match (&schedule, current_time()) {
            (Some(e), Some(now)) => {
                next = next_after(e.as_str(), now);
                proof {
                    at = now;
                }
                assert(0 <= now <= LAST_TIME && is_next_run(normalize_cron_spec(raw@), now, next));
            },
            _ => {
                proof {
                    lemma_no_run_is_a_next_run(normalize_cron_spec(raw@), 0);
                    assert(0 <= 0i64 <= LAST_TIME && is_next_run(normalize_cron_spec(raw@), 0i64, next));
                }
            },
        }
        self.set_expression(raw, schedule, next);
        assert(self@.scheduled ==> 0 <= at <= LAST_TIME && is_next_run(
            normalize_cron_spec(self@.expression),
            at,
            self@.next,
        ));
        true
    }

    /// Puts in place a new expression, the schedule parsed from it (`None`
    /// when it cannot be read) and the next run computed for it; the minute
    /// of the last firing is kept.
    fn set_expression(&mut self, expression: String, schedule: Option<String>, next: Option<i64>)
        requires
            (schedule is Some) == schedulable(expression@),
            schedule matches Some(n) ==> n@ == normalize_cron_spec(expression@),
            schedule is None ==> next is None,
        ensures
            final(self)@ == (CronSpec {
                expression: expression@,
                scheduled: schedule is Some,
                next,
                last_fired_minute: old(self)@.last_fired_minute,
            }),
    {
        *self = CronRestart {
            expression,
            schedule,
            next,
            last_fired_minute: self.last_fired_minute,
        };
    }

    /// An expression was given but cannot be read.
    pub fn is_invalid(&self) -> (r: bool)
        ensures
            r == (self@.expression.len() > 0 && !self@.scheduled),
    {
        self.expression.as_str().unicode_len() > 0 && self.schedule.is_none()
    }

    pub fn next_run(&self) -> (r: Option<i64>)
        ensures
            r == self@.next,
    {
        self.next
    }

    /// Called regularly at time `now`, where the local zone is `offset`
    /// seconds ahead of UTC: `true` = restart Firefox now. Fires once the
    /// next run is reached, at most once per local minute; the next run is
    /// then computed again from `now`.
    pub fn due_at(&mut self, now: i64, offset: i32) -> (r: bool)
        requires
            i64::MIN + 100000 <= now <= i64::MAX - 100000,
            -86400 < offset < 86400,
        ensures
            r == (old(self)@.next matches Some(n) && now >= n && old(self)@.last_fired_minute
                != Some(local_minute(now as int, offset as int) as i64)),
            final(self)@.expression == old(self)@.expression,
            final(self)@.scheduled == old(self)@.scheduled,
            final(self)@.last_fired_minute == if r {
                Some(local_minute(now as int, offset as int) as i64)
            } else {
                old(self)@.last_fired_minute
            },
            (old(self)@.next matches Some(n) && now >= n) || final(self)@.next
                == old(self)@.next,
            (old(self)@.next matches Some(n) && now >= n) ==> (final(self)@.next matches Some(t)
                ==> t > now),
            (old(self)@.next matches Some(n) && now >= n) && final(self)@.scheduled && 0 <= now
                <= LAST_TIME ==> is_next_run(
                normalize_cron_spec(final(self)@.expression),
                now,
                final(self)@.next,
            ),
            !final(self)@.scheduled ==> final(self)@.next is None,
    {
        proof {
            use_type_invariant(&*self);
        }
        let next = match self.next {
            Some(n) => n,
            None => {
                return false;
            },
        };
        if now < next {
            return false;
        }
        let minute = truncate_to_minute(now + offset as i64) - offset as i64;
        let already = match self.last_fired_minute {
            Some(m) => m == minute,
            None => false,
        };
        let next = match &self.schedule {
            Some(e) => {
                if 0 <= now && now <= LAST_TIME {
                    next_after(e.as_str(), now)
                } else {
                    None
                }
            },
            None => None,
        };
        self.next = next;
        if already {
            return false;
        }
        self.last_fired_minute = Some(minute);
        true
    }

    /// [`CronRestart::due_at`] at the current time: the step is that of
    /// `due_at` at some time `now` read from the clock, with the local
    /// zone's offset at that time (neither is known). A clock reading out of
    /// range (before 1970 or after year 9999) never fires and changes
    /// nothing.
    pub fn due(&mut self) -> (r: bool)
        ensures
            final(self)@.expression == old(self)@.expression,
            final(self)@.scheduled == old(self)@.scheduled,
            old(self)@.next is None ==> !r && final(self)@ == old(self)@,
            (exists|now: i64, offset: i32| #[trigger] fired_at(old(self)@, now, offset, r, final(self)@))
                || (!r && final(self)@ == old(self)@),
    {
        let ghost before = self@;
        let now = match current_time() {
            Some(t) => t,
            None => {
                return false;
            },
        };
        let offset = match local_offset(now) {
            Some(o) => o,
            None => {
                return false;
            },
        };
        let r = self.due_at(now, offset);
        assert(fired_at(before, now, offset, r, self@));
        r
    }
}

/// One step of [`CronRestart::due_at`] at time `now`, the local zone being
/// `offset` seconds ahead of UTC: from `before` to `after`, answering `r`.
/// It fires once the next run is reached, at most once per local minute;
/// the next run may then change.
pub open spec fn fired_at(before: CronSpec, now: i64, offset: i32, r: bool, after: CronSpec) -> bool {
    &&& i64::MIN + 100000 <= now <= i64::MAX - 100000
    &&& -86400 < offset < 86400
    &&& r == (before.next matches Some(n) && now >= n && before.last_fired_minute != Some(
        local_minute(now as int, offset as int) as i64,
    ))
    &&& after.expression == before.expression
    &&& after.scheduled == before.scheduled
    &&& after.last_fired_minute == if r {
        Some(local_minute(now as int, offset as int) as i64)
    } else {
        before.last_fired_minute
    }
    &&& ((before.next matches Some(n) && now >= n) || after.next == before.next)
    &&& ((before.next matches Some(n) && now >= n) ==> (after.next matches Some(t) ==> t > now))
    &&& ((before.next matches Some(n) && now >= n) && after.scheduled && 0 <= now <= LAST_TIME
        ==> is_next_run(normalize_cron_spec(after.expression), now, after.next))
    &&& (!after.scheduled ==> after.next is None)
}

impl Default for CronRestart {
    fn default() -> (r: Self)
        ensures
            r@ == (CronSpec {
                expression: Seq::empty(),
                scheduled: false,
                next: None,
                last_fired_minute: None,
            }),
    {
        CronRestart::new()
    }
}

/// At most one firing per local minute: right after firing at `now`, no
/// later instant of the same local minute fires again, whatever the next
/// run.
pub proof fn law_one_firing_per_minute(s: CronSpec, now: i64, later: i64, offset: i32)
    requires
        s.last_fired_minute == Some(local_minute(now as int, offset as int) as i64),
        local_minute(later as int, offset as int) == local_minute(now as int, offset as int),
    ensures
        !(s.next matches Some(n) && later >= n && s.last_fired_minute != Some(
            local_minute(later as int, offset as int) as i64,
        )),
{
}

} // verus!
