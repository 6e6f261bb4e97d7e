//! Cron schedules: normalising expressions, discovering them in job
//! configuration, and finding the most recent firing before an instant.
use crate::error::MonitorError;

use crate::text::{
    chars_of, count_fields, field_count, find_from, find_from_chars, occurs_at, push_all, push_char,
    slice_chars, string_of, trim, trim_chars,
};
use vstd::prelude::*;

verus! {

/// Earliest instant handled, in seconds since the Unix epoch (0001-01-01T00:00:00Z).
pub const MIN_INSTANT: i64 = -62135596800;

/// Latest instant handled, in seconds since the Unix epoch (9999-12-31T23:59:59Z).
pub const MAX_INSTANT: i64 = 253402300799;

/// An instant, in whole seconds since the Unix epoch, that the library handles.
pub open spec fn valid_instant(t: int) -> bool {
    MIN_INSTANT <= t <= MAX_INSTANT
}

#[verifier::external_type_specification]
#[verifier::external_body]
pub struct ExCronSchedule(cron::Schedule);

#[verifier::external_type_specification]
#[verifier::external_body]
pub struct ExCronError(cron::error::Error);

/// Whether cron accepts `expr` as a schedule.
pub uninterp spec fn cron_accepts(expr: Seq<char>) -> bool;

/// The first firing of schedule `expr` strictly after instant `t`, in UTC.
pub uninterp spec fn cron_next_after(expr: Seq<char>, t: int) -> Option<int>;

/// Relies on `cron::Schedule::from_str`: whether it succeeds depends on the
/// expression's text alone.
#[verifier::external_body]
fn parse_cron(expr: &str) -> (r: Result<cron::Schedule, cron::error::Error>)
    ensures
        r is Ok <==> cron_accepts(expr@),
{
    <cron::Schedule as std::str::FromStr>::from_str(expr)
}

/// A cron schedule together with the expression it was parsed from.
pub struct CronSchedule {
    expression: String,
    schedule: cron::Schedule,
}

/// Relies on `cron::Schedule::after` with chrono's `DateTime::from_timestamp`:
/// the first item is the earliest firing in UTC at or after `t + 1` second.
#[verifier::external_body]
fn next_firing_after(s: &CronSchedule, t: i64) -> (r: Option<i64>)
    requires
        valid_instant(t as int),
    ensures
        r matches Some(f) ==> cron_next_after(s.expression@, t as int) == Some(f as int) && f > t,
        r is None ==> cron_next_after(s.expression@, t as int) is None,
{
    match chrono::DateTime::from_timestamp(t, 0) {
        Some(start) => match s.schedule.after(&start).next() {
            Some(f) => Some(f.timestamp()),
            None => None,
        },
        None => None,
    }
}

impl CronSchedule {
    /// The expression this schedule was parsed from.
    pub closed spec fn spec_expression(&self) -> Seq<char> {
        self.expression@
    }

    /// Parses a cron expression; fails with `InvalidSchedule` exactly when
    /// cron rejects it.
    pub fn parse(expr: &str) -> (r: Result<CronSchedule, MonitorError>)
        ensures
            r is Ok <==> cron_accepts(expr@),
            r matches Ok(s) ==> s.spec_expression() == expr@,
            r matches Err(e) ==> e == MonitorError::InvalidSchedule,
    {
        match parse_cron(expr) {
            Ok(schedule) => Ok(CronSchedule { expression: expr.to_owned(), schedule }),
            Err(_) => Err(MonitorError::InvalidSchedule),
        }
    }

    /// The expression this schedule was parsed from.
    pub fn expression(&self) -> (r: &str)
        ensures
            r@ == self.spec_expression(),
    {
        self.expression.as_str()
    }

    /// The first firing strictly after `t`.
    pub fn next_after(&self, t: i64) -> (r: Option<i64>)
        requires
            valid_instant(t as int),
        ensures
            r matches Some(f) ==> cron_next_after(self.spec_expression(), t as int) == Some(
                f as int,
            ) && f > t,
            r is None ==> cron_next_after(self.spec_expression(), t as int) is None,
    {
        next_firing_after(self, t)
    }
}

/// The latest firing of `expr` in the window `(after, now]`, following the
/// chain of next firings from `after`.
pub open spec fn latest_firing(expr: Seq<char>, after: int, now: int) -> Option<int>
    decreases now - after,
{
    if after >= now {
        None
    } else {
        match cron_next_after(expr, after) {
            None => None,
            Some(f) => if f <= after || f > now {
                None
            } else {
                match latest_firing(expr, f, now) {
                    Some(g) => Some(g),
                    None => Some(f),
                }
            },
        }
    }
}

/// The instant just before a lookback window of `lookback` seconds ending at
/// `now`, kept within the supported range.
pub open spec fn window_start(now: int, lookback: int) -> int {
    if now - lookback - 1 < MIN_INSTANT {
        MIN_INSTANT as int
    } else {
        now - lookback - 1
    }
}

/// The latest firing of `schedule` in `[now - lookback, now]`, if any.
pub fn most_recent_firing(schedule: &CronSchedule, now: i64, lookback: i64) -> (r: Option<i64>)
    requires
        valid_instant(now as int),
        lookback >= 0,
    ensures
        r matches Some(f) ==> latest_firing(
            schedule.spec_expression(),
            window_start(now as int, lookback as int),
            now as int,
        ) == Some(f as int),
        r is None ==> latest_firing(
            schedule.spec_expression(),
            window_start(now as int, lookback as int),
            now as int,
        ) is None,
{
    let ghost expr = schedule.spec_expression();
    let start: i64 = if lookback >= now - MIN_INSTANT {
        MIN_INSTANT
    } else {
        now - lookback - 1
    };
    assert(start == window_start(now as int, lookback as int));
    let mut t: i64 = start;
    let mut best: Option<i64> = None;
    while t < now
        invariant
            MIN_INSTANT <= start <= t,
            valid_instant(now as int),
            start < now ==> t <= now,
            expr == schedule.spec_expression(),
            best is Some ==> t > start,
            latest_firing(expr, start as int, now as int) == (match latest_firing(
                expr,
                t as int,
                now as int,
            ) {
                Some(g) => Some(g),
                None => match best {
                    Some(b) => Some(b as int),
                    None => None,
                },
            }),
        ensures
            latest_firing(expr, t as int, now as int) is None,
            latest_firing(expr, start as int, now as int) == (match best {
                Some(b) => Some(b as int),
                None => None,
            }),
        decreases now - t,
    {
        match schedule.next_after(t) {
            None => {
                break ;
            },
            Some(f) => {
                if f > now {
                    break ;
                }
                best = Some(f);
                t = f;
            },
        }
    }
    best
}

} // verus!

verus! {

/// The tag that opens the trigger block of a timer-triggered job.
pub open spec fn timer_trigger_tag() -> Seq<char> {
    "<hudson.triggers.TimerTrigger"@
}

pub open spec fn spec_open_tag() -> Seq<char> {
    "<spec>"@
}

pub open spec fn spec_close_tag() -> Seq<char> {
    "</spec>"@
}

/// The trimmed text of the first `<spec>...</spec>` element that opens at or
/// after position `from`.
pub open spec fn spec_element_from(body: Seq<char>, from: int) -> Option<Seq<char>> {
    match find_from(body, spec_open_tag(), from) {
        None => None,
        Some(a) => match find_from(body, spec_close_tag(), a + spec_open_tag().len()) {
            None => None,
            Some(b) => Some(trim(body.subrange(a + spec_open_tag().len(), b))),
        },
    }
}

/// The schedule that a job's `config.xml` declares: the first `<spec>` after
/// the timer trigger tag when there is one, else the first `<spec>` at all.
pub open spec fn schedule_in_config(body: Seq<char>) -> Option<Seq<char>> {
    let preferred = match find_from(body, timer_trigger_tag(), 0) {
        Some(t) => spec_element_from(body, t),
        None => None,
    };
    if preferred is Some {
        preferred
    } else {
        spec_element_from(body, 0)
    }
}

/// A cron expression with a seconds field: a five-field expression gets a
/// leading `0`; any other is only trimmed.
pub open spec fn normalized_cron(spec: Seq<char>) -> Seq<char> {
    let t = trim(spec);
    if field_count(t) == 5 {
        seq!['0', ' '] + t
    } else {
        t
    }
}

fn spec_element_from_chars(body: &Vec<char>, from: usize) -> (r: Option<Vec<char>>)
    ensures
        r matches Some(v) ==> spec_element_from(body@, from as int) == Some(v@),
        r is None ==> spec_element_from(body@, from as int) is None,
{
    let open = chars_of("<spec>");
    let close = chars_of("</spec>");
    match find_from_chars(body, &open, from) {
        None => None,
        Some(a) => {
            proof {
                lemma_find_from_bounds(body@, open@, from as int);
            }
            let n = body.len();
            assert(a + open@.len() <= n);
            match find_from_chars(body, &close, a + open.len()) {
                None => None,
                Some(b) => {
                    proof {
                        lemma_find_from_bounds(body@, close@, a + open@.len());
                    }
                    let inner = slice_chars(body, a + open.len(), b);
                    Some(trim_chars(&inner))
                },
            }
        },
    }
}

/// Where `find_from` finds `pat`, it stands there, at or after `from`.
pub proof fn lemma_find_from_bounds(s: Seq<char>, pat: Seq<char>, from: int)
    ensures
        find_from(s, pat, from) matches Some(p) ==> from <= p && p + pat.len() <= s.len(),
    decreases s.len() + 1 - from,
{
    if !(from < 0 || from + pat.len() > s.len()) && !occurs_at(s, pat, from) {
        lemma_find_from_bounds(s, pat, from + 1);
    }
}

/// The cron expression declared in a job's `config.xml`: the `<spec>` inside
/// the timer trigger block when present, else the first `<spec>` element.
pub fn extract_schedule_from_config_xml(body: &str) -> (r: Option<String>)
    ensures
        r matches Some(s) ==> schedule_in_config(body@) == Some(s@),
        r is None ==> schedule_in_config(body@) is None,
{
    let text = chars_of(body);
    let trigger = chars_of("<hudson.triggers.TimerTrigger");
    let preferred = match find_from_chars(&text, &trigger, 0) {
        Some(t) => spec_element_from_chars(&text, t),
        None => None,
    };
    match preferred {
        Some(v) => Some(string_of(&v)),
        None => match spec_element_from_chars(&text, 0) {
            Some(v) => Some(string_of(&v)),
            None => None,
        },
    }
}

/// Gives a five-field expression (no seconds field) a leading `0` seconds
/// field; leaves any other expression as it is, trimmed.
pub fn normalize_cron_spec(spec: &str) -> (r: String)
    ensures
        r@ == normalized_cron(spec@),
{
    let t = trim_chars(&chars_of(spec));
    let mut out = String::new();
    if count_fields(&t) == 5 {
        push_char(&mut out, '0');
        push_char(&mut out, ' ');
    }
    push_all(&mut out, &t);
    out
}

} // verus!
