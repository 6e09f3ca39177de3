//! The scheduling side of the daemon: parsing the cron expression, asking
//! it for the occurrence following a given instant, and turning that into
//! a clamped sleep. The cron calendar arithmetic itself comes from the
//! `cron` crate behind trusted wrappers; everything around those calls —
//! field-count normalization, the wait computation, the fatal-error
//! decisions — is verified. Instants are milliseconds since the Unix epoch.

use vstd::prelude::*;
use vstd::string::StrSliceExecFns;
use vstd::string::StringExecFns;
use chrono::TimeZone;

verus! {

/// `cron::Schedule` is the parsed cron expression; the library carries it
/// opaquely between parsing and the next-occurrence queries.
#[verifier::external_type_specification]
#[verifier::external_body]
pub struct ExSchedule(cron::Schedule);

/// `cron::error::Error` is what the `cron` parser reports for a malformed
/// expression; the library maps it to `FatalError::InvalidCron`.
#[verifier::external_type_specification]
#[verifier::external_body]
pub struct ExCronError(cron::error::Error);

/// Whether the `cron` parser accepts an expression: acceptance is a
/// function of the expression text alone.
pub uninterp spec fn cron_accepts(s: Seq<char>) -> bool;

/// Relies on `cron::Schedule::from_str`: accepts a seconds-first cron
/// expression (six or seven fields, or an `@`-shorthand), reporting a
/// parse error for anything else; whether an expression is accepted
/// depends on its text alone.
#[verifier::external_body]
fn parse_cron(expr: &str) -> (r: Result<cron::Schedule, cron::error::Error>)
    ensures
        r is Ok <==> cron_accepts(expr@),
{
    <cron::Schedule as core::str::FromStr>::from_str(expr)
}

/// Largest instant the calendar arithmetic is asked about: far beyond any
/// real clock reading, yet comfortably inside `chrono`'s representable
/// range, so that the search's one-second step cannot overflow.
pub const MAX_CRON_INSTANT_MS: i64 = 8_000_000_000_000_000;

/// Relies on `cron::Schedule::after` and its iterator: the search starts
/// one second past the given instant in naive local field space, so a
/// yielded occurrence is strictly later in naive local time — but around a
/// time-zone fold the corresponding absolute instant can still lie at or
/// before the given one, so nothing is promised of the returned value; the
/// callers clamp. Relies on `chrono`'s millisecond timestamp conversions,
/// which are exact at this granularity; the bound on `now_ms` keeps the
/// one-second step inside `chrono`'s range, past whose end it would panic.
#[verifier::external_body]
fn schedule_next_after_ms(schedule: &cron::Schedule, now_ms: i64) -> (r: Option<i64>)
    requires
        now_ms <= MAX_CRON_INSTANT_MS,
{
    let now = match chrono::Local.timestamp_millis_opt(now_ms) {
        chrono::LocalResult::Single(dt) => dt,
        _ => {
            return None;
        },
    };
    schedule.after(&now).next().map(|dt| dt.timestamp_millis())
}

/// A fatal configuration error: the daemon aborts on it rather than
/// retrying, per the error-handling policy.
#[derive(Clone, Copy, Debug, PartialEq, Eq, Structural)]
pub enum FatalError {
    InvalidCron,
    NoFutureOccurrence,
}

/// A field separator in a cron expression.
pub open spec fn spec_is_space(c: char) -> bool {
    c == ' ' || c == '\t'
}

/// The number of whitespace-separated fields in `s` from position `i` on,
/// given whether position `i` continues a field begun earlier.
pub open spec fn spec_fields_from(s: Seq<char>, i: int, in_field: bool) -> nat
    decreases s.len() - i
        when 0 <= i <= s.len()
{
    if i >= s.len() {
        0
    } else if spec_is_space(s[i]) {
        spec_fields_from(s, i + 1, false)
    } else if in_field {
        spec_fields_from(s, i + 1, true)
    } else {
        1 + spec_fields_from(s, i + 1, true)
    }
}

/// The number of whitespace-separated fields in a cron expression.
pub open spec fn spec_field_count(s: Seq<char>) -> nat {
    spec_fields_from(s, 0, false)
}

/// Counts the whitespace-separated fields of a cron expression.
pub fn count_fields(expr: &str) -> (n: usize)
    ensures
        n == spec_field_count(expr@),
{
    let len = expr.unicode_len();
    let mut i: usize = 0;
    let mut n: usize = 0;
    let mut in_field: bool = false;
    while i < len
        invariant
            i <= len,
            len == expr@.len(),
            n <= i,
            n + spec_fields_from(expr@, i as int, in_field) == spec_field_count(expr@),
        decreases len - i,
    {
        let c = expr.get_char(i);
        if c == ' ' || c == '\t' {
            in_field = false;
        } else {
            if !in_field {
                n = n + 1;
            }
            in_field = true;
        }
        i = i + 1;
    }
    n
}

/// A cron expression as handed to the parser: a five-field expression
/// (minute, hour, day of month, month, day of week) gets a seconds field of
/// zero prepended, since the parser wants seconds first; any other shape
/// passes through unchanged.
pub open spec fn spec_normalized_cron(s: Seq<char>) -> Seq<char> {
    if spec_field_count(s) == 5 {
        "0 "@ + s
    } else {
        s
    }
}

/// Normalizes a cron expression for the parser.
pub fn normalize_cron(expr: &str) -> (r: String)
    ensures
        r@ == spec_normalized_cron(expr@),
{
    let n = count_fields(expr);
    if n == 5 {
        let s = "0 ".to_owned();
        s.concat(expr)
    } else {
        expr.to_owned()
    }
}

/// Parses a schedule. Five-field expressions are taken at minute
/// granularity; six- and seven-field ones name seconds (and years)
/// themselves. The parse succeeds exactly when the parser accepts the
/// normalized expression; a rejected one is the fatal `InvalidCron` error.
pub fn parse_schedule(expr: &str) -> (r: Result<cron::Schedule, FatalError>)
    ensures
        r is Ok <==> cron_accepts(spec_normalized_cron(expr@)),
        r matches Err(e) ==> e == FatalError::InvalidCron,
{
    let normalized = normalize_cron(expr);
    match parse_cron(normalized.as_str()) {
        Ok(s) => Ok(s),
        Err(_) => Err(FatalError::InvalidCron),
    }
}

/// The schedule the daemon runs on: the parsed cron expression, and
/// whether one extra cycle runs immediately at process start.
pub struct ScheduleSpec {
    pub schedule: cron::Schedule,
    pub run_immediately: bool,
}

impl ScheduleSpec {
    /// Parses the configured cron expression once, at startup: it succeeds
    /// exactly when the parser accepts the normalized expression. A
    /// rejected expression is the fatal `InvalidCron` error, never a
    /// runtime retry condition.
    pub fn new(expr: &str, run_immediately: bool) -> (r: Result<ScheduleSpec, FatalError>)
        ensures
            r is Ok <==> cron_accepts(spec_normalized_cron(expr@)),
            r matches Ok(s) ==> s.run_immediately == run_immediately,
            r matches Err(e) ==> e == FatalError::InvalidCron,
    {
        match parse_schedule(expr) {
            Ok(schedule) => Ok(ScheduleSpec { schedule, run_immediately }),
            Err(e) => Err(e),
        }
    }
}

/// The milliseconds to sleep from `now` until `next`: their difference,
/// floored at zero should the trigger already lie in the past (a clock
/// adjustment must never produce a negative sleep or an arithmetic fault).
pub open spec fn spec_wait_ms(now: int, next: int) -> int {
    if next >= now {
        next - now
    } else {
        0
    }
}

/// Clamped sleep computation.
pub fn wait_millis(now_ms: i64, next_ms: i64) -> (r: u64)
    ensures
        r == spec_wait_ms(now_ms as int, next_ms as int),
{
    if next_ms >= now_ms {
        let diff: i128 = next_ms as i128 - now_ms as i128;
        diff as u64
    } else {
        0
    }
}

/// The scheduler's decision for one loop iteration: the next trigger
/// instant and the sleep until it.
pub struct WaitPlan {
    pub trigger_ms: i64,
    pub wait_ms: u64,
}

/// Computes the schedule's next occurrence and the sleep leading up to it:
/// the wait is always the clamped difference between the trigger and
/// `now_ms`, so a time-zone fold or clock step that puts the occurrence at
/// or before `now_ms` gives a zero sleep, never a negative one or an
/// arithmetic fault. A schedule yielding no future instant — or a `now_ms`
/// past the last instant the calendar arithmetic can represent — is the
/// fatal `NoFutureOccurrence` error: the loop must stop with it rather
/// than run again at once or sleep indefinitely.
pub fn plan_next(schedule: &cron::Schedule, now_ms: i64) -> (r: Result<WaitPlan, FatalError>)
    ensures
        r matches Ok(p) ==> p.wait_ms == spec_wait_ms(now_ms as int, p.trigger_ms as int),
        r matches Err(e) ==> e == FatalError::NoFutureOccurrence,
{
    if now_ms > MAX_CRON_INSTANT_MS {
        return Err(FatalError::NoFutureOccurrence);
    }
    match schedule_next_after_ms(schedule, now_ms) {
        Some(t) => Ok(WaitPlan { trigger_ms: t, wait_ms: wait_millis(now_ms, t) }),
        None => Err(FatalError::NoFutureOccurrence),
    }
}

} // verus!
