use vstd::prelude::*;

verus! {

/// Nanoseconds in one second.
pub const NANOS_PER_SEC: u32 = 1_000_000_000;

/// An absolute point in time: whole seconds since the Unix epoch (UTC),
/// nanoseconds past that second, and the fixed offset from UTC, in seconds,
/// in which it was written.
///
/// As in chrono, a leap second is held as the second before it with
/// `nanos` of a billion or more.
#[derive(Clone, Copy, Debug, PartialEq, Eq, Structural)]
pub struct Timestamp {
    pub secs: i64,
    pub nanos: u32,
    pub offset: i32,
}

/// A length of time: whole seconds and the nanoseconds beyond them.
#[derive(Clone, Copy, Debug, PartialEq, Eq, Structural)]
pub struct Span {
    pub secs: u64,
    pub nanos: u32,
}

impl Span {
    pub open spec fn wf(self) -> bool {
        self.nanos < NANOS_PER_SEC
    }

    /// The length in nanoseconds.
    pub open spec fn total_nanos(self) -> int {
        self.secs * NANOS_PER_SEC + self.nanos
    }

    /// A span of whole seconds.
    pub fn from_secs(secs: u64) -> (r: Span)
        ensures
            r == (Span { secs, nanos: 0 }),
            r.wf(),
    {
        Span { secs, nanos: 0 }
    }
}

/// `a` lies strictly after `b`: instants are ordered by the second, then by
/// the nanoseconds within it; the offset they were written in plays no part.
pub open spec fn later(a: Timestamp, b: Timestamp) -> bool {
    a.secs > b.secs || (a.secs == b.secs && a.nanos > b.nanos)
}

/// Whether `a` lies strictly after `b`.
pub fn is_after(a: Timestamp, b: Timestamp) -> (r: bool)
    ensures
        r == later(a, b),
{
    a.secs > b.secs || (a.secs == b.secs && a.nanos > b.nanos)
}

/// The seconds count of `t + d`, before any check that it fits.
pub open spec fn sum_secs(t: Timestamp, d: Span) -> int {
    t.secs + d.secs + (t.nanos + d.nanos) / (NANOS_PER_SEC as int)
}

/// `t + d`, written in UTC, or `None` where the seconds count leaves `i64`.
pub open spec fn add_span(t: Timestamp, d: Span) -> Option<Timestamp> {
    if sum_secs(t, d) > i64::MAX {
        None
    } else {
        Some(
            Timestamp {
                secs: sum_secs(t, d) as i64,
                nanos: ((t.nanos + d.nanos) % (NANOS_PER_SEC as int)) as u32,
                offset: 0,
            },
        )
    }
}

/// The instant `d` after `t`, in UTC; `None` where it cannot be held.
pub fn deadline_after(t: Timestamp, d: Span) -> (r: Option<Timestamp>)
    ensures
        r == add_span(t, d),
{
    let n: u64 = t.nanos as u64 + d.nanos as u64;
    let carry: u64 = n / (NANOS_PER_SEC as u64);
    let rest: u64 = n % (NANOS_PER_SEC as u64);
    assert(carry <= 8) by (nonlinear_arith)
        requires
            n <= 2 * (u32::MAX as u64),
            carry == n / 1_000_000_000u64,
    ;
    let total: i128 = t.secs as i128 + d.secs as i128 + carry as i128;
    if total > i64::MAX as i128 {
        return None;
    }
    Some(Timestamp { secs: total as i64, nanos: rest as u32, offset: 0 })
}

/// What chrono reads from an RFC 3339 text: the instant, or `None` where it
/// rejects the text.
pub uninterp spec fn rfc3339_of(s: Seq<char>) -> Option<Timestamp>;

/// What parse_duration reads from a text, or `None` where it rejects it.
pub uninterp spec fn duration_of(s: Seq<char>) -> Option<Span>;

#[verifier::external_type_specification]
#[verifier::external_body]
pub struct ExChronoParseError(chrono::ParseError);

#[verifier::external_type_specification]
#[verifier::external_body]
pub struct ExDurationError(parse_duration::parse::Error);

/// Relies on chrono's `DateTime::parse_from_rfc3339`: the instant and the
/// offset written in an RFC 3339 text, a function of the text alone.
#[verifier::external_body]
pub(crate) fn rfc3339(s: &str) -> (r: Result<Timestamp, chrono::ParseError>)
    ensures
        r is Ok <==> rfc3339_of(s@) is Some,
        r is Ok ==> rfc3339_of(s@) == Some(r->Ok_0),
{
    match chrono::DateTime::parse_from_rfc3339(s) {
        Ok(t) => Ok(
            Timestamp {
                secs: t.timestamp(),
                nanos: t.timestamp_subsec_nanos(),
                offset: t.offset().local_minus_utc(),
            },
        ),
        Err(e) => Err(e),
    }
}

/// Relies on `parse_duration::parse`: the length of time a text such as
/// `10m` or `1h 30s` names, a function of the text alone. std's `Duration`
/// keeps its sub-second nanoseconds under a billion.
#[verifier::external_body]
pub(crate) fn duration(s: &str) -> (r: Result<Span, parse_duration::parse::Error>)
    ensures
        r is Ok <==> duration_of(s@) is Some,
        r is Ok ==> duration_of(s@) == Some(r->Ok_0),
        r is Ok ==> r->Ok_0.wf(),
{
    match parse_duration::parse(s) {
        Ok(d) => Ok(Span { secs: d.as_secs(), nanos: d.subsec_nanos() }),
        Err(e) => Err(e),
    }
}

/// Relies on chrono's `Utc::now`: the system clock read as whole seconds and
/// nanoseconds since the epoch (taken from std's `Duration`, so under a
/// billion), in UTC.
#[verifier::external_body]
pub(crate) fn now_utc() -> (r: Timestamp)
    ensures
        r.offset == 0,
        r.nanos < NANOS_PER_SEC,
        r.secs >= 0,
{
    let t = chrono::Utc::now();
    Timestamp { secs: t.timestamp(), nanos: t.timestamp_subsec_nanos(), offset: 0 }
}

} // verus!
