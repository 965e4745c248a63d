//! Points in time and spans of time.
use crate::text::decimal;
use vstd::prelude::*;

verus! {

/// The nanoseconds in a second.
pub const NANOS_PER_SECOND: i64 = 1_000_000_000;

/// The first second that a point in time can lie in, counted from the Unix
/// epoch: the start of the year 262144 BCE.
pub const FIRST_SECOND: i64 = -8_334_601_228_800;

/// The last second that a point in time can lie in, counted from the Unix
/// epoch: the end of the year 262142.
pub const LAST_SECOND: i64 = 8_210_266_876_799;

/// The longest span, in whole seconds, that a calendar calculation takes.
pub const LONGEST_SPAN: i64 = 9_223_372_036_854_775;

/// Whether a whole second and a part of it name a point in time.
pub open spec fn valid_parts(secs: int, nanos: int) -> bool {
    &&& FIRST_SECOND <= secs <= LAST_SECOND
    &&& 0 <= nanos < NANOS_PER_SECOND
}

/// Whether a count of nanoseconds from the Unix epoch names a point in time.
pub open spec fn in_calendar(t: int) -> bool {
    FIRST_SECOND * NANOS_PER_SECOND <= t < (LAST_SECOND + 1) * NANOS_PER_SECOND
}

/// A span of whole seconds, in nanoseconds.
pub open spec fn seconds(n: int) -> int {
    n * NANOS_PER_SECOND
}

/// A point in time, in UTC. Its view is the count of nanoseconds from the Unix
/// epoch.
#[derive(Clone, Copy, Debug)]
pub struct Timestamp {
    secs: i64,
    nanos: u32,
}

impl View for Timestamp {
    type V = int;

    closed spec fn view(&self) -> int {
        self.secs * NANOS_PER_SECOND + self.nanos
    }
}

impl Timestamp {
    #[verifier::type_invariant]
    spec fn valid(self) -> bool {
        valid_parts(self.secs as int, self.nanos as int)
    }

    /// The point in time that lies `nanos` nanoseconds behind the whole second
    /// `secs`, counted from the Unix epoch.
    pub fn from_parts(secs: i64, nanos: u32) -> (r: Option<Timestamp>)
        ensures
            r is Some <==> valid_parts(secs as int, nanos as int),
            r matches Some(t) ==> t@ == secs * NANOS_PER_SECOND + nanos && in_calendar(t@),
    {
        if secs < FIRST_SECOND || secs > LAST_SECOND || nanos >= 1_000_000_000 {
            None
        } else {
            Some(Timestamp { secs, nanos })
        }
    }

    /// The start of a second of the years 1970 to 2106.
    pub fn from_unix(secs: u32) -> (t: Timestamp)
        ensures
            t@ == seconds(secs as int),
    {
        Timestamp { secs: secs as i64, nanos: 0 }
    }

    /// The whole second that the point in time lies in, counted from the Unix
    /// epoch.
    pub fn secs(&self) -> (r: i64)
        ensures
            r == self@ / (NANOS_PER_SECOND as int),
    {
        proof {
            use_type_invariant(self);
        }
        self.secs
    }

    /// The nanoseconds behind that second.
    pub fn nanos(&self) -> (r: u32)
        ensures
            r == self@ % (NANOS_PER_SECOND as int),
    {
        proof {
            use_type_invariant(self);
        }
        self.nanos
    }

    /// Whether the point in time lies before the other.
    pub fn is_before(&self, other: &Timestamp) -> (r: bool)
        ensures
            r == (self@ < other@),
    {
        proof {
            use_type_invariant(self);
            use_type_invariant(other);
        }
        self.secs < other.secs || (self.secs == other.secs && self.nanos < other.nanos)
    }

    /// Whether the point in time a number of seconds later lies in the calendar.
    pub fn can_plus_seconds(&self, span: i64) -> (r: bool)
        ensures
            r == in_calendar(self@ + seconds(span as int)),
    {
        proof {
            use_type_invariant(self);
        }
        let secs: i128 = self.secs as i128 + span as i128;
        FIRST_SECOND as i128 <= secs && secs <= LAST_SECOND as i128
    }

    /// The point in time a number of seconds later.
    pub fn plus_seconds(&self, span: i64) -> (r: Timestamp)
        requires
            -LONGEST_SPAN <= span <= LONGEST_SPAN,
            in_calendar(self@ + seconds(span as int)),
        ensures
            r@ == self@ + seconds(span as int),
    {
        proof {
            use_type_invariant(self);
        }
        let (secs, nanos) = datetime_plus(self.secs, self.nanos, span);
        Timestamp { secs, nanos }
    }

    /// Whether more than `span` seconds have passed since an earlier point in
    /// time.
    pub fn is_later_by_more_than(&self, since: &Timestamp, span: i64) -> (r: bool)
        ensures
            r == (self@ - since@ > seconds(span as int)),
    {
        proof {
            use_type_invariant(self);
            use_type_invariant(since);
        }
        let (secs, nanos) = datetime_difference(self.secs, self.nanos, since.secs, since.nanos);
        let elapsed: i128 = secs as i128 * 1_000_000_000 + nanos as i128;
        elapsed > span as i128 * 1_000_000_000
    }

    /// Whether less than `span` seconds have passed since an earlier point in
    /// time.
    pub fn is_later_by_less_than(&self, since: &Timestamp, span: i64) -> (r: bool)
        ensures
            r == (self@ - since@ < seconds(span as int)),
    {
        proof {
            use_type_invariant(self);
            use_type_invariant(since);
        }
        let (secs, nanos) = datetime_difference(self.secs, self.nanos, since.secs, since.nanos);
        let elapsed: i128 = secs as i128 * 1_000_000_000 + nanos as i128;
        elapsed < span as i128 * 1_000_000_000
    }

    /// The point in time in the notation of RFC 3339.
    pub fn to_rfc3339(&self) -> (text: String)
        ensures
            text@ == rfc3339(
                self@ / (NANOS_PER_SECOND as int),
                self@ % (NANOS_PER_SECOND as int),
            ),
    {
        proof {
            use_type_invariant(self);
        }
        datetime_text(self.secs, self.nanos)
    }

    /// The current time.
    pub fn now() -> (t: Timestamp)
        ensures
            in_calendar(t@),
            t@ >= 0,
    {
        let (secs, nanos) = utc_now();
        Timestamp { secs, nanos }
    }
}

/// Calls the `+` of `chrono::NaiveDateTime` and `chrono::TimeDelta`, on the
/// point in time and the span that are given in seconds and nanoseconds. The sum
/// lies exactly that span later. The addition panics where the sum lies outside
/// the calendar, and the span's constructor where it is longer than
/// `LONGEST_SPAN`; neither is admitted.
#[verifier::external_body]
fn datetime_plus(secs: i64, nanos: u32, span: i64) -> (r: (i64, u32))
    requires
        valid_parts(secs as int, nanos as int),
        -LONGEST_SPAN <= span <= LONGEST_SPAN,
        FIRST_SECOND <= secs + span <= LAST_SECOND,
    ensures
        r.0 == secs + span,
        r.1 == nanos,
{
    let start = chrono::DateTime::from_timestamp(secs, nanos).unwrap().naive_utc();
    let sum = (start + chrono::TimeDelta::seconds(span)).and_utc();
    (sum.timestamp(), sum.timestamp_subsec_nanos())
}

/// Calls the `-` of two `chrono::DateTime<Utc>`, given in seconds and
/// nanoseconds. The whole seconds and the nanoseconds of the difference, which
/// have one sign, add up to exactly the span between the two.
#[verifier::external_body]
fn datetime_difference(secs: i64, nanos: u32, since_secs: i64, since_nanos: u32) -> (r: (i64, i32))
    requires
        valid_parts(secs as int, nanos as int),
        valid_parts(since_secs as int, since_nanos as int),
    ensures
        r.0 * NANOS_PER_SECOND + r.1 == (secs - since_secs) * NANOS_PER_SECOND + nanos
            - since_nanos,
        -NANOS_PER_SECOND < r.1 < NANOS_PER_SECOND,
{
    let end = chrono::DateTime::from_timestamp(secs, nanos).unwrap();
    let start = chrono::DateTime::from_timestamp(since_secs, since_nanos).unwrap();
    let span = end - start;
    (span.num_seconds(), span.subsec_nanos())
}

/// Calls `chrono::Utc::now`. The clock gives some point in time from the Unix
/// epoch on; nothing more is claimed of it. On a machine whose clock stands
/// before the Unix epoch the call panics.
#[verifier::external_body]
fn utc_now() -> (r: (i64, u32))
    ensures
        valid_parts(r.0 as int, r.1 as int),
        r.0 >= 0,
{
    let now = chrono::Utc::now();
    (now.timestamp(), now.timestamp_subsec_nanos())
}

/// The point in time that lies `nanos` nanoseconds behind the second `secs`, in the
/// notation of RFC 3339.
pub uninterp spec fn rfc3339(secs: int, nanos: int) -> Seq<char>;

/// Calls `to_rfc3339` of `chrono::DateTime<Utc>`, whose result is named `rfc3339`.
#[verifier::external_body]
fn datetime_text(secs: i64, nanos: u32) -> (text: String)
    requires
        valid_parts(secs as int, nanos as int),
    ensures
        text@ == rfc3339(secs as int, nanos as int),
{
    chrono::DateTime::from_timestamp(secs, nanos).unwrap().to_rfc3339()
}

/// A span of whole seconds in the notation of ISO 8601.
pub open spec fn span_notation(secs: int) -> Seq<char> {
    if secs == 0 {
        seq!['P', '0', 'D']
    } else if secs < 0 {
        seq!['-', 'P', 'T'] + decimal((-secs) as nat) + seq!['S']
    } else {
        seq!['P', 'T'] + decimal(secs as nat) + seq!['S']
    }
}

/// Calls the `Display` of `chrono::TimeDelta` on a span of whole seconds: the
/// text is the span in the notation of ISO 8601, in seconds. The span's
/// constructor panics on a span that is longer than `LONGEST_SPAN`, which is not
/// admitted.
#[verifier::external_body]
fn timedelta_text(secs: i64) -> (text: String)
    requires
        -LONGEST_SPAN <= secs <= LONGEST_SPAN,
    ensures
        text@ == span_notation(secs as int),
{
    chrono::TimeDelta::seconds(secs).to_string()
}

/// A span of whole seconds in the notation of ISO 8601.
pub fn span_text(secs: i64) -> (text: String)
    requires
        -LONGEST_SPAN <= secs <= LONGEST_SPAN,
    ensures
        text@ == span_notation(secs as int),
{
    timedelta_text(secs)
}

/// A span of seconds is a thousand million nanoseconds each, and is written as that
/// many seconds, a minus sign before one that goes back.
pub proof fn law_spans_are_in_seconds(secs: int)
    ensures
        seconds(secs) == secs * 1_000_000_000,
        secs > 0 ==> span_notation(secs) == seq!['P', 'T'] + decimal(secs as nat) + seq!['S'],
        secs < 0 ==> span_notation(secs) == seq!['-'] + span_notation(-secs),
        span_notation(0) == seq!['P', '0', 'D'],
{
    if secs < 0 {
        assert(span_notation(secs) =~= seq!['-'] + span_notation(-secs));
    }
}

} // verus!
