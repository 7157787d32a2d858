//! Points in time and the spans between them.
//!
//! A `Time` is a UTC date and time as two integers: whole seconds since the
//! start of 1970, and nanoseconds into that second. During a leap second the
//! nanoseconds run from one to two thousand million, and the seconds stay on
//! the last second of the minute. The calendar work (reading and writing the
//! text form, subtracting) is done by `chrono`; what the book decides from the
//! result is proved here.

use vstd::prelude::*;

verus! {

/// The first second that has a time: the start of the year -262143.
pub const MIN_SECS: i64 = -8_334_601_228_800;

/// The last second that has a time: the end of the year 262142.
pub const MAX_SECS: i64 = 8_210_266_876_799;

/// The longest span between two times, in whole seconds.
pub const SPAN_LIMIT: i64 = 16_544_868_105_601;

/// The number of bytes that the text form of a time takes in a replay log.
pub const LEN: usize = 29;

/// The text form of a time: date, time of day, and nine digits of nanoseconds.
pub const FORMAT: &'static str = "%Y-%m-%d %H:%M:%S.%f";

/// `chrono::ParseError`: why `chrono` refused a text. Nothing is known of it
/// here; it is carried to `error_text` and no further.
#[verifier::external_type_specification]
#[verifier::external_body]
pub struct ExParseError(chrono::ParseError);

/// Whether the two integers are a time: the seconds in range, and nanoseconds of
/// a thousand million or more only in the last second of a minute.
pub open spec fn valid_instant(secs: int, nanos: int) -> bool {
    &&& MIN_SECS <= secs <= MAX_SECS
    &&& 0 <= nanos < 2_000_000_000
    &&& nanos >= 1_000_000_000 ==> secs % 60 == 59
}

/// The seconds and nanoseconds that `chrono` reads from a text in the form
/// `FORMAT`, or `None` where it refuses the text.
pub uninterp spec fn parsed_instant(text: Seq<char>) -> Option<(int, int)>;

/// The text that `chrono` writes in the form `FORMAT` for a time.
pub uninterp spec fn formatted_instant(secs: int, nanos: int) -> Seq<char>;

/// A point in time, in UTC.
#[derive(Clone, Copy, Debug, PartialEq, Eq, Structural)]
pub struct Time {
    secs: i64,
    nanos: u32,
}

/// A span between two times, positive or negative.
///
/// Seconds and nanoseconds have the same sign, and their sum is the span.
#[derive(Clone, Copy, Debug, PartialEq, Eq, Structural)]
pub struct Duration {
    secs: i64,
    nanos: i32,
}

/// `chrono::TimeZone::datetime_from_str` on `chrono::Utc` with `FORMAT`: the time
/// that the text denotes, as `DateTime::timestamp` and
/// `DateTime::timestamp_subsec_nanos` give it, or `chrono`'s error. The result
/// depends on the text alone, and what is read is a time.
#[verifier::external_body]
#[allow(deprecated)]
fn read_instant(text: &str) -> (read: Result<(i64, u32), chrono::ParseError>)
    ensures
        match read {
            Ok((secs, nanos)) => parsed_instant(text@) == Some((secs as int, nanos as int))
                && valid_instant(secs as int, nanos as int),
            Err(_) => parsed_instant(text@) is None,
        },
{
    match chrono::TimeZone::datetime_from_str(&chrono::Utc, text, FORMAT) {
        Ok(time) => Ok((time.timestamp(), time.timestamp_subsec_nanos())),
        Err(error) => Err(error),
    }
}

/// The `Display` text of a `chrono::ParseError`.
#[verifier::external_body]
fn error_text(error: &chrono::ParseError) -> String {
    error.to_string()
}

/// `chrono::DateTime::format` with `FORMAT`, written out: the text form of the
/// time that `DateTime::from_timestamp` makes of the two integers. The text
/// depends on them alone.
#[verifier::external_body]
fn write_instant(secs: i64, nanos: u32) -> (text: String)
    requires
        valid_instant(secs as int, nanos as int),
    ensures
        text@ == formatted_instant(secs as int, nanos as int),
{
    let time = chrono::DateTime::from_timestamp(secs, nanos).unwrap();
    time.format(FORMAT).to_string()
}

/// `chrono::DateTime::signed_duration_since` on the times that
/// `DateTime::from_timestamp` makes of the integers, as `TimeDelta::num_seconds`
/// and `TimeDelta::subsec_nanos` give its result.
///
/// The two parts have one sign and add up to the nanoseconds from `earlier` to
/// `later`. `chrono` counts no leap second but one that an argument stands in:
/// that one is counted when the other time of day lies beyond it.
#[verifier::external_body]
fn span_between(later: (i64, u32), earlier: (i64, u32)) -> (span: (i64, i32))
    requires
        valid_instant(later.0 as int, later.1 as int),
        valid_instant(earlier.0 as int, earlier.1 as int),
    ensures
        span.0 * 1_000_000_000 + span.1 == nanos_between(
            later.0 as int,
            later.1 as int,
            earlier.0 as int,
            earlier.1 as int,
        ),
        -1_000_000_000 < span.1 < 1_000_000_000,
        span.0 > 0 ==> span.1 >= 0,
        span.0 < 0 ==> span.1 <= 0,
{
    let later = chrono::DateTime::from_timestamp(later.0, later.1).unwrap();
    let earlier = chrono::DateTime::from_timestamp(earlier.0, earlier.1).unwrap();
    let span = later.signed_duration_since(earlier);
    (span.num_seconds(), span.subsec_nanos())
}

/// The nanoseconds from one time to another, both as seconds and nanoseconds.
///
/// The seconds are subtracted and the nanoseconds are subtracted. A time inside
/// a leap second carries a second in its nanoseconds; that second is added where
/// `earlier` stands in one and the time of day of `later` is a later one, and
/// taken away where `later` stands in one and its time of day is the earlier.
pub open spec fn nanos_between(
    later_secs: int,
    later_nanos: int,
    earlier_secs: int,
    earlier_nanos: int,
) -> int {
    let later_of_day = later_secs % 86_400;
    let earlier_of_day = earlier_secs % 86_400;
    let leap: int = if later_of_day > earlier_of_day && earlier_nanos >= 1_000_000_000 {
        1
    } else if later_of_day < earlier_of_day && later_nanos >= 1_000_000_000 {
        -1
    } else {
        0
    };
    (later_secs - earlier_secs + leap) * 1_000_000_000 + (later_nanos - earlier_nanos)
}

impl Duration {
    #[verifier::type_invariant]
    spec fn inv(self) -> bool {
        self.wf()
    }

    /// Whole seconds of the span, rounded towards zero.
    pub closed spec fn spec_secs(self) -> int {
        self.secs as int
    }

    /// What is left of the span beside the whole seconds, in nanoseconds.
    pub closed spec fn spec_subsec_nanos(self) -> int {
        self.nanos as int
    }

    /// The two parts have one sign, and the span is no longer than two times can be apart.
    pub open spec fn wf(self) -> bool {
        &&& -SPAN_LIMIT <= self.spec_secs() <= SPAN_LIMIT
        &&& -1_000_000_000 < self.spec_subsec_nanos() < 1_000_000_000
        &&& self.spec_secs() > 0 ==> self.spec_subsec_nanos() >= 0
        &&& self.spec_secs() < 0 ==> self.spec_subsec_nanos() <= 0
    }

    /// The span in nanoseconds.
    pub open spec fn total_nanos(self) -> int {
        self.spec_secs() * 1_000_000_000 + self.spec_subsec_nanos()
    }

    /// The whole seconds of the span, rounded towards zero.
    pub fn num_seconds(&self) -> (secs: i64)
        ensures
            self.wf(),
            secs == self.spec_secs(),
    {
        proof {
            use_type_invariant(self);
        }
        self.secs
    }

    /// What is left of the span beside its whole seconds, in nanoseconds; of the
    /// sign of the span.
    pub fn subsec_nanos(&self) -> (nanos: i32)
        ensures
            self.wf(),
            nanos == self.spec_subsec_nanos(),
    {
        proof {
            use_type_invariant(self);
        }
        self.nanos
    }
}

impl Time {
    #[verifier::type_invariant]
    spec fn inv(self) -> bool {
        self.wf()
    }

    /// Whole seconds since the start of 1970; negative before it.
    pub closed spec fn spec_secs(self) -> int {
        self.secs as int
    }

    /// Nanoseconds into the second; a thousand million and more inside a leap second.
    pub closed spec fn spec_nanos(self) -> int {
        self.nanos as int
    }

    /// Every time is one that the calendar has.
    pub open spec fn wf(self) -> bool {
        valid_instant(self.spec_secs(), self.spec_nanos())
    }

    /// The nanoseconds from `earlier` to this time.
    pub open spec fn spec_nanos_since(self, earlier: Time) -> int {
        nanos_between(
            self.spec_secs(),
            self.spec_nanos(),
            earlier.spec_secs(),
            earlier.spec_nanos(),
        )
    }

    /// The time of the given seconds since 1970 and nanoseconds into the second,
    /// if there is one.
    pub fn from_timestamp(secs: i64, nanos: u32) -> (time: Option<Time>)
        ensures
            time is Some <==> valid_instant(secs as int, nanos as int),
            time matches Some(t) ==> t.spec_secs() == secs && t.spec_nanos() == nanos && t.wf(),
    {
        if secs < MIN_SECS || secs > MAX_SECS || nanos >= 2_000_000_000 {
            return None;
        }
        // The first second is the start of a minute, so the second of the minute can
        // be counted from there.
        let since_first: i64 = secs - MIN_SECS;
        proof {
            vstd::arithmetic::div_mod::lemma_mod_multiples_vanish(138_910_020_480, secs as int, 60);
        }
        if nanos >= 1_000_000_000 && since_first % 60 != 59 {
            return None;
        }
        Some(Time { secs, nanos })
    }

    /// Whole seconds since the start of 1970.
    pub fn timestamp(&self) -> (secs: i64)
        ensures
            secs == self.spec_secs(),
    {
        self.secs
    }

    /// Nanoseconds into the second.
    pub fn timestamp_subsec_nanos(&self) -> (nanos: u32)
        ensures
            nanos == self.spec_nanos(),
    {
        self.nanos
    }

    /// The text form of the time, as `FORMAT` lays it out.
    pub fn to_string(&self) -> (text: String)
        ensures
            text@ == formatted_instant(self.spec_secs(), self.spec_nanos()),
    {
        proof {
            use_type_invariant(self);
        }
        write_instant(self.secs, self.nanos)
    }

    /// Reads a time from its text form.
    ///
    /// Succeeds on the texts that `chrono` reads in the form `FORMAT`, with the
    /// time that it reads; on any other text the error holds `chrono`'s words.
    pub fn parse(str: &str) -> (res: Result<Time, String>)
        ensures
            match res {
                Ok(time) => parsed_instant(str@) == Some((time.spec_secs(), time.spec_nanos()))
                    && time.wf(),
                Err(_) => parsed_instant(str@) is None,
            },
    {
        match read_instant(str) {
            Ok((secs, nanos)) => Ok(Time { secs, nanos }),
            Err(error) => Err(error_text(&error)),
        }
    }

    /// The start of 1970.
    pub closed spec fn spec_epoch() -> Time {
        Time { secs: 0, nanos: 0 }
    }

    /// The start of 1970: the time of a book that no update has touched.
    #[verifier::when_used_as_spec(spec_epoch)]
    pub fn epoch() -> (time: Time)
        ensures
            time == Time::spec_epoch(),
            time.spec_secs() == 0,
            time.spec_nanos() == 0,
            time.wf(),
    {
        Time { secs: 0, nanos: 0 }
    }

    /// The span from `ref_time` to this time; negative where `ref_time` is the later.
    pub fn signed_duration_since(&self, ref_time: &Time) -> (span: Duration)
        ensures
            span.wf(),
            span.total_nanos() == self.spec_nanos_since(*ref_time),
    {
        proof {
            use_type_invariant(self);
            use_type_invariant(ref_time);
        }
        let (secs, nanos) = span_between((self.secs, self.nanos), (ref_time.secs, ref_time.nanos));
        Duration { secs, nanos }
    }
}

/// Between two times outside leap seconds, the span is the plain difference of
/// their seconds and of their nanoseconds.
pub proof fn law_plain_span(later: Time, earlier: Time)
    requires
        later.spec_nanos() < 1_000_000_000,
        earlier.spec_nanos() < 1_000_000_000,
    ensures
        later.spec_nanos_since(earlier) == (later.spec_secs() - earlier.spec_secs())
            * 1_000_000_000 + (later.spec_nanos() - earlier.spec_nanos()),
        later.spec_nanos_since(earlier) == -earlier.spec_nanos_since(later),
{
}

} // verus!
