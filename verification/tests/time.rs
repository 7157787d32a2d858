use chrono::{DateTime, Utc};
use coin::time::{Time, LEN, MAX_SECS, MIN_SECS};

fn time(secs: i64, nanos: u32) -> Time {
    Time::from_timestamp(secs, nanos).unwrap()
}

fn outside(secs: i64, nanos: u32) -> DateTime<Utc> {
    DateTime::from_timestamp(secs, nanos).unwrap()
}

#[test]
fn epoch_is_the_start_of_1970() {
    assert_eq!(Time::epoch().timestamp(), 0);
    assert_eq!(Time::epoch().timestamp_subsec_nanos(), 0);
    assert_eq!(Time::epoch(), time(0, 0));
    assert_eq!(Time::epoch().to_string(), "1970-01-01 00:00:00.000000000");
}

#[test]
fn times_are_those_of_the_calendar() {
    for secs in [MIN_SECS - 1, MIN_SECS, -61, -1, 0, 59, 60, 119, 1_520_121_659, MAX_SECS, MAX_SECS + 1, i64::MIN, i64::MAX] {
        for nanos in [0, 1, 999_999_999, 1_000_000_000, 1_999_999_999, 2_000_000_000, u32::MAX] {
            assert_eq!(
                Time::from_timestamp(secs, nanos).is_some(),
                DateTime::from_timestamp(secs, nanos).is_some(),
                "{} {}",
                secs,
                nanos
            );
        }
    }
    assert_eq!(DateTime::<Utc>::MIN_UTC.timestamp(), MIN_SECS);
    assert_eq!(DateTime::<Utc>::MAX_UTC.timestamp(), MAX_SECS);
    let t = time(1_520_121_659, 1_500_000_000);
    assert_eq!(t.timestamp(), 1_520_121_659);
    assert_eq!(t.timestamp_subsec_nanos(), 1_500_000_000);
}

#[test]
fn text_form() {
    assert_eq!(time(1_520_121_600, 123_456_789).to_string(), "2018-03-04 00:00:00.123456789");
    assert_eq!(time(1_520_121_600, 5).to_string().len(), LEN);
    assert_eq!(time(1_520_121_659, 1_500_000_000).to_string(), "2018-03-04 00:00:60.500000000");
    assert_eq!(time(-1, 0).to_string(), "1969-12-31 23:59:59.000000000");
}

#[test]
fn reading_the_text_form() {
    assert_eq!(Time::parse("2018-03-04 00:00:00.123456789"), Ok(time(1_520_121_600, 123_456_789)));
    assert_eq!(Time::parse("1970-01-01 00:00:00.000000000"), Ok(Time::epoch()));
    assert_eq!(Time::parse("2018-03-04 00:00:60.500000000"), Ok(time(1_520_121_659, 1_500_000_000)));
    assert_eq!(Time::parse("2018-03-04 00:00:00.5"), Ok(time(1_520_121_600, 5)));
    for t in [time(0, 0), time(1_520_121_600, 1), time(-86_400, 999_999_999), time(253_402_300_799, 0)] {
        assert_eq!(Time::parse(&t.to_string()), Ok(t));
    }
}

#[test]
fn texts_that_are_no_time() {
    assert_eq!(Time::parse(""), Err(String::from("premature end of input")));
    assert_eq!(Time::parse("2018-03-04"), Err(String::from("premature end of input")));
    assert_eq!(Time::parse("yesterday"), Err(String::from("input contains invalid characters")));
    assert_eq!(Time::parse("2018-02-30 00:00:00.0"), Err(String::from("input is out of range")));
    assert_eq!(
        Time::parse("2018-03-04 00:00:00.123456789 and more"),
        Err(String::from("trailing input"))
    );
}

#[test]
fn a_reading_of_the_clock_is_a_time() {
    let reading = Utc::now();
    let now = Time::from_timestamp(reading.timestamp(), reading.timestamp_subsec_nanos()).unwrap();
    assert_eq!(now.timestamp(), reading.timestamp());
    assert_eq!(now.timestamp_subsec_nanos(), reading.timestamp_subsec_nanos());
    assert_eq!(now.to_string(), reading.format("%Y-%m-%d %H:%M:%S.%f").to_string());
}

fn parts(later: Time, earlier: Time) -> (i64, i32) {
    let span = later.signed_duration_since(&earlier);
    (span.num_seconds(), span.subsec_nanos())
}

#[test]
fn spans_in_seconds_and_nanoseconds() {
    let base = time(1_520_121_600, 900_000_000);
    assert_eq!(parts(base, base), (0, 0));
    assert_eq!(parts(base, time(1_520_121_600, 875_000_000)), (0, 25_000_000));
    assert_eq!(parts(base, time(1_520_121_599, 925_000_000)), (0, 975_000_000));
    assert_eq!(parts(time(1_520_121_599, 925_000_000), base), (0, -975_000_000));
    assert_eq!(parts(base, time(1_520_121_593, 900_000_000)), (7, 0));
    assert_eq!(parts(time(10, 500_000_001), time(10, 0)), (0, 500_000_001));
    assert_eq!(parts(time(10, 0), time(10, 1)), (0, -1));
    assert_eq!(parts(time(12, 250), time(10, 750)), (1, 999_999_500));
    assert_eq!(parts(time(10, 750), time(12, 250)), (-1, -999_999_500));
    assert_eq!(parts(time(-5, 0), time(5, 500_000)), (-10, -500_000));
}

#[test]
fn a_leap_second_is_counted_when_passed() {
    // 00:00:59 and one second on top, against the beginning of that second.
    assert_eq!(parts(time(59, 1_000_000_000), time(59, 0)), (1, 0));
    assert_eq!(parts(time(59, 1_500_000_000), time(59, 0)), (1, 500_000_000));
    assert_eq!(parts(time(59, 1_000_000_000), time(0, 0)), (60, 0));
    // The later time of day lies beyond the leap second of the earlier time.
    assert_eq!(parts(time(3_600, 0), time(3_599, 1_000_000_000)), (1, 0));
    assert_eq!(parts(time(3_659, 1_000_000_000), time(3_599, 1_000_000_000)), (61, 0));
    // And the other way round.
    assert_eq!(parts(time(3_599, 1_000_000_000), time(3_600, 0)), (-1, 0));
}

#[test]
fn spans_agree_with_the_calendar() {
    let seconds = [MIN_SECS, -86_401, -86_400, -61, -1, 0, 59, 60, 86_399, 86_400, 1_520_121_659, 1_520_121_660, MAX_SECS];
    let nanoseconds = [0, 1, 999_999, 1_000_000, 500_000_000, 999_999_999, 1_000_000_000, 1_000_000_001, 1_999_999_999];
    let mut times = Vec::new();
    for secs in seconds {
        for nanos in nanoseconds {
            if let Some(t) = Time::from_timestamp(secs, nanos) {
                times.push(t);
            }
        }
    }
    assert!(times.len() > 80);
    for later in &times {
        for earlier in &times {
            let expected = outside(later.timestamp(), later.timestamp_subsec_nanos())
                .signed_duration_since(outside(earlier.timestamp(), earlier.timestamp_subsec_nanos()));
            assert_eq!(parts(*later, *earlier), (expected.num_seconds(), expected.subsec_nanos()));
            // What the library states of the span, computed here in wide integers.
            let of_day = |t: &Time| t.timestamp().rem_euclid(86_400);
            let leap = if of_day(later) > of_day(earlier) && earlier.timestamp_subsec_nanos() >= 1_000_000_000 {
                1
            } else if of_day(later) < of_day(earlier) && later.timestamp_subsec_nanos() >= 1_000_000_000 {
                -1
            } else {
                0
            };
            let stated = (later.timestamp() as i128 - earlier.timestamp() as i128 + leap) * 1_000_000_000
                + (later.timestamp_subsec_nanos() as i128 - earlier.timestamp_subsec_nanos() as i128);
            let (secs, nanos) = parts(*later, *earlier);
            assert_eq!(stated, secs as i128 * 1_000_000_000 + nanos as i128);
        }
    }
}
