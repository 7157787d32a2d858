use coin::book_processor::{BookProcessor, NotLiveStatus, SnapshotStatus, Summary};
use coin::level_store::ApplyError;
use coin::price::Price;
use coin::side::Side;
use coin::size::Size;
use coin::time::Time;

fn q(quantity: f64) -> Size {
    Size::from_bits(quantity.to_bits())
}

fn p(text: &str) -> Price {
    Price::parse_str(text).unwrap()
}

fn at(millis: i64) -> Time {
    let base = 1_520_121_600;
    Time::from_timestamp(base + millis.div_euclid(1_000), (millis.rem_euclid(1_000) * 1_000_000) as u32).unwrap()
}

fn quantity_of(best: Option<(Price, Size)>) -> Option<(Price, f64)> {
    best.map(|(price, size)| (price, f64::from_bits(size.to_bits())))
}

#[test]
fn status_table() {
    let (initial, post, error) =
        (SnapshotStatus::InitialSnapshot, SnapshotStatus::PostSnapshot, SnapshotStatus::Error);
    assert_eq!(initial.update(true), initial);
    assert_eq!(initial.update(false), post);
    assert_eq!(post.update(true), error);
    assert_eq!(post.update(false), post);
    assert_eq!(error.update(true), error);
    assert_eq!(error.update(false), error);
}

#[test]
fn error_absorbs() {
    let mut status = SnapshotStatus::InitialSnapshot;
    for kind in [true, true, false, false, true] {
        status = status.update(kind);
    }
    assert_eq!(status, SnapshotStatus::Error);
    for kind in [false, true, false, false, true, true] {
        status = status.update(kind);
        assert_eq!(status, SnapshotStatus::Error);
    }
}

#[test]
fn only_the_first_snapshot_bootstraps() {
    assert!(SnapshotStatus::InitialSnapshot.is_bootstrapping());
    assert!(!SnapshotStatus::PostSnapshot.is_bootstrapping());
    assert!(!SnapshotStatus::Error.is_bootstrapping());
}

#[test]
fn a_new_book() {
    let book = BookProcessor::new();
    assert_eq!(book.best(Side::Buy), None);
    assert_eq!(book.best(Side::Sell), None);
    assert_eq!(book.level_count(Side::Buy), 0);
    assert_eq!(book.level_count(Side::Sell), 0);
    assert_eq!(book.status(&Time::epoch()), Err(NotLiveStatus::InitialSnapshot));
    assert_eq!(book.status(&at(0)), Err(NotLiveStatus::InitialSnapshot));
}

#[test]
fn from_snapshot_to_live_to_desynced() {
    let (t0, t1, t2) = (at(0), at(100), at(200));
    let mut book = BookProcessor::new();
    assert_eq!(book.on_update(&t0, Side::Buy, p("100.00"), q(1.5), true), Ok(()));
    assert_eq!(book.on_update(&t0, Side::Sell, p("101.00"), q(2.0), true), Ok(()));
    assert_eq!(quantity_of(book.best(Side::Buy)), Some((Price(100_000_000), 1.5)));
    assert_eq!(quantity_of(book.best(Side::Sell)), Some((Price(101_000_000), 2.0)));
    assert_eq!(book.status(&t0), Err(NotLiveStatus::InitialSnapshot));

    assert_eq!(book.on_update(&t1, Side::Buy, p("100.00"), q(0.0), false), Ok(()));
    assert_eq!(book.best(Side::Buy), None);
    assert_eq!(book.status(&t1), Ok(()));

    assert_eq!(book.on_update(&t2, Side::Buy, p("100.00"), q(1.0), true), Ok(()));
    assert_eq!(book.status(&t2), Err(NotLiveStatus::SnapshotError));
    assert_eq!(quantity_of(book.best(Side::Buy)), Some((Price(100_000_000), 1.0)));
    assert_eq!(quantity_of(book.best(Side::Sell)), Some((Price(101_000_000), 2.0)));
}

#[test]
fn reset_starts_over() {
    let mut book = BookProcessor::new();
    book.on_update(&at(0), Side::Buy, p("100"), q(1.5), true).unwrap();
    book.on_update(&at(1), Side::Sell, p("101"), q(2.0), false).unwrap();
    book.on_update(&at(2), Side::Sell, p("102"), q(2.0), true).unwrap();
    assert_eq!(book.status(&at(2)), Err(NotLiveStatus::SnapshotError));
    book.clear_on_snapshot();
    assert_eq!(book.best(Side::Buy), None);
    assert_eq!(book.best(Side::Sell), None);
    assert_eq!(book.level_count(Side::Buy), 0);
    assert_eq!(book.level_count(Side::Sell), 0);
    for now in [Time::epoch(), at(0), at(2), at(1_000_000)] {
        assert_eq!(book.status(&now), Err(NotLiveStatus::InitialSnapshot));
    }
    book.on_update(&at(3), Side::Buy, p("100"), q(1.5), false).unwrap();
    assert_eq!(book.status(&at(3)), Ok(()));
}

#[test]
fn bootstrapping_until_the_first_change() {
    let mut book = BookProcessor::new();
    for i in 0..50 {
        book.on_update(&at(i), Side::Sell, Price(100 + i), q(1.0), true).unwrap();
        assert_eq!(book.status(&at(i)), Err(NotLiveStatus::InitialSnapshot));
        assert_eq!(book.status(&at(i + 10_000)), Err(NotLiveStatus::InitialSnapshot));
    }
    assert_eq!(book.level_count(Side::Sell), 50);
    book.on_update(&at(50), Side::Sell, Price(100), q(1.0), false).unwrap();
    assert_eq!(book.status(&at(50)), Ok(()));
}

#[test]
fn stale_after_half_a_second() {
    let mut book = BookProcessor::new();
    book.on_update(&at(1_000), Side::Buy, p("100"), q(1.5), false).unwrap();
    assert_eq!(book.status(&at(1_000)), Ok(()));
    assert_eq!(book.status(&at(1_499)), Ok(()));
    assert_eq!(book.status(&at(1_500)), Ok(()));
    assert_eq!(book.status(&at(1_501)), Err(NotLiveStatus::Stale));
    assert_eq!(book.status(&at(60_000)), Err(NotLiveStatus::Stale));
    // A reader whose clock is behind the last update sees a fresh book.
    assert_eq!(book.status(&at(0)), Ok(()));
}

#[test]
fn stale_by_a_nanosecond() {
    let last = Time::from_timestamp(10, 0).unwrap();
    let mut book = BookProcessor::new();
    book.on_update(&last, Side::Buy, p("100"), q(1.5), false).unwrap();
    assert_eq!(book.status(&Time::from_timestamp(10, 499_999_999).unwrap()), Ok(()));
    assert_eq!(book.status(&Time::from_timestamp(10, 500_000_000).unwrap()), Ok(()));
    assert_eq!(book.status(&Time::from_timestamp(10, 500_000_001).unwrap()), Err(NotLiveStatus::Stale));
    assert_eq!(book.status(&Time::from_timestamp(10, 500_001_000).unwrap()), Err(NotLiveStatus::Stale));
    assert_eq!(book.status(&Time::from_timestamp(10, 500_999_999).unwrap()), Err(NotLiveStatus::Stale));
    assert_eq!(book.status(&Time::from_timestamp(11, 0).unwrap()), Err(NotLiveStatus::Stale));
    assert_eq!(book.status(&Time::from_timestamp(9, 0).unwrap()), Ok(()));
    // Across the turn of a second.
    let late = Time::from_timestamp(10, 700_000_000).unwrap();
    book.on_update(&late, Side::Buy, p("100"), q(1.5), false).unwrap();
    assert_eq!(book.status(&Time::from_timestamp(11, 200_000_000).unwrap()), Ok(()));
    assert_eq!(book.status(&Time::from_timestamp(11, 200_000_001).unwrap()), Err(NotLiveStatus::Stale));
}

#[test]
fn read_from_text_and_stale_by_a_microsecond() {
    let t = Time::parse("2018-01-01 00:00:00.000000000").unwrap();
    let now = Time::parse("2018-01-01 00:00:00.500001000").unwrap();
    let mut book = BookProcessor::new();
    book.on_update(&t, Side::Buy, p("100.00"), q(1.0), false).unwrap();
    assert_eq!(book.status(&now), Err(NotLiveStatus::Stale));
    assert_eq!(book.status(&Time::parse("2018-01-01 00:00:00.500000000").unwrap()), Ok(()));
}

#[test]
fn every_update_touches_the_book() {
    let mut book = BookProcessor::new();
    book.on_update(&at(0), Side::Buy, p("100"), q(1.5), false).unwrap();
    assert_eq!(book.status(&at(600)), Err(NotLiveStatus::Stale));
    // A removal of a level that is not there still counts as an update.
    book.on_update(&at(550), Side::Sell, p("100"), q(0.0), false).unwrap();
    assert_eq!(book.status(&at(600)), Ok(()));
    assert_eq!(book.level_count(Side::Sell), 0);
    assert_eq!(book.level_count(Side::Buy), 1);
}

#[test]
fn desynced_takes_priority_over_staleness() {
    let mut book = BookProcessor::new();
    book.on_update(&at(0), Side::Buy, p("100"), q(1.5), false).unwrap();
    book.on_update(&at(1), Side::Buy, p("100"), q(1.5), true).unwrap();
    assert_eq!(book.status(&at(1)), Err(NotLiveStatus::SnapshotError));
    assert_eq!(book.status(&at(100_000)), Err(NotLiveStatus::SnapshotError));
    book.on_update(&at(2), Side::Buy, p("99"), q(3.0), false).unwrap();
    assert_eq!(book.status(&at(2)), Err(NotLiveStatus::SnapshotError));
    // The levels are still kept up.
    assert_eq!(book.level_count(Side::Buy), 2);
}

#[test]
fn malformed_updates_change_nothing() {
    let mut book = BookProcessor::new();
    book.on_update(&at(0), Side::Buy, p("100"), q(1.5), false).unwrap();
    for size in [q(-2.0), q(f64::NAN), q(f64::NEG_INFINITY)] {
        assert_eq!(
            book.on_update(&at(10_000), Side::Buy, p("100"), size, true),
            Err(ApplyError::MalformedUpdate)
        );
    }
    // Neither the time of the last update, nor the status, nor the level has moved.
    assert_eq!(book.status(&at(500)), Ok(()));
    assert_eq!(book.status(&at(10_000)), Err(NotLiveStatus::Stale));
    assert_eq!(quantity_of(book.best(Side::Buy)), Some((Price(100_000_000), 1.5)));
}

#[test]
fn removals_of_absent_levels_leave_the_levels() {
    let mut book = BookProcessor::new();
    book.on_update(&at(0), Side::Buy, p("100"), q(1.5), true).unwrap();
    book.on_update(&at(0), Side::Sell, p("101"), q(2.0), true).unwrap();
    let before = book.log_summary();
    for (i, text) in ["99", "100.5", "101", "0.000001"].iter().enumerate() {
        book.on_update(&at(i as i64), Side::Buy, p(text), q(0.0), i % 2 == 0).unwrap();
    }
    book.on_update(&at(9), Side::Sell, p("100"), q(0.0), false).unwrap();
    assert_eq!(book.log_summary(), before);
}

#[test]
fn insert_and_remove_round_trip() {
    let mut book = BookProcessor::new();
    book.on_update(&at(0), Side::Buy, p("100"), q(1.5), true).unwrap();
    let before = book.level_count(Side::Buy);
    book.on_update(&at(1), Side::Buy, p("100.5"), q(4.0), false).unwrap();
    book.on_update(&at(2), Side::Buy, p("100.5"), q(0.0), false).unwrap();
    assert_eq!(book.level_count(Side::Buy), before);
    assert_eq!(book.level_count(Side::Sell), 0);
    // With a level already there, the round trip removes it.
    book.on_update(&at(3), Side::Buy, p("100"), q(2.0), false).unwrap();
    book.on_update(&at(4), Side::Buy, p("100"), q(0.0), false).unwrap();
    assert_eq!(book.level_count(Side::Buy), before - 1);
}

#[test]
fn summary_of_a_book() {
    let mut book = BookProcessor::new();
    assert_eq!(
        book.log_summary(),
        Summary { bid_levels: 0, ask_levels: 0, best_bid: None, best_ask: None }
    );
    book.on_update(&at(0), Side::Buy, p("100"), q(1.5), true).unwrap();
    book.on_update(&at(0), Side::Buy, p("99"), q(1.0), true).unwrap();
    book.on_update(&at(0), Side::Sell, p("101"), q(2.0), true).unwrap();
    assert_eq!(
        book.log_summary(),
        Summary {
            bid_levels: 2,
            ask_levels: 1,
            best_bid: Some((Price(100_000_000), q(1.5))),
            best_ask: Some((Price(101_000_000), q(2.0))),
        }
    );
}
