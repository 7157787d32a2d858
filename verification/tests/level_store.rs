use coin::level_store::{ApplyError, LevelStore};
use coin::price::Price;
use coin::side::Side;
use coin::size::Size;

fn quantity(q: f64) -> Size {
    Size::from_bits(q.to_bits())
}

fn price(text: &str) -> Price {
    Price::parse_str(text).unwrap()
}

#[test]
fn a_new_store_is_empty() {
    let store = LevelStore::new();
    assert_eq!(store.level_count(Side::Buy), 0);
    assert_eq!(store.level_count(Side::Sell), 0);
    assert_eq!(store.best(Side::Buy), None);
    assert_eq!(store.best(Side::Sell), None);
}

#[test]
fn best_bid_is_highest_and_best_ask_is_lowest() {
    let mut store = LevelStore::new();
    for (text, q) in [("100.00", 1.0), ("99.50", 2.0), ("100.25", 3.0), ("98", 4.0)] {
        assert_eq!(store.upsert_or_remove(Side::Buy, price(text), quantity(q)), Ok(()));
        assert_eq!(store.upsert_or_remove(Side::Sell, price(text), quantity(q + 10.0)), Ok(()));
    }
    assert_eq!(store.best(Side::Buy), Some((Price(100_250_000), quantity(3.0))));
    assert_eq!(store.best(Side::Sell), Some((Price(98_000_000), quantity(14.0))));
    assert_eq!(store.level_count(Side::Buy), 4);
    assert_eq!(store.level_count(Side::Sell), 4);
}

#[test]
fn the_order_is_that_of_the_numbers() {
    let mut store = LevelStore::new();
    for key in [-5, 3, i64::MAX, 0, i64::MIN, 7] {
        store.upsert_or_remove(Side::Buy, Price(key), quantity(1.0)).unwrap();
    }
    assert_eq!(store.best(Side::Buy), Some((Price(i64::MAX), quantity(1.0))));
    store.upsert_or_remove(Side::Buy, Price(i64::MAX), quantity(0.0)).unwrap();
    assert_eq!(store.best(Side::Buy), Some((Price(7), quantity(1.0))));
    for key in [-5, 3, 0, i64::MIN, 7] {
        store.upsert_or_remove(Side::Sell, Price(key), quantity(2.0)).unwrap();
    }
    assert_eq!(store.best(Side::Sell), Some((Price(i64::MIN), quantity(2.0))));
}

#[test]
fn a_level_is_overwritten_not_doubled() {
    let mut store = LevelStore::new();
    store.upsert_or_remove(Side::Sell, price("101"), quantity(2.0)).unwrap();
    store.upsert_or_remove(Side::Sell, price("101.000000"), quantity(2.5)).unwrap();
    assert_eq!(store.level_count(Side::Sell), 1);
    assert_eq!(store.best(Side::Sell), Some((Price(101_000_000), quantity(2.5))));
    assert_eq!(store.level_count(Side::Buy), 0);
}

#[test]
fn zero_removes_the_level() {
    let mut store = LevelStore::new();
    store.upsert_or_remove(Side::Buy, price("100"), quantity(1.5)).unwrap();
    store.upsert_or_remove(Side::Buy, price("99"), quantity(1.0)).unwrap();
    assert_eq!(store.upsert_or_remove(Side::Buy, price("100.0"), quantity(0.0)), Ok(()));
    assert_eq!(store.best(Side::Buy), Some((Price(99_000_000), quantity(1.0))));
    assert_eq!(store.upsert_or_remove(Side::Buy, price("99"), quantity(-0.0)), Ok(()));
    assert_eq!(store.best(Side::Buy), None);
    assert_eq!(store.level_count(Side::Buy), 0);
}

#[test]
fn removing_what_is_not_there_changes_nothing() {
    let mut store = LevelStore::new();
    store.upsert_or_remove(Side::Buy, price("100"), quantity(1.5)).unwrap();
    store.upsert_or_remove(Side::Sell, price("101"), quantity(2.0)).unwrap();
    for text in ["100.5", "99", "101", "0", "100.000001"] {
        assert_eq!(store.upsert_or_remove(Side::Buy, price(text), quantity(0.0)), Ok(()));
    }
    assert_eq!(store.upsert_or_remove(Side::Sell, price("100"), quantity(0.0)), Ok(()));
    assert_eq!(store.level_count(Side::Buy), 1);
    assert_eq!(store.level_count(Side::Sell), 1);
    assert_eq!(store.best(Side::Buy), Some((Price(100_000_000), quantity(1.5))));
    assert_eq!(store.best(Side::Sell), Some((Price(101_000_000), quantity(2.0))));
}

#[test]
fn insert_then_remove_keeps_the_count() {
    let mut store = LevelStore::new();
    store.upsert_or_remove(Side::Sell, price("101"), quantity(2.0)).unwrap();
    store.upsert_or_remove(Side::Sell, price("103"), quantity(2.0)).unwrap();
    let before = store.level_count(Side::Sell);
    store.upsert_or_remove(Side::Sell, price("102"), quantity(7.0)).unwrap();
    assert_eq!(store.level_count(Side::Sell), before + 1);
    store.upsert_or_remove(Side::Sell, price("102"), quantity(0.0)).unwrap();
    assert_eq!(store.level_count(Side::Sell), before);
    assert_eq!(before, 2);
}

#[test]
fn malformed_sizes_are_refused_and_change_nothing() {
    let mut store = LevelStore::new();
    store.upsert_or_remove(Side::Buy, price("100"), quantity(1.5)).unwrap();
    for q in [-1.0, -1e-300, f64::NEG_INFINITY, f64::NAN, -f64::NAN] {
        assert_eq!(
            store.upsert_or_remove(Side::Buy, price("100"), quantity(q)),
            Err(ApplyError::MalformedUpdate)
        );
        assert_eq!(
            store.upsert_or_remove(Side::Buy, price("105"), quantity(q)),
            Err(ApplyError::MalformedUpdate)
        );
    }
    assert_eq!(store.level_count(Side::Buy), 1);
    assert_eq!(store.best(Side::Buy), Some((Price(100_000_000), quantity(1.5))));
}

#[test]
fn clear_empties_both_sides() {
    let mut store = LevelStore::new();
    store.upsert_or_remove(Side::Buy, price("100"), quantity(1.5)).unwrap();
    store.upsert_or_remove(Side::Sell, price("101"), quantity(2.0)).unwrap();
    store.clear();
    assert_eq!(store.level_count(Side::Buy), 0);
    assert_eq!(store.level_count(Side::Sell), 0);
    assert_eq!(store.best(Side::Buy), None);
    assert_eq!(store.best(Side::Sell), None);
}
