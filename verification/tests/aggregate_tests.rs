use grid_export::aggregate::{net_export, signed_contributions};
use grid_export::flow::{FlowRecord, POSITIVE_ZERO};
use std::cell::Cell;

fn record(area_out: &str, area_in: &str, value: f64) -> FlowRecord {
    FlowRecord::new(area_out, area_in, value.to_bits())
}

fn plus(sum: u64, term: u64) -> u64 {
    (f64::from_bits(sum) + f64::from_bits(term)).to_bits()
}

fn total(records: &Vec<FlowRecord>, country: &str) -> f64 {
    f64::from_bits(net_export(records, country, plus))
}

fn terms(records: &Vec<FlowRecord>, country: &str) -> Vec<f64> {
    signed_contributions(records, country).into_iter().map(f64::from_bits).collect()
}

fn sample() -> Vec<FlowRecord> {
    vec![record("SE3", "NO1", 100.0), record("DK1", "SE4", 30.0), record("SE2", "SE1", 50.0)]
}

#[test]
fn three_record_feed_sums_to_seventy() {
    assert_eq!(total(&sample(), "SE"), 70.0);
}

#[test]
fn three_record_feed_has_two_contributions() {
    assert_eq!(terms(&sample(), "SE"), vec![100.0, -30.0]);
}

#[test]
fn empty_feed_sums_to_positive_zero() {
    let none: Vec<FlowRecord> = Vec::new();
    assert_eq!(net_export(&none, "SE", plus), POSITIVE_ZERO);
    assert_eq!(net_export(&none, "SE", plus), 0.0f64.to_bits());
    assert!(signed_contributions(&none, "SE").is_empty());
}

#[test]
fn feed_without_crossing_sums_to_positive_zero() {
    let records = vec![record("SE2", "SE1", 50.0), record("NO1", "DK1", 20.0), record("SE4", "SE3", 1.0)];
    assert_eq!(net_export(&records, "SE", plus), 0.0f64.to_bits());
    assert!(signed_contributions(&records, "SE").is_empty());
}

#[test]
fn positive_zero_is_the_pattern_of_zero() {
    assert_eq!(POSITIVE_ZERO, 0.0f64.to_bits());
    assert_ne!(POSITIVE_ZERO, (-0.0f64).to_bits());
}

#[test]
fn sum_starts_at_positive_zero() {
    let records = vec![record("SE3", "NO1", -0.0)];
    assert_eq!(net_export(&records, "SE", plus), 0.0f64.to_bits());
    let seen = Cell::new(Vec::new());
    let total = net_export(&records, "SE", |sum, term| {
        let mut calls = seen.take();
        calls.push((sum, term));
        seen.set(calls);
        plus(sum, term)
    });
    assert_eq!(total, 0.0f64.to_bits());
    assert_eq!(seen.take(), vec![(0.0f64.to_bits(), (-0.0f64).to_bits())]);
}

#[test]
fn contributions_keep_the_order_of_the_feed() {
    let records = vec![
        record("NO1", "SE1", 1.0),
        record("SE1", "SE2", 2.0),
        record("SE2", "FI", 3.0),
        record("SE4", "DK2", 4.0),
        record("DK1", "NO2", 5.0),
        record("DK2", "SE4", 6.0),
    ];
    assert_eq!(terms(&records, "SE"), vec![-1.0, 3.0, -4.0, -6.0]);
    assert_eq!(total(&records, "SE"), -8.0);
}

#[test]
fn every_crossing_record_is_added_exactly_once() {
    let records = vec![
        record("NO1", "SE1", 1.0),
        record("SE1", "SE2", 2.0),
        record("SE2", "FI", 4.0),
        record("DK1", "NO2", 8.0),
        record("SE3", "NO1", 16.0),
    ];
    let calls = Cell::new(0u32);
    let sum = net_export(&records, "SE", |sum, term| {
        calls.set(calls.get() + 1);
        plus(sum, term)
    });
    assert_eq!(calls.get(), 3);
    assert_eq!(f64::from_bits(sum), 19.0);
}

#[test]
fn sum_is_a_left_fold_in_feed_order() {
    let records = vec![record("SE1", "NO1", 1.0), record("SE2", "NO2", 2.0), record("SE3", "NO3", 3.0)];
    let left = |sum: u64, term: u64| sum.wrapping_mul(31).wrapping_add(f64::from_bits(term) as u64);
    assert_eq!(net_export(&records, "SE", left), ((0u64 * 31 + 1) * 31 + 2) * 31 + 3);
}

#[test]
fn permuted_feed_gives_the_same_sum() {
    let orders: [[usize; 4]; 6] =
        [[0, 1, 2, 3], [3, 2, 1, 0], [1, 0, 3, 2], [2, 3, 0, 1], [1, 2, 3, 0], [3, 0, 2, 1]];
    let make = |i: usize| match i {
        0 => record("SE3", "NO1", 100.0),
        1 => record("DK1", "SE4", 30.0),
        2 => record("SE2", "SE1", 50.0),
        _ => record("SE4", "DK2", 40.0),
    };
    for order in orders {
        let records: Vec<FlowRecord> = order.iter().map(|i| make(*i)).collect();
        assert_eq!(total(&records, "SE"), 30.0);
        let mut seen = terms(&records, "SE");
        seen.sort_by(|a, b| a.partial_cmp(b).unwrap());
        assert_eq!(seen, vec![-40.0, -30.0, 100.0]);
    }
}

#[test]
fn sum_depends_on_the_country() {
    assert_eq!(total(&sample(), "NO"), -100.0);
    assert_eq!(total(&sample(), "DK"), 30.0);
    assert_eq!(net_export(&sample(), "FI", plus), 0.0f64.to_bits());
}
