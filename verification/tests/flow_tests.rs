use grid_export::flow::{negate, FlowRecord, SIGN_BIT};
use grid_export::text::{same_text, starts_with};

fn record(area_out: &str, area_in: &str, value: f64) -> FlowRecord {
    FlowRecord::new(area_out, area_in, value.to_bits())
}

fn signed(record: &FlowRecord, country: &str) -> f64 {
    f64::from_bits(record.signed_export(country))
}

#[test]
fn new_keeps_the_three_fields() {
    let r = FlowRecord::new("SE3", "NO1", 12.5f64.to_bits());
    assert_eq!(r.area_out, "SE3");
    assert_eq!(r.area_in, "NO1");
    assert_eq!(f64::from_bits(r.value), 12.5);
}

#[test]
fn internal_flow_does_not_cross() {
    assert!(!record("SE2", "SE1", 50.0).crosses_boundary("SE"));
    assert!(!record("SE4", "SE4", 1.0).crosses_boundary("SE"));
}

#[test]
fn foreign_flow_does_not_cross() {
    assert!(!record("NO1", "DK1", 50.0).crosses_boundary("SE"));
    assert!(!record("", "", 50.0).crosses_boundary("SE"));
}

#[test]
fn outgoing_flow_crosses() {
    assert!(record("SE3", "NO1", 100.0).crosses_boundary("SE"));
    assert!(record("SE4", "DK2", 40.0).crosses_boundary("SE"));
}

#[test]
fn incoming_flow_crosses() {
    assert!(record("DK1", "SE4", 30.0).crosses_boundary("SE"));
    assert!(record("FI", "SE1", 30.0).crosses_boundary("SE"));
}

#[test]
fn crossing_is_relative_to_the_country() {
    let r = record("SE3", "NO1", 100.0);
    assert!(r.crosses_boundary("SE"));
    assert!(r.crosses_boundary("NO"));
    assert!(!r.crosses_boundary("DK"));
    assert!(r.crosses_boundary("SE3"));
    assert!(!r.crosses_boundary("SE33"));
}

#[test]
fn empty_country_contains_every_area() {
    assert!(!record("SE3", "NO1", 100.0).crosses_boundary(""));
    assert!(!record("", "NO1", 100.0).crosses_boundary(""));
}

#[test]
fn area_shorter_than_country_is_outside() {
    assert!(record("S", "SE1", 1.0).crosses_boundary("SE"));
    assert!(!record("S", "E", 1.0).crosses_boundary("SE"));
}

#[test]
fn crossing_compares_whole_characters() {
    assert!(record("ÅL1", "SE1", 1.0).crosses_boundary("ÅL"));
    assert!(record("ÅL1", "ÄL1", 1.0).crosses_boundary("Å"));
    assert!(!record("ÅL1", "ÅL2", 1.0).crosses_boundary("Å"));
    assert!(record("ÅL1", "AL1", 1.0).crosses_boundary("A"));
    assert!(!record("ÅL1", "ÄL1", 1.0).crosses_boundary("A"));
    assert!(record("ÅL1", "A\u{30a}L1", 1.0).crosses_boundary("A"));
}

#[test]
fn import_is_negated() {
    assert_eq!(signed(&record("DK1", "SE4", 30.0), "SE"), -30.0);
    assert_eq!(signed(&record("NO1", "SE3", 0.5), "SE"), -0.5);
}

#[test]
fn export_is_unchanged() {
    assert_eq!(signed(&record("SE3", "NO1", 100.0), "SE"), 100.0);
    assert_eq!(signed(&record("SE1", "FI", 7.25), "SE"), 7.25);
}

#[test]
fn negative_value_flips_too() {
    assert_eq!(signed(&record("DK1", "SE4", -30.0), "SE"), 30.0);
    assert_eq!(signed(&record("SE3", "NO1", -100.0), "SE"), -100.0);
}

#[test]
fn reversed_pair_is_negated() {
    assert_eq!(signed(&record("SE4", "DK2", 40.0), "SE"), -40.0);
}

#[test]
fn reversed_pair_is_negated_for_any_country() {
    let r = record("SE4", "DK2", 40.0);
    assert_eq!(signed(&r, "DK"), -40.0);
    assert_eq!(signed(&r, "NO"), -40.0);
    assert_eq!(signed(&r, ""), -40.0);
}

#[test]
fn opposite_direction_of_the_reversed_pair_follows_the_rule() {
    assert_eq!(signed(&record("DK2", "SE4", 40.0), "SE"), -40.0);
    assert_eq!(signed(&record("DK2", "SE4", 40.0), "DK"), 40.0);
}

#[test]
fn near_misses_of_the_reversed_pair_follow_the_rule() {
    assert_eq!(signed(&record("SE4", "DK1", 40.0), "SE"), 40.0);
    assert_eq!(signed(&record("SE3", "DK2", 40.0), "SE"), 40.0);
    assert_eq!(signed(&record("SE44", "DK2", 40.0), "SE"), 40.0);
    assert_eq!(signed(&record("SE4", "DK22", 40.0), "SE"), 40.0);
    assert_eq!(signed(&record("se4", "dk2", 40.0), "SE"), 40.0);
}

#[test]
fn signed_export_is_defined_without_a_crossing() {
    assert_eq!(signed(&record("SE2", "SE1", 50.0), "SE"), -50.0);
    assert_eq!(signed(&record("NO1", "DK1", 50.0), "SE"), 50.0);
}

#[test]
fn negate_is_the_negation_of_doubles() {
    for x in [0.0f64, 1.0, -1.0, 70.0, 1.0e-300, -2.5e300, f64::MAX, f64::MIN_POSITIVE, f64::INFINITY] {
        assert_eq!(negate(x.to_bits()), (-x).to_bits());
        assert_eq!(negate(negate(x.to_bits())), x.to_bits());
    }
    assert_eq!(negate(0.0f64.to_bits()), (-0.0f64).to_bits());
    assert_eq!(negate(f64::NAN.to_bits()), (-f64::NAN).to_bits());
}

#[test]
fn negate_touches_the_sign_bit_only() {
    assert_eq!(SIGN_BIT, 1u64 << 63);
    assert_eq!(negate(0), SIGN_BIT);
    assert_eq!(negate(SIGN_BIT), 0);
    assert_eq!(negate(0x1234_5678_9abc_def0), 0x9234_5678_9abc_def0);
    assert_eq!(negate(u64::MAX), u64::MAX >> 1);
}

#[test]
fn starts_with_agrees_with_std() {
    let texts = ["", "S", "SE", "SE3", "SE33", "NO1", "ÅL1", "Å", "A\u{30a}L1", "se3"];
    for text in texts {
        for prefix in texts {
            assert_eq!(starts_with(text, prefix), text.starts_with(prefix), "{text:?} {prefix:?}");
        }
    }
}

#[test]
fn same_text_agrees_with_equality() {
    let texts = ["", "D", "DK", "DK2", "DK22", "SE4", "dk2", "ÅL1", "A\u{30a}L1"];
    for left in texts {
        for right in texts {
            assert_eq!(same_text(left, right), left == right, "{left:?} {right:?}");
        }
    }
}
