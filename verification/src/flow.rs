//! One directed flow between two price areas, and what it adds to the net
//! export of a country.
//!
//! A flow value travels through this crate as the 64-bit pattern of an
//! IEEE 754 double. The only arithmetic done on it here is negation, which
//! on that pattern is exact: it flips the top bit and nothing else.

use crate::text::{same_text, starts_with};
use vstd::prelude::*;

verus! {

/// The bit that carries the sign in a 64-bit IEEE 754 pattern.
pub const SIGN_BIT: u64 = 0x8000_0000_0000_0000;

/// The bit pattern of positive zero.
pub const POSITIVE_ZERO: u64 = 0;

/// A directed flow: `value` moves from `area_out` to `area_in`.
#[derive(Clone, Debug, PartialEq, Eq)]
pub struct FlowRecord {
    /// Area code of the zone the flow leaves.
    pub area_out: String,
    /// Area code of the zone the flow enters.
    pub area_in: String,
    /// Magnitude of the flow, as the bit pattern of a double.
    pub value: u64,
}

/// The mathematical content of a [`FlowRecord`].
pub struct FlowRecordView {
    pub area_out: Seq<char>,
    pub area_in: Seq<char>,
    pub value: u64,
}

impl View for FlowRecord {
    type V = FlowRecordView;

    open spec fn view(&self) -> FlowRecordView {
        FlowRecordView { area_out: self.area_out@, area_in: self.area_in@, value: self.value }
    }
}

impl DeepView for FlowRecord {
    type V = FlowRecordView;

    open spec fn deep_view(&self) -> FlowRecordView {
        self@
    }
}

/// An area belongs to a country when its code begins with the country code.
pub open spec fn inside(area: Seq<char>, country: Seq<char>) -> bool {
    country.is_prefix_of(area)
}

/// A record crosses the boundary of `country` when exactly one of its two
/// areas belongs to the country.
pub open spec fn crosses(record: FlowRecordView, country: Seq<char>) -> bool {
    inside(record.area_out, country) != inside(record.area_in, country)
}

/// The one pair of areas that the feed is seen to report with the opposite
/// sign: out of `SE4`, into `DK2`. Why the feed does so is not known; the
/// pair is kept as observed and not generalised.
pub open spec fn is_reversed_pair(record: FlowRecordView) -> bool {
    record.area_in == seq!['D', 'K', '2'] && record.area_out == seq!['S', 'E', '4']
}

/// Whether the record's value enters the net export of `country` negated.
pub open spec fn negates(record: FlowRecordView, country: Seq<char>) -> bool {
    is_reversed_pair(record) || inside(record.area_in, country)
}

/// The pattern of the negated double.
pub open spec fn negated(bits: u64) -> u64 {
    bits ^ SIGN_BIT
}

/// The signed contribution of a record to the net export of `country`.
pub open spec fn signed(record: FlowRecordView, country: Seq<char>) -> u64 {
    if negates(record, country) {
        negated(record.value)
    } else {
        record.value
    }
}

/// Negates a double given by its bit pattern.
pub fn negate(bits: u64) -> (flipped: u64)
    ensures
        flipped == negated(bits),
{
    bits ^ SIGN_BIT
}

/// Negation changes the sign bit, keeps every other bit, and undoes itself.
pub proof fn law_negation_flips_sign_only(bits: u64)
    ensures
        negated(bits) & SIGN_BIT != bits & SIGN_BIT,
        negated(bits) & !SIGN_BIT == bits & !SIGN_BIT,
        negated(negated(bits)) == bits,
{
    assert((bits ^ 0x8000_0000_0000_0000u64) & 0x8000_0000_0000_0000u64 != bits
        & 0x8000_0000_0000_0000u64) by (bit_vector);
    assert((bits ^ 0x8000_0000_0000_0000u64) & !0x8000_0000_0000_0000u64 == bits
        & !0x8000_0000_0000_0000u64) by (bit_vector);
    assert((bits ^ 0x8000_0000_0000_0000u64) ^ 0x8000_0000_0000_0000u64 == bits) by (bit_vector);
}

impl FlowRecord {
    /// A record of a flow of `value` from `area_out` to `area_in`.
    pub fn new(area_out: &str, area_in: &str, value: u64) -> (record: FlowRecord)
        ensures
            record@ == (FlowRecordView { area_out: area_out@, area_in: area_in@, value }),
    {
        FlowRecord { area_out: area_out.to_owned(), area_in: area_in.to_owned(), value }
    }

    /// Whether the flow enters or leaves `country`: true exactly when one of
    /// the two areas begins with `country` and the other does not.
    pub fn crosses_boundary(&self, country: &str) -> (crossing: bool)
        ensures
            crossing == crosses(self@, country@),
            inside(self@.area_out, country@) && inside(self@.area_in, country@) ==> !crossing,
            !inside(self@.area_out, country@) && !inside(self@.area_in, country@) ==> !crossing,
            inside(self@.area_out, country@) && !inside(self@.area_in, country@) ==> crossing,
            !inside(self@.area_out, country@) && inside(self@.area_in, country@) ==> crossing,
    {
        let leaves = starts_with(self.area_out.as_str(), country);
        let enters = starts_with(self.area_in.as_str(), country);
        leaves != enters
    }

    /// The record's contribution to the net export of `country`.
    ///
    /// A flow into the country is an import and counts negated; any other
    /// flow counts as it is. The pair out of `SE4` into `DK2` is reported by
    /// the feed with the opposite sign and is always negated. The result
    /// means something only for a record that crosses the boundary.
    pub fn signed_export(&self, country: &str) -> (bits: u64)
        ensures
            bits == signed(self@, country@),
            is_reversed_pair(self@) ==> bits == negated(self@.value),
            !is_reversed_pair(self@) && inside(self@.area_in, country@) ==> bits == negated(
                self@.value,
            ),
            !is_reversed_pair(self@) && !inside(self@.area_in, country@) ==> bits == self@.value,
    {
        proof {
            reveal_strlit("DK2");
            reveal_strlit("SE4");
            assert("DK2"@ =~= seq!['D', 'K', '2']);
            assert("SE4"@ =~= seq!['S', 'E', '4']);
        }
        if same_text(self.area_in.as_str(), "DK2") && same_text(self.area_out.as_str(), "SE4") {
            return negate(self.value);
        }
        if starts_with(self.area_in.as_str(), country) {
            return negate(self.value);
        }
        self.value
    }
}

} // verus!
