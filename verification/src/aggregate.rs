//! The net export of a country: the signed contributions of the records
//! that cross its boundary, added up in the order of the feed.
//!
//! The addition itself is the caller's: this crate carries every value as a
//! bit pattern and never adds two of them. What is fixed here is which
//! records take part, with which sign, and that each one is added exactly
//! once to a sum that starts at zero.

use crate::flow::{crosses, signed, FlowRecord, FlowRecordView, POSITIVE_ZERO};
use vstd::prelude::*;
use vstd::seq_lib::{commutative_foldl, lemma_fold_left_permutation};

verus! {

/// The signed contributions of the records that cross the boundary of
/// `country`, in the order of `records`.
pub open spec fn contributions(records: Seq<FlowRecordView>, country: Seq<char>) -> Seq<u64> {
    records.filter(|r: FlowRecordView| crosses(r, country)).map_values(
        |r: FlowRecordView| signed(r, country),
    )
}

/// `total` is what comes of adding `terms` to `start` from left to right,
/// each step being one call of `plus`.
pub open spec fn sums_to<F: Fn(u64, u64) -> u64>(
    plus: F,
    terms: Seq<u64>,
    start: u64,
    total: u64,
) -> bool
    decreases terms.len(),
{
    if terms.len() == 0 {
        total == start
    } else {
        exists|before: u64|
            sums_to(plus, terms.drop_last(), start, before) && #[trigger] call_ensures(
                plus,
                (before, terms.last()),
                total,
            )
    }
}

/// One more record at the end adds its contribution at the end, if it
/// crosses the boundary, and nothing otherwise.
pub proof fn lemma_contributions_push(
    records: Seq<FlowRecordView>,
    last: FlowRecordView,
    country: Seq<char>,
)
    ensures
        contributions(records.push(last), country) == if crosses(last, country) {
            contributions(records, country).push(signed(last, country))
        } else {
            contributions(records, country)
        },
{
    let crossing = |r: FlowRecordView| crosses(r, country);
    records.lemma_filter_push(last, crossing);
    if crosses(last, country) {
        assert(contributions(records.push(last), country) =~= contributions(
            records,
            country,
        ).push(signed(last, country)));
    }
}

/// No record, no contribution.
pub proof fn lemma_contributions_empty(country: Seq<char>)
    ensures
        contributions(Seq::<FlowRecordView>::empty(), country) == Seq::<u64>::empty(),
{
    let crossing = |r: FlowRecordView| crosses(r, country);
    Seq::<FlowRecordView>::empty().lemma_filter_len(crossing);
    assert(contributions(Seq::<FlowRecordView>::empty(), country) =~= Seq::<u64>::empty());
}

/// There is no contribution exactly when no record crosses the boundary.
pub proof fn law_no_crossing_no_contribution(records: Seq<FlowRecordView>, country: Seq<char>)
    ensures
        contributions(records, country).len() == 0 <==> forall|i: int|
            0 <= i < records.len() ==> !crosses(#[trigger] records[i], country),
    decreases records.len(),
{
    if records.len() == 0 {
        lemma_contributions_empty(country);
        assert(records =~= Seq::<FlowRecordView>::empty());
    } else {
        let earlier = records.drop_last();
        law_no_crossing_no_contribution(earlier, country);
        lemma_contributions_push(earlier, records.last(), country);
        assert(records =~= earlier.push(records.last()));
        if contributions(records, country).len() == 0 {
            assert forall|i: int| 0 <= i < records.len() implies !crosses(
                #[trigger] records[i],
                country,
            ) by {
                if i < earlier.len() {
                    assert(earlier[i] == records[i]);
                }
            }
        }
        if forall|i: int| 0 <= i < records.len() ==> !crosses(#[trigger] records[i], country) {
            assert forall|i: int| 0 <= i < earlier.len() implies !crosses(
                #[trigger] earlier[i],
                country,
            ) by {
                assert(earlier[i] == records[i]);
            }
            assert(!crosses(records[records.len() - 1], country));
        }
    }
}

/// Taking one record out takes its contribution out, if it crosses the
/// boundary, and changes nothing otherwise.
proof fn lemma_contributions_remove(records: Seq<FlowRecordView>, j: int, country: Seq<char>)
    requires
        0 <= j < records.len(),
    ensures
        contributions(records, country).to_multiset() == if crosses(records[j], country) {
            contributions(records.remove(j), country).to_multiset().insert(
                signed(records[j], country),
            )
        } else {
            contributions(records.remove(j), country).to_multiset()
        },
    decreases records.len(),
{
    let earlier = records.drop_last();
    let last = records.last();
    assert(records =~= earlier.push(last));
    lemma_contributions_push(earlier, last, country);
    if j == records.len() - 1 {
        assert(records.remove(j) =~= earlier);
        contributions(earlier, country).to_multiset_ensures();
    } else {
        let rest = earlier.remove(j);
        assert(records.remove(j) =~= rest.push(last));
        assert(earlier[j] == records[j]);
        lemma_contributions_remove(earlier, j, country);
        lemma_contributions_push(rest, last, country);
        contributions(earlier, country).to_multiset_ensures();
        contributions(rest, country).to_multiset_ensures();
        if crosses(last, country) && crosses(records[j], country) {
            assert(contributions(rest, country).to_multiset().insert(
                signed(records[j], country),
            ).insert(signed(last, country)) =~= contributions(rest, country).to_multiset().insert(
                signed(last, country),
            ).insert(signed(records[j], country)));
        }
    }
}

/// The same records in another order give the same contributions, each as
/// often as before, in another order.
pub proof fn law_contributions_follow_permutation(
    first: Seq<FlowRecordView>,
    second: Seq<FlowRecordView>,
    country: Seq<char>,
)
    requires
        first.to_multiset() == second.to_multiset(),
    ensures
        contributions(first, country).to_multiset() == contributions(
            second,
            country,
        ).to_multiset(),
    decreases first.len(),
{
    first.to_multiset_ensures();
    second.to_multiset_ensures();
    if first.len() == 0 {
        assert(first =~= second);
    } else {
        let earlier = first.drop_last();
        let last = first.last();
        assert(first =~= earlier.push(last));
        earlier.to_multiset_ensures();
        assert(first.to_multiset().count(last) > 0);
        assert(second.contains(last));
        let j = choose|j: int| 0 <= j < second.len() && second[j] == last;
        let rest = second.remove(j);
        assert(earlier.to_multiset() =~= rest.to_multiset());
        law_contributions_follow_permutation(earlier, rest, country);
        lemma_contributions_push(earlier, last, country);
        lemma_contributions_remove(second, j, country);
        contributions(earlier, country).to_multiset_ensures();
    }
}

/// Where every call of `plus` returns what the function `exact` gives, a sum
/// made with `plus` is the left fold of `exact` over the terms.
pub proof fn law_sum_is_fold<F: Fn(u64, u64) -> u64>(
    plus: F,
    exact: spec_fn(u64, u64) -> u64,
    terms: Seq<u64>,
    start: u64,
    total: u64,
)
    requires
        forall|sum: u64, term: u64, next: u64|
            call_ensures(plus, (sum, term), next) ==> next == exact(sum, term),
        sums_to(plus, terms, start, total),
    ensures
        total == terms.fold_left(start, exact),
    decreases terms.len(),
{
    if terms.len() > 0 {
        let before = choose|before: u64|
            sums_to(plus, terms.drop_last(), start, before) && #[trigger] call_ensures(
                plus,
                (before, terms.last()),
                total,
            );
        law_sum_is_fold(plus, exact, terms.drop_last(), start, before);
    }
}

/// The net export does not depend on the order of the records, where the
/// addition is exact: every call of `plus` returns what the function `exact`
/// gives, and adding two terms to a sum gives the same in either order. An
/// addition that rounds need not meet the second condition.
pub proof fn law_net_export_ignores_order<F: Fn(u64, u64) -> u64>(
    plus: F,
    exact: spec_fn(u64, u64) -> u64,
    first: Seq<FlowRecordView>,
    second: Seq<FlowRecordView>,
    country: Seq<char>,
    total_first: u64,
    total_second: u64,
)
    requires
        first.to_multiset() == second.to_multiset(),
        forall|sum: u64, term: u64, next: u64|
            call_ensures(plus, (sum, term), next) ==> next == exact(sum, term),
        commutative_foldl(exact),
        sums_to(plus, contributions(first, country), POSITIVE_ZERO, total_first),
        sums_to(plus, contributions(second, country), POSITIVE_ZERO, total_second),
    ensures
        total_first == total_second,
{
    law_sum_is_fold(plus, exact, contributions(first, country), POSITIVE_ZERO, total_first);
    law_sum_is_fold(plus, exact, contributions(second, country), POSITIVE_ZERO, total_second);
    law_contributions_follow_permutation(first, second, country);
    lemma_fold_left_permutation(
        contributions(first, country),
        contributions(second, country),
        exact,
        POSITIVE_ZERO,
    );
}

/// The signed contributions of the records that cross the boundary of
/// `country`, in the order of `records`.
pub fn signed_contributions(records: &Vec<FlowRecord>, country: &str) -> (terms: Vec<u64>)
    ensures
        terms@ == contributions(records.deep_view(), country@),
{
    let mut terms: Vec<u64> = Vec::new();
    let mut i: usize = 0;
    proof {
        lemma_contributions_empty(country@);
        assert(records.deep_view().take(0) =~= Seq::<FlowRecordView>::empty());
    }
    while i < records.len()
        invariant
            i <= records.len(),
            terms@ == contributions(records.deep_view().take(i as int), country@),
        decreases records.len() - i,
    {
        let record = &records[i];
        proof {
            lemma_contributions_push(records.deep_view().take(i as int), record@, country@);
            assert(records.deep_view().take(i + 1) =~= records.deep_view().take(i as int).push(
                record@,
            ));
        }
        if record.crosses_boundary(country) {
            terms.push(record.signed_export(country));
        }
        i += 1;
    }
    proof {
        assert(records.deep_view().take(i as int) =~= records.deep_view());
    }
    terms
}

/// The net export of `country`: the signed contributions of the records
/// that cross its boundary, added one by one with `plus` to a sum that
/// starts at positive zero.
///
/// Records that do not cross the boundary never reach `plus`. With no
/// crossing record, and so with no record at all, the result is positive
/// zero itself.
pub fn net_export<F: Fn(u64, u64) -> u64>(
    records: &Vec<FlowRecord>,
    country: &str,
    plus: F,
) -> (total: u64)
    requires
        forall|sum: u64, term: u64| call_requires(plus, (sum, term)),
    ensures
        sums_to(plus, contributions(records.deep_view(), country@), POSITIVE_ZERO, total),
        (forall|i: int|
            0 <= i < records.len() ==> !crosses(#[trigger] records.deep_view()[i], country@))
            ==> total == POSITIVE_ZERO,
{
    let mut total: u64 = POSITIVE_ZERO;
    let mut i: usize = 0;
    proof {
        lemma_contributions_empty(country@);
        assert(records.deep_view().take(0) =~= Seq::<FlowRecordView>::empty());
    }
    while i < records.len()
        invariant
            i <= records.len(),
            forall|sum: u64, term: u64| call_requires(plus, (sum, term)),
            sums_to(
                plus,
                contributions(records.deep_view().take(i as int), country@),
                POSITIVE_ZERO,
                total,
            ),
        decreases records.len() - i,
    {
        let record = &records[i];
        let ghost before = total;
        let ghost earlier = contributions(records.deep_view().take(i as int), country@);
        proof {
            lemma_contributions_push(records.deep_view().take(i as int), record@, country@);
            assert(records.deep_view().take(i + 1) =~= records.deep_view().take(i as int).push(
                record@,
            ));
        }
        if record.crosses_boundary(country) {
            let term = record.signed_export(country);
            total = plus(total, term);
            proof {
                let later = earlier.push(term);
                assert(later.drop_last() =~= earlier);
                assert(call_ensures(plus, (before, later.last()), total));
            }
        }
        i += 1;
    }
    proof {
        assert(records.deep_view().take(i as int) =~= records.deep_view());
        law_no_crossing_no_contribution(records.deep_view(), country@);
    }
    total
}

} // verus!
