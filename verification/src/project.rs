//! Projection: deriving the bounded records of one persist cycle from the
//! items of a snapshot. An item with no history at all is skipped; every
//! other item yields exactly one record holding the first three points of
//! each history, its status verbatim, and the cycle's shared timestamp.

use vstd::prelude::*;

use crate::model::{
    Item, PersistedRecord, PricePoint, QuickStatus, SpecItem, SpecRecord, items_view, records_view,
};

verus! {

/// The most entries of a history that one record keeps.
pub const SUMMARY_LIMIT: usize = 3;

/// An item earns a record exactly when at least one of its histories is
/// non-empty.
pub open spec fn has_data(item: SpecItem) -> bool {
    item.sell_history.len() > 0 || item.buy_history.len() > 0
}

/// The bounded summary of a history: the whole history when it holds at
/// most `SUMMARY_LIMIT` points, else its first `SUMMARY_LIMIT` points,
/// order preserved.
pub open spec fn spec_summary(history: Seq<PricePoint>) -> Seq<PricePoint> {
    if history.len() <= SUMMARY_LIMIT {
        history
    } else {
        history.take(SUMMARY_LIMIT as int)
    }
}

/// The record that an item with data projects to.
pub open spec fn spec_record(item: SpecItem, observed_at: i64) -> SpecRecord {
    SpecRecord {
        item_id: item.id,
        sell_summary: spec_summary(item.sell_history),
        buy_summary: spec_summary(item.buy_history),
        status: item.status,
        observed_at: observed_at,
    }
}

/// The records of one cycle: one per item with data, in the items' own
/// order, all stamped with the same timestamp.
pub open spec fn spec_project(items: Seq<SpecItem>, observed_at: i64) -> Seq<SpecRecord>
    decreases items.len(),
{
    if items.len() == 0 {
        Seq::empty()
    } else if has_data(items.first()) {
        seq![spec_record(items.first(), observed_at)] + spec_project(
            items.drop_first(),
            observed_at,
        )
    } else {
        spec_project(items.drop_first(), observed_at)
    }
}

/// Exactly the items with some history produce a record, one each: an
/// item with both histories empty adds nothing to a cycle's records,
/// and any other item appends exactly its own record.
pub proof fn lemma_one_record_per_item(items: Seq<SpecItem>, item: SpecItem, observed_at: i64)
    ensures
        !has_data(item) ==> spec_project(items.push(item), observed_at) == spec_project(
            items,
            observed_at,
        ),
        has_data(item) ==> spec_project(items.push(item), observed_at) == spec_project(
            items,
            observed_at,
        ).push(spec_record(item, observed_at)),
    decreases items.len(),
{
    let pushed = items.push(item);
    if items.len() == 0 {
        assert(pushed.first() == item);
        assert(pushed.drop_first() =~= Seq::<SpecItem>::empty());
        assert(spec_project(Seq::<SpecItem>::empty(), observed_at) == Seq::<SpecRecord>::empty());
        if has_data(item) {
            assert(spec_project(pushed, observed_at) =~= spec_project(items, observed_at).push(
                spec_record(item, observed_at),
            ));
        }
    } else {
        assert(pushed.first() == items.first());
        assert(pushed.drop_first() =~= items.drop_first().push(item));
        lemma_one_record_per_item(items.drop_first(), item, observed_at);
        if has_data(item) {
            assert(spec_project(pushed, observed_at) =~= spec_project(items, observed_at).push(
                spec_record(item, observed_at),
            ));
        } else {
            assert(spec_project(pushed, observed_at) =~= spec_project(items, observed_at));
        }
    }
}

/// Every record of one cycle carries the cycle's shared timestamp.
pub proof fn lemma_shared_timestamp(items: Seq<SpecItem>, observed_at: i64)
    ensures
        forall|i: int|
            0 <= i < spec_project(items, observed_at).len() ==> (#[trigger] spec_project(
                items,
                observed_at,
            )[i]).observed_at == observed_at,
    decreases items.len(),
{
    if items.len() > 0 {
        lemma_shared_timestamp(items.drop_first(), observed_at);
        let rest = spec_project(items.drop_first(), observed_at);
        let whole = spec_project(items, observed_at);
        if has_data(items.first()) {
            assert(whole == seq![spec_record(items.first(), observed_at)] + rest);
            assert forall|i: int| 0 <= i < whole.len() implies (#[trigger] whole[i]).observed_at
                == observed_at by {
                if i > 0 {
                    assert(whole[i] == rest[i - 1]);
                }
            }
        } else {
            assert(whole == rest);
        }
    }
}

/// Projection round-trip: a history of at most `SUMMARY_LIMIT` points is
/// kept whole, order and values untouched; a longer one is cut to exactly
/// its first `SUMMARY_LIMIT` points, unchanged.
pub proof fn lemma_summary_round_trip(history: Seq<PricePoint>)
    ensures
        history.len() <= SUMMARY_LIMIT ==> spec_summary(history) == history,
        history.len() > SUMMARY_LIMIT ==> spec_summary(history) == history.take(
            SUMMARY_LIMIT as int,
        ),
        spec_summary(history).len() <= SUMMARY_LIMIT,
        forall|i: int|
            0 <= i < spec_summary(history).len() ==> spec_summary(history)[i] == history[i],
{
}

/// Copies the first `SUMMARY_LIMIT` points of a history (all of it, when
/// it is shorter).
fn take_summary(history: &Vec<PricePoint>) -> (summary: Vec<PricePoint>)
    ensures
        summary@ == spec_summary(history@),
{
    let count: usize = if history.len() <= SUMMARY_LIMIT {
        history.len()
    } else {
        SUMMARY_LIMIT
    };
    let mut summary: Vec<PricePoint> = Vec::new();
    let mut i: usize = 0;
    while i < count
        invariant
            i <= count,
            count <= history@.len(),
            summary@ == history@.take(i as int),
        decreases count - i,
    {
        summary.push(history[i]);
        proof {
            assert(summary@ =~= history@.take(i as int + 1));
        }
        i = i + 1;
    }
    proof {
        assert(history@.take(history@.len() as int) =~= history@);
    }
    summary
}

/// Copies a status verbatim.
fn copy_status(status: &QuickStatus) -> (copy: QuickStatus)
    ensures
        copy@ == status@,
{
    QuickStatus {
        item_id: status.item_id.clone(),
        sell_price_bits: status.sell_price_bits,
        sell_volume: status.sell_volume,
        sell_weekly_moved: status.sell_weekly_moved,
        sell_order_count: status.sell_order_count,
        buy_price_bits: status.buy_price_bits,
        buy_volume: status.buy_volume,
        buy_weekly_moved: status.buy_weekly_moved,
        buy_order_count: status.buy_order_count,
    }
}

/// Projects one item: no record when both histories are empty, else the
/// record with both summaries bounded, the status verbatim, and the
/// given timestamp.
pub fn project_item(item: &Item, observed_at: i64) -> (record: Option<PersistedRecord>)
    ensures
        has_data(item@) ==> (record matches Some(r) && r@ == spec_record(item@, observed_at)),
        !has_data(item@) ==> record is None,
{
    if item.sell_history.len() == 0 && item.buy_history.len() == 0 {
        Option::None
    } else {
        Option::Some(
            PersistedRecord {
                item_id: item.id.clone(),
                sell_summary: take_summary(&item.sell_history),
                buy_summary: take_summary(&item.buy_history),
                status: copy_status(&item.status),
                observed_at: observed_at,
            },
        )
    }
}

/// Projects a whole snapshot's items into the records of one cycle, in
/// the items' own order, all sharing `observed_at`.
pub fn project(items: &Vec<Item>, observed_at: i64) -> (records: Vec<PersistedRecord>)
    ensures
        records_view(records@) == spec_project(items_view(items@), observed_at),
{
    let ghost all = items_view(items@);
    let mut records: Vec<PersistedRecord> = Vec::new();
    let mut i: usize = 0;
    while i < items.len()
        invariant
            i <= items@.len(),
            all == items_view(items@),
            records_view(records@) == spec_project(all.take(i as int), observed_at),
        decreases items@.len() - i,
    {
        proof {
            assert(all.take(i as int + 1) =~= all.take(i as int).push(items@[i as int]@));
            lemma_one_record_per_item(all.take(i as int), items@[i as int]@, observed_at);
        }
        match project_item(&items[i], observed_at) {
            Option::Some(record) => {
                let ghost before = records@;
                records.push(record);
                proof {
                    assert(records_view(records@) =~= records_view(before).push(
                        records@[records@.len() - 1]@,
                    ));
                }
            },
            Option::None => {},
        }
        i = i + 1;
    }
    proof {
        assert(all.take(items@.len() as int) =~= all);
    }
    records
}

} // verus!
