//! The in-memory data model: the upstream snapshot shape, the bounded
//! record written to the store, and the error kinds of one poll cycle.
//!
//! Prices arrive from upstream as 64-bit floating-point values. The agent
//! never computes with a price — it only carries it into storage — so a
//! price is held here as its raw 64-bit pattern, and the boundary code
//! that talks to the wire converts in both directions.

use vstd::prelude::*;

verus! {

/// One aggregated trading bucket of an item's history.
#[derive(Clone, Copy, PartialEq, Eq, Structural, Debug)]
pub struct PricePoint {
    /// Quantity aggregated into this bucket.
    pub quantity: i64,
    /// Raw 64-bit pattern of the unit price.
    pub unit_price_bits: u64,
    /// Number of orders aggregated into this bucket.
    pub order_count: i32,
}

/// Current-instant market summary for one item.
#[derive(Debug)]
pub struct QuickStatus {
    pub item_id: String,
    pub sell_price_bits: u64,
    pub sell_volume: i64,
    pub sell_weekly_moved: i64,
    pub sell_order_count: i32,
    pub buy_price_bits: u64,
    pub buy_volume: i64,
    pub buy_weekly_moved: i64,
    pub buy_order_count: i32,
}

/// Mathematical model of a `QuickStatus`.
pub struct SpecQuickStatus {
    pub item_id: Seq<char>,
    pub sell_price_bits: u64,
    pub sell_volume: i64,
    pub sell_weekly_moved: i64,
    pub sell_order_count: i32,
    pub buy_price_bits: u64,
    pub buy_volume: i64,
    pub buy_weekly_moved: i64,
    pub buy_order_count: i32,
}

impl View for QuickStatus {
    type V = SpecQuickStatus;

    open spec fn view(&self) -> SpecQuickStatus {
        SpecQuickStatus {
            item_id: self.item_id@,
            sell_price_bits: self.sell_price_bits,
            sell_volume: self.sell_volume,
            sell_weekly_moved: self.sell_weekly_moved,
            sell_order_count: self.sell_order_count,
            buy_price_bits: self.buy_price_bits,
            buy_volume: self.buy_volume,
            buy_weekly_moved: self.buy_weekly_moved,
            buy_order_count: self.buy_order_count,
        }
    }
}

/// One tradable item of a snapshot. Both histories are ordered
/// most-recent-first, per the upstream convention.
#[derive(Debug)]
pub struct Item {
    pub id: String,
    pub sell_history: Vec<PricePoint>,
    pub buy_history: Vec<PricePoint>,
    pub status: QuickStatus,
}

/// Mathematical model of an `Item`.
pub struct SpecItem {
    pub id: Seq<char>,
    pub sell_history: Seq<PricePoint>,
    pub buy_history: Seq<PricePoint>,
    pub status: SpecQuickStatus,
}

impl View for Item {
    type V = SpecItem;

    open spec fn view(&self) -> SpecItem {
        SpecItem {
            id: self.id@,
            sell_history: self.sell_history@,
            buy_history: self.buy_history@,
            status: self.status@,
        }
    }
}

/// The full upstream payload of one poll. The `is_valid` flag is decoded
/// but not acted upon; the version token is opaque beyond equality.
#[derive(Debug)]
pub struct MarketSnapshot {
    pub is_valid: bool,
    pub version_token: i64,
    pub items: Vec<Item>,
}

/// Mathematical model of a `MarketSnapshot`.
pub struct SpecSnapshot {
    pub is_valid: bool,
    pub version_token: i64,
    pub items: Seq<SpecItem>,
}

impl View for MarketSnapshot {
    type V = SpecSnapshot;

    open spec fn view(&self) -> SpecSnapshot {
        SpecSnapshot {
            is_valid: self.is_valid,
            version_token: self.version_token,
            items: items_view(self.items@),
        }
    }
}

/// The durable projection of one item: at most three points of each
/// history, the status verbatim, and the cycle's shared timestamp
/// (milliseconds since the UNIX epoch, UTC).
#[derive(Debug)]
pub struct PersistedRecord {
    pub item_id: String,
    pub sell_summary: Vec<PricePoint>,
    pub buy_summary: Vec<PricePoint>,
    pub status: QuickStatus,
    pub observed_at: i64,
}

/// Mathematical model of a `PersistedRecord`.
pub struct SpecRecord {
    pub item_id: Seq<char>,
    pub sell_summary: Seq<PricePoint>,
    pub buy_summary: Seq<PricePoint>,
    pub status: SpecQuickStatus,
    pub observed_at: i64,
}

impl View for PersistedRecord {
    type V = SpecRecord;

    open spec fn view(&self) -> SpecRecord {
        SpecRecord {
            item_id: self.item_id@,
            sell_summary: self.sell_summary@,
            buy_summary: self.buy_summary@,
            status: self.status@,
            observed_at: self.observed_at,
        }
    }
}

/// The model of a sequence of items.
pub open spec fn items_view(items: Seq<Item>) -> Seq<SpecItem> {
    items.map_values(|item: Item| item@)
}

/// The model of a sequence of records.
pub open spec fn records_view(records: Seq<PersistedRecord>) -> Seq<SpecRecord> {
    records.map_values(|record: PersistedRecord| record@)
}

/// Why a fetch produced no snapshot: the transport failed, or the body
/// did not decode into the snapshot shape.
#[derive(Clone, Copy, PartialEq, Eq, Structural, Debug)]
pub enum FetchError {
    Transport,
    Decode,
}

/// A store write was rejected or the store was unreachable.
#[derive(Clone, Copy, PartialEq, Eq, Structural, Debug)]
pub struct StoreError;

} // verus!
