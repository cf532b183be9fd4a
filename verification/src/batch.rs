//! From a drained batch of messages to the rows of one bulk upsert:
//! normalise what decodes, count what does not, keep the latest row of each
//! key, and lay the rows out as columns.

use crate::models::db::history_error;
use crate::models::db::history_rows;
use crate::models::db::lemma_history_error;
use crate::models::db::order_error;
use crate::models::db::order_row;
use crate::models::db::DecodeError;
use crate::models::db::HistoryRow;
use crate::models::db::MarketHistory;
use crate::models::db::MarketOrder;
use crate::models::db::OrderRow;
use crate::models::nats;
use crate::record::dedup_latest;
use crate::record::last_with_key;
use crate::record::latest_wins;
use crate::record::views;
use crate::time::Timestamp;
use vstd::prelude::*;

verus! {

/// The row that a drained entry stands for: none for a payload that did not
/// decode, none for a message that cannot be normalised.
pub open spec fn order_entry_row(entry: Option<nats::MarketOrder>, now: Timestamp) -> Option<
    OrderRow,
> {
    match entry {
        Some(msg) => order_row(&msg, now),
        None => None,
    }
}

/// Why a drained entry gives no row, if it gives none.
pub open spec fn order_entry_error(entry: Option<nats::MarketOrder>) -> Option<DecodeError> {
    match entry {
        Some(msg) => order_error(&msg),
        None => Some(DecodeError::Payload),
    }
}

/// The rows of the entries that decode, in the order of the entries.
pub open spec fn decoded_orders(entries: Seq<Option<nats::MarketOrder>>, now: Timestamp) -> Seq<
    OrderRow,
>
    decreases entries.len(),
{
    if entries.len() == 0 {
        Seq::empty()
    } else {
        let front = decoded_orders(entries.drop_last(), now);
        match order_entry_row(entries.last(), now) {
            Some(row) => front.push(row),
            None => front,
        }
    }
}

/// The rows that a drained history entry stands for.
pub open spec fn history_entry_rows(entry: Option<nats::MarketHistories>, now: Timestamp) -> Option<
    Seq<HistoryRow>,
> {
    match entry {
        Some(msg) => history_rows(&msg, now),
        None => None,
    }
}

/// Why a drained history entry gives no rows, if it gives none.
pub open spec fn history_entry_error(entry: Option<nats::MarketHistories>) -> Option<DecodeError> {
    match entry {
        Some(msg) => history_error(&msg),
        None => Some(DecodeError::Payload),
    }
}

/// The rows of the history entries that decode, in the order of the entries
/// and, within one entry, of its buckets.
pub open spec fn decoded_histories(
    entries: Seq<Option<nats::MarketHistories>>,
    now: Timestamp,
) -> Seq<HistoryRow>
    decreases entries.len(),
{
    if entries.len() == 0 {
        Seq::empty()
    } else {
        let front = decoded_histories(entries.drop_last(), now);
        match history_entry_rows(entries.last(), now) {
            Some(rows) => front + rows,
            None => front,
        }
    }
}

/// The number of history entries that do not decode.
pub open spec fn undecoded_histories(
    entries: Seq<Option<nats::MarketHistories>>,
    now: Timestamp,
) -> nat
    decreases entries.len(),
{
    if entries.len() == 0 {
        0
    } else {
        let front = undecoded_histories(entries.drop_last(), now);
        match history_entry_rows(entries.last(), now) {
            Some(_) => front,
            None => front + 1,
        }
    }
}

/// The rows of one bulk upsert of orders, with the count of entries that
/// were skipped because they did not decode.
pub struct OrderBatch {
    pub rows: Vec<MarketOrder>,
    pub decode_errors: usize,
}

/// The rows of one bulk upsert of history buckets, with the count of entries
/// that were skipped because they did not decode.
pub struct HistoryBatch {
    pub rows: Vec<MarketHistory>,
    pub decode_errors: usize,
}

/// Normalises one drained entry as first seen at `now`, or says why it is
/// dropped: the payload did not decode, or a field cannot be normalised.
pub fn decode_order_entry(entry: &Option<nats::MarketOrder>, now: Timestamp) -> (r: Result<
    MarketOrder,
    DecodeError,
>)
    ensures
        match r {
            Ok(order) => Some(order@) == order_entry_row(*entry, now) && (now.wf() ==> order.wf()),
            Err(error) => order_entry_error(*entry) == Some(error) && order_entry_row(*entry, now)
                is None,
        },
{
    match entry {
        Some(msg) => MarketOrder::decode(msg, now),
        None => Err(DecodeError::Payload),
    }
}

/// Normalises one drained history entry as first seen at `now`, or says why
/// it is dropped.
pub fn decode_history_entry(entry: &Option<nats::MarketHistories>, now: Timestamp) -> (r: Result<
    Vec<MarketHistory>,
    DecodeError,
>)
    ensures
        match r {
            Ok(rows) => Some(views(rows@)) == history_entry_rows(*entry, now) && (now.wf()
                ==> forall|i: int| 0 <= i < rows@.len() ==> (#[trigger] rows@[i]).wf()),
            Err(error) => history_entry_error(*entry) == Some(error) && history_entry_rows(
                *entry,
                now,
            ) is None,
        },
{
    match entry {
        Some(msg) => {
            proof {
                lemma_history_error(msg, 0);
            }
            MarketHistory::decode(msg, now)
        },
        None => Err(DecodeError::Payload),
    }
}

/// Normalises the entries that decode, in order, and counts the others.
pub fn decode_orders(entries: &Vec<Option<nats::MarketOrder>>, now: Timestamp) -> (r: (
    Vec<MarketOrder>,
    usize,
))
    ensures
        views(r.0@) == decoded_orders(entries@, now),
        r.1 == entries@.len() - r.0@.len(),
        now.wf() ==> forall|i: int| 0 <= i < r.0@.len() ==> (#[trigger] r.0@[i]).wf(),
{
    let mut rows: Vec<MarketOrder> = Vec::new();
    let mut errors: usize = 0;
    let mut i: usize = 0;
    assert(entries@.subrange(0, 0) =~= Seq::<Option<nats::MarketOrder>>::empty());
    while i < entries.len()
        invariant
            i <= entries@.len(),
            rows@.len() + errors == i,
            views(rows@) == decoded_orders(entries@.subrange(0, i as int), now),
            now.wf() ==> forall|j: int| 0 <= j < rows@.len() ==> (#[trigger] rows@[j]).wf(),
        decreases entries@.len() - i,
    {
        let ghost done = views(rows@);
        proof {
            let next = entries@.subrange(0, i + 1);
            assert(next.drop_last() =~= entries@.subrange(0, i as int));
            assert(next.last() == entries@[i as int]);
        }
        match decode_order_entry(&entries[i], now) {
            Ok(row) => {
                rows.push(row);
                assert(views(rows@) =~= done.push(row@));
            },
            Err(_) => {
                errors = errors + 1;
            },
        }
        i = i + 1;
    }
    assert(entries@.subrange(0, entries@.len() as int) =~= entries@);
    (rows, errors)
}

/// Prepares one bulk upsert of orders from a drained batch: the latest row of
/// each order id among the entries that decode, the last entry first.
pub fn prepare_orders(entries: &Vec<Option<nats::MarketOrder>>, now: Timestamp) -> (batch:
    OrderBatch)
    ensures
        views(batch.rows@) == latest_wins::<MarketOrder>(decoded_orders(entries@, now)),
        batch.decode_errors == entries@.len() - decoded_orders(entries@, now).len(),
        now.wf() ==> forall|i: int| 0 <= i < batch.rows@.len() ==> (#[trigger] batch.rows@[i]).wf(),
{
    let (rows, decode_errors) = decode_orders(entries, now);
    OrderBatch { rows: dedup_latest(rows), decode_errors }
}

/// Normalises the history entries that decode, in order, and counts the
/// others.
pub fn decode_histories(entries: &Vec<Option<nats::MarketHistories>>, now: Timestamp) -> (r: (
    Vec<MarketHistory>,
    usize,
))
    ensures
        views(r.0@) == decoded_histories(entries@, now),
        r.1 == undecoded_histories(entries@, now),
        now.wf() ==> forall|i: int| 0 <= i < r.0@.len() ==> (#[trigger] r.0@[i]).wf(),
{
    let mut rows: Vec<MarketHistory> = Vec::new();
    let mut errors: usize = 0;
    let mut i: usize = 0;
    assert(entries@.subrange(0, 0) =~= Seq::<Option<nats::MarketHistories>>::empty());
    while i < entries.len()
        invariant
            i <= entries@.len(),
            errors <= i,
            errors == undecoded_histories(entries@.subrange(0, i as int), now),
            views(rows@) == decoded_histories(entries@.subrange(0, i as int), now),
            now.wf() ==> forall|j: int| 0 <= j < rows@.len() ==> (#[trigger] rows@[j]).wf(),
        decreases entries@.len() - i,
    {
        let ghost done = views(rows@);
        proof {
            let next = entries@.subrange(0, i + 1);
            assert(next.drop_last() =~= entries@.subrange(0, i as int));
            assert(next.last() == entries@[i as int]);
        }
        match decode_history_entry(&entries[i], now) {
            Ok(mut more) => {
                let ghost added = views(more@);
                rows.append(&mut more);
                assert(views(rows@) =~= done + added);
            },
            Err(_) => {
                errors = errors + 1;
            },
        }
        i = i + 1;
    }
    assert(entries@.subrange(0, entries@.len() as int) =~= entries@);
    (rows, errors)
}

/// Prepares one bulk upsert of history buckets from a drained batch: the
/// latest row of each natural key among the entries that decode.
pub fn prepare_histories(entries: &Vec<Option<nats::MarketHistories>>, now: Timestamp) -> (batch:
    HistoryBatch)
    ensures
        views(batch.rows@) == latest_wins::<MarketHistory>(decoded_histories(entries@, now)),
        batch.decode_errors == undecoded_histories(entries@, now),
        now.wf() ==> forall|i: int| 0 <= i < batch.rows@.len() ==> (#[trigger] batch.rows@[i]).wf(),
{
    let (rows, decode_errors) = decode_histories(entries, now);
    HistoryBatch { rows: dedup_latest(rows), decode_errors }
}

/// Of the entries that decode to an order with a given id, the last one is
/// the row that the decoded batch holds last under that id.
pub proof fn lemma_last_entry_wins(
    entries: Seq<Option<nats::MarketOrder>>,
    now: Timestamp,
    at: int,
)
    requires
        0 <= at < entries.len(),
        order_entry_row(entries[at], now) is Some,
        forall|later: int|
            at < later < entries.len() ==> !(#[trigger] order_entry_row(entries[later], now)
                matches Some(row) && row.id == order_entry_row(entries[at], now)->0.id),
    ensures
        last_with_key::<MarketOrder>(
            decoded_orders(entries, now),
            order_entry_row(entries[at], now)->0.id,
        ) == order_entry_row(entries[at], now),
    decreases entries.len(),
{
    let front = entries.drop_last();
    let rows = decoded_orders(front, now);
    let id = order_entry_row(entries[at], now)->0.id;
    if at == entries.len() - 1 {
        let row = order_entry_row(entries[at], now)->0;
        assert(rows.push(row).last() == row);
    } else {
        assert(front[at] == entries[at]);
        assert forall|later: int| at < later < front.len() implies !(#[trigger] order_entry_row(
            front[later],
            now,
        ) matches Some(row) && row.id == id) by {
            assert(front[later] == entries[later]);
        }
        lemma_last_entry_wins(front, now, at);
        match order_entry_row(entries.last(), now) {
            Some(row) => {
                assert(entries[entries.len() - 1] == entries.last());
                assert(row.id != id);
                assert(rows.push(row).last() == row);
                assert(rows.push(row).drop_last() =~= rows);
            },
            None => {},
        }
    }
}

/// The rows of an order batch laid out as columns, one value per row in each,
/// the way a bulk statement takes them.
pub struct OrderColumns {
    pub ids: Vec<i64>,
    pub item_unique_names: Vec<String>,
    pub location_ids: Vec<String>,
    pub quality_levels: Vec<i32>,
    pub enchantment_levels: Vec<i32>,
    pub unit_prices_silver: Vec<i32>,
    pub amounts: Vec<i32>,
    pub auction_types: Vec<String>,
    pub expires_ats: Vec<Timestamp>,
    pub created_ats: Vec<Timestamp>,
    pub updated_ats: Vec<Timestamp>,
}

impl OrderColumns {
    /// Every column has `len` values.
    pub open spec fn aligned(&self, len: nat) -> bool {
        &&& self.ids@.len() == len
        &&& self.item_unique_names@.len() == len
        &&& self.location_ids@.len() == len
        &&& self.quality_levels@.len() == len
        &&& self.enchantment_levels@.len() == len
        &&& self.unit_prices_silver@.len() == len
        &&& self.amounts@.len() == len
        &&& self.auction_types@.len() == len
        &&& self.expires_ats@.len() == len
        &&& self.created_ats@.len() == len
        &&& self.updated_ats@.len() == len
    }

    /// The row that the columns hold at place `i`.
    pub open spec fn row(&self, i: int) -> OrderRow {
        OrderRow {
            id: self.ids@[i],
            item_unique_name: self.item_unique_names@[i]@,
            location_id: self.location_ids@[i]@,
            quality_level: self.quality_levels@[i],
            enchantment_level: self.enchantment_levels@[i],
            unit_price_silver: self.unit_prices_silver@[i],
            amount: self.amounts@[i],
            auction_type: self.auction_types@[i]@,
            expires_at: self.expires_ats@[i],
            created_at: self.created_ats@[i],
            updated_at: self.updated_ats@[i],
        }
    }

    /// The columns hold exactly `rows`, in order.
    pub open spec fn holds(&self, rows: Seq<OrderRow>) -> bool {
        &&& self.aligned(rows.len())
        &&& forall|i: int| 0 <= i < rows.len() ==> #[trigger] self.row(i) == rows[i]
    }

    /// Lays rows out as columns.
    pub fn from_rows(rows: &Vec<MarketOrder>) -> (columns: Self)
        ensures
            columns.holds(views(rows@)),
    {
        let mut columns = OrderColumns {
            ids: Vec::new(),
            item_unique_names: Vec::new(),
            location_ids: Vec::new(),
            quality_levels: Vec::new(),
            enchantment_levels: Vec::new(),
            unit_prices_silver: Vec::new(),
            amounts: Vec::new(),
            auction_types: Vec::new(),
            expires_ats: Vec::new(),
            created_ats: Vec::new(),
            updated_ats: Vec::new(),
        };
        let mut i: usize = 0;
        while i < rows.len()
            invariant
                i <= rows@.len(),
                columns.aligned(i as nat),
                forall|j: int| 0 <= j < i ==> #[trigger] columns.row(j) == rows@[j]@,
            decreases rows@.len() - i,
        {
            let row = &rows[i];
            let ghost before = columns;
            columns.ids.push(row.id);
            columns.item_unique_names.push(row.item_unique_name.clone());
            columns.location_ids.push(row.location_id.clone());
            columns.quality_levels.push(row.quality_level);
            columns.enchantment_levels.push(row.enchantment_level);
            columns.unit_prices_silver.push(row.unit_price_silver);
            columns.amounts.push(row.amount);
            columns.auction_types.push(row.auction_type.clone());
            columns.expires_ats.push(row.expires_at);
            columns.created_ats.push(row.created_at);
            columns.updated_ats.push(row.updated_at);
            assert forall|j: int| 0 <= j < i + 1 implies #[trigger] columns.row(j) == rows@[j]@ by {
                if j < i {
                    assert(before.row(j) == rows@[j]@);
                }
            }
            i = i + 1;
        }
        columns
    }
}

/// The rows of a history batch laid out as columns.
pub struct HistoryColumns {
    pub item_unique_names: Vec<String>,
    pub location_ids: Vec<String>,
    pub quality_levels: Vec<i32>,
    pub timescales: Vec<i32>,
    pub timestamps: Vec<Timestamp>,
    pub item_amounts: Vec<i32>,
    pub silver_amounts: Vec<i32>,
    pub created_ats: Vec<Timestamp>,
    pub updated_ats: Vec<Timestamp>,
}

impl HistoryColumns {
    /// Every column has `len` values.
    pub open spec fn aligned(&self, len: nat) -> bool {
        &&& self.item_unique_names@.len() == len
        &&& self.location_ids@.len() == len
        &&& self.quality_levels@.len() == len
        &&& self.timescales@.len() == len
        &&& self.timestamps@.len() == len
        &&& self.item_amounts@.len() == len
        &&& self.silver_amounts@.len() == len
        &&& self.created_ats@.len() == len
        &&& self.updated_ats@.len() == len
    }

    /// The row that the columns hold at place `i`.
    pub open spec fn row(&self, i: int) -> HistoryRow {
        HistoryRow {
            item_id: self.item_unique_names@[i]@,
            location_id: self.location_ids@[i]@,
            quality_level: self.quality_levels@[i],
            timescale: self.timescales@[i],
            timestamp: self.timestamps@[i],
            item_amount: self.item_amounts@[i],
            silver_amount: self.silver_amounts@[i],
            created_at: self.created_ats@[i],
            updated_at: self.updated_ats@[i],
        }
    }

    /// The columns hold exactly `rows`, in order.
    pub open spec fn holds(&self, rows: Seq<HistoryRow>) -> bool {
        &&& self.aligned(rows.len())
        &&& forall|i: int| 0 <= i < rows.len() ==> #[trigger] self.row(i) == rows[i]
    }

    /// Lays rows out as columns.
    pub fn from_rows(rows: &Vec<MarketHistory>) -> (columns: Self)
        ensures
            columns.holds(views(rows@)),
    {
        let mut columns = HistoryColumns {
            item_unique_names: Vec::new(),
            location_ids: Vec::new(),
            quality_levels: Vec::new(),
            timescales: Vec::new(),
            timestamps: Vec::new(),
            item_amounts: Vec::new(),
            silver_amounts: Vec::new(),
            created_ats: Vec::new(),
            updated_ats: Vec::new(),
        };
        let mut i: usize = 0;
        while i < rows.len()
            invariant
                i <= rows@.len(),
                columns.aligned(i as nat),
                forall|j: int| 0 <= j < i ==> #[trigger] columns.row(j) == rows@[j]@,
            decreases rows@.len() - i,
        {
            let row = &rows[i];
            let ghost before = columns;
            columns.item_unique_names.push(row.item_id.clone());
            columns.location_ids.push(row.location_id.clone());
            columns.quality_levels.push(row.quality_level);
            columns.timescales.push(row.timescale);
            columns.timestamps.push(row.timestamp);
            columns.item_amounts.push(row.item_amount);
            columns.silver_amounts.push(row.silver_amount);
            columns.created_ats.push(row.created_at);
            columns.updated_ats.push(row.updated_at);
            assert forall|j: int| 0 <= j < i + 1 implies #[trigger] columns.row(j) == rows@[j]@ by {
                if j < i {
                    assert(before.row(j) == rows@[j]@);
                }
            }
            i = i + 1;
        }
        columns
    }
}

} // verus!
