//! A keyed table with the store's conflict rule: a row whose key is new is
//! inserted, a row whose key is held overwrites what a later sighting may
//! overwrite, and one statement never touches a key twice.

use crate::maintenance::is_stale;
use crate::maintenance::stale;
use crate::models::db::HistoryKey;
use crate::models::db::HistoryRow;
use crate::models::db::MarketHistory;
use crate::models::db::MarketOrder;
use crate::models::db::OrderRow;
use crate::record::distinct_keys;
use crate::record::has_key;
use crate::record::last_with_key;
use crate::record::latest_wins;
use crate::record::lemma_last_with_key;
use crate::record::lemma_last_with_key_front;
use crate::record::lemma_latest_wins;
use crate::record::position_of;
use crate::record::views;
use crate::record::Record;
use crate::time::Timestamp;
use vstd::prelude::*;

verus! {

/// Why the store refused a statement.
#[derive(Clone, Copy, Debug, PartialEq, Eq, Structural)]
pub enum StoreError {
    /// Two rows of one statement had the same key.
    DuplicateKey,
}

/// The relation that a list of rows with distinct keys stands for.
pub open spec fn as_map<R: Record>(rows: Seq<R::V>) -> Map<R::Key, R::V> {
    Map::new(|key: R::Key| has_key::<R>(rows, key), |key: R::Key| last_with_key::<R>(rows, key)->0)
}

/// A table after a batch of rows with distinct keys was upserted: a key of
/// the batch that the table held keeps its row, merged with the incoming one;
/// a key of the batch that is new holds the incoming row; every other key is
/// as it was.
pub open spec fn upserted<R: Record>(table: Map<R::Key, R::V>, batch: Seq<R::V>) -> Map<
    R::Key,
    R::V,
> {
    Map::new(
        |key: R::Key| table.contains_key(key) || has_key::<R>(batch, key),
        |key: R::Key|
            match last_with_key::<R>(batch, key) {
                Some(incoming) => if table.contains_key(key) {
                    R::merged(table[key], incoming)
                } else {
                    incoming
                },
                None => table[key],
            },
    )
}

/// In a list with distinct keys, each row is the one found under its key.
pub proof fn lemma_found_at<R: Record>(rows: Seq<R::V>, at: int)
    requires
        distinct_keys::<R>(rows),
        0 <= at < rows.len(),
    ensures
        last_with_key::<R>(rows, R::key_of(rows[at])) == Some(rows[at]),
{
    let key = R::key_of(rows[at]);
    lemma_last_with_key::<R>(rows, key);
    let found = last_with_key::<R>(rows, key);
    assert(found is Some);
    let j = choose|j: int| 0 <= j < rows.len() && #[trigger] rows[j] == found->0;
    assert(R::key_of(rows[j]) == key);
    assert(j == at);
}

/// Replacing a row by one with the same key changes the relation at that
/// key only.
pub proof fn lemma_as_map_update<R: Record>(rows: Seq<R::V>, at: int, row: R::V)
    requires
        distinct_keys::<R>(rows),
        0 <= at < rows.len(),
        R::key_of(row) == R::key_of(rows[at]),
    ensures
        distinct_keys::<R>(rows.update(at, row)),
        as_map::<R>(rows.update(at, row)) == as_map::<R>(rows).insert(R::key_of(row), row),
{
    let after = rows.update(at, row);
    assert forall|i: int, j: int| 0 <= i < j < after.len() implies R::key_of(#[trigger] after[i])
        != R::key_of(#[trigger] after[j]) by {
        assert(R::key_of(after[i]) == R::key_of(rows[i]));
        assert(R::key_of(after[j]) == R::key_of(rows[j]));
    }
    assert forall|key: R::Key|
        last_with_key::<R>(after, key) == if key == R::key_of(row) {
            Some(row)
        } else {
            last_with_key::<R>(rows, key)
        } by {
        if key == R::key_of(row) {
            lemma_found_at::<R>(after, at);
        } else {
            lemma_last_with_key::<R>(rows, key);
            lemma_last_with_key::<R>(after, key);
            match last_with_key::<R>(rows, key) {
                Some(found) => {
                    let j = choose|j: int| 0 <= j < rows.len() && #[trigger] rows[j] == found;
                    assert(after[j] == rows[j]);
                    lemma_found_at::<R>(after, j);
                },
                None => {
                    if last_with_key::<R>(after, key) is Some {
                        let found = last_with_key::<R>(after, key)->0;
                        let j = choose|j: int| 0 <= j < after.len() && #[trigger] after[j] == found;
                        assert(R::key_of(rows[j]) == key);
                    }
                },
            }
        }
    }
    assert(as_map::<R>(after) =~= as_map::<R>(rows).insert(R::key_of(row), row));
}

/// Appending a row with a new key adds that key to the relation.
pub proof fn lemma_as_map_push<R: Record>(rows: Seq<R::V>, row: R::V)
    requires
        distinct_keys::<R>(rows),
        !has_key::<R>(rows, R::key_of(row)),
    ensures
        distinct_keys::<R>(rows.push(row)),
        as_map::<R>(rows.push(row)) == as_map::<R>(rows).insert(R::key_of(row), row),
{
    let after = rows.push(row);
    lemma_last_with_key::<R>(rows, R::key_of(row));
    assert forall|i: int, j: int| 0 <= i < j < after.len() implies R::key_of(#[trigger] after[i])
        != R::key_of(#[trigger] after[j]) by {
        assert(after[i] == rows[i]);
        if j < rows.len() {
            assert(after[j] == rows[j]);
        }
    }
    assert(after.last() == row);
    assert(after.drop_last() =~= rows);
    assert forall|key: R::Key|
        last_with_key::<R>(after, key) == if key == R::key_of(row) {
            Some(row)
        } else {
            last_with_key::<R>(rows, key)
        } by {
    }
    assert(as_map::<R>(after) =~= as_map::<R>(rows).insert(R::key_of(row), row));
}

/// A list of rows with distinct keys holds as many keys as rows.
pub proof fn lemma_as_map_len<R: Record>(rows: Seq<R::V>)
    requires
        distinct_keys::<R>(rows),
    ensures
        as_map::<R>(rows).dom().finite(),
        as_map::<R>(rows).dom().len() == rows.len(),
    decreases rows.len(),
{
    if rows.len() == 0 {
        assert(as_map::<R>(rows).dom() =~= Set::<R::Key>::empty());
    } else {
        let front = rows.drop_last();
        let row = rows.last();
        assert forall|i: int, j: int| 0 <= i < j < front.len() implies R::key_of(
            #[trigger] front[i],
        ) != R::key_of(#[trigger] front[j]) by {
            assert(front[i] == rows[i] && front[j] == rows[j]);
        }
        lemma_as_map_len::<R>(front);
        lemma_last_with_key::<R>(front, R::key_of(row));
        if has_key::<R>(front, R::key_of(row)) {
            let found = last_with_key::<R>(front, R::key_of(row))->0;
            let j = choose|j: int| 0 <= j < front.len() && #[trigger] front[j] == found;
            assert(rows[j] == front[j]);
            assert(rows[rows.len() - 1] == row);
        }
        lemma_as_map_push::<R>(front, row);
        assert(front.push(row) =~= rows);
        assert(as_map::<R>(rows).dom() =~= as_map::<R>(front).dom().insert(R::key_of(row)));
    }
}

/// Upserting one more row with a key the batch did not have yet.
pub proof fn lemma_upserted_push<R: Record>(
    table: Map<R::Key, R::V>,
    batch: Seq<R::V>,
    row: R::V,
)
    requires
        !has_key::<R>(batch, R::key_of(row)),
    ensures
        upserted::<R>(table, batch.push(row)) == upserted::<R>(table, batch).insert(
            R::key_of(row),
            if table.contains_key(R::key_of(row)) {
                R::merged(table[R::key_of(row)], row)
            } else {
                row
            },
        ),
{
    let after = batch.push(row);
    assert(after.last() == row);
    assert(after.drop_last() =~= batch);
    assert forall|key: R::Key|
        last_with_key::<R>(after, key) == if key == R::key_of(row) {
            Some(row)
        } else {
            last_with_key::<R>(batch, key)
        } by {
    }
    assert(upserted::<R>(table, after) =~= upserted::<R>(table, batch).insert(
        R::key_of(row),
        if table.contains_key(R::key_of(row)) {
            R::merged(table[R::key_of(row)], row)
        } else {
            row
        },
    ));
}

/// Putting a row with a new key in front of a list adds that key to the
/// relation.
pub proof fn lemma_as_map_push_front<R: Record>(row: R::V, rows: Seq<R::V>)
    requires
        !has_key::<R>(rows, R::key_of(row)),
    ensures
        as_map::<R>(seq![row] + rows) == as_map::<R>(rows).insert(R::key_of(row), row),
{
    assert forall|key: R::Key|
        last_with_key::<R>(seq![row] + rows, key) == if key == R::key_of(row) {
            Some(row)
        } else {
            last_with_key::<R>(rows, key)
        } by {
        lemma_last_with_key_front::<R>(row, rows, key);
    }
    assert(as_map::<R>(seq![row] + rows) =~= as_map::<R>(rows).insert(R::key_of(row), row));
}

/// The orders a sweep at `now` leaves: those that are not stale, unchanged.
pub open spec fn swept(table: Map<i64, OrderRow>, now: Timestamp, retention_secs: u64) -> Map<
    i64,
    OrderRow,
> {
    Map::new(
        |id: i64| table.contains_key(id) && !stale(table[id], now, retention_secs),
        |id: i64| table[id],
    )
}

/// Deduplicating a batch and upserting it leaves, under each key of the
/// batch, the last row of the batch with that key: as it came where the key
/// is new, merged into the stored row where the key was held. Keys that the
/// batch does not name are untouched, and the deduplicated batch is one the
/// store accepts.
pub proof fn lemma_last_write_wins<R: Record>(table: Map<R::Key, R::V>, batch: Seq<R::V>)
    ensures
        distinct_keys::<R>(latest_wins::<R>(batch)),
        forall|key: R::Key|
            #[trigger] upserted::<R>(table, latest_wins::<R>(batch)).contains_key(key) <==> (
            table.contains_key(key) || has_key::<R>(batch, key)),
        forall|key: R::Key|
            has_key::<R>(batch, key) ==> #[trigger] upserted::<R>(table, latest_wins::<R>(batch))[key]
                == if table.contains_key(key) {
                R::merged(table[key], last_with_key::<R>(batch, key)->0)
            } else {
                last_with_key::<R>(batch, key)->0
            },
        forall|key: R::Key|
            !has_key::<R>(batch, key) && table.contains_key(key) ==> #[trigger] upserted::<R>(
                table,
                latest_wins::<R>(batch),
            )[key] == table[key],
{
    lemma_latest_wins::<R>(batch);
    assert forall|key: R::Key|
        has_key::<R>(latest_wins::<R>(batch), key) == has_key::<R>(batch, key) by {
        assert(last_with_key::<R>(latest_wins::<R>(batch), key) == last_with_key::<R>(batch, key));
    }
}

/// An upsert never removes a key, and a stored row either stays as it was or
/// is merged with one incoming row of its key.
pub proof fn lemma_upsert_keeps_rows<R: Record>(table: Map<R::Key, R::V>, batch: Seq<R::V>)
    ensures
        forall|key: R::Key|
            table.contains_key(key) ==> #[trigger] upserted::<R>(table, batch).contains_key(key),
        forall|key: R::Key|
            table.contains_key(key) ==> #[trigger] upserted::<R>(table, batch)[key] == table[key]
                || exists|j: int|
                0 <= j < batch.len() && R::key_of(batch[j]) == key && upserted::<R>(
                    table,
                    batch,
                )[key] == R::merged(table[key], #[trigger] batch[j]),
{
    assert forall|key: R::Key| table.contains_key(key) implies #[trigger] upserted::<R>(
        table,
        batch,
    )[key] == table[key] || exists|j: int|
        0 <= j < batch.len() && R::key_of(batch[j]) == key && upserted::<R>(table, batch)[key]
            == R::merged(table[key], #[trigger] batch[j]) by {
        lemma_last_with_key::<R>(batch, key);
        match last_with_key::<R>(batch, key) {
            Some(incoming) => {
                let j = choose|j: int| 0 <= j < batch.len() && #[trigger] batch[j] == incoming;
                assert(R::key_of(batch[j]) == key);
            },
            None => {},
        }
    }
}

/// An upsert leaves the identity of every stored order alone: its id, item,
/// location, levels, auction type and the time it was first seen. Only price,
/// amount, expiry and the time of the last update can differ afterwards.
pub proof fn lemma_upsert_keeps_order_identity(table: Map<i64, OrderRow>, batch: Seq<OrderRow>)
    ensures
        forall|id: i64|
            table.contains_key(id) ==> {
                let after = #[trigger] upserted::<MarketOrder>(table, batch)[id];
                &&& upserted::<MarketOrder>(table, batch).contains_key(id)
                &&& after.id == table[id].id
                &&& after.item_unique_name == table[id].item_unique_name
                &&& after.location_id == table[id].location_id
                &&& after.quality_level == table[id].quality_level
                &&& after.enchantment_level == table[id].enchantment_level
                &&& after.auction_type == table[id].auction_type
                &&& after.created_at == table[id].created_at
            },
{
    lemma_upsert_keeps_rows::<MarketOrder>(table, batch);
}

/// An upsert leaves the identity of every stored history bucket alone: its
/// item, location, quality, timescale, start and the time it was first seen.
/// Only the traded volumes and the time of the last update can differ
/// afterwards.
pub proof fn lemma_upsert_keeps_history_identity(
    table: Map<HistoryKey, HistoryRow>,
    batch: Seq<HistoryRow>,
)
    ensures
        forall|key: HistoryKey|
            table.contains_key(key) ==> {
                let after = #[trigger] upserted::<MarketHistory>(table, batch)[key];
                &&& upserted::<MarketHistory>(table, batch).contains_key(key)
                &&& after.item_id == table[key].item_id
                &&& after.location_id == table[key].location_id
                &&& after.quality_level == table[key].quality_level
                &&& after.timescale == table[key].timescale
                &&& after.timestamp == table[key].timestamp
                &&& after.created_at == table[key].created_at
            },
{
    lemma_upsert_keeps_rows::<MarketHistory>(table, batch);
}

/// Whether no two rows of a batch share a key.
pub fn has_distinct_keys<R: Record>(rows: &Vec<R>) -> (r: bool)
    ensures
        r == distinct_keys::<R>(views(rows@)),
{
    let mut j: usize = 0;
    while j < rows.len()
        invariant
            j <= rows@.len(),
            forall|a: int, b: int|
                0 <= a < b < j ==> R::key_of((#[trigger] rows@[a])@) != R::key_of(
                    (#[trigger] rows@[b])@,
                ),
        decreases rows@.len() - j,
    {
        let mut i: usize = 0;
        while i < j
            invariant
                i <= j < rows@.len(),
                forall|a: int|
                    0 <= a < i ==> R::key_of((#[trigger] rows@[a])@) != R::key_of(rows@[j as int]@),
            decreases j - i,
        {
            if rows[i].same_key(&rows[j]) {
                assert(views(rows@)[i as int] == rows@[i as int]@);
                assert(views(rows@)[j as int] == rows@[j as int]@);
                return false;
            }
            i = i + 1;
        }
        j = j + 1;
    }
    assert forall|a: int, b: int| 0 <= a < b < views(rows@).len() implies R::key_of(
        #[trigger] views(rows@)[a],
    ) != R::key_of(#[trigger] views(rows@)[b]) by {
        assert(views(rows@)[a] == rows@[a]@ && views(rows@)[b] == rows@[b]@);
    }
    true
}

/// An in-memory table keyed by the natural key of its rows.
pub struct Table<R: Record> {
    rows: Vec<R>,
}

impl<R: Record> View for Table<R> {
    type V = Map<R::Key, R::V>;

    closed spec fn view(&self) -> Map<R::Key, R::V> {
        as_map::<R>(views(self.rows@))
    }
}

impl<R: Record> Table<R> {
    #[verifier::type_invariant]
    spec fn keys_are_distinct(&self) -> bool {
        distinct_keys::<R>(views(self.rows@))
    }

    /// An empty table.
    pub fn new() -> (table: Self)
        ensures
            table@ == Map::<R::Key, R::V>::empty(),
    {
        let table = Table { rows: Vec::new() };
        assert(table@ =~= Map::<R::Key, R::V>::empty());
        table
    }

    /// The number of rows.
    pub fn len(&self) -> (n: usize)
        ensures
            self@.dom().finite(),
            n == self@.dom().len(),
    {
        proof {
            use_type_invariant(self);
            lemma_as_map_len::<R>(views(self.rows@));
        }
        self.rows.len()
    }

    /// The rows, each key once, in no particular order.
    pub fn rows(&self) -> (rows: &Vec<R>)
        ensures
            distinct_keys::<R>(views(rows@)),
            as_map::<R>(views(rows@)) == self@,
    {
        proof {
            use_type_invariant(self);
        }
        &self.rows
    }

    /// The row held under the key of `probe`.
    pub fn find(&self, probe: &R) -> (r: Option<&R>)
        ensures
            match r {
                Some(row) => self@.contains_key(R::key_of(probe@)) && row@ == self@[R::key_of(
                    probe@,
                )],
                None => !self@.contains_key(R::key_of(probe@)),
            },
    {
        proof {
            use_type_invariant(self);
        }
        match position_of(&self.rows, probe) {
            Some(at) => {
                proof {
                    assert(views(self.rows@)[at as int] == self.rows@[at as int]@);
                    lemma_found_at::<R>(views(self.rows@), at as int);
                }
                Some(&self.rows[at])
            },
            None => None,
        }
    }

    /// Upserts a batch in one statement and returns the number of rows
    /// affected. A batch that names a key twice is refused and leaves the
    /// table as it was.
    pub fn upsert(&mut self, batch: &Vec<R>) -> (r: Result<usize, StoreError>)
        ensures
            match r {
                Ok(affected) => distinct_keys::<R>(views(batch@)) && affected == batch@.len()
                    && final(self)@ == upserted::<R>(old(self)@, views(batch@)),
                Err(e) => !distinct_keys::<R>(views(batch@)) && e == StoreError::DuplicateKey
                    && final(self)@ == old(self)@,
            },
    {
        proof {
            use_type_invariant(&*self);
        }
        if !has_distinct_keys(batch) {
            return Err(StoreError::DuplicateKey);
        }
        let ghost before = self@;
        let ghost incoming = views(batch@);
        assert(self@ =~= upserted::<R>(before, incoming.subrange(0, 0)));
        let mut rows: Vec<R> = Vec::new();
        std::mem::swap(&mut self.rows, &mut rows);
        let mut i: usize = 0;
        while i < batch.len()
            invariant
                i <= batch@.len(),
                incoming == views(batch@),
                distinct_keys::<R>(incoming),
                distinct_keys::<R>(views(rows@)),
                as_map::<R>(views(rows@)) == upserted::<R>(before, incoming.subrange(0, i as int)),
            decreases batch@.len() - i,
        {
            let ghost done = incoming.subrange(0, i as int);
            let ghost row = batch@[i as int]@;
            let ghost key = R::key_of(row);
            let ghost held = views(rows@);
            proof {
                assert(incoming[i as int] == row);
                lemma_last_with_key::<R>(done, key);
                if has_key::<R>(done, key) {
                    let found = last_with_key::<R>(done, key)->0;
                    let j = choose|j: int| 0 <= j < done.len() && #[trigger] done[j] == found;
                    assert(incoming[j] == done[j]);
                }
                lemma_upserted_push::<R>(before, done, row);
                assert(done.push(row) =~= incoming.subrange(0, i + 1));
            }
            match position_of(&rows, &batch[i]) {
                Some(at) => {
                    proof {
                        assert(held[at as int] == rows@[at as int]@);
                        lemma_found_at::<R>(held, at as int);
                        R::lemma_merged_keeps_key(held[at as int], row);
                        lemma_as_map_update::<R>(
                            held,
                            at as int,
                            R::merged(held[at as int], row),
                        );
                        assert(as_map::<R>(held).contains_key(key));
                        assert(as_map::<R>(held)[key] == held[at as int]);
                        assert(before.contains_key(key));
                        assert(upserted::<R>(before, done)[key] == before[key]);
                    }
                    rows[at].merge(&batch[i]);
                    assert(views(rows@) =~= held.update(
                        at as int,
                        R::merged(held[at as int], row),
                    ));
                },
                None => {
                    proof {
                        lemma_as_map_push::<R>(held, row);
                        assert(!as_map::<R>(held).contains_key(key));
                        assert(!before.contains_key(key));
                    }
                    rows.push(batch[i].duplicate());
                    assert(views(rows@) =~= held.push(row));
                },
            }
            i = i + 1;
        }
        assert(incoming.subrange(0, batch@.len() as int) =~= incoming);
        self.rows = rows;
        Ok(batch.len())
    }
}

impl Table<MarketOrder> {
    /// The order with the given id.
    pub fn get(&self, id: i64) -> (r: Option<&MarketOrder>)
        ensures
            match r {
                Some(order) => self@.contains_key(id) && order@ == self@[id],
                None => !self@.contains_key(id),
            },
    {
        proof {
            use_type_invariant(self);
        }
        let mut i: usize = 0;
        while i < self.rows.len()
            invariant
                i <= self.rows@.len(),
                distinct_keys::<MarketOrder>(views(self.rows@)),
                forall|j: int| 0 <= j < i ==> (#[trigger] self.rows@[j]).id != id,
            decreases self.rows@.len() - i,
        {
            if self.rows[i].id == id {
                proof {
                    assert(views(self.rows@)[i as int] == self.rows@[i as int]@);
                    lemma_found_at::<MarketOrder>(views(self.rows@), i as int);
                }
                return Some(&self.rows[i]);
            }
            i = i + 1;
        }
        proof {
            lemma_last_with_key::<MarketOrder>(views(self.rows@), id);
            if has_key::<MarketOrder>(views(self.rows@), id) {
                let found = last_with_key::<MarketOrder>(views(self.rows@), id)->0;
                let j = choose|j: int|
                    0 <= j < views(self.rows@).len() && #[trigger] views(self.rows@)[j] == found;
                assert(self.rows@[j]@ == found);
            }
        }
        None
    }

    /// Removes every order that is stale at `now` and no other, and returns
    /// how many it removed.
    pub fn sweep_expired(&mut self, now: Timestamp, retention_secs: u64) -> (removed: usize)
        ensures
            final(self)@ == swept(old(self)@, now, retention_secs),
            old(self)@.dom().finite(),
            final(self)@.dom().finite(),
            removed == old(self)@.dom().len() - final(self)@.dom().len(),
    {
        proof {
            use_type_invariant(&*self);
        }
        let ghost held = views(self.rows@);
        let mut rest: Vec<MarketOrder> = Vec::new();
        std::mem::swap(&mut self.rows, &mut rest);
        let total = rest.len();
        let mut kept: Vec<MarketOrder> = Vec::new();
        assert(held.subrange(held.len() as int, held.len() as int) =~= Seq::<OrderRow>::empty());
        assert(as_map::<MarketOrder>(views(kept@)) =~= swept(
            as_map::<MarketOrder>(Seq::<OrderRow>::empty()),
            now,
            retention_secs,
        ));
        while rest.len() > 0
            invariant
                held.len() == total,
                distinct_keys::<MarketOrder>(held),
                rest@.len() <= held.len(),
                views(rest@) == held.subrange(0, rest@.len() as int),
                kept@.len() <= held.len() - rest@.len(),
                distinct_keys::<MarketOrder>(views(kept@)),
                as_map::<MarketOrder>(views(kept@)) == swept(
                    as_map::<MarketOrder>(held.subrange(rest@.len() as int, held.len() as int)),
                    now,
                    retention_secs,
                ),
            decreases rest@.len(),
        {
            let ghost done = held.subrange(rest@.len() as int, held.len() as int);
            let ghost at = rest@.len() - 1;
            let ghost before = views(rest@);
            let row = rest.pop().unwrap();
            proof {
                assert(row@ == before[at]);
                assert(views(rest@) =~= held.subrange(0, rest@.len() as int));
                assert(held.subrange(at, held.len() as int) =~= seq![row@] + done);
                lemma_last_with_key::<MarketOrder>(done, row.id);
                if has_key::<MarketOrder>(done, row.id) {
                    let found = last_with_key::<MarketOrder>(done, row.id)->0;
                    let j = choose|j: int| 0 <= j < done.len() && #[trigger] done[j] == found;
                    assert(held[at + 1 + j] == done[j]);
                    assert(held[at] == row@);
                }
                lemma_as_map_push_front::<MarketOrder>(row@, done);
            }
            if !is_stale(&row, now, retention_secs) {
                proof {
                    assert(!as_map::<MarketOrder>(done).contains_key(row.id));
                    assert(!as_map::<MarketOrder>(views(kept@)).contains_key(row.id));
                    lemma_as_map_push::<MarketOrder>(views(kept@), row@);
                }
                let ghost kept_before = views(kept@);
                kept.push(row);
                assert(views(kept@) =~= kept_before.push(row@));
                assert(as_map::<MarketOrder>(views(kept@)) =~= swept(
                    as_map::<MarketOrder>(seq![row@] + done),
                    now,
                    retention_secs,
                ));
            } else {
                assert(as_map::<MarketOrder>(views(kept@)) =~= swept(
                    as_map::<MarketOrder>(seq![row@] + done),
                    now,
                    retention_secs,
                ));
            }
        }
        proof {
            assert(held.subrange(0, held.len() as int) =~= held);
            lemma_as_map_len::<MarketOrder>(held);
            lemma_as_map_len::<MarketOrder>(views(kept@));
        }
        let removed = total - kept.len();
        self.rows = kept;
        removed
    }
}

} // verus!
