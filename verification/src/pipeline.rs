//! One cycle of the batch processor against an in-memory table: look at the
//! buffer, and once it has reached the threshold drain it, prepare the batch
//! and upsert it.

use crate::batch::decoded_histories;
use crate::batch::decoded_orders;
use crate::batch::lemma_last_entry_wins;
use crate::batch::order_entry_row;
use crate::batch::prepare_histories;
use crate::batch::prepare_orders;
use crate::batch::undecoded_histories;
use crate::buffer::IntakeBuffer;
use crate::models::db::MarketHistory;
use crate::models::db::MarketOrder;
use crate::models::db::OrderRow;
use crate::models::nats;
use crate::processor::saturating_sum;
use crate::processor::Action;
use crate::processor::BatchProcessor;
use crate::processor::CycleReport;
use crate::processor::Event;
use crate::processor::Phase;
use crate::record::latest_wins;
use crate::record::lemma_latest_wins;
use crate::record::views;
use crate::record::Record;
use crate::store::lemma_last_write_wins;
use crate::store::upserted;
use crate::store::Table;
use crate::time::Timestamp;
use vstd::prelude::*;

verus! {

/// Whether a look at a buffer of `size` messages starts a cycle.
pub open spec fn starts_cycle(processor: BatchProcessor, size: nat) -> bool {
    processor.phase == Phase::Idle && size >= processor.threshold
}

/// The processor after a cycle that drained `drained` messages, sent `rows`
/// rows and skipped `decode_errors` entries.
pub open spec fn after_cycle(
    processor: BatchProcessor,
    drained: usize,
    rows: usize,
    decode_errors: usize,
) -> BatchProcessor {
    BatchProcessor {
        threshold: processor.threshold,
        phase: Phase::Idle,
        drained,
        rows,
        decode_errors,
        total_decode_errors: saturating_sum(processor.total_decode_errors, decode_errors),
    }
}

/// Sends prepared rows to the table and closes the cycle.
fn finish_cycle<R: Record>(
    processor: &mut BatchProcessor,
    table: &mut Table<R>,
    drained: usize,
    rows: &Vec<R>,
    decode_errors: usize,
) -> (report: CycleReport)
    requires
        old(processor).phase == Phase::Draining,
        crate::record::distinct_keys::<R>(views(rows@)),
    ensures
        final(table)@ == upserted::<R>(old(table)@, views(rows@)),
        *final(processor) == after_cycle(*old(processor), drained, rows@.len() as usize, decode_errors),
        report == (CycleReport {
            drained,
            rows: rows@.len() as usize,
            decode_errors,
            rows_affected: Some(rows@.len() as u64),
        }),
{
    let _ = processor.step(Event::Drained { messages: drained });
    let _ = processor.step(Event::Prepared { rows: rows.len(), decode_errors });
    let event = match table.upsert(rows) {
        Ok(affected) => Event::Committed { rows_affected: affected as u64 },
        Err(_) => Event::RolledBack,
    };
    let _ = processor.step(event);
    CycleReport { drained, rows: rows.len(), decode_errors, rows_affected: Some(rows.len() as u64) }
}

/// Runs one cycle for orders. Below the threshold, or while the processor is
/// in the middle of a cycle, nothing is touched and nothing is reported. From
/// the threshold on, the buffer is drained, the latest row of each order id
/// among the entries that decode is upserted, and the cycle is reported.
pub fn run_order_cycle(
    processor: &mut BatchProcessor,
    buffer: &mut IntakeBuffer<Option<nats::MarketOrder>>,
    table: &mut Table<MarketOrder>,
    now: Timestamp,
) -> (report: Option<CycleReport>)
    ensures
        if starts_cycle(*old(processor), old(buffer)@.len()) {
            let decoded = decoded_orders(old(buffer)@, now);
            let rows = latest_wins::<MarketOrder>(decoded);
            &&& final(buffer)@ == Seq::<Option<nats::MarketOrder>>::empty()
            &&& final(table)@ == upserted::<MarketOrder>(old(table)@, rows)
            &&& report == Some(
                CycleReport {
                    drained: old(buffer)@.len() as usize,
                    rows: rows.len() as usize,
                    decode_errors: (old(buffer)@.len() - decoded.len()) as usize,
                    rows_affected: Some(rows.len() as u64),
                },
            )
            &&& *final(processor) == after_cycle(
                *old(processor),
                old(buffer)@.len() as usize,
                rows.len() as usize,
                (old(buffer)@.len() - decoded.len()) as usize,
            )
        } else {
            &&& report is None
            &&& final(buffer)@ == old(buffer)@
            &&& final(table)@ == old(table)@
            &&& *final(processor) == *old(processor)
        },
{
    match processor.step(Event::Polled { size: buffer.len() }) {
        Action::Drain => {},
        _ => {
            return None;
        },
    }
    let entries = buffer.drain_all();
    let batch = prepare_orders(&entries, now);
    proof {
        lemma_latest_wins::<MarketOrder>(decoded_orders(entries@, now));
    }
    Some(finish_cycle(processor, table, entries.len(), &batch.rows, batch.decode_errors))
}

/// Runs one cycle for history buckets, as `run_order_cycle` does for orders.
pub fn run_history_cycle(
    processor: &mut BatchProcessor,
    buffer: &mut IntakeBuffer<Option<nats::MarketHistories>>,
    table: &mut Table<MarketHistory>,
    now: Timestamp,
) -> (report: Option<CycleReport>)
    ensures
        if starts_cycle(*old(processor), old(buffer)@.len()) {
            let rows = latest_wins::<MarketHistory>(decoded_histories(old(buffer)@, now));
            &&& final(buffer)@ == Seq::<Option<nats::MarketHistories>>::empty()
            &&& final(table)@ == upserted::<MarketHistory>(old(table)@, rows)
            &&& report == Some(
                CycleReport {
                    drained: old(buffer)@.len() as usize,
                    rows: rows.len() as usize,
                    decode_errors: undecoded_histories(old(buffer)@, now) as usize,
                    rows_affected: Some(rows.len() as u64),
                },
            )
            &&& *final(processor) == after_cycle(
                *old(processor),
                old(buffer)@.len() as usize,
                rows.len() as usize,
                undecoded_histories(old(buffer)@, now) as usize,
            )
        } else {
            &&& report is None
            &&& final(buffer)@ == old(buffer)@
            &&& final(table)@ == old(table)@
            &&& *final(processor) == *old(processor)
        },
{
    match processor.step(Event::Polled { size: buffer.len() }) {
        Action::Drain => {},
        _ => {
            return None;
        },
    }
    let entries = buffer.drain_all();
    let batch = prepare_histories(&entries, now);
    proof {
        lemma_latest_wins::<MarketHistory>(decoded_histories(entries@, now));
    }
    Some(finish_cycle(processor, table, entries.len(), &batch.rows, batch.decode_errors))
}

/// After a cycle, the store holds under an order id what the last drained
/// entry with that id says: the entry's row as it came where the id is new,
/// and where the id was held, the stored row with the entry's price, amount,
/// expiry and time of update. Earlier entries with the id leave no trace.
pub proof fn lemma_last_message_is_stored(
    table: Map<i64, OrderRow>,
    entries: Seq<Option<nats::MarketOrder>>,
    now: Timestamp,
    at: int,
)
    requires
        0 <= at < entries.len(),
        order_entry_row(entries[at], now) is Some,
        forall|later: int|
            at < later < entries.len() ==> !(#[trigger] order_entry_row(entries[later], now)
                matches Some(row) && row.id == order_entry_row(entries[at], now)->0.id),
    ensures
        ({
            let last = order_entry_row(entries[at], now)->0;
            let after = upserted::<MarketOrder>(
                table,
                latest_wins::<MarketOrder>(decoded_orders(entries, now)),
            );
            &&& after.contains_key(last.id)
            &&& !table.contains_key(last.id) ==> after[last.id] == last
            &&& table.contains_key(last.id) ==> after[last.id] == MarketOrder::merged(
                table[last.id],
                last,
            )
            &&& after[last.id].unit_price_silver == last.unit_price_silver
            &&& after[last.id].amount == last.amount
            &&& after[last.id].expires_at == last.expires_at
            &&& after[last.id].updated_at == last.updated_at
        }),
{
    lemma_last_entry_wins(entries, now, at);
    lemma_last_write_wins::<MarketOrder>(table, decoded_orders(entries, now));
}

} // verus!
