//! The batch processor as a state machine: given what just happened, what to
//! do next. The caller owns the loop, the buffer's lock, the clock and the
//! store; it performs each action and reports back with the next event.

use vstd::prelude::*;

verus! {

/// Messages that must wait before a batch is drained.
pub const FLUSH_THRESHOLD: usize = 1000;

/// Milliseconds to sleep between two looks at the buffer.
pub const POLL_INTERVAL_MILLIS: u64 = 100;

/// Where the processor stands within a cycle.
#[derive(Clone, Copy, Debug, PartialEq, Eq, Structural)]
pub enum Phase {
    /// Watching the buffer's size.
    Idle,
    /// Waiting for the buffer's content.
    Draining,
    /// Waiting for the batch to be normalised and deduplicated.
    Deduplicating,
    /// Waiting for the store's answer to the bulk upsert.
    Upserting,
}

/// What the caller reports.
#[derive(Clone, Copy, Debug, PartialEq, Eq, Structural)]
pub enum Event {
    /// The buffer was seen to hold `size` messages.
    Polled { size: usize },
    /// The buffer handed out `messages` messages.
    Drained { messages: usize },
    /// The batch came down to `rows` rows; `decode_errors` entries were
    /// skipped.
    Prepared { rows: usize, decode_errors: usize },
    /// The store committed the bulk upsert.
    Committed { rows_affected: u64 },
    /// The store refused the bulk upsert and rolled it back.
    RolledBack,
}

/// What one finished cycle did.
#[derive(Clone, Copy, Debug, PartialEq, Eq, Structural)]
pub struct CycleReport {
    /// Messages drained from the buffer.
    pub drained: usize,
    /// Rows sent to the store.
    pub rows: usize,
    /// Entries skipped because they did not decode.
    pub decode_errors: usize,
    /// Rows the store reported as affected; `None` if it rolled back.
    pub rows_affected: Option<u64>,
}

/// What the caller does next.
#[derive(Clone, Copy, Debug, PartialEq, Eq, Structural)]
pub enum Action {
    /// Sleep for the poll interval, then look at the buffer again.
    Sleep,
    /// Drain the buffer.
    Drain,
    /// Normalise and deduplicate the drained batch.
    Prepare,
    /// Send the rows to the store in one transaction.
    Upsert,
    /// Publish the report, then look at the buffer again. A batch that was
    /// rolled back is not sent again.
    Report(CycleReport),
    /// The event does not belong to the current phase; nothing changes.
    Stay,
}

/// The processor's state.
#[derive(Clone, Copy, Debug, PartialEq, Eq, Structural)]
pub struct BatchProcessor {
    /// Buffer size from which a batch is drained.
    pub threshold: usize,
    pub phase: Phase,
    /// Messages drained in the current cycle.
    pub drained: usize,
    /// Rows prepared in the current cycle.
    pub rows: usize,
    /// Entries skipped in the current cycle.
    pub decode_errors: usize,
    /// Entries skipped since the processor started; stops at the largest
    /// value it can hold.
    pub total_decode_errors: u64,
}

/// The sum of two counts, stopping at the largest `u64`.
pub open spec fn saturating_sum(total: u64, more: usize) -> u64 {
    if total + more > u64::MAX {
        u64::MAX
    } else {
        (total + more) as u64
    }
}

/// The transition: the state after `event` and the action it calls for.
pub open spec fn next(state: BatchProcessor, event: Event) -> (BatchProcessor, Action) {
    match (state.phase, event) {
        (Phase::Idle, Event::Polled { size }) => if size < state.threshold {
            (state, Action::Sleep)
        } else {
            (
                BatchProcessor {
                    phase: Phase::Draining,
                    drained: 0,
                    rows: 0,
                    decode_errors: 0,
                    ..state
                },
                Action::Drain,
            )
        },
        (Phase::Draining, Event::Drained { messages }) => (
            BatchProcessor { phase: Phase::Deduplicating, drained: messages, ..state },
            Action::Prepare,
        ),
        (Phase::Deduplicating, Event::Prepared { rows, decode_errors }) => (
            BatchProcessor {
                phase: Phase::Upserting,
                rows,
                decode_errors,
                total_decode_errors: saturating_sum(state.total_decode_errors, decode_errors),
                ..state
            },
            Action::Upsert,
        ),
        (Phase::Upserting, Event::Committed { rows_affected }) => (
            BatchProcessor { phase: Phase::Idle, ..state },
            Action::Report(
                CycleReport {
                    drained: state.drained,
                    rows: state.rows,
                    decode_errors: state.decode_errors,
                    rows_affected: Some(rows_affected),
                },
            ),
        ),
        (Phase::Upserting, Event::RolledBack) => (
            BatchProcessor { phase: Phase::Idle, ..state },
            Action::Report(
                CycleReport {
                    drained: state.drained,
                    rows: state.rows,
                    decode_errors: state.decode_errors,
                    rows_affected: None,
                },
            ),
        ),
        _ => (state, Action::Stay),
    }
}

impl BatchProcessor {
    /// An idle processor that drains once `threshold` messages wait.
    pub fn new(threshold: usize) -> (processor: Self)
        ensures
            processor == (BatchProcessor {
                threshold,
                phase: Phase::Idle,
                drained: 0,
                rows: 0,
                decode_errors: 0,
                total_decode_errors: 0,
            }),
    {
        BatchProcessor {
            threshold,
            phase: Phase::Idle,
            drained: 0,
            rows: 0,
            decode_errors: 0,
            total_decode_errors: 0,
        }
    }

    /// Takes an event and says what to do next.
    pub fn step(&mut self, event: Event) -> (action: Action)
        ensures
            (*final(self), action) == next(*old(self), event),
    {
        match (self.phase, event) {
            (Phase::Idle, Event::Polled { size }) => {
                if size < self.threshold {
                    Action::Sleep
                } else {
                    self.phase = Phase::Draining;
                    self.drained = 0;
                    self.rows = 0;
                    self.decode_errors = 0;
                    Action::Drain
                }
            },
            (Phase::Draining, Event::Drained { messages }) => {
                self.phase = Phase::Deduplicating;
                self.drained = messages;
                Action::Prepare
            },
            (Phase::Deduplicating, Event::Prepared { rows, decode_errors }) => {
                self.phase = Phase::Upserting;
                self.rows = rows;
                self.decode_errors = decode_errors;
                self.total_decode_errors = self.total_decode_errors.saturating_add(
                    decode_errors as u64,
                );
                Action::Upsert
            },
            (Phase::Upserting, Event::Committed { rows_affected }) => {
                self.phase = Phase::Idle;
                Action::Report(
                    CycleReport {
                        drained: self.drained,
                        rows: self.rows,
                        decode_errors: self.decode_errors,
                        rows_affected: Some(rows_affected),
                    },
                )
            },
            (Phase::Upserting, Event::RolledBack) => {
                self.phase = Phase::Idle;
                Action::Report(
                    CycleReport {
                        drained: self.drained,
                        rows: self.rows,
                        decode_errors: self.decode_errors,
                        rows_affected: None,
                    },
                )
            },
            _ => Action::Stay,
        }
    }
}

/// The state after a run of events.
pub open spec fn state_after(state: BatchProcessor, events: Seq<Event>) -> BatchProcessor
    decreases events.len(),
{
    if events.len() == 0 {
        state
    } else {
        next(state_after(state, events.drop_last()), events.last()).0
    }
}

/// The action that the last event of a run calls for.
pub open spec fn last_action(state: BatchProcessor, events: Seq<Event>) -> Action
    recommends
        events.len() > 0,
{
    next(state_after(state, events.drop_last()), events.last()).1
}

/// How many drains a run of events starts.
pub open spec fn drains_started(state: BatchProcessor, events: Seq<Event>) -> nat
    decreases events.len(),
{
    if events.len() == 0 {
        0
    } else {
        drains_started(state, events.drop_last()) + if last_action(state, events) == Action::Drain {
            1nat
        } else {
            0nat
        }
    }
}

/// How many bulk upserts a run of events issues.
pub open spec fn upserts_issued(state: BatchProcessor, events: Seq<Event>) -> nat
    decreases events.len(),
{
    if events.len() == 0 {
        0
    } else {
        upserts_issued(state, events.drop_last()) + if last_action(state, events)
            == Action::Upsert {
            1nat
        } else {
            0nat
        }
    }
}

/// Whether an event shows an idle processor a buffer at or above its
/// threshold.
pub open spec fn is_crossing(state: BatchProcessor, event: Event) -> bool {
    &&& state.phase == Phase::Idle
    &&& event matches Event::Polled { size }
    &&& size >= state.threshold
}

/// How many times a run of events sees the buffer at or above the threshold
/// while the processor is idle.
pub open spec fn crossings(state: BatchProcessor, events: Seq<Event>) -> nat
    decreases events.len(),
{
    if events.len() == 0 {
        0
    } else {
        crossings(state, events.drop_last()) + if is_crossing(
            state_after(state, events.drop_last()),
            events.last(),
        ) {
            1nat
        } else {
            0nat
        }
    }
}

/// One if a drained batch is still on its way to the store, else zero.
pub open spec fn in_flight(phase: Phase) -> nat {
    if phase == Phase::Draining || phase == Phase::Deduplicating {
        1
    } else {
        0
    }
}

/// While every look at the buffer finds it below the threshold, an idle
/// processor stays idle and calls neither for a drain nor for a write.
pub proof fn lemma_no_write_below_threshold(state: BatchProcessor, events: Seq<Event>)
    requires
        state.phase == Phase::Idle,
        forall|i: int|
            0 <= i < events.len() ==> (#[trigger] events[i] matches Event::Polled { size }
                ==> size < state.threshold),
    ensures
        state_after(state, events) == state,
        drains_started(state, events) == 0,
        upserts_issued(state, events) == 0,
        forall|n: int|
            0 < n <= events.len() ==> {
                let action = #[trigger] last_action(state, events.subrange(0, n));
                action == Action::Sleep || action == Action::Stay
            },
    decreases events.len(),
{
    if events.len() > 0 {
        let front = events.drop_last();
        lemma_no_write_below_threshold(state, front);
        assert(events.last() == events[events.len() - 1]);
        assert forall|n: int| 0 < n <= events.len() implies {
            let action = #[trigger] last_action(state, events.subrange(0, n));
            action == Action::Sleep || action == Action::Stay
        } by {
            if n < events.len() {
                assert(events.subrange(0, n) =~= front.subrange(0, n));
            } else {
                assert(events.subrange(0, n) =~= events);
            }
        }
    }
}

/// Every crossing of the threshold starts one drain, and every drain leads
/// to one bulk upsert: the upserts issued so far, plus the batch that is
/// still on its way, are as many as the crossings seen.
pub proof fn lemma_one_write_per_crossing(state: BatchProcessor, events: Seq<Event>)
    ensures
        state_after(state, events).threshold == state.threshold,
        drains_started(state, events) == crossings(state, events),
        upserts_issued(state, events) + in_flight(state_after(state, events).phase) == crossings(
            state,
            events,
        ) + in_flight(state.phase),
    decreases events.len(),
{
    if events.len() > 0 {
        lemma_one_write_per_crossing(state, events.drop_last());
    }
}

} // verus!
