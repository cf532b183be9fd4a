//! Periodic upkeep of the store: which orders a sweep removes, and the steps
//! of an aggregate refresh.

use crate::models::db::MarketOrder;
use crate::models::db::OrderRow;
use crate::time::Timestamp;
use crate::time::MIN_SECS;
use vstd::prelude::*;

verus! {

/// Seconds between two expiry sweeps.
pub const SWEEP_INTERVAL_SECS: u64 = 900;

/// Seconds between two aggregate refreshes.
pub const REFRESH_INTERVAL_SECS: u64 = 600;

/// Seconds an order may go without an update before a sweep removes it.
pub const RETENTION_SECS: u64 = 86_400;

/// Whether `seen` lies more than `retention_secs` seconds before `now`.
pub open spec fn older_than(seen: Timestamp, now: Timestamp, retention_secs: u64) -> bool {
    seen.secs + retention_secs < now.secs || (seen.secs + retention_secs == now.secs && seen.nanos
        < now.nanos)
}

/// Whether a sweep at `now` removes the order: its expiry has passed, or its
/// last update lies further back than the retention window.
pub open spec fn stale(row: OrderRow, now: Timestamp, retention_secs: u64) -> bool {
    row.expires_at.before(&now) || older_than(row.updated_at, now, retention_secs)
}

/// Whether a sweep at `now` removes the order.
pub fn is_stale(order: &MarketOrder, now: Timestamp, retention_secs: u64) -> (r: bool)
    ensures
        r == stale(order@, now, retention_secs),
{
    if order.expires_at.is_before(&now) {
        return true;
    }
    let limit: i128 = order.updated_at.secs as i128 + retention_secs as i128;
    limit < now.secs as i128 || (limit == now.secs as i128 && order.updated_at.nanos < now.nanos)
}

/// The instant `retention_secs` seconds before `now`, if the calendar reaches
/// that far back. Where `now` lies in a leap second and the earlier second
/// cannot hold one, the start of the second after it stands in.
pub open spec fn cutoff(now: Timestamp, retention_secs: u64) -> Option<Timestamp> {
    let secs = now.secs - retention_secs;
    if secs < MIN_SECS {
        None
    } else if now.nanos >= 1_000_000_000 && secs % 60 != 59 {
        Some(Timestamp { secs: (secs + 1) as i64, nanos: 0 })
    } else {
        Some(Timestamp { secs: secs as i64, nanos: now.nanos })
    }
}

/// The instant before which an update is older than the retention window, for
/// a sweep at `now`; `None` where the calendar does not reach that far back,
/// so that no update is.
pub fn sweep_cutoff(now: Timestamp, retention_secs: u64) -> (r: Option<Timestamp>)
    requires
        now.wf(),
    ensures
        r == cutoff(now, retention_secs),
        match r {
            Some(cutoff) => cutoff.wf() && forall|seen: Timestamp|
                seen.wf() ==> (#[trigger] seen.before(&cutoff) <==> older_than(
                    seen,
                    now,
                    retention_secs,
                )),
            None => forall|seen: Timestamp|
                seen.wf() ==> !#[trigger] older_than(seen, now, retention_secs),
        },
{
    let secs: i128 = now.secs as i128 - retention_secs as i128;
    if secs < MIN_SECS as i128 {
        return None;
    }
    let secs: i64 = secs as i64;
    if now.nanos >= 1_000_000_000 && secs % 60 != 59 && secs % 60 != -1 {
        // A leap second can only be written in the last second of a minute:
        // every instant of this second lies before it, so the next second
        // bounds the same instants.
        assert(retention_secs > 0);
        let cutoff = Timestamp { secs: secs + 1, nanos: 0 };
        assert(forall|seen: Timestamp|
            seen.wf() && seen.secs == secs ==> #[trigger] seen.before(&cutoff) && seen.nanos
                < 1_000_000_000);
        return Some(cutoff);
    }
    Some(Timestamp { secs, nanos: now.nanos })
}

/// A statement that deletes the orders whose expiry lies before `now` or
/// whose last update lies before the cutoff deletes exactly the stale ones;
/// without a cutoff, exactly those whose expiry lies before `now`.
pub proof fn lemma_cutoff_selects_stale(row: OrderRow, now: Timestamp, retention_secs: u64)
    requires
        now.wf(),
        row.updated_at.wf(),
    ensures
        stale(row, now, retention_secs) <==> row.expires_at.before(&now) || (cutoff(
            now,
            retention_secs,
        ) matches Some(limit) && row.updated_at.before(&limit)),
{
}

/// A derived aggregate that the store keeps as a materialized view.
#[derive(Clone, Copy, Debug, PartialEq, Eq, Structural)]
pub enum Aggregate {
    CountByCreatedAtAndLocation,
    CountByUpdatedAtAndLocation,
    CountByCreatedAt,
    CountByUpdatedAt,
    CountByLocation,
}

/// The number of aggregates that a refresh recomputes.
pub const AGGREGATE_COUNT: usize = 5;

/// The aggregates in the order in which a refresh recomputes them.
pub open spec fn aggregate_at(place: int) -> Aggregate {
    if place == 0 {
        Aggregate::CountByCreatedAtAndLocation
    } else if place == 1 {
        Aggregate::CountByUpdatedAtAndLocation
    } else if place == 2 {
        Aggregate::CountByCreatedAt
    } else if place == 3 {
        Aggregate::CountByUpdatedAt
    } else {
        Aggregate::CountByLocation
    }
}

/// The name of the view that holds an aggregate.
pub open spec fn aggregate_name(aggregate: Aggregate) -> Seq<char> {
    match aggregate {
        Aggregate::CountByCreatedAtAndLocation => "market_orders_count_by_created_at_and_location"@,
        Aggregate::CountByUpdatedAtAndLocation => "market_orders_count_by_updated_at_and_location"@,
        Aggregate::CountByCreatedAt => "market_orders_count_by_created_at"@,
        Aggregate::CountByUpdatedAt => "market_orders_count_by_updated_at"@,
        Aggregate::CountByLocation => "market_orders_count_by_location"@,
    }
}

impl Aggregate {
    /// The aggregate recomputed at `place` of a refresh, if there is such a
    /// place.
    pub fn at(place: usize) -> (r: Option<Aggregate>)
        ensures
            r == if place < AGGREGATE_COUNT {
                Some(aggregate_at(place as int))
            } else {
                None
            },
    {
        if place == 0 {
            Some(Aggregate::CountByCreatedAtAndLocation)
        } else if place == 1 {
            Some(Aggregate::CountByUpdatedAtAndLocation)
        } else if place == 2 {
            Some(Aggregate::CountByCreatedAt)
        } else if place == 3 {
            Some(Aggregate::CountByUpdatedAt)
        } else if place == 4 {
            Some(Aggregate::CountByLocation)
        } else {
            None
        }
    }

    /// The name of the view that holds the aggregate.
    pub fn name(&self) -> (r: &'static str)
        ensures
            r@ == aggregate_name(*self),
    {
        match self {
            Aggregate::CountByCreatedAtAndLocation => {
                "market_orders_count_by_created_at_and_location"
            },
            Aggregate::CountByUpdatedAtAndLocation => {
                "market_orders_count_by_updated_at_and_location"
            },
            Aggregate::CountByCreatedAt => "market_orders_count_by_created_at",
            Aggregate::CountByUpdatedAt => "market_orders_count_by_updated_at",
            Aggregate::CountByLocation => "market_orders_count_by_location",
        }
    }
}

/// Where an aggregate refresh stands.
#[derive(Clone, Copy, Debug, PartialEq, Eq, Structural)]
pub enum RefreshPhase {
    /// Between two refreshes.
    Waiting,
    /// Waiting for the transaction to open.
    Beginning,
    /// Waiting for the aggregate at `place` to be recomputed.
    Refreshing { place: usize },
    /// Waiting for the transaction to commit.
    Committing,
    /// Waiting for the transaction to roll back.
    RollingBack,
}

/// What the caller reports to the refresh.
#[derive(Clone, Copy, Debug, PartialEq, Eq, Structural)]
pub enum RefreshEvent {
    /// The refresh interval has passed.
    Tick,
    /// The step asked for succeeded.
    Done,
    /// The step asked for failed.
    Failed,
}

/// What the caller does next for the refresh.
#[derive(Clone, Copy, Debug, PartialEq, Eq, Structural)]
pub enum RefreshAction {
    /// Sleep for the refresh interval, then report a tick.
    Sleep,
    /// Open a transaction.
    Begin,
    /// Recompute one aggregate within the transaction.
    Refresh(Aggregate),
    /// Commit the transaction.
    Commit,
    /// Roll the transaction back.
    Rollback,
    /// The event does not belong to the current phase; nothing changes.
    Stay,
}

/// The transition of an aggregate refresh: the phase after `event` and the
/// action it calls for. A failure anywhere ends the cycle without a commit,
/// and the next tick starts from the first aggregate again.
pub open spec fn refresh_next(phase: RefreshPhase, event: RefreshEvent) -> (
    RefreshPhase,
    RefreshAction,
) {
    match (phase, event) {
        (RefreshPhase::Waiting, RefreshEvent::Tick) => (
            RefreshPhase::Beginning,
            RefreshAction::Begin,
        ),
        (RefreshPhase::Beginning, RefreshEvent::Done) => (
            RefreshPhase::Refreshing { place: 0 },
            RefreshAction::Refresh(aggregate_at(0)),
        ),
        (RefreshPhase::Beginning, RefreshEvent::Failed) => (
            RefreshPhase::Waiting,
            RefreshAction::Sleep,
        ),
        (RefreshPhase::Refreshing { place }, RefreshEvent::Done) => if place + 1
            < AGGREGATE_COUNT {
            (
                RefreshPhase::Refreshing { place: (place + 1) as usize },
                RefreshAction::Refresh(aggregate_at(place + 1)),
            )
        } else {
            (RefreshPhase::Committing, RefreshAction::Commit)
        },
        (RefreshPhase::Refreshing { place }, RefreshEvent::Failed) => (
            RefreshPhase::RollingBack,
            RefreshAction::Rollback,
        ),
        (RefreshPhase::Committing, RefreshEvent::Done) => (
            RefreshPhase::Waiting,
            RefreshAction::Sleep,
        ),
        (RefreshPhase::Committing, RefreshEvent::Failed) => (
            RefreshPhase::Waiting,
            RefreshAction::Sleep,
        ),
        (RefreshPhase::RollingBack, RefreshEvent::Done) => (
            RefreshPhase::Waiting,
            RefreshAction::Sleep,
        ),
        (RefreshPhase::RollingBack, RefreshEvent::Failed) => (
            RefreshPhase::Waiting,
            RefreshAction::Sleep,
        ),
        _ => (phase, RefreshAction::Stay),
    }
}

/// Takes an event of an aggregate refresh and says what to do next.
pub fn refresh_step(phase: RefreshPhase, event: RefreshEvent) -> (r: (RefreshPhase, RefreshAction))
    ensures
        r == refresh_next(phase, event),
        refresh_wf(phase) ==> refresh_wf(r.0),
{
    match phase {
        RefreshPhase::Waiting => match event {
            RefreshEvent::Tick => (RefreshPhase::Beginning, RefreshAction::Begin),
            _ => (phase, RefreshAction::Stay),
        },
        RefreshPhase::Beginning => match event {
            RefreshEvent::Done => (
                RefreshPhase::Refreshing { place: 0 },
                RefreshAction::Refresh(Aggregate::CountByCreatedAtAndLocation),
            ),
            RefreshEvent::Failed => (RefreshPhase::Waiting, RefreshAction::Sleep),
            RefreshEvent::Tick => (phase, RefreshAction::Stay),
        },
        RefreshPhase::Refreshing { place } => match event {
            RefreshEvent::Done => {
                if place < AGGREGATE_COUNT - 1 {
                    match Aggregate::at(place + 1) {
                        Some(aggregate) => (
                            RefreshPhase::Refreshing { place: place + 1 },
                            RefreshAction::Refresh(aggregate),
                        ),
                        None => (RefreshPhase::Committing, RefreshAction::Commit),
                    }
                } else {
                    (RefreshPhase::Committing, RefreshAction::Commit)
                }
            },
            RefreshEvent::Failed => (RefreshPhase::RollingBack, RefreshAction::Rollback),
            RefreshEvent::Tick => (phase, RefreshAction::Stay),
        },
        RefreshPhase::Committing => match event {
            RefreshEvent::Tick => (phase, RefreshAction::Stay),
            _ => (RefreshPhase::Waiting, RefreshAction::Sleep),
        },
        RefreshPhase::RollingBack => match event {
            RefreshEvent::Tick => (phase, RefreshAction::Stay),
            _ => (RefreshPhase::Waiting, RefreshAction::Sleep),
        },
    }
}

/// The phase after a run of refresh events.
pub open spec fn refresh_after(phase: RefreshPhase, events: Seq<RefreshEvent>) -> RefreshPhase
    decreases events.len(),
{
    if events.len() == 0 {
        phase
    } else {
        refresh_next(refresh_after(phase, events.drop_last()), events.last()).0
    }
}

/// The actions that a run of refresh events calls for, one per event.
pub open spec fn refresh_actions(phase: RefreshPhase, events: Seq<RefreshEvent>) -> Seq<
    RefreshAction,
>
    decreases events.len(),
{
    if events.len() == 0 {
        Seq::empty()
    } else {
        refresh_actions(phase, events.drop_last()).push(
            refresh_next(refresh_after(phase, events.drop_last()), events.last()).1,
        )
    }
}

/// The phases a refresh can be in: the place of the aggregate being
/// recomputed is one of the five.
pub open spec fn refresh_wf(phase: RefreshPhase) -> bool {
    phase matches RefreshPhase::Refreshing { place } ==> place < AGGREGATE_COUNT
}

/// A commit is called for only when the last aggregate has just been
/// recomputed, and a recomputation only after the one before it succeeded.
pub proof fn lemma_commit_after_every_aggregate(phase: RefreshPhase, event: RefreshEvent)
    requires
        refresh_wf(phase),
    ensures
        refresh_wf(refresh_next(phase, event).0),
        refresh_next(phase, event).1 == RefreshAction::Commit ==> phase == (RefreshPhase::Refreshing {
            place: (AGGREGATE_COUNT - 1) as usize,
        }) && event == RefreshEvent::Done,
        forall|aggregate: Aggregate|
            refresh_next(phase, event).1 == RefreshAction::Refresh(aggregate) ==> event
                == RefreshEvent::Done && (phase == RefreshPhase::Beginning && aggregate
                == aggregate_at(0) || exists|place: usize|
                place + 1 < AGGREGATE_COUNT && phase == (RefreshPhase::Refreshing { place })
                    && aggregate == #[trigger] aggregate_at(place + 1)),
{
    match phase {
        RefreshPhase::Refreshing { place } => {
            if place + 1 < AGGREGATE_COUNT && event == RefreshEvent::Done {
                assert(refresh_next(phase, event).1 == RefreshAction::Refresh(
                    aggregate_at(place + 1),
                ));
            }
        },
        _ => {},
    }
}

/// A tick followed by successes opens a transaction, recomputes the five
/// aggregates in their order, commits and goes back to waiting.
pub proof fn lemma_refresh_cycle()
    ensures
        refresh_actions(
            RefreshPhase::Waiting,
            seq![
                RefreshEvent::Tick,
                RefreshEvent::Done,
                RefreshEvent::Done,
                RefreshEvent::Done,
                RefreshEvent::Done,
                RefreshEvent::Done,
                RefreshEvent::Done,
                RefreshEvent::Done,
            ],
        ) == seq![
            RefreshAction::Begin,
            RefreshAction::Refresh(Aggregate::CountByCreatedAtAndLocation),
            RefreshAction::Refresh(Aggregate::CountByUpdatedAtAndLocation),
            RefreshAction::Refresh(Aggregate::CountByCreatedAt),
            RefreshAction::Refresh(Aggregate::CountByUpdatedAt),
            RefreshAction::Refresh(Aggregate::CountByLocation),
            RefreshAction::Commit,
            RefreshAction::Sleep,
        ],
{
    let tick = RefreshEvent::Tick;
    let done = RefreshEvent::Done;
    let start = RefreshPhase::Waiting;
    let e1 = seq![tick];
    let e2 = e1.push(done);
    let e3 = e2.push(done);
    let e4 = e3.push(done);
    let e5 = e4.push(done);
    let e6 = e5.push(done);
    let e7 = e6.push(done);
    let e8 = e7.push(done);
    assert(e1.drop_last() =~= Seq::<RefreshEvent>::empty());
    assert(e2.drop_last() =~= e1);
    assert(e3.drop_last() =~= e2);
    assert(e4.drop_last() =~= e3);
    assert(e5.drop_last() =~= e4);
    assert(e6.drop_last() =~= e5);
    assert(e7.drop_last() =~= e6);
    assert(e8.drop_last() =~= e7);
    assert(refresh_after(start, Seq::<RefreshEvent>::empty()) == start);
    assert(refresh_actions(start, Seq::<RefreshEvent>::empty()) =~= Seq::<RefreshAction>::empty());
    assert(refresh_after(start, e1) == RefreshPhase::Beginning);
    assert(refresh_after(start, e2) == RefreshPhase::Refreshing { place: 0 });
    assert(refresh_after(start, e3) == RefreshPhase::Refreshing { place: 1 });
    assert(refresh_after(start, e4) == RefreshPhase::Refreshing { place: 2 });
    assert(refresh_after(start, e5) == RefreshPhase::Refreshing { place: 3 });
    assert(refresh_after(start, e6) == RefreshPhase::Refreshing { place: 4 });
    assert(refresh_after(start, e7) == RefreshPhase::Committing);
    assert(refresh_actions(start, e1) =~= seq![RefreshAction::Begin]);
    assert(refresh_actions(start, e2) =~= refresh_actions(start, e1).push(
        RefreshAction::Refresh(Aggregate::CountByCreatedAtAndLocation),
    ));
    assert(refresh_actions(start, e3) =~= refresh_actions(start, e2).push(
        RefreshAction::Refresh(Aggregate::CountByUpdatedAtAndLocation),
    ));
    assert(refresh_actions(start, e4) =~= refresh_actions(start, e3).push(
        RefreshAction::Refresh(Aggregate::CountByCreatedAt),
    ));
    assert(refresh_actions(start, e5) =~= refresh_actions(start, e4).push(
        RefreshAction::Refresh(Aggregate::CountByUpdatedAt),
    ));
    assert(refresh_actions(start, e6) =~= refresh_actions(start, e5).push(
        RefreshAction::Refresh(Aggregate::CountByLocation),
    ));
    assert(refresh_actions(start, e7) =~= refresh_actions(start, e6).push(RefreshAction::Commit));
    assert(refresh_actions(start, e8) =~= refresh_actions(start, e7).push(RefreshAction::Sleep));
    assert(e8 =~= seq![tick, done, done, done, done, done, done, done]);
    assert(refresh_actions(start, e8) =~= seq![
        RefreshAction::Begin,
        RefreshAction::Refresh(Aggregate::CountByCreatedAtAndLocation),
        RefreshAction::Refresh(Aggregate::CountByUpdatedAtAndLocation),
        RefreshAction::Refresh(Aggregate::CountByCreatedAt),
        RefreshAction::Refresh(Aggregate::CountByUpdatedAt),
        RefreshAction::Refresh(Aggregate::CountByLocation),
        RefreshAction::Commit,
        RefreshAction::Sleep,
    ]);
}

} // verus!
