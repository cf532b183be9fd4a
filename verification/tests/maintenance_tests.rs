use aodata::maintenance::refresh_step;
use aodata::maintenance::Aggregate;
use aodata::maintenance::RefreshAction;
use aodata::maintenance::RefreshEvent;
use aodata::maintenance::RefreshPhase;
use aodata::maintenance::AGGREGATE_COUNT;
use aodata::maintenance::REFRESH_INTERVAL_SECS;
use aodata::maintenance::RETENTION_SECS;
use aodata::maintenance::SWEEP_INTERVAL_SECS;

fn run_refresh(events: &[RefreshEvent]) -> (RefreshPhase, Vec<RefreshAction>) {
    let mut phase = RefreshPhase::Waiting;
    let mut actions = Vec::new();
    for event in events {
        let (next, action) = refresh_step(phase, *event);
        phase = next;
        actions.push(action);
    }
    (phase, actions)
}

#[test]
fn intervals_are_as_configured() {
    assert_eq!(SWEEP_INTERVAL_SECS, 15 * 60);
    assert_eq!(REFRESH_INTERVAL_SECS, 10 * 60);
    assert_eq!(RETENTION_SECS, 24 * 60 * 60);
    assert_eq!(AGGREGATE_COUNT, 5);
}

#[test]
fn aggregates_have_their_view_names() {
    let names: Vec<&str> = (0..AGGREGATE_COUNT).map(|place| Aggregate::at(place).unwrap().name()).collect();
    assert_eq!(
        names,
        vec![
            "market_orders_count_by_created_at_and_location",
            "market_orders_count_by_updated_at_and_location",
            "market_orders_count_by_created_at",
            "market_orders_count_by_updated_at",
            "market_orders_count_by_location",
        ]
    );
    assert_eq!(Aggregate::at(4), Some(Aggregate::CountByLocation));
    assert_eq!(Aggregate::at(5), None);
    assert_eq!(Aggregate::at(usize::MAX), None);
}

#[test]
fn a_refresh_recomputes_every_aggregate_then_commits() {
    let done = RefreshEvent::Done;
    let (phase, actions) =
        run_refresh(&[RefreshEvent::Tick, done, done, done, done, done, done, done]);
    assert_eq!(phase, RefreshPhase::Waiting);
    assert_eq!(
        actions,
        vec![
            RefreshAction::Begin,
            RefreshAction::Refresh(Aggregate::CountByCreatedAtAndLocation),
            RefreshAction::Refresh(Aggregate::CountByUpdatedAtAndLocation),
            RefreshAction::Refresh(Aggregate::CountByCreatedAt),
            RefreshAction::Refresh(Aggregate::CountByUpdatedAt),
            RefreshAction::Refresh(Aggregate::CountByLocation),
            RefreshAction::Commit,
            RefreshAction::Sleep,
        ]
    );
}

#[test]
fn a_failed_aggregate_rolls_the_cycle_back() {
    let done = RefreshEvent::Done;
    let (phase, actions) =
        run_refresh(&[RefreshEvent::Tick, done, done, RefreshEvent::Failed, done]);
    assert_eq!(phase, RefreshPhase::Waiting);
    assert_eq!(
        actions,
        vec![
            RefreshAction::Begin,
            RefreshAction::Refresh(Aggregate::CountByCreatedAtAndLocation),
            RefreshAction::Refresh(Aggregate::CountByUpdatedAtAndLocation),
            RefreshAction::Rollback,
            RefreshAction::Sleep,
        ]
    );
}

#[test]
fn the_tick_after_a_failure_starts_from_scratch() {
    let done = RefreshEvent::Done;
    let (phase, actions) = run_refresh(&[
        RefreshEvent::Tick,
        done,
        RefreshEvent::Failed,
        RefreshEvent::Failed,
        RefreshEvent::Tick,
        done,
    ]);
    assert_eq!(phase, RefreshPhase::Refreshing { place: 0 });
    assert_eq!(
        actions,
        vec![
            RefreshAction::Begin,
            RefreshAction::Refresh(Aggregate::CountByCreatedAtAndLocation),
            RefreshAction::Rollback,
            RefreshAction::Sleep,
            RefreshAction::Begin,
            RefreshAction::Refresh(Aggregate::CountByCreatedAtAndLocation),
        ]
    );
}

#[test]
fn a_transaction_that_does_not_open_ends_the_cycle() {
    let (phase, actions) = run_refresh(&[RefreshEvent::Tick, RefreshEvent::Failed]);
    assert_eq!(phase, RefreshPhase::Waiting);
    assert_eq!(actions, vec![RefreshAction::Begin, RefreshAction::Sleep]);
}

#[test]
fn a_failed_commit_ends_the_cycle() {
    assert_eq!(
        refresh_step(RefreshPhase::Committing, RefreshEvent::Failed),
        (RefreshPhase::Waiting, RefreshAction::Sleep)
    );
}

#[test]
fn a_place_past_the_last_aggregate_commits() {
    assert_eq!(
        refresh_step(RefreshPhase::Refreshing { place: 4 }, RefreshEvent::Done),
        (RefreshPhase::Committing, RefreshAction::Commit)
    );
    assert_eq!(
        refresh_step(RefreshPhase::Refreshing { place: 9 }, RefreshEvent::Done),
        (RefreshPhase::Committing, RefreshAction::Commit)
    );
}

#[test]
fn refresh_events_out_of_turn_change_nothing() {
    assert_eq!(
        refresh_step(RefreshPhase::Waiting, RefreshEvent::Done),
        (RefreshPhase::Waiting, RefreshAction::Stay)
    );
    assert_eq!(
        refresh_step(RefreshPhase::Waiting, RefreshEvent::Failed),
        (RefreshPhase::Waiting, RefreshAction::Stay)
    );
    for phase in [
        RefreshPhase::Beginning,
        RefreshPhase::Refreshing { place: 2 },
        RefreshPhase::Committing,
        RefreshPhase::RollingBack,
    ] {
        assert_eq!(refresh_step(phase, RefreshEvent::Tick), (phase, RefreshAction::Stay));
    }
}
