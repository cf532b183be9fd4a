use aodata::buffer::IntakeBuffer;
use aodata::models::db::MarketHistory;
use aodata::models::db::MarketOrder;
use aodata::models::nats;
use aodata::models::nats::Number;
use aodata::pipeline::run_history_cycle;
use aodata::pipeline::run_order_cycle;
use aodata::processor::BatchProcessor;
use aodata::processor::CycleReport;
use aodata::processor::Event;
use aodata::processor::Phase;
use aodata::store::Table;
use aodata::time::Timestamp;

const PIPE_NOW: Timestamp = Timestamp { secs: 1_700_000_000, nanos: 0 };

fn pipe_order(id: i64, price: i64) -> Option<nats::MarketOrder> {
    Some(nats::MarketOrder {
        id: Number::Int(id),
        item_id: "T4_BAG".to_string(),
        group_type_id: "T4_BAG".to_string(),
        location_id: Number::Int(3005),
        quality_level: Number::Int(1),
        enchantment_level: Number::Int(0),
        unit_price_silver: Number::Int(price),
        amount: Number::Int(1),
        auction_type: "offer".to_string(),
        expires: "2030-01-01T00:00:00".to_string(),
    })
}

fn pipe_histories(ticks: i64, amount: i64) -> Option<nats::MarketHistories> {
    Some(nats::MarketHistories {
        id: Number::Int(1),
        item_id: "T4_BAG".to_string(),
        location_id: Number::Int(3005),
        quality_level: Number::Int(1),
        timescale: Number::Int(0),
        market_histories: vec![nats::MarketHistory {
            item_amount: Number::Int(amount),
            silver_amount: Number::Int(amount),
            timestamp: Number::Int(ticks),
        }],
    })
}

#[test]
fn last_of_three_prices_wins() {
    let mut processor = BatchProcessor::new(1);
    let mut buffer = IntakeBuffer::new();
    let mut table: Table<MarketOrder> = Table::new();
    buffer.push(pipe_order(42, 100));
    buffer.push(pipe_order(42, 110));
    buffer.push(pipe_order(42, 95));
    let report = run_order_cycle(&mut processor, &mut buffer, &mut table, PIPE_NOW);
    assert_eq!(
        report,
        Some(CycleReport { drained: 3, rows: 1, decode_errors: 0, rows_affected: Some(1) })
    );
    assert_eq!(table.len(), 1);
    assert_eq!(table.get(42).unwrap().unit_price_silver, 95);
    assert!(buffer.is_empty());
    assert_eq!(processor.phase, Phase::Idle);
}

#[test]
fn malformed_payload_is_counted_and_skipped() {
    let mut processor = BatchProcessor::new(1);
    let mut buffer = IntakeBuffer::new();
    let mut table: Table<MarketOrder> = Table::new();
    buffer.push(None);
    buffer.push(pipe_order(7, 50));
    let report = run_order_cycle(&mut processor, &mut buffer, &mut table, PIPE_NOW);
    assert_eq!(
        report,
        Some(CycleReport { drained: 2, rows: 1, decode_errors: 1, rows_affected: Some(1) })
    );
    assert_eq!(table.len(), 1);
    assert_eq!(table.get(7).unwrap().unit_price_silver, 50);
    assert_eq!(processor.total_decode_errors, 1);
}

#[test]
fn nothing_is_written_below_the_threshold() {
    let mut processor = BatchProcessor::new(3);
    let mut buffer = IntakeBuffer::new();
    let mut table: Table<MarketOrder> = Table::new();
    buffer.push(pipe_order(1, 10));
    buffer.push(pipe_order(2, 20));
    assert_eq!(run_order_cycle(&mut processor, &mut buffer, &mut table, PIPE_NOW), None);
    assert_eq!(run_order_cycle(&mut processor, &mut buffer, &mut table, PIPE_NOW), None);
    assert_eq!(table.len(), 0);
    assert_eq!(buffer.len(), 2);
    assert_eq!(processor, BatchProcessor::new(3));
    buffer.push(pipe_order(3, 30));
    let report = run_order_cycle(&mut processor, &mut buffer, &mut table, PIPE_NOW).unwrap();
    assert_eq!(report.rows_affected, Some(3));
    assert_eq!(table.len(), 3);
    assert_eq!(run_order_cycle(&mut processor, &mut buffer, &mut table, PIPE_NOW), None);
    assert_eq!(table.len(), 3);
}

#[test]
fn a_later_batch_overwrites_an_earlier_one() {
    let mut processor = BatchProcessor::new(1);
    let mut buffer = IntakeBuffer::new();
    let mut table: Table<MarketOrder> = Table::new();
    let first = Timestamp { secs: 1_000, nanos: 0 };
    let second = Timestamp { secs: 2_000, nanos: 0 };
    buffer.push(pipe_order(42, 100));
    run_order_cycle(&mut processor, &mut buffer, &mut table, first);
    buffer.push(pipe_order(42, 80));
    run_order_cycle(&mut processor, &mut buffer, &mut table, second);
    let stored = table.get(42).unwrap();
    assert_eq!(stored.unit_price_silver, 80);
    assert_eq!(stored.created_at, first);
    assert_eq!(stored.updated_at, second);
    assert_eq!(table.len(), 1);
}

#[test]
fn a_busy_processor_starts_no_second_cycle() {
    let mut processor = BatchProcessor::new(1);
    processor.step(Event::Polled { size: 1 });
    let busy = processor;
    let mut buffer = IntakeBuffer::new();
    let mut table: Table<MarketOrder> = Table::new();
    buffer.push(pipe_order(1, 10));
    assert_eq!(run_order_cycle(&mut processor, &mut buffer, &mut table, PIPE_NOW), None);
    assert_eq!(processor, busy);
    assert_eq!(buffer.len(), 1);
    assert_eq!(table.len(), 0);
}

#[test]
fn a_batch_of_only_malformed_payloads_writes_no_row() {
    let mut processor = BatchProcessor::new(2);
    let mut buffer: IntakeBuffer<Option<nats::MarketOrder>> = IntakeBuffer::new();
    let mut table: Table<MarketOrder> = Table::new();
    buffer.push(None);
    buffer.push(None);
    let report = run_order_cycle(&mut processor, &mut buffer, &mut table, PIPE_NOW);
    assert_eq!(
        report,
        Some(CycleReport { drained: 2, rows: 0, decode_errors: 2, rows_affected: Some(0) })
    );
    assert_eq!(table.len(), 0);
}

#[test]
fn history_cycle_keeps_the_latest_bucket() {
    let mut processor = BatchProcessor::new(2);
    let mut buffer = IntakeBuffer::new();
    let mut table: Table<MarketHistory> = Table::new();
    let ticks = 638_436_384_000_000_000;
    buffer.push(pipe_histories(ticks, 5));
    assert_eq!(run_history_cycle(&mut processor, &mut buffer, &mut table, PIPE_NOW), None);
    buffer.push(None);
    buffer.push(pipe_histories(ticks, 9));
    let report = run_history_cycle(&mut processor, &mut buffer, &mut table, PIPE_NOW);
    assert_eq!(
        report,
        Some(CycleReport { drained: 3, rows: 1, decode_errors: 1, rows_affected: Some(1) })
    );
    assert_eq!(table.len(), 1);
    assert_eq!(table.rows()[0].item_amount, 9);
}

fn pipe_number(value: &serde_json::Value) -> Option<Number> {
    let number = value.as_number()?;
    Some(match number.as_i64() {
        Some(whole) => Number::Int(whole),
        None => Number::NonInt(number.to_string()),
    })
}

fn pipe_payload(payload: &[u8]) -> Option<nats::MarketOrder> {
    let value: serde_json::Value = serde_json::from_slice(payload).ok()?;
    Some(nats::MarketOrder {
        id: pipe_number(value.get("Id")?)?,
        item_id: value.get("ItemTypeId")?.as_str()?.to_string(),
        group_type_id: value.get("ItemGroupTypeId")?.as_str()?.to_string(),
        location_id: pipe_number(value.get("LocationId")?)?,
        quality_level: pipe_number(value.get("QualityLevel")?)?,
        enchantment_level: pipe_number(value.get("EnchantmentLevel")?)?,
        unit_price_silver: pipe_number(value.get("UnitPriceSilver")?)?,
        amount: pipe_number(value.get("Amount")?)?,
        auction_type: value.get("AuctionType")?.as_str()?.to_string(),
        expires: value.get("Expires")?.as_str()?.to_string(),
    })
}

#[test]
fn payloads_off_the_bus_run_through_a_cycle() {
    let valid = br#"{"Id":12345,"ItemTypeId":"T4_BAG","ItemGroupTypeId":"T4_BAG","LocationId":7,
        "QualityLevel":1,"EnchantmentLevel":0,"UnitPriceSilver":1500000,"Amount":3,
        "AuctionType":"offer","Expires":"2030-01-01T00:00:00"}"#;
    let mut processor = BatchProcessor::new(1);
    let mut buffer = IntakeBuffer::new();
    let mut table: Table<MarketOrder> = Table::new();
    buffer.push(pipe_payload(b"{\"Id\": 1, \"ItemTypeId\""));
    buffer.push(pipe_payload(valid));
    let report = run_order_cycle(&mut processor, &mut buffer, &mut table, PIPE_NOW);
    assert_eq!(
        report,
        Some(CycleReport { drained: 2, rows: 1, decode_errors: 1, rows_affected: Some(1) })
    );
    let stored = table.get(12345).unwrap();
    assert_eq!(stored.location_id, "0007");
    assert_eq!(stored.unit_price_silver, 1_500_000);
    assert_eq!(stored.expires_at, Timestamp { secs: 1_893_456_000, nanos: 0 });
    assert_eq!(table.len(), 1);
}
