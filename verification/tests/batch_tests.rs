use aodata::batch::decode_histories;
use aodata::batch::decode_history_entry;
use aodata::batch::decode_order_entry;
use aodata::batch::decode_orders;
use aodata::batch::prepare_histories;
use aodata::batch::prepare_orders;
use aodata::batch::HistoryColumns;
use aodata::batch::OrderColumns;
use aodata::models::db::DecodeError;
use aodata::models::db::MarketOrder;
use aodata::models::nats;
use aodata::models::nats::Number;
use aodata::record::dedup_latest;
use aodata::record::position_of;
use aodata::store::has_distinct_keys;
use aodata::time::Timestamp;

const BATCH_NOW: Timestamp = Timestamp { secs: 1_700_000_000, nanos: 0 };

fn batch_order(id: i64, price: i64) -> nats::MarketOrder {
    nats::MarketOrder {
        id: Number::Int(id),
        item_id: "T5_CAPE".to_string(),
        group_type_id: "T5_CAPE".to_string(),
        location_id: Number::Int(3005),
        quality_level: Number::Int(1),
        enchantment_level: Number::Int(0),
        unit_price_silver: Number::Int(price),
        amount: Number::Int(1),
        auction_type: "offer".to_string(),
        expires: "2030-01-01T00:00:00".to_string(),
    }
}

fn batch_row(id: i64, price: i32) -> MarketOrder {
    MarketOrder::from_nats_at(&batch_order(id, price as i64), BATCH_NOW).unwrap()
}

fn batch_histories(item: &str, location: i64, ticks: &[i64], amount: i64) -> nats::MarketHistories {
    nats::MarketHistories {
        id: Number::Int(1),
        item_id: item.to_string(),
        location_id: Number::Int(location),
        quality_level: Number::Int(1),
        timescale: Number::Int(0),
        market_histories: ticks
            .iter()
            .map(|t| nats::MarketHistory {
                item_amount: Number::Int(amount),
                silver_amount: Number::Int(amount * 100),
                timestamp: Number::Int(*t),
            })
            .collect(),
    }
}

#[test]
fn dedup_keeps_the_latest_of_each_key() {
    let rows = vec![batch_row(1, 10), batch_row(2, 20), batch_row(1, 30), batch_row(3, 40)];
    let out = dedup_latest(rows);
    let kept: Vec<(i64, i32)> = out.iter().map(|r| (r.id, r.unit_price_silver)).collect();
    assert_eq!(kept, vec![(3, 40), (1, 30), (2, 20)]);
    assert!(has_distinct_keys(&out));
}

#[test]
fn dedup_of_nothing_is_nothing() {
    let out: Vec<MarketOrder> = dedup_latest(Vec::new());
    assert!(out.is_empty());
}

#[test]
fn dedup_of_one_key_keeps_only_the_last_row() {
    let rows = vec![batch_row(42, 100), batch_row(42, 110), batch_row(42, 95)];
    let out = dedup_latest(rows);
    assert_eq!(out.len(), 1);
    assert_eq!(out[0].unit_price_silver, 95);
}

#[test]
fn position_finds_the_row_with_the_key() {
    let rows = vec![batch_row(5, 1), batch_row(6, 2), batch_row(7, 3)];
    assert_eq!(position_of(&rows, &batch_row(6, 99)), Some(1));
    assert_eq!(position_of(&rows, &batch_row(8, 99)), None);
}

#[test]
fn distinct_keys_are_recognised() {
    assert!(has_distinct_keys(&vec![batch_row(1, 1), batch_row(2, 1)]));
    assert!(!has_distinct_keys(&vec![batch_row(1, 1), batch_row(2, 1), batch_row(1, 2)]));
    assert!(has_distinct_keys::<MarketOrder>(&Vec::new()));
}

#[test]
fn decoding_counts_what_it_skips() {
    let mut broken = batch_order(9, 1);
    broken.expires = "never".to_string();
    let entries = vec![Some(batch_order(1, 10)), None, Some(broken), Some(batch_order(2, 20))];
    let (rows, errors) = decode_orders(&entries, BATCH_NOW);
    assert_eq!(errors, 2);
    let ids: Vec<i64> = rows.iter().map(|r| r.id).collect();
    assert_eq!(ids, vec![1, 2]);
}

#[test]
fn prepare_orders_lets_the_last_entry_win() {
    let entries = vec![
        Some(batch_order(42, 100)),
        Some(batch_order(7, 1)),
        Some(batch_order(42, 110)),
        None,
        Some(batch_order(42, 95)),
    ];
    let batch = prepare_orders(&entries, BATCH_NOW);
    assert_eq!(batch.decode_errors, 1);
    let kept: Vec<(i64, i32)> = batch.rows.iter().map(|r| (r.id, r.unit_price_silver)).collect();
    assert_eq!(kept, vec![(42, 95), (7, 1)]);
}

#[test]
fn an_undecodable_last_entry_does_not_win() {
    let mut broken = batch_order(42, 999);
    broken.amount = Number::NonInt("1.5".to_string());
    let entries = vec![Some(batch_order(42, 100)), Some(broken)];
    let batch = prepare_orders(&entries, BATCH_NOW);
    assert_eq!(batch.decode_errors, 1);
    assert_eq!(batch.rows.len(), 1);
    assert_eq!(batch.rows[0].unit_price_silver, 100);
}

#[test]
fn prepare_histories_dedups_by_the_whole_key() {
    let t0 = 638_436_384_000_000_000;
    let t1 = 638_436_420_000_000_000;
    let entries = vec![
        Some(batch_histories("T4_BAG", 3005, &[t0, t1], 1)),
        Some(batch_histories("T4_BAG", 7, &[t0], 2)),
        None,
        Some(batch_histories("T4_BAG", 3005, &[t1], 3)),
    ];
    let (rows, errors) = decode_histories(&entries, BATCH_NOW);
    assert_eq!(rows.len(), 4);
    assert_eq!(errors, 1);
    let batch = prepare_histories(&entries, BATCH_NOW);
    assert_eq!(batch.decode_errors, 1);
    let kept: Vec<(String, i64, i32)> = batch
        .rows
        .iter()
        .map(|r| (r.location_id.clone(), r.timestamp.secs, r.item_amount))
        .collect();
    assert_eq!(
        kept,
        vec![
            ("3005".to_string(), 1_706_749_200, 3),
            ("0007".to_string(), 1_706_745_600, 2),
            ("3005".to_string(), 1_706_745_600, 1),
        ]
    );
}

#[test]
fn order_columns_hold_the_rows() {
    let rows = vec![batch_row(1, 10), batch_row(2, 20)];
    let columns = OrderColumns::from_rows(&rows);
    assert_eq!(columns.ids, vec![1, 2]);
    assert_eq!(columns.item_unique_names, vec!["T5_CAPE".to_string(), "T5_CAPE".to_string()]);
    assert_eq!(columns.location_ids, vec!["3005".to_string(), "3005".to_string()]);
    assert_eq!(columns.quality_levels, vec![1, 1]);
    assert_eq!(columns.enchantment_levels, vec![0, 0]);
    assert_eq!(columns.unit_prices_silver, vec![10, 20]);
    assert_eq!(columns.amounts, vec![1, 1]);
    assert_eq!(columns.auction_types, vec!["offer".to_string(), "offer".to_string()]);
    assert_eq!(columns.expires_ats, vec![Timestamp { secs: 1_893_456_000, nanos: 0 }; 2]);
    assert_eq!(columns.created_ats, vec![BATCH_NOW; 2]);
    assert_eq!(columns.updated_ats, vec![BATCH_NOW; 2]);
}

#[test]
fn history_columns_hold_the_rows() {
    let entries = vec![Some(batch_histories("T4_BAG", 7, &[638_436_384_000_000_000], 5))];
    let batch = prepare_histories(&entries, BATCH_NOW);
    let columns = HistoryColumns::from_rows(&batch.rows);
    assert_eq!(columns.item_unique_names, vec!["T4_BAG".to_string()]);
    assert_eq!(columns.location_ids, vec!["0007".to_string()]);
    assert_eq!(columns.quality_levels, vec![1]);
    assert_eq!(columns.timescales, vec![0]);
    assert_eq!(columns.timestamps, vec![Timestamp { secs: 1_706_745_600, nanos: 0 }]);
    assert_eq!(columns.item_amounts, vec![5]);
    assert_eq!(columns.silver_amounts, vec![500]);
    assert_eq!(columns.created_ats, vec![BATCH_NOW]);
    assert_eq!(columns.updated_ats, vec![BATCH_NOW]);
}

#[test]
fn columns_of_no_rows_are_empty() {
    let columns = OrderColumns::from_rows(&Vec::new());
    assert!(columns.ids.is_empty());
    assert!(columns.updated_ats.is_empty());
}

#[test]
fn an_entry_without_a_message_is_a_payload_error() {
    assert_eq!(decode_order_entry(&None, BATCH_NOW).err(), Some(DecodeError::Payload));
    assert_eq!(decode_history_entry(&None, BATCH_NOW).err(), Some(DecodeError::Payload));
}

#[test]
fn an_entry_with_a_message_is_normalised_or_names_its_field() {
    let order = decode_order_entry(&Some(batch_order(5, 50)), BATCH_NOW).unwrap();
    assert_eq!((order.id, order.unit_price_silver), (5, 50));
    let mut broken = batch_order(5, 50);
    broken.id = Number::NonInt("5.5".to_string());
    assert_eq!(decode_order_entry(&Some(broken), BATCH_NOW).err(), Some(DecodeError::Id));
    let rows =
        decode_history_entry(&Some(batch_histories("T4_BAG", 7, &[638_436_384_000_000_000], 2)), BATCH_NOW)
            .unwrap();
    assert_eq!(rows.len(), 1);
    let mut broken = batch_histories("T4_BAG", 7, &[638_436_384_000_000_000], 2);
    broken.timescale = Number::NonInt("x".to_string());
    assert_eq!(decode_history_entry(&Some(broken), BATCH_NOW).err(), Some(DecodeError::Timescale));
}
