//! Rows as the store holds them, and the normalisation that turns a bus
//! message into rows.

use crate::models::json;
use crate::models::nats;
use crate::record::views;
use crate::record::Record;
use crate::text::copy_opt;
use crate::text::opt_text;
use crate::text::pad_zeros;
use crate::text::zero_padded;
use crate::time::from_unix_millis;
use crate::time::parsed;
use crate::time::Timestamp;
use vstd::prelude::*;

verus! {

/// Width of a location identifier in the store.
pub const LOCATION_ID_WIDTH: usize = 4;

/// Milliseconds between the start of the feed's tick count and the Unix epoch.
pub const TICK_EPOCH_OFFSET_MILLIS: i64 = 62_136_892_800_000;

/// Feed ticks per millisecond.
pub const TICKS_PER_MILLI: i64 = 10_000;

/// Why a message was dropped: what could not be decoded or normalised.
#[derive(Clone, Copy, Debug, PartialEq, Eq, Structural)]
pub enum DecodeError {
    /// The payload is not a message at all.
    Payload,
    /// The expiry is not a date and time.
    Expires,
    /// The id is not a whole number.
    Id,
    /// The quality level is not a whole number.
    QualityLevel,
    /// The enchantment level is not a whole number.
    EnchantmentLevel,
    /// The unit price is not a whole number.
    UnitPriceSilver,
    /// The amount is not a whole number.
    Amount,
    /// The timescale is not a whole number.
    Timescale,
    /// The start of a bucket is not a whole number of ticks, or the calendar
    /// does not reach it.
    Timestamp,
    /// The item amount of a bucket is not a whole number.
    ItemAmount,
    /// The silver amount of a bucket is not a whole number.
    SilverAmount,
}

/// One active listing.
#[derive(Debug)]
pub struct MarketOrder {
    pub id: i64,
    pub item_unique_name: String,
    pub location_id: String,
    pub quality_level: i32,
    pub enchantment_level: i32,
    pub unit_price_silver: i32,
    pub amount: i32,
    pub auction_type: String,
    pub expires_at: Timestamp,
    pub created_at: Timestamp,
    pub updated_at: Timestamp,
}

/// What a `MarketOrder` holds, with texts as sequences of characters.
pub struct OrderRow {
    pub id: i64,
    pub item_unique_name: Seq<char>,
    pub location_id: Seq<char>,
    pub quality_level: i32,
    pub enchantment_level: i32,
    pub unit_price_silver: i32,
    pub amount: i32,
    pub auction_type: Seq<char>,
    pub expires_at: Timestamp,
    pub created_at: Timestamp,
    pub updated_at: Timestamp,
}

impl View for MarketOrder {
    type V = OrderRow;

    open spec fn view(&self) -> OrderRow {
        OrderRow {
            id: self.id,
            item_unique_name: self.item_unique_name@,
            location_id: self.location_id@,
            quality_level: self.quality_level,
            enchantment_level: self.enchantment_level,
            unit_price_silver: self.unit_price_silver,
            amount: self.amount,
            auction_type: self.auction_type@,
            expires_at: self.expires_at,
            created_at: self.created_at,
            updated_at: self.updated_at,
        }
    }
}

/// The first field of an order message that cannot be normalised, if there is
/// one: the expiry must read as a date and time, and id, levels, price and
/// amount must be whole numbers in the range of `i64`.
pub open spec fn order_error(msg: &nats::MarketOrder) -> Option<DecodeError> {
    if parsed(msg.expires@) is None {
        Some(DecodeError::Expires)
    } else if msg.id.int_value() is None {
        Some(DecodeError::Id)
    } else if msg.quality_level.int_value() is None {
        Some(DecodeError::QualityLevel)
    } else if msg.enchantment_level.int_value() is None {
        Some(DecodeError::EnchantmentLevel)
    } else if msg.unit_price_silver.int_value() is None {
        Some(DecodeError::UnitPriceSilver)
    } else if msg.amount.int_value() is None {
        Some(DecodeError::Amount)
    } else {
        None
    }
}

/// Whether an order message can be normalised.
pub open spec fn order_decodes(msg: &nats::MarketOrder) -> bool {
    order_error(msg) is None
}

/// The row an order message stands for when it is first seen at `now`, or
/// `None` where the message cannot be normalised. The location is padded to
/// its fixed width; levels, price and amount keep their low 32 bits.
pub open spec fn order_row(msg: &nats::MarketOrder, now: Timestamp) -> Option<OrderRow> {
    if order_decodes(msg) {
        Some(
            OrderRow {
                id: msg.id.int_value()->0,
                item_unique_name: msg.item_id@,
                location_id: zero_padded(msg.location_id.text(), LOCATION_ID_WIDTH as nat),
                quality_level: msg.quality_level.int_value()->0 as i32,
                enchantment_level: msg.enchantment_level.int_value()->0 as i32,
                unit_price_silver: msg.unit_price_silver.int_value()->0 as i32,
                amount: msg.amount.int_value()->0 as i32,
                auction_type: msg.auction_type@,
                expires_at: parsed(msg.expires@)->0,
                created_at: now,
                updated_at: now,
            },
        )
    } else {
        None
    }
}

/// The view of an optional order.
pub open spec fn order_view(order: Option<MarketOrder>) -> Option<OrderRow> {
    match order {
        Some(o) => Some(o@),
        None => None,
    }
}

/// A number that fits in 32 bits is kept as it is when a row takes only its
/// low 32 bits.
pub proof fn lemma_narrowing_keeps_small_numbers(value: i64)
    requires
        i32::MIN <= value <= i32::MAX,
    ensures
        (value as i32) == value,
{
}

impl MarketOrder {
    /// Every instant the row holds is one the calendar represents.
    pub open spec fn wf(&self) -> bool {
        self.expires_at.wf() && self.created_at.wf() && self.updated_at.wf()
    }

    /// Normalises an order message, stamping it with the current time.
    pub fn from_nats(nats_market_order: &nats::MarketOrder) -> (r: Option<MarketOrder>)
        ensures
            r is Some <==> order_decodes(nats_market_order),
            r matches Some(o) ==> o.wf() && o.created_at == o.updated_at && Some(o@) == order_row(
                nats_market_order,
                o.created_at,
            ),
    {
        let now = Timestamp::now();
        MarketOrder::from_nats_at(nats_market_order, now)
    }

    /// Normalises an order message as first seen at `now`.
    pub fn from_nats_at(nats_market_order: &nats::MarketOrder, now: Timestamp) -> (r: Option<
        MarketOrder,
    >)
        ensures
            order_view(r) == order_row(nats_market_order, now),
            now.wf() ==> (r matches Some(o) ==> o.wf()),
    {
        match MarketOrder::decode(nats_market_order, now) {
            Ok(order) => Some(order),
            Err(_) => None,
        }
    }

    /// Normalises an order message as first seen at `now`, or names the first
    /// field that stands in the way.
    pub fn decode(msg: &nats::MarketOrder, now: Timestamp) -> (r: Result<MarketOrder, DecodeError>)
        ensures
            match r {
                Ok(order) => Some(order@) == order_row(msg, now) && (now.wf() ==> order.wf()),
                Err(error) => order_error(msg) == Some(error),
            },
    {
        let expires_at = match Timestamp::parse(msg.expires.as_str()) {
            Some(expires_at) => expires_at,
            None => return Err(DecodeError::Expires),
        };
        let id = match msg.id.as_i64() {
            Some(id) => id,
            None => return Err(DecodeError::Id),
        };
        let quality_level = match msg.quality_level.as_i64() {
            Some(v) => v,
            None => return Err(DecodeError::QualityLevel),
        };
        let enchantment_level = match msg.enchantment_level.as_i64() {
            Some(v) => v,
            None => return Err(DecodeError::EnchantmentLevel),
        };
        let unit_price_silver = match msg.unit_price_silver.as_i64() {
            Some(v) => v,
            None => return Err(DecodeError::UnitPriceSilver),
        };
        let amount = match msg.amount.as_i64() {
            Some(v) => v,
            None => return Err(DecodeError::Amount),
        };
        let location_text = msg.location_id.to_text();
        Ok(
            MarketOrder {
                id,
                item_unique_name: msg.item_id.clone(),
                location_id: pad_zeros(location_text.as_str(), LOCATION_ID_WIDTH),
                quality_level: #[verifier::truncate]
                (quality_level as i32),
                enchantment_level: #[verifier::truncate]
                (enchantment_level as i32),
                unit_price_silver: #[verifier::truncate]
                (unit_price_silver as i32),
                amount: #[verifier::truncate]
                (amount as i32),
                auction_type: msg.auction_type.clone(),
                expires_at,
                created_at: now,
                updated_at: now,
            },
        )
    }
}

/// The traded volume of one item, location, quality and timescale over one
/// time bucket.
#[derive(Debug)]
pub struct MarketHistory {
    pub item_id: String,
    pub location_id: String,
    pub quality_level: i32,
    pub timescale: i32,
    pub timestamp: Timestamp,
    pub item_amount: i32,
    pub silver_amount: i32,
    pub created_at: Timestamp,
    pub updated_at: Timestamp,
}

/// What a `MarketHistory` holds, with texts as sequences of characters.
pub struct HistoryRow {
    pub item_id: Seq<char>,
    pub location_id: Seq<char>,
    pub quality_level: i32,
    pub timescale: i32,
    pub timestamp: Timestamp,
    pub item_amount: i32,
    pub silver_amount: i32,
    pub created_at: Timestamp,
    pub updated_at: Timestamp,
}

impl View for MarketHistory {
    type V = HistoryRow;

    open spec fn view(&self) -> HistoryRow {
        HistoryRow {
            item_id: self.item_id@,
            location_id: self.location_id@,
            quality_level: self.quality_level,
            timescale: self.timescale,
            timestamp: self.timestamp,
            item_amount: self.item_amount,
            silver_amount: self.silver_amount,
            created_at: self.created_at,
            updated_at: self.updated_at,
        }
    }
}

/// A bucket's start in milliseconds since the Unix epoch, from the feed's
/// count of ticks: ten thousand ticks make a millisecond (a remainder is
/// dropped, toward zero), and the feed counts from an earlier epoch.
pub open spec fn ticks_to_unix_millis(ticks: i64) -> int {
    let millis = if ticks >= 0 {
        ticks as int / TICKS_PER_MILLI as int
    } else {
        -((-(ticks as int)) / TICKS_PER_MILLI as int)
    };
    millis - TICK_EPOCH_OFFSET_MILLIS
}

/// The first field that keeps one bucket of a history message from being
/// normalised, if there is one. The fields that the buckets share come first:
/// quality level and timescale, then the bucket's start and its amounts.
pub open spec fn bucket_error(msg: &nats::MarketHistories, entry: &nats::MarketHistory) -> Option<
    DecodeError,
> {
    if msg.quality_level.int_value() is None {
        Some(DecodeError::QualityLevel)
    } else if msg.timescale.int_value() is None {
        Some(DecodeError::Timescale)
    } else if entry.timestamp.int_value() is None {
        Some(DecodeError::Timestamp)
    } else if from_unix_millis(ticks_to_unix_millis(entry.timestamp.int_value()->0)) is None {
        Some(DecodeError::Timestamp)
    } else if entry.item_amount.int_value() is None {
        Some(DecodeError::ItemAmount)
    } else if entry.silver_amount.int_value() is None {
        Some(DecodeError::SilverAmount)
    } else {
        None
    }
}

/// The error of the first bucket, from place `from` on, that cannot be
/// normalised.
pub open spec fn history_error_from(msg: &nats::MarketHistories, from: int) -> Option<DecodeError>
    decreases msg.market_histories@.len() - from,
{
    if from < 0 || from >= msg.market_histories@.len() {
        None
    } else {
        match bucket_error(msg, &msg.market_histories@[from]) {
            Some(error) => Some(error),
            None => history_error_from(msg, from + 1),
        }
    }
}

/// The first field of a history message that cannot be normalised, if there
/// is one. A message without buckets has none.
pub open spec fn history_error(msg: &nats::MarketHistories) -> Option<DecodeError> {
    history_error_from(msg, 0)
}

/// Whether a history message can be normalised: every bucket can.
pub open spec fn history_decodes(msg: &nats::MarketHistories) -> bool {
    forall|i: int|
        0 <= i < msg.market_histories@.len() ==> bucket_error(
            msg,
            #[trigger] &msg.market_histories@[i],
        ) is None
}

/// The row that one bucket of a history message stands for when first seen
/// at `now`.
pub open spec fn history_row(
    msg: &nats::MarketHistories,
    entry: &nats::MarketHistory,
    now: Timestamp,
) -> HistoryRow {
    HistoryRow {
        item_id: msg.item_id@,
        location_id: zero_padded(msg.location_id.text(), LOCATION_ID_WIDTH as nat),
        quality_level: msg.quality_level.int_value()->0 as i32,
        timescale: msg.timescale.int_value()->0 as i32,
        timestamp: from_unix_millis(ticks_to_unix_millis(entry.timestamp.int_value()->0))->0,
        item_amount: entry.item_amount.int_value()->0 as i32,
        silver_amount: entry.silver_amount.int_value()->0 as i32,
        created_at: now,
        updated_at: now,
    }
}

/// The rows a history message stands for, one per bucket in the message's
/// order, or `None` where the message cannot be normalised.
pub open spec fn history_rows(msg: &nats::MarketHistories, now: Timestamp) -> Option<
    Seq<HistoryRow>,
> {
    if history_decodes(msg) {
        Some(
            Seq::new(
                msg.market_histories@.len(),
                |i: int| history_row(msg, &msg.market_histories@[i], now),
            ),
        )
    } else {
        None
    }
}

/// The views of an optional list of history rows.
pub open spec fn history_views(rows: Option<Vec<MarketHistory>>) -> Option<Seq<HistoryRow>> {
    match rows {
        Some(v) => Some(views(v@)),
        None => None,
    }
}

/// The calendar reaches the start of every bucket: whatever the count of
/// ticks, its instant exists.
pub proof fn lemma_ticks_in_calendar(ticks: i64)
    ensures
        from_unix_millis(ticks_to_unix_millis(ticks)) is Some,
{
}

/// A history message can be normalised exactly when none of its buckets has
/// an error.
pub proof fn lemma_history_error(msg: &nats::MarketHistories, from: int)
    requires
        0 <= from <= msg.market_histories@.len(),
    ensures
        history_error_from(msg, from) is None <==> forall|i: int|
            from <= i < msg.market_histories@.len() ==> bucket_error(
                msg,
                #[trigger] &msg.market_histories@[i],
            ) is None,
    decreases msg.market_histories@.len() - from,
{
    if from < msg.market_histories@.len() {
        lemma_history_error(msg, from + 1);
    }
}

impl MarketHistory {
    /// Every instant the row holds is one the calendar represents.
    pub open spec fn wf(&self) -> bool {
        self.timestamp.wf() && self.created_at.wf() && self.updated_at.wf()
    }

    /// Normalises a history message, stamping its rows with the current time.
    pub fn from_nats(nats_market_history: nats::MarketHistories) -> (r: Option<Vec<MarketHistory>>)
        ensures
            r is Some <==> history_decodes(&nats_market_history),
            r matches Some(v) ==> exists|now: Timestamp|
                now.wf() && Some(views(v@)) == #[trigger] history_rows(&nats_market_history, now),
    {
        let now = Timestamp::now();
        MarketHistory::from_nats_at(&nats_market_history, now)
    }

    /// Normalises a history message as first seen at `now`.
    pub fn from_nats_at(nats_market_history: &nats::MarketHistories, now: Timestamp) -> (r: Option<
        Vec<MarketHistory>,
    >)
        ensures
            history_views(r) == history_rows(nats_market_history, now),
            now.wf() ==> (r matches Some(v) ==> forall|i: int|
                0 <= i < v@.len() ==> (#[trigger] v@[i]).wf()),
    {
        proof {
            lemma_history_error(nats_market_history, 0);
        }
        match MarketHistory::decode(nats_market_history, now) {
            Ok(rows) => Some(rows),
            Err(_) => None,
        }
    }

    /// Normalises a history message as first seen at `now`, or names the
    /// first field, of the first bucket, that stands in the way.
    pub fn decode(msg: &nats::MarketHistories, now: Timestamp) -> (r: Result<
        Vec<MarketHistory>,
        DecodeError,
    >)
        ensures
            match r {
                Ok(rows) => history_error(msg) is None && Some(views(rows@)) == history_rows(
                    msg,
                    now,
                ) && (now.wf() ==> forall|i: int|
                    0 <= i < rows@.len() ==> (#[trigger] rows@[i]).wf()),
                Err(error) => history_error(msg) == Some(error),
            },
    {
        let mut rows: Vec<MarketHistory> = Vec::new();
        let count = msg.market_histories.len();
        let mut i: usize = 0;
        while i < count
            invariant
                i <= count,
                count == msg.market_histories@.len(),
                rows@.len() == i,
                history_error(msg) == history_error_from(msg, i as int),
                forall|j: int|
                    0 <= j < i ==> bucket_error(msg, #[trigger] &msg.market_histories@[j]) is None,
                forall|j: int|
                    0 <= j < i ==> (#[trigger] rows@[j])@ == history_row(
                        msg,
                        &msg.market_histories@[j],
                        now,
                    ),
                now.wf() ==> forall|j: int| 0 <= j < i ==> (#[trigger] rows@[j]).wf(),
            decreases count - i,
        {
            let entry = &msg.market_histories[i];
            let quality_level = match msg.quality_level.as_i64() {
                Some(v) => v,
                None => return Err(DecodeError::QualityLevel),
            };
            let timescale = match msg.timescale.as_i64() {
                Some(v) => v,
                None => return Err(DecodeError::Timescale),
            };
            let ticks = match entry.timestamp.as_i64() {
                Some(v) => v,
                None => return Err(DecodeError::Timestamp),
            };
            let millis = ticks / TICKS_PER_MILLI - TICK_EPOCH_OFFSET_MILLIS;
            let timestamp = match Timestamp::from_timestamp_millis(millis) {
                Some(t) => t,
                None => return Err(DecodeError::Timestamp),
            };
            let item_amount = match entry.item_amount.as_i64() {
                Some(v) => v,
                None => return Err(DecodeError::ItemAmount),
            };
            let silver_amount = match entry.silver_amount.as_i64() {
                Some(v) => v,
                None => return Err(DecodeError::SilverAmount),
            };
            let location_text = msg.location_id.to_text();
            rows.push(
                MarketHistory {
                    item_id: msg.item_id.clone(),
                    location_id: pad_zeros(location_text.as_str(), LOCATION_ID_WIDTH),
                    quality_level: #[verifier::truncate]
                    (quality_level as i32),
                    timescale: #[verifier::truncate]
                    (timescale as i32),
                    timestamp,
                    item_amount: #[verifier::truncate]
                    (item_amount as i32),
                    silver_amount: #[verifier::truncate]
                    (silver_amount as i32),
                    created_at: now,
                    updated_at: now,
                },
            );
            i = i + 1;
        }
        proof {
            lemma_history_error(msg, 0);
            assert(views(rows@) =~= history_rows(msg, now)->0);
        }
        Ok(rows)
    }
}

impl Record for MarketOrder {
    type Key = i64;

    /// An order is known by its id.
    open spec fn key_of(row: OrderRow) -> i64 {
        row.id
    }

    /// A later sighting overwrites price, amount, expiry and the time of the
    /// last update; the id, the identity fields and the time of the first
    /// sighting stay.
    open spec fn merged(existing: OrderRow, incoming: OrderRow) -> OrderRow {
        OrderRow {
            unit_price_silver: incoming.unit_price_silver,
            amount: incoming.amount,
            expires_at: incoming.expires_at,
            updated_at: incoming.updated_at,
            ..existing
        }
    }

    proof fn lemma_merged_keeps_key(existing: OrderRow, incoming: OrderRow) {
    }

    fn same_key(&self, other: &Self) -> (r: bool) {
        self.id == other.id
    }

    fn merge(&mut self, incoming: &Self) {
        self.unit_price_silver = incoming.unit_price_silver;
        self.amount = incoming.amount;
        self.expires_at = incoming.expires_at;
        self.updated_at = incoming.updated_at;
    }

    fn duplicate(&self) -> (r: Self) {
        MarketOrder {
            id: self.id,
            item_unique_name: self.item_unique_name.clone(),
            location_id: self.location_id.clone(),
            quality_level: self.quality_level,
            enchantment_level: self.enchantment_level,
            unit_price_silver: self.unit_price_silver,
            amount: self.amount,
            auction_type: self.auction_type.clone(),
            expires_at: self.expires_at,
            created_at: self.created_at,
            updated_at: self.updated_at,
        }
    }
}

/// The natural key of a history bucket.
pub struct HistoryKey {
    pub item_id: Seq<char>,
    pub location_id: Seq<char>,
    pub quality_level: i32,
    pub timescale: i32,
    pub timestamp: Timestamp,
}

impl Record for MarketHistory {
    type Key = HistoryKey;

    /// A bucket is known by item, location, quality, timescale and start.
    open spec fn key_of(row: HistoryRow) -> HistoryKey {
        HistoryKey {
            item_id: row.item_id,
            location_id: row.location_id,
            quality_level: row.quality_level,
            timescale: row.timescale,
            timestamp: row.timestamp,
        }
    }

    /// A later sighting overwrites the traded volumes and the time of the
    /// last update; the key and the time of the first sighting stay.
    open spec fn merged(existing: HistoryRow, incoming: HistoryRow) -> HistoryRow {
        HistoryRow {
            item_amount: incoming.item_amount,
            silver_amount: incoming.silver_amount,
            updated_at: incoming.updated_at,
            ..existing
        }
    }

    proof fn lemma_merged_keeps_key(existing: HistoryRow, incoming: HistoryRow) {
    }

    fn same_key(&self, other: &Self) -> (r: bool) {
        self.item_id == other.item_id && self.location_id == other.location_id
            && self.quality_level == other.quality_level && self.timescale == other.timescale
            && self.timestamp == other.timestamp
    }

    fn merge(&mut self, incoming: &Self) {
        self.item_amount = incoming.item_amount;
        self.silver_amount = incoming.silver_amount;
        self.updated_at = incoming.updated_at;
    }

    fn duplicate(&self) -> (r: Self) {
        MarketHistory {
            item_id: self.item_id.clone(),
            location_id: self.location_id.clone(),
            quality_level: self.quality_level,
            timescale: self.timescale,
            timestamp: self.timestamp,
            item_amount: self.item_amount,
            silver_amount: self.silver_amount,
            created_at: self.created_at,
            updated_at: self.updated_at,
        }
    }
}

/// An item of the reference data.
#[derive(Debug)]
pub struct Item {
    pub id: String,
    pub unique_name: String,
}

/// The row that holds the localized names of one item.
#[derive(Debug)]
pub struct LocalizedName {
    pub item_unique_name: String,
    pub en_us: Option<String>,
    pub de_de: Option<String>,
    pub fr_fr: Option<String>,
    pub ru_ru: Option<String>,
    pub pl_pl: Option<String>,
    pub es_es: Option<String>,
    pub pt_br: Option<String>,
    pub it_it: Option<String>,
    pub zh_cn: Option<String>,
    pub ko_kr: Option<String>,
    pub ja_jp: Option<String>,
    pub zh_tw: Option<String>,
    pub id_id: Option<String>,
    pub tr_tr: Option<String>,
    pub ar_sa: Option<String>,
}

/// The row that holds the localized descriptions of one item.
#[derive(Debug)]
pub struct LocalizedDescription {
    pub item_unique_name: String,
    pub en_us: Option<String>,
    pub de_de: Option<String>,
    pub fr_fr: Option<String>,
    pub ru_ru: Option<String>,
    pub pl_pl: Option<String>,
    pub es_es: Option<String>,
    pub pt_br: Option<String>,
    pub it_it: Option<String>,
    pub zh_cn: Option<String>,
    pub ko_kr: Option<String>,
    pub ja_jp: Option<String>,
    pub zh_tw: Option<String>,
    pub id_id: Option<String>,
    pub tr_tr: Option<String>,
    pub ar_sa: Option<String>,
}

impl LocalizedName {
    /// The texts, one per language in the order of the fields.
    pub open spec fn texts(&self) -> Seq<Option<Seq<char>>> {
        seq![
            opt_text(self.en_us),
            opt_text(self.de_de),
            opt_text(self.fr_fr),
            opt_text(self.ru_ru),
            opt_text(self.pl_pl),
            opt_text(self.es_es),
            opt_text(self.pt_br),
            opt_text(self.it_it),
            opt_text(self.zh_cn),
            opt_text(self.ko_kr),
            opt_text(self.ja_jp),
            opt_text(self.zh_tw),
            opt_text(self.id_id),
            opt_text(self.tr_tr),
            opt_text(self.ar_sa),
        ]
    }

    /// The row for the names that a reference file lists for `item`.
    pub fn from_json(item: &str, names: &json::LocalizedName) -> (row: Self)
        ensures
            row.item_unique_name@ == item@,
            row.texts() == names.texts(),
    {
        LocalizedName {
            item_unique_name: item.to_owned(),
            en_us: copy_opt(&names.en_us),
            de_de: copy_opt(&names.de_de),
            fr_fr: copy_opt(&names.fr_fr),
            ru_ru: copy_opt(&names.ru_ru),
            pl_pl: copy_opt(&names.pl_pl),
            es_es: copy_opt(&names.es_es),
            pt_br: copy_opt(&names.pt_br),
            it_it: copy_opt(&names.it_it),
            zh_cn: copy_opt(&names.zh_cn),
            ko_kr: copy_opt(&names.ko_kr),
            ja_jp: copy_opt(&names.ja_jp),
            zh_tw: copy_opt(&names.zh_tw),
            id_id: copy_opt(&names.id_id),
            tr_tr: copy_opt(&names.tr_tr),
            ar_sa: copy_opt(&names.ar_sa),
        }
    }

    /// A copy of the row.
    pub fn duplicate(&self) -> (row: Self)
        ensures
            row.item_unique_name@ == self.item_unique_name@,
            row.texts() == self.texts(),
    {
        LocalizedName {
            item_unique_name: self.item_unique_name.clone(),
            en_us: copy_opt(&self.en_us),
            de_de: copy_opt(&self.de_de),
            fr_fr: copy_opt(&self.fr_fr),
            ru_ru: copy_opt(&self.ru_ru),
            pl_pl: copy_opt(&self.pl_pl),
            es_es: copy_opt(&self.es_es),
            pt_br: copy_opt(&self.pt_br),
            it_it: copy_opt(&self.it_it),
            zh_cn: copy_opt(&self.zh_cn),
            ko_kr: copy_opt(&self.ko_kr),
            ja_jp: copy_opt(&self.ja_jp),
            zh_tw: copy_opt(&self.zh_tw),
            id_id: copy_opt(&self.id_id),
            tr_tr: copy_opt(&self.tr_tr),
            ar_sa: copy_opt(&self.ar_sa),
        }
    }
}

impl LocalizedDescription {
    /// The texts, one per language in the order of the fields.
    pub open spec fn texts(&self) -> Seq<Option<Seq<char>>> {
        seq![
            opt_text(self.en_us),
            opt_text(self.de_de),
            opt_text(self.fr_fr),
            opt_text(self.ru_ru),
            opt_text(self.pl_pl),
            opt_text(self.es_es),
            opt_text(self.pt_br),
            opt_text(self.it_it),
            opt_text(self.zh_cn),
            opt_text(self.ko_kr),
            opt_text(self.ja_jp),
            opt_text(self.zh_tw),
            opt_text(self.id_id),
            opt_text(self.tr_tr),
            opt_text(self.ar_sa),
        ]
    }

    /// The row for the descriptions that a reference file lists for `item`.
    pub fn from_json(item: &str, descriptions: &json::LocalizedDescription) -> (row: Self)
        ensures
            row.item_unique_name@ == item@,
            row.texts() == descriptions.texts(),
    {
        LocalizedDescription {
            item_unique_name: item.to_owned(),
            en_us: copy_opt(&descriptions.en_us),
            de_de: copy_opt(&descriptions.de_de),
            fr_fr: copy_opt(&descriptions.fr_fr),
            ru_ru: copy_opt(&descriptions.ru_ru),
            pl_pl: copy_opt(&descriptions.pl_pl),
            es_es: copy_opt(&descriptions.es_es),
            pt_br: copy_opt(&descriptions.pt_br),
            it_it: copy_opt(&descriptions.it_it),
            zh_cn: copy_opt(&descriptions.zh_cn),
            ko_kr: copy_opt(&descriptions.ko_kr),
            ja_jp: copy_opt(&descriptions.ja_jp),
            zh_tw: copy_opt(&descriptions.zh_tw),
            id_id: copy_opt(&descriptions.id_id),
            tr_tr: copy_opt(&descriptions.tr_tr),
            ar_sa: copy_opt(&descriptions.ar_sa),
        }
    }

    /// A copy of the row.
    pub fn duplicate(&self) -> (row: Self)
        ensures
            row.item_unique_name@ == self.item_unique_name@,
            row.texts() == self.texts(),
    {
        LocalizedDescription {
            item_unique_name: self.item_unique_name.clone(),
            en_us: copy_opt(&self.en_us),
            de_de: copy_opt(&self.de_de),
            fr_fr: copy_opt(&self.fr_fr),
            ru_ru: copy_opt(&self.ru_ru),
            pl_pl: copy_opt(&self.pl_pl),
            es_es: copy_opt(&self.es_es),
            pt_br: copy_opt(&self.pt_br),
            it_it: copy_opt(&self.it_it),
            zh_cn: copy_opt(&self.zh_cn),
            ko_kr: copy_opt(&self.ko_kr),
            ja_jp: copy_opt(&self.ja_jp),
            zh_tw: copy_opt(&self.zh_tw),
            id_id: copy_opt(&self.id_id),
            tr_tr: copy_opt(&self.tr_tr),
            ar_sa: copy_opt(&self.ar_sa),
        }
    }
}

} // verus!
