//! Messages as the bus delivers them, after JSON decoding and before any
//! normalisation.

use crate::text::decimal;
use crate::text::decimal_text;
use vstd::prelude::*;

verus! {

/// A JSON number as a message carries it.
#[derive(Debug)]
pub enum Number {
    /// A whole number within the range of `i64`.
    Int(i64),
    /// Any other number (a larger unsigned integer, or one written with a
    /// fraction or an exponent), kept as its text.
    NonInt(String),
}

impl Number {
    /// The number as an `i64`, where it is one.
    pub open spec fn int_value(&self) -> Option<i64> {
        match self {
            Number::Int(i) => Some(*i),
            Number::NonInt(_) => None,
        }
    }

    /// The number as text: decimal digits for a whole number, else the text
    /// it was kept as.
    pub open spec fn text(&self) -> Seq<char> {
        match self {
            Number::Int(i) => decimal_text(*i as int),
            Number::NonInt(s) => s@,
        }
    }

    /// The number as an `i64`, or `None` if it is not a whole number in range.
    pub fn as_i64(&self) -> (r: Option<i64>)
        ensures
            r == self.int_value(),
    {
        match self {
            Number::Int(i) => Some(*i),
            Number::NonInt(_) => None,
        }
    }

    /// The number written out.
    pub fn to_text(&self) -> (r: String)
        ensures
            r@ == self.text(),
    {
        match self {
            Number::Int(i) => decimal(*i),
            Number::NonInt(s) => s.clone(),
        }
    }
}

/// One order posting or update.
#[derive(Debug)]
pub struct MarketOrder {
    pub id: Number,
    pub item_id: String,
    pub group_type_id: String,
    pub location_id: Number,
    pub quality_level: Number,
    pub enchantment_level: Number,
    pub unit_price_silver: Number,
    pub amount: Number,
    pub auction_type: String,
    pub expires: String,
}

/// The trade history of one item at one location, as a series of buckets.
#[derive(Debug)]
pub struct MarketHistories {
    pub id: Number,
    pub item_id: String,
    pub location_id: Number,
    pub quality_level: Number,
    pub timescale: Number,
    pub market_histories: Vec<MarketHistory>,
}

/// The traded volume of one time bucket.
#[derive(Debug)]
pub struct MarketHistory {
    pub item_amount: Number,
    pub silver_amount: Number,
    pub timestamp: Number,
}

} // verus!
