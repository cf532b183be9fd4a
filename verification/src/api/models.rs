//! The shapes of the read side's answers.

use crate::models::db::LocalizedDescription;
use crate::models::db::LocalizedName;
use crate::time::Timestamp;
use vstd::prelude::*;

verus! {

/// An item by its unique name.
#[derive(Debug)]
pub struct Item {
    pub unique_name: String,
}

/// The localized texts of one item.
#[derive(Debug)]
pub struct Localizations {
    pub unique_name: String,
    pub name: LocalizedName,
    pub description: LocalizedDescription,
}

/// The localized texts of one item, as far as the store has them.
#[derive(Debug)]
pub struct LocalizationResponse {
    pub unique_name: String,
    pub name: Option<LocalizedName>,
    pub description: Option<LocalizedDescription>,
}

/// A location by its fixed-width id.
#[derive(Debug)]
pub struct Location {
    pub id: String,
    pub name: String,
}

/// The number of orders.
#[derive(Clone, Copy, Debug, PartialEq, Eq, Structural)]
pub struct MarketOrderCount {
    pub count: Option<i64>,
}

/// The number of orders of one item.
#[derive(Debug)]
pub struct MarketOrderCountByItem {
    pub item_unique_name: String,
    pub count: Option<i64>,
}

/// The number of orders at one location.
#[derive(Debug)]
pub struct MarketOrderCountByLocation {
    pub location: Option<String>,
    pub count: Option<i64>,
}

/// The number of orders of one auction type.
#[derive(Debug)]
pub struct MarketOrderCountByAuctionType {
    pub auction_type: String,
    pub count: Option<i64>,
}

/// The number of orders of one quality level.
#[derive(Clone, Copy, Debug, PartialEq, Eq, Structural)]
pub struct MarketOrderCountByQualityLevel {
    pub quality_level: i32,
    pub count: Option<i64>,
}

/// The number of orders of one enchantment level.
#[derive(Clone, Copy, Debug, PartialEq, Eq, Structural)]
pub struct MarketOrderCountByEnchantmentLevel {
    pub enchantment_level: i32,
    pub count: Option<i64>,
}

/// The number of orders last updated in one time bucket at one location.
#[derive(Debug)]
pub struct MarketOrderCountByUpdatedAtAndLocation {
    pub updated_at: Option<Timestamp>,
    pub location: Option<String>,
    pub count: Option<i64>,
}

/// The number of orders first seen in one time bucket at one location.
#[derive(Debug)]
pub struct MarketOrderCountByCreatedAtAndLocation {
    pub created_at: Option<Timestamp>,
    pub location: Option<String>,
    pub count: Option<i64>,
}

/// The number of orders last updated in one time bucket.
#[derive(Clone, Copy, Debug, PartialEq, Eq, Structural)]
pub struct MarketOrderCountByUpdatedAt {
    pub updated_at: Option<Timestamp>,
    pub count: Option<i64>,
}

/// The number of orders first seen in one time bucket.
#[derive(Clone, Copy, Debug, PartialEq, Eq, Structural)]
pub struct MarketOrderCountByCreatedAt {
    pub created_at: Option<Timestamp>,
    pub count: Option<i64>,
}

impl Localizations {
    /// The answer for an item from the two rows the store holds for it.
    pub fn new(unique_name: &str, name: LocalizedName, description: LocalizedDescription) -> (r:
        Self)
        ensures
            r.unique_name@ == unique_name@,
            r.name == name,
            r.description == description,
    {
        Localizations { unique_name: unique_name.to_owned(), name, description }
    }
}

impl LocalizationResponse {
    /// The answer for an item from whichever rows the store holds for it.
    pub fn new(
        unique_name: &str,
        name: Option<LocalizedName>,
        description: Option<LocalizedDescription>,
    ) -> (r: Self)
        ensures
            r.unique_name@ == unique_name@,
            r.name == name,
            r.description == description,
    {
        LocalizationResponse { unique_name: unique_name.to_owned(), name, description }
    }
}

} // verus!
