//! Decoding the parameters of a request. A parameter that is present and does
//! not read as what it should be makes the whole request a bad one.

use crate::text::contains;
use crate::text::has_infix;
use crate::text::i32_from_str;
use crate::text::i64_from_str;
use crate::text::parse_i32;
use crate::text::parse_i64;
use crate::text::same_text;
use crate::time::parsed_date;
use crate::time::Date;
use crate::time::DateFormat;
use vstd::prelude::*;

verus! {

/// The most rows one page of orders holds, and the size of a page when the
/// request names none.
pub const MAX_PAGE: i64 = 100;

/// Which parameter made a request a bad one.
#[derive(Clone, Copy, Debug, PartialEq, Eq, Structural)]
pub enum QueryError {
    /// A search without a name to search for.
    MissingName,
    /// Statistics without a grouping, or with one that is not known.
    GroupBy,
    QualityLevel,
    EnchantmentLevel,
    Limit,
    Offset,
    From,
    To,
    MinMarketOrders,
}

/// How order statistics are grouped.
#[derive(Clone, Copy, Debug, PartialEq, Eq, Structural)]
pub enum StatisticsGroup {
    UpdatedAt,
    UpdatedAtAndLocation,
    CreatedAt,
    CreatedAtAndLocation,
    Location,
}

/// The parameters of an order listing as the request carries them.
#[derive(Debug)]
pub struct OrderParams {
    pub quality_level: Option<String>,
    pub enchantment_level: Option<String>,
    pub limit: Option<String>,
    pub offset: Option<String>,
    pub from: Option<String>,
    pub to: Option<String>,
}

/// The decoded parameters of an order listing.
#[derive(Clone, Copy, Debug, PartialEq, Eq, Structural)]
pub struct OrderFilter {
    pub quality_level: Option<i32>,
    pub enchantment_level: Option<i32>,
    pub date_from: Option<Date>,
    pub date_to: Option<Date>,
    pub limit: i64,
    pub offset: i64,
}

/// The grouping that a `group_by` parameter names: the exact names first,
/// then any text that mentions both a time and the location.
pub open spec fn statistics_group(group_by: Seq<char>) -> Option<StatisticsGroup> {
    if group_by == "updated_at"@ {
        Some(StatisticsGroup::UpdatedAt)
    } else if has_infix(group_by, "updated_at"@) && has_infix(group_by, "location"@) {
        Some(StatisticsGroup::UpdatedAtAndLocation)
    } else if group_by == "created_at"@ {
        Some(StatisticsGroup::CreatedAt)
    } else if has_infix(group_by, "created_at"@) && has_infix(group_by, "location"@) {
        Some(StatisticsGroup::CreatedAtAndLocation)
    } else if group_by == "location"@ {
        Some(StatisticsGroup::Location)
    } else {
        None
    }
}

/// The size of a page: the size asked for, but no more than `MAX_PAGE`, which
/// is also the size when none is asked for.
pub open spec fn page_size(requested: Option<i64>) -> i64 {
    match requested {
        Some(limit) => if limit > MAX_PAGE {
            MAX_PAGE
        } else {
            limit
        },
        None => MAX_PAGE,
    }
}

/// An optional whole number: absent, or bad where `None` stands for a text
/// that did not read as one.
pub open spec fn optional<T>(raw: Option<String>, read: spec_fn(Seq<char>) -> Option<T>) -> Option<
    Option<T>,
> {
    match raw {
        Some(text) => match read(text@) {
            Some(value) => Some(Some(value)),
            None => None,
        },
        None => Some(None),
    }
}

/// The filter that the parameters of an order listing stand for, or the first
/// parameter, in the order of the fields, that does not read.
pub open spec fn order_filter(params: &OrderParams, dates: DateFormat) -> Result<
    OrderFilter,
    QueryError,
> {
    let quality_level = optional(params.quality_level, |t: Seq<char>| i32_from_str(t));
    let enchantment_level = optional(params.enchantment_level, |t: Seq<char>| i32_from_str(t));
    let limit = optional(params.limit, |t: Seq<char>| i64_from_str(t));
    let offset = optional(params.offset, |t: Seq<char>| i64_from_str(t));
    let date_from = optional(params.from, |t: Seq<char>| parsed_date(t, dates));
    let date_to = optional(params.to, |t: Seq<char>| parsed_date(t, dates));
    if quality_level is None {
        Err(QueryError::QualityLevel)
    } else if enchantment_level is None {
        Err(QueryError::EnchantmentLevel)
    } else if limit is None {
        Err(QueryError::Limit)
    } else if offset is None {
        Err(QueryError::Offset)
    } else if date_from is None {
        Err(QueryError::From)
    } else if date_to is None {
        Err(QueryError::To)
    } else {
        Ok(
            OrderFilter {
                quality_level: quality_level->0,
                enchantment_level: enchantment_level->0,
                date_from: date_from->0,
                date_to: date_to->0,
                limit: page_size(limit->0),
                offset: match offset->0 {
                    Some(offset) => offset,
                    None => 0,
                },
            },
        )
    }
}

impl StatisticsGroup {
    /// The grouping that a `group_by` parameter names, if it names one.
    pub fn from_group_by(group_by: &str) -> (r: Option<StatisticsGroup>)
        ensures
            r == statistics_group(group_by@),
    {
        if same_text(group_by, "updated_at") {
            return Some(StatisticsGroup::UpdatedAt);
        }
        if contains(group_by, "updated_at") && contains(group_by, "location") {
            return Some(StatisticsGroup::UpdatedAtAndLocation);
        }
        if same_text(group_by, "created_at") {
            return Some(StatisticsGroup::CreatedAt);
        }
        if contains(group_by, "created_at") && contains(group_by, "location") {
            return Some(StatisticsGroup::CreatedAtAndLocation);
        }
        if same_text(group_by, "location") {
            return Some(StatisticsGroup::Location);
        }
        None
    }

    /// The grouping of a statistics request; a request without `group_by`, or
    /// with one that names no grouping, is a bad one.
    pub fn decode(group_by: Option<&str>) -> (r: Result<StatisticsGroup, QueryError>)
        ensures
            r == match group_by {
                Some(text) => match statistics_group(text@) {
                    Some(group) => Ok::<StatisticsGroup, QueryError>(group),
                    None => Err(QueryError::GroupBy),
                },
                None => Err(QueryError::GroupBy),
            },
    {
        match group_by {
            Some(text) => match StatisticsGroup::from_group_by(text) {
                Some(group) => Ok(group),
                None => Err(QueryError::GroupBy),
            },
            None => Err(QueryError::GroupBy),
        }
    }
}

/// The size of a page for the size a request asks for.
pub fn page_limit(requested: Option<i64>) -> (r: i64)
    ensures
        r == page_size(requested),
{
    match requested {
        Some(limit) => if limit > MAX_PAGE {
            MAX_PAGE
        } else {
            limit
        },
        None => MAX_PAGE,
    }
}

fn optional_i32(raw: &Option<String>) -> (r: Option<Option<i32>>)
    ensures
        r == optional(*raw, |t: Seq<char>| i32_from_str(t)),
{
    match raw {
        Some(text) => match parse_i32(text.as_str()) {
            Some(value) => Some(Some(value)),
            None => None,
        },
        None => Some(None),
    }
}

fn optional_i64(raw: &Option<String>) -> (r: Option<Option<i64>>)
    ensures
        r == optional(*raw, |t: Seq<char>| i64_from_str(t)),
{
    match raw {
        Some(text) => match parse_i64(text.as_str()) {
            Some(value) => Some(Some(value)),
            None => None,
        },
        None => Some(None),
    }
}

fn optional_date(raw: &Option<String>, dates: DateFormat) -> (r: Option<Option<Date>>)
    ensures
        r == optional(*raw, |t: Seq<char>| parsed_date(t, dates)),
        r matches Some(Some(date)) ==> date.wf(),
{
    match raw {
        Some(text) => match Date::parse(text.as_str(), dates) {
            Some(value) => Some(Some(value)),
            None => None,
        },
        None => Some(None),
    }
}

/// Decodes the parameters of an order listing.
pub fn decode_order_filter(params: &OrderParams, dates: DateFormat) -> (r: Result<
    OrderFilter,
    QueryError,
>)
    ensures
        r == order_filter(params, dates),
{
    let quality_level = match optional_i32(&params.quality_level) {
        Some(value) => value,
        None => return Err(QueryError::QualityLevel),
    };
    let enchantment_level = match optional_i32(&params.enchantment_level) {
        Some(value) => value,
        None => return Err(QueryError::EnchantmentLevel),
    };
    let limit = match optional_i64(&params.limit) {
        Some(value) => page_limit(value),
        None => return Err(QueryError::Limit),
    };
    let offset = match optional_i64(&params.offset) {
        Some(Some(value)) => value,
        Some(None) => 0,
        None => return Err(QueryError::Offset),
    };
    let date_from = match optional_date(&params.from, dates) {
        Some(value) => value,
        None => return Err(QueryError::From),
    };
    let date_to = match optional_date(&params.to, dates) {
        Some(value) => value,
        None => return Err(QueryError::To),
    };
    Ok(OrderFilter { quality_level, enchantment_level, date_from, date_to, limit, offset })
}

/// Decodes the least number of orders that a listed location must have.
pub fn decode_min_market_orders(raw: &Option<String>) -> (r: Result<Option<i32>, QueryError>)
    ensures
        r == match optional(*raw, |t: Seq<char>| i32_from_str(t)) {
            Some(value) => Ok::<Option<i32>, QueryError>(value),
            None => Err(QueryError::MinMarketOrders),
        },
{
    match optional_i32(raw) {
        Some(value) => Ok(value),
        None => Err(QueryError::MinMarketOrders),
    }
}

/// The language of a search: the one asked for, else `en_us`.
pub fn search_language(lang: Option<&str>) -> (r: &str)
    ensures
        r@ == match lang {
            Some(text) => text@,
            None => "en_us"@,
        },
{
    match lang {
        Some(text) => text,
        None => "en_us",
    }
}

/// The name a search looks for; a search without one is a bad request.
pub fn search_name(name: Option<&str>) -> (r: Result<&str, QueryError>)
    ensures
        match r {
            Ok(text) => name == Some(text),
            Err(e) => name is None && e == QueryError::MissingName,
        },
{
    match name {
        Some(text) => Ok(text),
        None => Err(QueryError::MissingName),
    }
}

} // verus!
