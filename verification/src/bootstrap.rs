//! Loading the reference data: which rows one item of a reference file gives,
//! and whether the files were there at all.

use crate::models::db;
use crate::models::json;
use crate::text::i32_from_str;
use crate::text::parse_i32;
use vstd::prelude::*;

verus! {

/// Why the reference data could not be loaded. Ingestion does not start
/// without it.
#[derive(Clone, Copy, Debug, PartialEq, Eq, Structural)]
pub enum BootstrapError {
    /// The file of localizations is missing or does not parse.
    Localizations,
    /// The file of locations is missing or does not parse.
    Locations,
}

/// The reference data of both files.
pub struct ReferenceData {
    pub localizations: Vec<json::Localization>,
    pub locations: Vec<json::Location>,
}

/// The rows that one item of a reference file gives.
pub struct ItemRows {
    pub item_id: i32,
    pub item_unique_name: String,
    /// The row of names, where the file lists names for the item.
    pub names: Option<db::LocalizedName>,
    /// The row of descriptions, where the file lists both names and
    /// descriptions for the item.
    pub descriptions: Option<db::LocalizedDescription>,
}

/// Whether `rows` are the rows that `localization` gives under the item
/// number `item_id`.
pub open spec fn rows_of(
    rows: ItemRows,
    localization: &json::Localization,
    item_id: i32,
) -> bool {
    &&& rows.item_id == item_id
    &&& rows.item_unique_name@ == localization.item@
    &&& match localization.localized_names {
        Some(names) => rows.names matches Some(row) && row.item_unique_name@ == localization.item@
            && row.texts() == names.texts(),
        None => rows.names is None,
    }
    &&& match (localization.localized_names, localization.localized_descriptions) {
        (Some(_), Some(descriptions)) => rows.descriptions matches Some(row)
            && row.item_unique_name@ == localization.item@ && row.texts() == descriptions.texts(),
        _ => rows.descriptions is None,
    }
}

/// Both files loaded, or the first that did not.
pub fn loaded(
    localizations: Option<Vec<json::Localization>>,
    locations: Option<Vec<json::Location>>,
) -> (r: Result<ReferenceData, BootstrapError>)
    ensures
        match r {
            Ok(data) => localizations == Some(data.localizations) && locations == Some(
                data.locations,
            ),
            Err(BootstrapError::Localizations) => localizations is None,
            Err(BootstrapError::Locations) => localizations is Some && locations is None,
        },
{
    let localizations = match localizations {
        Some(localizations) => localizations,
        None => return Err(BootstrapError::Localizations),
    };
    let locations = match locations {
        Some(locations) => locations,
        None => return Err(BootstrapError::Locations),
    };
    Ok(ReferenceData { localizations, locations })
}

/// The rows that an item gives once its number has been read: none without
/// a number; else the item itself, its names where the file lists them, and
/// its descriptions where the file lists names as well.
pub fn item_rows_with(localization: &json::Localization, item_id: Option<i32>) -> (r: Option<
    ItemRows,
>)
    ensures
        match r {
            Some(rows) => item_id is Some && rows_of(rows, localization, item_id->0),
            None => item_id is None,
        },
{
    let item_id = match item_id {
        Some(item_id) => item_id,
        None => return None,
    };
    let names = match &localization.localized_names {
        Some(names) => Some(db::LocalizedName::from_json(localization.item.as_str(), names)),
        None => None,
    };
    let descriptions = match (&localization.localized_names, &localization.localized_descriptions) {
        (Some(_), Some(descriptions)) => Some(
            db::LocalizedDescription::from_json(localization.item.as_str(), descriptions),
        ),
        _ => None,
    };
    Some(ItemRows { item_id, item_unique_name: localization.item.clone(), names, descriptions })
}

/// The rows that one item of a reference file gives; none where the item's
/// number does not read as an `i32`.
pub fn item_rows(localization: &json::Localization) -> (r: Option<ItemRows>)
    ensures
        match r {
            Some(rows) => i32_from_str(localization.id@) is Some && rows_of(
                rows,
                localization,
                i32_from_str(localization.id@)->0,
            ),
            None => i32_from_str(localization.id@) is None,
        },
{
    item_rows_with(localization, parse_i32(localization.id.as_str()))
}

} // verus!
