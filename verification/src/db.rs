//! The records the server stores, and how stored rows are read back.
//!
//! Ids are stored as text (hyphenated UUIDs) so that the database stays
//! easy to inspect; here they are 128-bit values. A project's `data` is an
//! opaque JSON document whose shape belongs to the configuration pages.

use vstd::prelude::*;

verus! {

#[verifier::external_type_specification]
#[verifier::external_body]
pub struct ExJsonValue(serde_json::Value);

#[verifier::external_type_specification]
#[verifier::external_body]
pub struct ExJsonError(serde_json::Error);

#[verifier::external_type_specification]
#[verifier::external_body]
pub struct ExUuidError(uuid::Error);

/// The 128-bit value of a UUID text, as `uuid::Uuid::parse_str` reads it
/// (hyphenated, simple, braced or URN form); `None` when it is not one.
pub uninterp spec fn uuid_value(text: Seq<char>) -> Option<u128>;

/// `uuid::Uuid::parse_str`, as the 128-bit value. Trusted: the result is
/// the name `uuid_value` of the text.
#[verifier::external_body]
pub(crate) fn parse_uuid(text: &str) -> (r: Result<u128, uuid::Error>)
    ensures
        match r {
            Ok(v) => uuid_value(text@) == Some(v),
            Err(_) => uuid_value(text@) is None,
        },
{
    uuid::Uuid::parse_str(text).map(|u| u.as_u128())
}

/// The text of a `uuid` parse error (its `Display`). Trusted; nothing is
/// stated of the text.
#[verifier::external_body]
fn uuid_error_text(e: &uuid::Error) -> String {
    e.to_string()
}

/// Whether `serde_json::from_str::<serde_json::Value>` accepts the text
/// as a JSON document.
pub uninterp spec fn json_text_valid(text: Seq<char>) -> bool;

/// The JSON document `serde_json::from_str::<serde_json::Value>` builds
/// from an accepted text.
pub uninterp spec fn json_value(text: Seq<char>) -> serde_json::Value;

/// `serde_json::from_str::<serde_json::Value>`. Trusted: it succeeds
/// exactly when the text is accepted, and then builds the document
/// `json_value` of the text; both depend on the text alone. What the
/// document holds is not described.
#[verifier::external_body]
fn parse_json(text: &str) -> (r: Result<serde_json::Value, serde_json::Error>)
    ensures
        r is Ok <==> json_text_valid(text@),
        r matches Ok(v) ==> v == json_value(text@),
{
    serde_json::from_str(text)
}

/// The text of a `serde_json` error (its `Display`). Trusted; nothing is
/// stated of the text.
#[verifier::external_body]
fn json_error_text(e: &serde_json::Error) -> String {
    e.to_string()
}

/// A stored row that does not decode.
#[derive(Debug)]
pub enum RowError {
    /// An id column does not hold a UUID.
    BadId(String),
    /// The data column does not hold JSON.
    BadData(String),
}

/// Shared reference data: one tariff jurisdiction, reusable across many
/// organizations and projects.
#[derive(Debug)]
pub struct Market {
    pub id: u128,
    pub name: String,
    pub country_code: String,
    pub tariff_model_key: String,
}

/// A `markets` row as stored.
#[derive(Debug)]
pub struct MarketRow {
    pub id: String,
    pub name: String,
    pub country_code: String,
    pub tariff_model_key: String,
}

impl Market {
    /// Reads a stored market row: fails when its id is not a UUID.
    pub fn from_row(row: MarketRow) -> (r: Result<Market, RowError>)
        ensures
            match r {
                Ok(m) => uuid_value(row.id@) == Some(m.id) && m.name == row.name
                    && m.country_code == row.country_code && m.tariff_model_key
                    == row.tariff_model_key,
                Err(e) => uuid_value(row.id@) is None && e is BadId,
            },
    {
        let id = match parse_uuid(row.id.as_str()) {
            Ok(v) => v,
            Err(e) => {
                return Err(RowError::BadId(uuid_error_text(&e)));
            },
        };
        Ok(
            Market {
                id,
                name: row.name,
                country_code: row.country_code,
                tariff_model_key: row.tariff_model_key,
            },
        )
    }
}

/// One client project.
#[derive(Debug)]
pub struct Project {
    pub id: u128,
    pub org_id: u128,
    pub market_id: Option<u128>,
    pub name: String,
    pub data: serde_json::Value,
}

/// A `projects` row as stored.
#[derive(Debug)]
pub struct ProjectRow {
    pub id: String,
    pub org_id: String,
    pub market_id: Option<String>,
    pub name: String,
    pub data: String,
}

pub open spec fn market_id_value(text: Option<String>) -> Option<Option<u128>> {
    match text {
        None => Some(None),
        Some(t) => match uuid_value(t@) {
            Some(v) => Some(Some(v)),
            None => None,
        },
    }
}

/// The row decodes: every id is a UUID and the data is JSON.
pub open spec fn project_row_valid(row: ProjectRow) -> bool {
    &&& market_id_value(row.market_id) is Some
    &&& uuid_value(row.id@) is Some
    &&& uuid_value(row.org_id@) is Some
    &&& json_text_valid(row.data@)
}

impl Project {
    /// Reads a stored project row. The market id is checked first, then the
    /// id, the organization id and the data; the first that does not decode
    /// is reported.
    pub fn from_row(row: ProjectRow) -> (r: Result<Project, RowError>)
        ensures
            r is Ok <==> project_row_valid(row),
            r matches Ok(p) ==> {
                &&& market_id_value(row.market_id) == Some(p.market_id)
                &&& uuid_value(row.id@) == Some(p.id)
                &&& uuid_value(row.org_id@) == Some(p.org_id)
                &&& p.name == row.name
                &&& p.data == json_value(row.data@)
            },
            r matches Err(e) ==> if market_id_value(row.market_id) is None || uuid_value(row.id@)
                is None || uuid_value(row.org_id@) is None {
                e is BadId
            } else {
                e is BadData
            },
    {
        let market_id = match &row.market_id {
            None => None,
            Some(t) => match parse_uuid(t.as_str()) {
                Ok(v) => Some(v),
                Err(e) => {
                    return Err(RowError::BadId(uuid_error_text(&e)));
                },
            },
        };
        let id = match parse_uuid(row.id.as_str()) {
            Ok(v) => v,
            Err(e) => {
                return Err(RowError::BadId(uuid_error_text(&e)));
            },
        };
        let org_id = match parse_uuid(row.org_id.as_str()) {
            Ok(v) => v,
            Err(e) => {
                return Err(RowError::BadId(uuid_error_text(&e)));
            },
        };
        let data = match parse_json(row.data.as_str()) {
            Ok(v) => v,
            Err(e) => {
                return Err(RowError::BadData(json_error_text(&e)));
            },
        };
        Ok(Project { id, org_id, market_id, name: row.name, data })
    }
}

} // verus!
