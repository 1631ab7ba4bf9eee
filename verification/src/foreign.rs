//! Trusted boundary to the outside crates that decode semantic values:
//! unique identifiers, timestamps, and structured-data documents. Each
//! wrapper makes one outside call; its contract names the result, which is
//! a function of the arguments alone.

use vstd::prelude::*;

use chrono::TimeZone;

verus! {

/// The canonical lowercase hyphenated text of the unique identifier whose
/// big-endian bytes these are. Defined only by the contracts below.
pub uninterp spec fn uuid_hyphenated_of(b: Seq<u8>) -> Seq<char>;

/// Relies on uuid::Uuid::from_slice, which fails exactly when the slice is
/// not 16 bytes long, and on uuid::fmt::Hyphenated: the canonical lowercase
/// hyphenated rendering, 36 characters, a function of the bytes alone.
#[verifier::external_body]
pub(crate) fn uuid_text_from_blob(b: &Vec<u8>) -> (r: Option<String>)
    ensures
        r is Some <==> b@.len() == 16,
        (match r {
            Some(s) => s@ == uuid_hyphenated_of(b@) && s@.len() == 36,
            None => true,
        }),
{
    match uuid::Uuid::from_slice(b.as_slice()) {
        Ok(u) => Some(u.hyphenated().to_string()),
        Err(_) => None,
    }
}

/// What chrono makes of the text read as an RFC 3339 timestamp: `None`
/// where parsing fails, else the instant rendered in UTC.
pub uninterp spec fn rfc3339_canon_of(s: Seq<char>) -> Option<Seq<char>>;

/// Relies on chrono::DateTime::parse_from_rfc3339 and on
/// chrono::DateTime::to_rfc3339_opts with automatic second precision and a
/// trailing `Z` (the rendering chrono's serde support uses): both are
/// functions of the text alone.
#[verifier::external_body]
pub(crate) fn parse_rfc3339(s: &str) -> (r: Option<String>)
    ensures
        (match r {
            Some(t) => rfc3339_canon_of(s@) == Some(t@),
            None => rfc3339_canon_of(s@) is None,
        }),
{
    match chrono::DateTime::parse_from_rfc3339(s) {
        Ok(dt) => Some(
            chrono::DateTime::<chrono::Utc>::from(dt).to_rfc3339_opts(
                chrono::SecondsFormat::AutoSi,
                true,
            ),
        ),
        Err(_) => None,
    }
}

/// What chrono makes of the text under the given zone-aware format string:
/// `None` where parsing fails, else the instant rendered in UTC.
pub uninterp spec fn zoned_format_canon_of(s: Seq<char>, fmt: Seq<char>) -> Option<Seq<char>>;

/// Relies on chrono::DateTime::parse_from_str with the given format and on
/// chrono::DateTime::to_rfc3339_opts as above: functions of the two texts
/// alone (the formats used here carry no locale-dependent field).
#[verifier::external_body]
pub(crate) fn parse_zoned_with_format(s: &str, fmt: &str) -> (r: Option<String>)
    ensures
        (match r {
            Some(t) => zoned_format_canon_of(s@, fmt@) == Some(t@),
            None => zoned_format_canon_of(s@, fmt@) is None,
        }),
{
    match chrono::DateTime::parse_from_str(s, fmt) {
        Ok(dt) => Some(
            chrono::DateTime::<chrono::Utc>::from(dt).to_rfc3339_opts(
                chrono::SecondsFormat::AutoSi,
                true,
            ),
        ),
        Err(_) => None,
    }
}

/// What chrono makes of the text under the given format string with no zone
/// in it, the result read as UTC: `None` where parsing fails.
pub uninterp spec fn naive_format_canon_of(s: Seq<char>, fmt: Seq<char>) -> Option<Seq<char>>;

/// Relies on chrono::NaiveDateTime::parse_from_str with the given format,
/// the result taken as UTC and rendered as above: functions of the two
/// texts alone.
#[verifier::external_body]
pub(crate) fn parse_naive_with_format(s: &str, fmt: &str) -> (r: Option<String>)
    ensures
        (match r {
            Some(t) => naive_format_canon_of(s@, fmt@) == Some(t@),
            None => naive_format_canon_of(s@, fmt@) is None,
        }),
{
    match chrono::NaiveDateTime::parse_from_str(s, fmt) {
        Ok(dt) => Some(
            chrono::DateTime::<chrono::Utc>::from_naive_utc_and_offset(dt, chrono::Utc)
                .to_rfc3339_opts(chrono::SecondsFormat::AutoSi, true),
        ),
        Err(_) => None,
    }
}

/// The instant `i` seconds after the Unix epoch rendered in UTC, or `None`
/// where that instant lies outside the supported range.
pub uninterp spec fn unix_timestamp_canon_of(i: i64) -> Option<Seq<char>>;

/// Relies on chrono::Utc::timestamp_opt, which yields a single instant or
/// nothing for out-of-range seconds, rendered as above: a function of the
/// integer alone.
#[verifier::external_body]
pub(crate) fn timestamp_from_unix(i: i64) -> (r: Option<String>)
    ensures
        (match r {
            Some(t) => unix_timestamp_canon_of(i) == Some(t@),
            None => unix_timestamp_canon_of(i) is None,
        }),
{
    match chrono::Utc.timestamp_opt(i, 0) {
        chrono::LocalResult::Single(dt) => Some(
            dt.to_rfc3339_opts(chrono::SecondsFormat::AutoSi, true),
        ),
        _ => None,
    }
}

/// The canonical serialized form of the structured-data document the text
/// holds: `None` where the text is not a well-formed document.
pub uninterp spec fn canonical_document_of(s: Seq<char>) -> Option<Seq<char>>;

/// Relies on serde_json::from_str, which succeeds exactly on well-formed
/// JSON text, and on serde_json::to_string, which renders the parsed
/// document one way (object keys held sorted by serde_json's map): together
/// a function of the text alone.
#[verifier::external_body]
pub(crate) fn reserialize_document(s: &str) -> (r: Option<String>)
    ensures
        (match r {
            Some(t) => canonical_document_of(s@) == Some(t@),
            None => canonical_document_of(s@) is None,
        }),
{
    match serde_json::from_str::<serde_json::Value>(s) {
        Ok(v) => serde_json::to_string(&v).ok(),
        Err(_) => None,
    }
}

} // verus!
