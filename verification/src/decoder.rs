//! Value decoding: a decode strategy applied to one raw column value yields
//! a JSON-compatible typed value or the first reason it cannot.

use vstd::prelude::*;

use vstd::string::StrSliceExecFns;
use vstd::utf8::encode_utf8;

use crate::foreign::canonical_document_of;
use crate::foreign::naive_format_canon_of;
use crate::foreign::parse_naive_with_format;
use crate::foreign::parse_rfc3339;
use crate::foreign::parse_zoned_with_format;
use crate::foreign::reserialize_document;
use crate::foreign::rfc3339_canon_of;
use crate::foreign::timestamp_from_unix;
use crate::foreign::unix_timestamp_canon_of;
use crate::foreign::uuid_hyphenated_of;
use crate::foreign::uuid_text_from_blob;
use crate::foreign::zoned_format_canon_of;
use crate::types::DatabaseTypes;
use crate::types::DecodeError;
use crate::types::RawColumnValue;
use crate::types::RawValueModel;
use crate::types::ValueModel;
use crate::DecodeStrategy;

verus! {

/// The datetime layouts the storage engine documents, tried in this order
/// after RFC 3339.
pub open spec fn sqlite_datetime_formats() -> Seq<Seq<char>> {
    seq![
        "%F %T%.f"@,
        "%F %R"@,
        "%F %RZ"@,
        "%F %R%:z"@,
        "%F %T%.fZ"@,
        "%F %T%.f%:z"@,
        "%FT%R"@,
        "%FT%RZ"@,
        "%FT%R%:z"@,
        "%FT%T%.f"@,
        "%FT%T%.fZ"@,
        "%FT%T%.f%:z"@,
    ]
}

/// The first datetime layout at or after `i` that accepts the text, each
/// layout tried zone-aware first and zoneless second.
pub open spec fn format_chain_from(s: Seq<char>, i: int) -> Option<Seq<char>>
    decreases sqlite_datetime_formats().len() - i,
{
    if i < 0 || i >= sqlite_datetime_formats().len() {
        None
    } else {
        let fmt = sqlite_datetime_formats()[i];
        if zoned_format_canon_of(s, fmt) is Some {
            zoned_format_canon_of(s, fmt)
        } else if naive_format_canon_of(s, fmt) is Some {
            naive_format_canon_of(s, fmt)
        } else {
            format_chain_from(s, i + 1)
        }
    }
}

/// What a timestamp-text column's raw text decodes to: RFC 3339 first, then
/// the storage engine's documented layouts in order; `None` where nothing
/// accepts the text.
pub open spec fn timestamp_canon_of(s: Seq<char>) -> Option<Seq<char>> {
    if rfc3339_canon_of(s) is Some {
        rfc3339_canon_of(s)
    } else {
        format_chain_from(s, 0)
    }
}

/// Decodes timestamp text by trying RFC 3339, then each documented layout.
fn decode_timestamp_text(s: &str) -> (r: Option<String>)
    ensures
        (match r {
            Some(t) => timestamp_canon_of(s@) == Some(t@),
            None => timestamp_canon_of(s@) is None,
        }),
{
    if let Some(t) = parse_rfc3339(s) {
        return Some(t);
    }
    let formats: Vec<&str> = vec![
        "%F %T%.f",
        "%F %R",
        "%F %RZ",
        "%F %R%:z",
        "%F %T%.fZ",
        "%F %T%.f%:z",
        "%FT%R",
        "%FT%RZ",
        "%FT%R%:z",
        "%FT%T%.f",
        "%FT%T%.fZ",
        "%FT%T%.f%:z",
    ];
    proof {
        assert(formats@.len() == sqlite_datetime_formats().len());
        assert(forall|j: int|
            0 <= j < formats@.len() ==> formats@[j]@ == sqlite_datetime_formats()[j]);
    }
    let mut i: usize = 0;
    while i < formats.len()
        invariant
            i <= formats@.len(),
            formats@.len() == sqlite_datetime_formats().len(),
            forall|j: int| 0 <= j < formats@.len() ==> formats@[j]@ == sqlite_datetime_formats()[j],
            rfc3339_canon_of(s@) is None,
            format_chain_from(s@, 0) == format_chain_from(s@, i as int),
        decreases formats@.len() - i,
    {
        let fmt: &str = formats[i];
        if let Some(t) = parse_zoned_with_format(s, fmt) {
            return Some(t);
        }
        if let Some(t) = parse_naive_with_format(s, fmt) {
            return Some(t);
        }
        i += 1;
    }
    None
}

/// What decoding yields: the raw value interpreted under the strategy its
/// column's type label resolved to. A null raw value decodes to null under
/// every strategy.
pub open spec fn decode_spec(strategy: DecodeStrategy, raw: RawValueModel) -> Result<
    ValueModel,
    DecodeError,
> {
    if raw is Null {
        Ok(ValueModel::Null)
    } else {
        match strategy {
            DecodeStrategy::Text => match raw {
                RawValueModel::Text(s) => Ok(ValueModel::Text(s)),
                _ => Err(DecodeError::StorageMismatch),
            },
            DecodeStrategy::Int32 => match raw {
                RawValueModel::Integer(i) => if -2147483648 <= i <= 2147483647 {
                    Ok(ValueModel::Integer(i))
                } else {
                    Err(DecodeError::IntegerOutOfRange)
                },
                _ => Err(DecodeError::StorageMismatch),
            },
            DecodeStrategy::Int64 => match raw {
                RawValueModel::Integer(i) => Ok(ValueModel::Integer(i)),
                _ => Err(DecodeError::StorageMismatch),
            },
            DecodeStrategy::Double => match raw {
                RawValueModel::Real(bits) => Ok(ValueModel::Float(bits)),
                _ => Err(DecodeError::StorageMismatch),
            },
            DecodeStrategy::Boolean => match raw {
                RawValueModel::Integer(i) => Ok(ValueModel::Boolean(i != 0)),
                _ => Err(DecodeError::StorageMismatch),
            },
            DecodeStrategy::UuidText => match raw {
                RawValueModel::Blob(b) => if b.len() == 16 {
                    Ok(ValueModel::Text(uuid_hyphenated_of(b)))
                } else {
                    Err(DecodeError::InvalidIdentifier)
                },
                RawValueModel::Text(s) => if encode_utf8(s).len() == 16 {
                    Ok(ValueModel::Text(uuid_hyphenated_of(encode_utf8(s))))
                } else {
                    Err(DecodeError::InvalidIdentifier)
                },
                _ => Err(DecodeError::StorageMismatch),
            },
            DecodeStrategy::TimestampText => match raw {
                RawValueModel::Text(s) => match timestamp_canon_of(s) {
                    Some(t) => Ok(ValueModel::Text(t)),
                    None => Err(DecodeError::InvalidTimestamp),
                },
                RawValueModel::Integer(i) => match unix_timestamp_canon_of(i) {
                    Some(t) => Ok(ValueModel::Text(t)),
                    None => Err(DecodeError::InvalidTimestamp),
                },
                _ => Err(DecodeError::StorageMismatch),
            },
            DecodeStrategy::StructuredData => match raw {
                RawValueModel::Text(s) => match canonical_document_of(s) {
                    Some(t) => Ok(ValueModel::Json(t)),
                    None => Err(DecodeError::MalformedDocument),
                },
                _ => Err(DecodeError::StorageMismatch),
            },
            DecodeStrategy::OpaqueBinary => match raw {
                RawValueModel::Blob(b) => Ok(ValueModel::Blob(b)),
                RawValueModel::Text(s) => Ok(ValueModel::Blob(encode_utf8(s))),
                _ => Err(DecodeError::StorageMismatch),
            },
        }
    }
}

/// Decodes one raw column value under the given strategy.
pub fn decode(strategy: DecodeStrategy, raw: &RawColumnValue) -> (r: Result<
    DatabaseTypes,
    DecodeError,
>)
    ensures
        (match r {
            Ok(v) => decode_spec(strategy, raw@) == Ok::<ValueModel, DecodeError>(v@),
            Err(e) => decode_spec(strategy, raw@) == Err::<ValueModel, DecodeError>(e),
        }),
{
    match raw {
        RawColumnValue::Null => Ok(DatabaseTypes::Null),
        _ => match strategy {
            DecodeStrategy::Text => match raw {
                RawColumnValue::Text(s) => Ok(DatabaseTypes::Text(s.clone())),
                _ => Err(DecodeError::StorageMismatch),
            },
            DecodeStrategy::Int32 => match raw {
                RawColumnValue::Integer(i) => if -2147483648i64 <= *i && *i <= 2147483647i64 {
                    Ok(DatabaseTypes::Integer(*i))
                } else {
                    Err(DecodeError::IntegerOutOfRange)
                },
                _ => Err(DecodeError::StorageMismatch),
            },
            DecodeStrategy::Int64 => match raw {
                RawColumnValue::Integer(i) => Ok(DatabaseTypes::Integer(*i)),
                _ => Err(DecodeError::StorageMismatch),
            },
            DecodeStrategy::Double => match raw {
                RawColumnValue::Real(bits) => Ok(DatabaseTypes::Float(*bits)),
                _ => Err(DecodeError::StorageMismatch),
            },
            DecodeStrategy::Boolean => match raw {
                RawColumnValue::Integer(i) => Ok(DatabaseTypes::Boolean(*i != 0)),
                _ => Err(DecodeError::StorageMismatch),
            },
            DecodeStrategy::UuidText => match raw {
                RawColumnValue::Blob(b) => match uuid_text_from_blob(b) {
                    Some(s) => Ok(DatabaseTypes::Text(s)),
                    None => Err(DecodeError::InvalidIdentifier),
                },
                RawColumnValue::Text(s) => {
                    let bytes = s.as_str().as_bytes_vec();
                    match uuid_text_from_blob(&bytes) {
                        Some(t) => Ok(DatabaseTypes::Text(t)),
                        None => Err(DecodeError::InvalidIdentifier),
                    }
                },
                _ => Err(DecodeError::StorageMismatch),
            },
            DecodeStrategy::TimestampText => match raw {
                RawColumnValue::Text(s) => match decode_timestamp_text(s.as_str()) {
                    Some(t) => Ok(DatabaseTypes::Text(t)),
                    None => Err(DecodeError::InvalidTimestamp),
                },
                RawColumnValue::Integer(i) => match timestamp_from_unix(*i) {
                    Some(t) => Ok(DatabaseTypes::Text(t)),
                    None => Err(DecodeError::InvalidTimestamp),
                },
                _ => Err(DecodeError::StorageMismatch),
            },
            DecodeStrategy::StructuredData => match raw {
                RawColumnValue::Text(s) => match reserialize_document(s.as_str()) {
                    Some(t) => Ok(DatabaseTypes::Json(t)),
                    None => Err(DecodeError::MalformedDocument),
                },
                _ => Err(DecodeError::StorageMismatch),
            },
            DecodeStrategy::OpaqueBinary => match raw {
                RawColumnValue::Blob(b) => Ok(DatabaseTypes::Blob(b.clone())),
                RawColumnValue::Text(s) => Ok(DatabaseTypes::Blob(s.as_str().as_bytes_vec())),
                _ => Err(DecodeError::StorageMismatch),
            },
        },
    }
}

} // verus!
