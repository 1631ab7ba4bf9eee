//! Targeted checks of label resolution, single-value decoding, error
//! reporting, and column omission.

use mini_backend_database::decoder::decode;
use mini_backend_database::resolver::resolve;
use mini_backend_database::serializer::to_json;
use mini_backend_database::types::DatabaseTypes;
use mini_backend_database::types::DecodeError;
use mini_backend_database::types::Email;
use mini_backend_database::types::Password;
use mini_backend_database::types::RawColumnValue;
use mini_backend_database::types::Row;
use mini_backend_database::types::RowColumn;
use mini_backend_database::types::TableInfo;
use mini_backend_database::DecodeStrategy;

fn descriptor(cid: i64, name: &str, label: &str) -> TableInfo {
    TableInfo::new(cid, name.to_string(), label.to_string(), false, String::new(), false)
}

fn column(name: &str, value: RawColumnValue) -> RowColumn {
    RowColumn { name: name.to_string(), value }
}

#[test]
fn primitive_labels_resolve_and_decode() {
    assert_eq!(resolve("TEXT"), DecodeStrategy::Text);
    assert_eq!(resolve("integer"), DecodeStrategy::Int32);
    assert_eq!(resolve("InT4"), DecodeStrategy::Int32);
    assert_eq!(resolve("BIGINT"), DecodeStrategy::Int64);
    assert_eq!(resolve("int8"), DecodeStrategy::Int64);
    assert_eq!(resolve("REAL"), DecodeStrategy::Double);
    assert_eq!(resolve("BOOLEAN"), DecodeStrategy::Boolean);

    let text = decode(resolve("TEXT"), &RawColumnValue::Text("hi".to_string()));
    assert!(matches!(text, Ok(DatabaseTypes::Text(s)) if s == "hi"));
    let int = decode(resolve("INTEGER"), &RawColumnValue::Integer(42));
    assert!(matches!(int, Ok(DatabaseTypes::Integer(42))));
    let big = decode(resolve("BIGINT"), &RawColumnValue::Integer(1234567890));
    assert!(matches!(big, Ok(DatabaseTypes::Integer(1234567890))));
    let real = decode(resolve("REAL"), &RawColumnValue::Real(2.5f64.to_bits()));
    assert!(matches!(real, Ok(DatabaseTypes::Float(bits)) if f64::from_bits(bits) == 2.5));
    let truth = decode(resolve("BOOLEAN"), &RawColumnValue::Integer(1));
    assert!(matches!(truth, Ok(DatabaseTypes::Boolean(true))));
    let falsity = decode(resolve("BOOLEAN"), &RawColumnValue::Integer(0));
    assert!(matches!(falsity, Ok(DatabaseTypes::Boolean(false))));
}

#[test]
fn semantic_aliases_resolve() {
    assert_eq!(resolve("UUID_TEXT"), DecodeStrategy::UuidText);
    assert_eq!(resolve("DATETIME_TEXT"), DecodeStrategy::TimestampText);
    assert_eq!(resolve("PASSWORD_TEXT"), DecodeStrategy::Text);
    assert_eq!(resolve("EMAIL_TEXT"), DecodeStrategy::Text);
    assert_eq!(resolve("JSON_TEXT"), DecodeStrategy::StructuredData);
    assert_eq!(resolve("password"), DecodeStrategy::Text);
    assert_eq!(resolve("json"), DecodeStrategy::StructuredData);
}

#[test]
fn suffix_fallback_resolves_by_primitive_rule() {
    assert_eq!(resolve("custom_text"), DecodeStrategy::Text);
    assert_eq!(resolve("weird_int8"), DecodeStrategy::Int64);
    assert_eq!(resolve("CUSTOM_BOOLEAN"), DecodeStrategy::Boolean);
    // the prefix rule wins over the suffix rule
    assert_eq!(resolve("json_text"), DecodeStrategy::StructuredData);
    let v = decode(resolve("custom_text"), &RawColumnValue::Text("x".to_string()));
    assert!(matches!(v, Ok(DatabaseTypes::Text(s)) if s == "x"));
}

#[test]
fn unrecognized_label_falls_back_to_opaque_binary() {
    assert_eq!(resolve("mystery"), DecodeStrategy::OpaqueBinary);
    assert_eq!(resolve("BLOB"), DecodeStrategy::OpaqueBinary);
    let v = decode(resolve("mystery"), &RawColumnValue::Blob(vec![7, 8, 9]));
    assert!(matches!(v, Ok(DatabaseTypes::Blob(b)) if b == vec![7u8, 8, 9]));
    // empty binary decodes to an empty sequence
    let empty = decode(resolve("mystery"), &RawColumnValue::Blob(Vec::new()));
    assert!(matches!(empty, Ok(DatabaseTypes::Blob(b)) if b.is_empty()));
    // text raw under the opaque fallback becomes its bytes
    let text = decode(resolve("mystery"), &RawColumnValue::Text("ab".to_string()));
    assert!(matches!(text, Ok(DatabaseTypes::Blob(b)) if b == vec![97u8, 98]));
}

#[test]
fn null_decodes_to_null_under_every_label() {
    let labels = [
        "TEXT", "INTEGER", "INT4", "BIGINT", "INT8", "REAL", "BOOLEAN", "UUID_TEXT",
        "DATETIME_TEXT", "PASSWORD_TEXT", "EMAIL_TEXT", "JSON_TEXT", "BLOB", "mystery",
    ];
    for label in labels {
        let v = decode(resolve(label), &RawColumnValue::Null);
        assert!(matches!(v, Ok(DatabaseTypes::Null)), "label {} must decode null to null", label);
    }
}

#[test]
fn int64_extremes_decode_without_precision_loss() {
    let max = decode(resolve("BIGINT"), &RawColumnValue::Integer(i64::MAX));
    assert!(matches!(max, Ok(DatabaseTypes::Integer(i)) if i == i64::MAX));
    let min = decode(resolve("INT8"), &RawColumnValue::Integer(i64::MIN));
    assert!(matches!(min, Ok(DatabaseTypes::Integer(i)) if i == i64::MIN));
}

#[test]
fn uuid_blob_decodes_to_canonical_text() {
    let bytes: Vec<u8> = vec![
        0xfe, 0xdc, 0xba, 0x98, 0x76, 0x54, 0x32, 0x10, 0x01, 0x23, 0x45, 0x67, 0x89, 0xab, 0xcd,
        0xef,
    ];
    let v = decode(resolve("UUID_TEXT"), &RawColumnValue::Blob(bytes));
    assert!(matches!(v, Ok(DatabaseTypes::Text(s)) if s == "fedcba98-7654-3210-0123-456789abcdef"));
    let short = decode(resolve("UUID_TEXT"), &RawColumnValue::Blob(vec![1, 2, 3]));
    assert_eq!(short.unwrap_err(), DecodeError::InvalidIdentifier);
}

#[test]
fn timestamps_decode_from_documented_layouts() {
    let rfc = decode(
        resolve("DATETIME_TEXT"),
        &RawColumnValue::Text("2024-01-15T10:30:00+02:00".to_string()),
    );
    assert!(matches!(rfc, Ok(DatabaseTypes::Text(s)) if s == "2024-01-15T08:30:00Z"));
    let space = decode(
        resolve("DATETIME_TEXT"),
        &RawColumnValue::Text("2024-01-15 10:30:00".to_string()),
    );
    assert!(matches!(space, Ok(DatabaseTypes::Text(s)) if s == "2024-01-15T10:30:00Z"));
    let fractional = decode(
        resolve("DATETIME_TEXT"),
        &RawColumnValue::Text("2024-01-15 10:30:00.250".to_string()),
    );
    assert!(matches!(fractional, Ok(DatabaseTypes::Text(s)) if s == "2024-01-15T10:30:00.250Z"));
    let unix = decode(resolve("DATETIME_TEXT"), &RawColumnValue::Integer(0));
    assert!(matches!(unix, Ok(DatabaseTypes::Text(s)) if s == "1970-01-01T00:00:00Z"));
    let bad = decode(
        resolve("DATETIME_TEXT"),
        &RawColumnValue::Text("yesterday".to_string()),
    );
    assert_eq!(bad.unwrap_err(), DecodeError::InvalidTimestamp);
}

#[test]
fn structured_data_is_canonicalized_not_escaped() {
    let v = decode(
        resolve("JSON_TEXT"),
        &RawColumnValue::Text("{ \"a\" : 1 }".to_string()),
    );
    match v {
        Ok(DatabaseTypes::Json(s)) => {
            // the payload was parsed and reserialized, not handed back unchanged
            assert_eq!(s, "{\"a\":1}");
        },
        _ => panic!("expected a structured-data value"),
    }
    let bad = decode(
        resolve("JSON_TEXT"),
        &RawColumnValue::Text("{not json".to_string()),
    );
    assert_eq!(bad.unwrap_err(), DecodeError::MalformedDocument);
}

#[test]
fn deeply_nested_documents_round_trip_exactly() {
    let source = "{\"level1\": {\"level2\": {\"level3\": {\"level4\": \
                  {\"array\": [1, 2, 3, 4, 5], \"boolean\": true, \"null\": null, \
                  \"objects\": [{\"k\": [null, {\"deep\": false}]}]}}}}}";
    let v = decode(resolve("JSON_TEXT"), &RawColumnValue::Text(source.to_string()));
    match v {
        Ok(DatabaseTypes::Json(s)) => {
            let reparsed: serde_json::Value = serde_json::from_str(&s).unwrap();
            let source_doc: serde_json::Value = serde_json::from_str(source).unwrap();
            assert_eq!(reparsed, source_doc);
        },
        _ => panic!("expected a structured-data value"),
    }
}

#[test]
fn out_of_range_int4_is_rejected() {
    let over = decode(resolve("INTEGER"), &RawColumnValue::Integer(2147483648));
    assert_eq!(over.unwrap_err(), DecodeError::IntegerOutOfRange);
    let under = decode(resolve("INT4"), &RawColumnValue::Integer(-2147483649));
    assert_eq!(under.unwrap_err(), DecodeError::IntegerOutOfRange);
    let edge_hi = decode(resolve("INTEGER"), &RawColumnValue::Integer(2147483647));
    assert!(matches!(edge_hi, Ok(DatabaseTypes::Integer(2147483647))));
    let edge_lo = decode(resolve("INTEGER"), &RawColumnValue::Integer(-2147483648));
    assert!(matches!(edge_lo, Ok(DatabaseTypes::Integer(-2147483648))));
}

#[test]
fn incompatible_storage_class_is_rejected() {
    let v = decode(resolve("TEXT"), &RawColumnValue::Integer(1));
    assert_eq!(v.unwrap_err(), DecodeError::StorageMismatch);
    let w = decode(resolve("REAL"), &RawColumnValue::Text("3.14".to_string()));
    assert_eq!(w.unwrap_err(), DecodeError::StorageMismatch);
}

#[test]
fn absent_descriptor_omits_column_entirely() {
    let infos = vec![descriptor(0, "known", "TEXT"), descriptor(1, "trailing", "INTEGER")];
    let row = Row {
        columns: vec![
            column("known", RawColumnValue::Text("kept".to_string())),
            column("unknown", RawColumnValue::Text("dropped".to_string())),
            column("trailing", RawColumnValue::Integer(5)),
        ],
    };
    let out = to_json(row, infos).expect("row serializes");
    assert_eq!(out.len(), 2);
    assert_eq!(out[0].0, "known");
    assert_eq!(out[1].0, "trailing");
    assert!(out.iter().all(|e| e.0 != "unknown"));
}

#[test]
fn first_decode_failure_abandons_the_row() {
    let infos = vec![
        descriptor(0, "good", "TEXT"),
        descriptor(1, "bad", "INTEGER"),
        descriptor(2, "worse", "JSON_TEXT"),
    ];
    let row = Row {
        columns: vec![
            column("good", RawColumnValue::Text("fine".to_string())),
            column("bad", RawColumnValue::Integer(9999999999)),
            column("worse", RawColumnValue::Text("{broken".to_string())),
        ],
    };
    let err = to_json(row, infos).unwrap_err();
    assert_eq!(err.column, "bad");
    assert_eq!(err.cause, DecodeError::IntegerOutOfRange);
}

#[test]
fn synthetic_descriptors_decode_like_schema_ones() {
    let infos = vec![descriptor(0, "count", "INTEGER"), descriptor(1, "avg", "REAL")];
    let row = Row {
        columns: vec![
            column("count", RawColumnValue::Integer(100)),
            column("avg", RawColumnValue::Real(505.0f64.to_bits())),
        ],
    };
    let out = to_json(row, infos).expect("aggregate row serializes");
    assert!(matches!(&out[0].1, DatabaseTypes::Integer(100)));
    assert!(matches!(&out[1].1, DatabaseTypes::Float(bits)
        if (f64::from_bits(*bits) - 505.0).abs() < f64::EPSILON));
}

#[test]
fn schema_scenario_produces_expected_object() {
    let infos = vec![
        descriptor(0, "simple_text", "TEXT"),
        descriptor(1, "big_int", "BIGINT"),
        descriptor(2, "json_data", "JSON_TEXT"),
    ];
    let row = Row {
        columns: vec![
            column("simple_text", RawColumnValue::Text("hello".to_string())),
            column("big_int", RawColumnValue::Integer(9223372036854775807)),
            column(
                "json_data",
                RawColumnValue::Text("{\"a\":{\"b\":[1,2,3]}}".to_string()),
            ),
        ],
    };
    let out = to_json(row, infos).expect("row serializes");
    assert_eq!(out.len(), 3);
    assert_eq!(out[0].0, "simple_text");
    assert!(matches!(&out[0].1, DatabaseTypes::Text(s) if s == "hello"));
    assert_eq!(out[1].0, "big_int");
    assert!(matches!(&out[1].1, DatabaseTypes::Integer(9223372036854775807)));
    assert_eq!(out[2].0, "json_data");
    assert!(matches!(&out[2].1, DatabaseTypes::Json(s) if s == "{\"a\":{\"b\":[1,2,3]}}"));
}

#[test]
fn marker_text_types_keep_their_text() {
    let email = Email::new("test@example.com".to_string());
    assert_eq!(email.as_str(), "test@example.com");
    let password = Password::new("password123".to_string());
    assert_eq!(password.as_str(), "password123");
}

#[test]
fn serialize_row_pairs_descriptors_with_a_row() {
    let infos = vec![descriptor(0, "flag", "BOOLEAN")];
    let row = Row {
        columns: vec![column("flag", RawColumnValue::Integer(7))],
    };
    let wrapped = mini_backend_database::serializer::SerializeRow((infos, row));
    let out = wrapped.serialize().expect("row serializes");
    assert_eq!(out.len(), 1);
    assert_eq!(out[0].0, "flag");
    assert!(matches!(out[0].1, DatabaseTypes::Boolean(true)));
}
