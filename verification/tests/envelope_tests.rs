//! Tests of the transport-envelope unwrapper and the composed text entry
//! point.
use map_search::envelope::{unwrap_envelope, EnvelopeError};
use map_search::ingest::decode_enveloped_payload;
use map_search::json::JsonValue;

fn enveloped(inner_json: &str) -> String {
    // {"d": ")]}'\n<inner>"} followed by the trailing comment marker.
    let mut body = String::from("{\"d\": \")]}'\\n");
    for c in inner_json.chars() {
        if c == '"' {
            body.push_str("\\\"");
        } else if c == '\\' {
            body.push_str("\\\\");
        } else {
            body.push(c);
        }
    }
    body.push_str("\"}");
    body.push_str("/*\"\"*/");
    body
}

#[test]
fn unwrap_recovers_the_inner_document() {
    let text = enveloped("[null, 5]");
    let inner = unwrap_envelope(&text).unwrap();
    match inner {
        JsonValue::Arr(items) => {
            assert_eq!(items.len(), 2);
            assert_eq!(items[0], JsonValue::Null);
        }
        other => panic!("expected an array, got {other:?}"),
    }
}

#[test]
fn unwrap_requires_the_trailing_marker() {
    assert_eq!(
        unwrap_envelope("{\"d\": \"x\"}"),
        Err(EnvelopeError::MissingTrailingMarker)
    );
}

#[test]
fn unwrap_requires_valid_outer_json() {
    assert_eq!(unwrap_envelope("}{/*\"\"*/"), Err(EnvelopeError::OuterNotJson));
}

#[test]
fn unwrap_requires_an_outer_object() {
    assert_eq!(unwrap_envelope("[1]/*\"\"*/"), Err(EnvelopeError::OuterNotObject));
}

#[test]
fn unwrap_requires_the_data_field() {
    assert_eq!(unwrap_envelope("{}/*\"\"*/"), Err(EnvelopeError::MissingDataField));
}

#[test]
fn unwrap_requires_a_string_data_field() {
    assert_eq!(
        unwrap_envelope("{\"d\": 1}/*\"\"*/"),
        Err(EnvelopeError::DataFieldNotText)
    );
}

#[test]
fn unwrap_requires_the_inner_prefix() {
    assert_eq!(
        unwrap_envelope("{\"d\": \"zz\"}/*\"\"*/"),
        Err(EnvelopeError::MissingInnerPrefix)
    );
}

#[test]
fn unwrap_requires_valid_inner_json() {
    assert_eq!(
        unwrap_envelope("{\"d\": \")]}'\\nzz\"}/*\"\"*/"),
        Err(EnvelopeError::InnerNotJson)
    );
}

#[test]
fn composed_entry_point_decodes_an_enveloped_payload() {
    let mut inner = String::from("[");
    for _ in 0..64 {
        inner.push_str("null,");
    }
    inner.push_str("[[null, \"ad-entry\"]]]");
    let text = enveloped(&inner);
    let out = decode_enveloped_payload(&text).unwrap();
    assert!(out.entities.is_empty());
    assert!(out.failures.is_empty());
    assert!(out.drift.is_empty());
}
