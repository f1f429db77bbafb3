//! Tests of the listing decoder: classification, sub-decoders, assembly and
//! the drift validator.
use map_search::json::{JsonNumber, JsonValue};
use map_search::decode::{decode_category, decode_geo_point, decode_reviews, decode_website_links};
use map_search::decode_blocks::decode_fulfillment;
use map_search::decode_hours::decode_hours;
use map_search::decode_phone::decode_phone;
use map_search::entity::{classify_entry, decode_business_entity, validate_drift, DriftKind, EntityError};
use map_search::ingest::{
    ingest_payload_extract_business_entities, parse_business_entities, DecodeError,
    PayloadTextError,
};
use map_search::model::{BusinessCategory, DayTimeRange, GeoPoint};

fn null() -> JsonValue {
    JsonValue::Null
}

fn num(i: i64) -> JsonValue {
    JsonValue::Num(JsonNumber::Int(i))
}

fn dec(s: &str) -> JsonValue {
    JsonValue::Num(JsonNumber::Dec(s.to_string()))
}

fn text(s: &str) -> JsonValue {
    JsonValue::Text(s.to_string())
}

fn arr(items: Vec<JsonValue>) -> JsonValue {
    JsonValue::Arr(items)
}

fn nulls(n: usize) -> Vec<JsonValue> {
    let mut out = Vec::new();
    for _ in 0..n {
        out.push(JsonValue::Null);
    }
    out
}

/// A minimal valid organic-listing payload of the given length (at least
/// 228): everything null except the identifier bundle at 227.
fn minimal_items(len: usize) -> Vec<JsonValue> {
    let mut items = nulls(len);
    items[227] = arr(vec![arr(vec![
        text("0x1:0x2"),
        null(),
        null(),
        text("/g/abc"),
        text("place123"),
    ])]);
    items
}

#[test]
fn geo_point_decodes_fixed_offsets() {
    let raw = arr(vec![null(), null(), dec("40.7608"), dec("-111.8910")]);
    let g = decode_geo_point(&raw).unwrap();
    assert_eq!(
        g,
        GeoPoint {
            latitude: JsonNumber::Dec("40.7608".to_string()),
            longitude: JsonNumber::Dec("-111.8910".to_string()),
        }
    );
}

#[test]
fn geo_point_rejects_missing_coordinates() {
    assert!(decode_geo_point(&arr(vec![null(), null()])).is_err());
    assert!(decode_geo_point(&text("x")).is_err());
}

#[test]
fn reviews_decode_rating_and_count() {
    let raw = arr(vec![
        null(),
        null(),
        null(),
        arr(vec![text("https://maps/reviews"), text("469 reviews"), null(), text("tok")]),
        null(),
        null(),
        null(),
        dec("4.9"),
        num(469),
    ]);
    let r = decode_reviews(&raw).unwrap();
    assert_eq!(r.reviews_url.as_deref(), Some("https://maps/reviews"));
    assert_eq!(r.reviews_text.as_deref(), Some("469 reviews"));
    assert_eq!(r.tracking_token.as_deref(), Some("tok"));
    assert_eq!(r.average_rating, Some(JsonNumber::Dec("4.9".to_string())));
    assert_eq!(r.review_count, Some(469));
}

#[test]
fn reviews_need_the_nested_slot() {
    // Three elements: the nested link tuple slot does not exist.
    assert!(decode_reviews(&arr(vec![null(), null(), null()])).is_err());
}

#[test]
fn website_links_require_both_strings() {
    let ok = decode_website_links(&arr(vec![text("https://x.com/"), text("x.com")])).unwrap();
    assert_eq!(ok.url, "https://x.com/");
    assert_eq!(ok.domain, "x.com");
    assert!(decode_website_links(&arr(vec![text("https://x.com/")])).is_err());
}

#[test]
fn category_tuple_decodes() {
    let c = decode_category(&arr(vec![text("software_company"), text("Software company"), num(7)]))
        .unwrap();
    assert_eq!(
        c,
        BusinessCategory {
            label: "software_company".to_string(),
            display_name: Some("Software company".to_string()),
            score: 7,
        }
    );
    assert!(decode_category(&arr(vec![text("x"), null()])).is_err());
}

#[test]
fn fulfillment_selects_vendor_block_when_slot_2_is_array() {
    // Vendor-block path: slot 2 is an array.
    let vendor = arr(vec![
        num(3),
        null(),
        arr(vec![arr(vec![
            arr(vec![text("shop.example"), null(), arr(vec![text("logo.png"), text("Square")])]),
            arr(vec![null(), null(), arr(vec![text("https://dest.example/order")])]),
        ])]),
        null(),
        num(21634),
    ]);
    let f = decode_fulfillment(&vendor).unwrap();
    assert_eq!(f.vendor_domain, "shop.example");
    assert_eq!(f.vendor_logo_url.as_deref(), Some("logo.png"));
    assert_eq!(f.vendor_label.as_deref(), Some("Square"));
    assert_eq!(f.destination_url, "https://dest.example/order");
    assert_eq!(f.tag, Some(21634));
}

#[test]
fn fulfillment_selects_platform_path_otherwise() {
    // Identical except slot 2 is null: the platform-managed path is taken.
    let platform = arr(vec![
        num(3),
        null(),
        null(),
        null(),
        num(21634),
        arr(vec![
            text("Reserve"),
            arr(vec![null(), null(), arr(vec![text("https://platform.example/rsv")])]),
        ]),
    ]);
    let f = decode_fulfillment(&platform).unwrap();
    assert_eq!(f.vendor_domain, "google.com");
    assert_eq!(f.vendor_label.as_deref(), Some("Reserve"));
    assert_eq!(f.vendor_logo_url, None);
    assert_eq!(f.destination_url, "https://platform.example/rsv");
    assert_eq!(f.tag, Some(21634));
}

#[test]
fn hours_closed_label_and_bounds() {
    let day = arr(vec![
        text("Monday"),
        num(1),
        arr(vec![num(2024), num(1), num(1)]),
        arr(vec![
            arr(vec![text("Closed")]),
            arr(vec![text("9 AM to 5 PM"), arr(vec![arr(vec![num(9)]), arr(vec![num(17)])])]),
            arr(vec![text("By appointment")]),
        ]),
        num(0),
        num(1),
    ]);
    let block = arr(vec![arr(vec![day])]);
    let h = decode_hours(&block).unwrap();
    let weekly = h.weekly_schedule.unwrap();
    assert_eq!(weekly.len(), 1);
    let ranges = &weekly[0].time_ranges;
    assert_eq!(ranges[0], DayTimeRange::Closed);
    match &ranges[1] {
        DayTimeRange::OpenRange { label, bounds } => {
            assert_eq!(label, "9 AM to 5 PM");
            assert_eq!(bounds.0, vec![9u8]);
            assert_eq!(bounds.1, vec![17u8]);
        }
        other => panic!("expected an open range, got {other:?}"),
    }
    // A non-Closed label without a bounds slot keeps an explicit empty pair.
    match &ranges[2] {
        DayTimeRange::OpenRange { label, bounds } => {
            assert_eq!(label, "By appointment");
            assert!(bounds.0.is_empty() && bounds.1.is_empty());
        }
        other => panic!("expected an open range, got {other:?}"),
    }
}

#[test]
fn hours_reject_malformed_bound_pair() {
    let day = arr(vec![
        text("Monday"),
        num(1),
        arr(vec![num(2024), num(1), num(1)]),
        arr(vec![arr(vec![text("9 AM"), arr(vec![arr(vec![num(900)])])])]),
    ]);
    let block = arr(vec![arr(vec![day])]);
    assert!(decode_hours(&block).is_err());
}

#[test]
fn phone_block_decodes_variants_and_tel_uri() {
    let raw = arr(vec![
        text("(801) 835-1868"),
        arr(vec![arr(vec![text("+1 801-835-1868"), num(1)])]),
        null(),
        text("+18018351868"),
        null(),
        arr(vec![text("tel:+18018351868"), null(), null(), text("click-tok")]),
    ]);
    let p = decode_phone(&raw).unwrap();
    assert_eq!(p.display.as_deref(), Some("(801) 835-1868"));
    assert_eq!(p.variants.len(), 1);
    assert_eq!(p.variants[0].number, "+1 801-835-1868");
    assert_eq!(p.variants[0].rank, 1);
    assert_eq!(p.canonical.as_deref(), Some("+18018351868"));
    let tel = p.tel_uri.unwrap();
    assert_eq!(tel.uri, "tel:+18018351868");
    assert_eq!(tel.click_token.as_deref(), Some("click-tok"));
}

#[test]
fn classifier_follows_the_two_tuple_rule() {
    let organic = arr(vec![null(), arr(minimal_items(228))]);
    assert!(matches!(classify_entry(&organic), Ok(Some(_))));
    let advertised = arr(vec![null(), text("sponsored-blob")]);
    assert!(matches!(classify_entry(&advertised), Ok(None)));
    let bad = arr(vec![num(1), num(2), num(3)]);
    assert_eq!(classify_entry(&bad), Err(EntityError::UnexpectedEntryShape));
}

#[test]
fn entity_decodes_known_fields() {
    let mut items = minimal_items(228);
    items[0] = text("token-A");
    items[11] = text("Canyon Ridge Builders");
    items[9] = arr(vec![null(), null(), dec("40.7608"), dec("-111.8910")]);
    items[78] = text("ChIJxyz");
    items[89] = text("/g/11abc");
    let e = decode_business_entity(&items).unwrap();
    assert_eq!(e.business_token.as_deref(), Some("token-A"));
    assert_eq!(e.display_name.as_deref(), Some("Canyon Ridge Builders"));
    assert_eq!(e.google_place_id.as_deref(), Some("ChIJxyz"));
    assert_eq!(e.google_knowledge_graph_id.as_deref(), Some("/g/11abc"));
    let g = e.geo_location.unwrap();
    assert_eq!(g.latitude, JsonNumber::Dec("40.7608".to_string()));
    let ids = e.google_maps_internal_business_entity_identifiers.unwrap();
    assert_eq!(ids.composite_id, "0x1:0x2");
    assert_eq!(ids.kg_id.as_deref(), Some("/g/abc"));
    assert_eq!(ids.place_id.as_deref(), Some("place123"));
}

#[test]
fn entity_requires_the_identifier_block() {
    let items = nulls(228);
    assert_eq!(
        decode_business_entity(&items),
        Err(EntityError::FixedShapeBlock { index: 227 })
    );
}

#[test]
fn geo_hierarchy_only_at_full_length() {
    // 245 elements: the hierarchy slot is out of scope and must not fail.
    let e245 = decode_business_entity(&minimal_items(245)).unwrap();
    assert!(e245.geographic_contextualization_metadata.is_none());
    // 246 elements with a valid block: the hierarchy decodes.
    let mut items = minimal_items(246);
    items[245] = arr(vec![arr(vec![arr(vec![
        arr(vec![text("r1"), text("r2")]),
        dec("0.97"),
        arr(vec![arr(vec![text("Salt Lake City")])]),
    ])])]);
    let e246 = decode_business_entity(&items).unwrap();
    let h = e246.geographic_contextualization_metadata.unwrap();
    assert_eq!(h.regions.len(), 1);
    assert_eq!(h.regions[0].region_id.0, "r1");
    assert_eq!(h.regions[0].names, vec!["Salt Lake City".to_string()]);
    // 246 elements with a malformed block: entity-fatal.
    let mut bad = minimal_items(246);
    bad[245] = text("drifted");
    assert_eq!(
        decode_business_entity(&bad),
        Err(EntityError::FixedShapeBlock { index: 245 })
    );
}

#[test]
fn validator_reports_unexpected_and_todo_values() {
    let mut items = minimal_items(228);
    items[3] = text("never seen here");  // unknown index: unexpected drift
    items[34] = arr(vec![num(1)]);  // TODO index: known-unhandled
    items[24] = num(5);  // skip-list index: silent
    let recs = validate_drift(7, &items);
    assert_eq!(recs.len(), 2);
    assert_eq!(recs[0].entry_index, 7);
    assert_eq!(recs[0].index, 3);
    assert_eq!(recs[0].kind, DriftKind::Unexpected);
    assert_eq!(recs[0].raw, JsonValue::Text("never seen here".to_string()));
    assert_eq!(recs[1].index, 34);
    assert_eq!(recs[1].kind, DriftKind::KnownUnhandled);
}

#[test]
fn validator_is_silent_when_every_index_is_accounted_for() {
    let recs = validate_drift(0, &minimal_items(228));
    assert!(recs.is_empty());
}

#[test]
fn batch_drops_advertised_entries_without_error() {
    let mut top = nulls(65);
    top[64] = arr(vec![
        arr(vec![null(), text("ad-blob")]),
        arr(vec![null(), arr(minimal_items(228))]),
    ]);
    let out = ingest_payload_extract_business_entities(&arr(top)).unwrap();
    assert_eq!(out.entities.len(), 1);
    assert!(out.failures.is_empty());
}

#[test]
fn batch_records_failures_and_continues() {
    let mut top = nulls(65);
    top[64] = arr(vec![
        text("not a pair"),
        arr(vec![null(), arr(minimal_items(228))]),
    ]);
    let out = ingest_payload_extract_business_entities(&arr(top)).unwrap();
    assert_eq!(out.entities.len(), 1);
    assert_eq!(out.failures.len(), 1);
    assert_eq!(out.failures[0].entry_index, 0);
    assert_eq!(out.failures[0].error, EntityError::UnexpectedEntryShape);
}

#[test]
fn batch_rejects_wrong_top_level_shapes() {
    assert_eq!(
        ingest_payload_extract_business_entities(&text("nope")),
        Err(DecodeError::PayloadNotAnArray)
    );
    assert_eq!(
        ingest_payload_extract_business_entities(&arr(nulls(10))),
        Err(DecodeError::ListingsMissing)
    );
    assert_eq!(
        ingest_payload_extract_business_entities(&arr(nulls(65))),
        Err(DecodeError::ListingsNotAnArray)
    );
}

#[test]
fn text_decode_is_deterministic() {
    // Same input bytes decode to identical outcomes, twice over.
    let mut payload = String::from("[");
    for _ in 0..64 {
        payload.push_str("null,");
    }
    payload.push_str("[[null, \"ad\"]]]");
    let a = parse_business_entities(&payload).unwrap();
    let b = parse_business_entities(&payload).unwrap();
    assert_eq!(a, b);
    assert!(a.entities.is_empty());
    assert!(a.failures.is_empty());
}

#[test]
fn text_decode_rejects_invalid_json() {
    assert_eq!(
        parse_business_entities("][nope"),
        Err(PayloadTextError::InvalidJson)
    );
}

#[test]
fn decoding_the_same_array_twice_is_idempotent() {
    let mut top = nulls(65);
    top[64] = arr(vec![arr(vec![null(), arr(minimal_items(228))])]);
    let value = arr(top);
    let first = ingest_payload_extract_business_entities(&value).unwrap();
    let second = ingest_payload_extract_business_entities(&value).unwrap();
    assert_eq!(first, second);
    assert_eq!(first.entities.len(), 1);
}
