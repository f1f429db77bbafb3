//! Tests of the remaining sub-decoders: ownership, address and display
//! blocks, identifiers, feature sets, the service cluster, photos and the
//! coordinate block.
use map_search::json::{JsonNumber, JsonValue};
use map_search::decode::decode_coordinate_blocks;
use map_search::decode_blocks::{
    decode_address_fields, decode_display_block, decode_identifiers, decode_owner_metadata,
};
use map_search::decode_feature::{decode_feature_set, decode_feature_set_raw};
use map_search::decode_photo::decode_photo_wrapper;
use map_search::decode_service::decode_service_cluster;
use map_search::model::GeoPoint;

fn null() -> JsonValue {
    JsonValue::Null
}

fn num(i: i64) -> JsonValue {
    JsonValue::Num(JsonNumber::Int(i))
}

fn dec(s: &str) -> JsonValue {
    JsonValue::Num(JsonNumber::Dec(s.to_string()))
}

fn text(s: &str) -> JsonValue {
    JsonValue::Text(s.to_string())
}

fn arr(items: Vec<JsonValue>) -> JsonValue {
    JsonValue::Arr(items)
}

#[test]
fn owner_metadata_requires_the_null_frame() {
    let good = arr(vec![
        null(),
        text("Canyon Ridge Builders"),
        text("100543022764104941349"),
        null(),
        null(),
        null(),
        null(),
        null(),
        text("another-id"),
    ]);
    let m = decode_owner_metadata(&good).unwrap();
    assert_eq!(m.display_name, "Canyon Ridge Builders");
    assert_eq!(m.google_identity_id.as_deref(), Some("100543022764104941349"));
    assert_eq!(m.canonical_owner_id, "another-id");
    let bad = arr(vec![
        text("not-null-head"),
        text("n"),
        null(),
        null(),
        null(),
        null(),
        null(),
        null(),
        text("id"),
    ]);
    assert!(decode_owner_metadata(&bad).is_err());
}

#[test]
fn address_fields_collapse_to_absent_when_all_null() {
    let empty = arr(vec![null(), null(), null(), null()]);
    assert_eq!(decode_address_fields(&empty).unwrap(), None);
    let some = arr(vec![text("Harvest Hills"), text("2408 Alesund Way"), null(), text("Lehi")]);
    let f = decode_address_fields(&some).unwrap().unwrap();
    assert_eq!(f.location_hint.as_deref(), Some("Harvest Hills"));
    assert_eq!(f.city.as_deref(), Some("Lehi"));
    assert!(decode_address_fields(&arr(vec![num(1), null(), null(), null()])).is_err());
}

#[test]
fn display_block_reads_slot_three() {
    let b = decode_display_block(&arr(vec![null(), null(), null(), text("Shop Name")])).unwrap();
    assert_eq!(b.name, "Shop Name");
    assert!(decode_display_block(&arr(vec![null()])).is_err());
}

#[test]
fn identifiers_default_a_missing_composite_id_to_empty() {
    let b = decode_identifiers(&arr(vec![arr(vec![null(), null(), null(), text("/g/x")])])).unwrap();
    assert_eq!(b.composite_id, "");
    assert_eq!(b.kg_id.as_deref(), Some("/g/x"));
    assert!(decode_identifiers(&arr(vec![text("flat")])).is_err());
}

#[test]
fn coordinate_block_must_be_a_singleton() {
    let one = arr(vec![arr(vec![null(), null(), dec("40.1"), dec("-111.2")])]);
    assert_eq!(
        decode_coordinate_blocks(&one).unwrap(),
        GeoPoint {
            latitude: JsonNumber::Dec("40.1".to_string()),
            longitude: JsonNumber::Dec("-111.2".to_string()),
        }
    );
    let two = arr(vec![
        arr(vec![null(), null(), dec("1"), dec("2")]),
        arr(vec![null(), null(), dec("3"), dec("4")]),
    ]);
    assert!(decode_coordinate_blocks(&two).is_err());
}

fn sample_feature() -> JsonValue {
    arr(vec![
        text("/feature/onsite"),
        text("Onsite services"),
        arr(vec![num(1), arr(vec![arr(vec![num(1), text("Yes")])])]),
        null(),
        arr(vec![num(3), num(5), text("ignored")]),
        num(0),
    ])
}

#[test]
fn feature_set_sections_decode_and_drop_malformed_entries() {
    let payload = arr(vec![
        arr(vec![sample_feature(), text("malformed, dropped")]),
        arr(vec![arr(vec![
            text("accessibility"),
            text("Accessibility"),
            arr(vec![sample_feature()]),
        ])]),
        null(),
        null(),
    ]);
    let s = decode_feature_set(&payload).unwrap();
    assert_eq!(s.primary.len(), 1);
    let f = &s.primary[0];
    assert_eq!(f.id, "/feature/onsite");
    assert_eq!(f.label, "Onsite services");
    let conf = f.confidence.as_ref().unwrap();
    assert_eq!(conf.score, 1);
    assert_eq!(conf.tags.len(), 1);
    assert_eq!(conf.tags[0].label, "Yes");
    // Non-integer weights are dropped, integers kept in order.
    assert_eq!(f.weights.as_deref(), Some(&[3i64, 5][..]));
    assert_eq!(s.grouped.len(), 1);
    assert_eq!(s.grouped[0].slug, "accessibility");
    assert_eq!(s.grouped[0].features.len(), 1);
    assert!(s.extra.is_none());
    assert!(s.grouped_tail.is_none());
    assert!(decode_feature_set(&text("x")).is_err());
}

#[test]
fn feature_set_raw_reads_the_category_slot() {
    let payload = arr(vec![
        null(),
        arr(vec![arr(vec![
            text("environment"),
            text("Environment"),
            arr(vec![sample_feature()]),
        ])]),
    ]);
    let s = decode_feature_set_raw(&payload).unwrap();
    assert_eq!(s.categories.len(), 1);
    assert_eq!(s.categories[0].display_name, "Environment");
    assert!(decode_feature_set_raw(&arr(vec![null(), text("x")])).is_err());
}

#[test]
fn service_cluster_navigates_the_deep_path() {
    let topic = |title: &str, description: &str| {
        arr(vec![arr(vec![arr(vec![text(title), text(description)])])])
    };
    let group = arr(vec![
        arr(vec![text("Software Company")]),
        arr(vec![topic("Custom software", "We build it"), topic("Audits", "   ")]),
    ]);
    // The group list sits at root[0][0][1].
    let payload = arr(vec![arr(vec![arr(vec![null(), arr(vec![group])])])]);
    let c = decode_service_cluster(&payload).unwrap();
    assert_eq!(c.groups.len(), 1);
    assert_eq!(c.groups[0].category, "Software Company");
    assert_eq!(c.groups[0].topics.len(), 2);
    assert_eq!(c.groups[0].topics[0].title, "Custom software");
    assert_eq!(c.groups[0].topics[0].description.as_deref(), Some("We build it"));
    // A blank description reads as absent.
    assert_eq!(c.groups[0].topics[1].description, None);
    assert!(decode_service_cluster(&text("x")).is_err());
}

#[test]
fn photo_wrapper_decodes_entry_and_cluster_meta() {
    let mut entry_slots = Vec::new();
    entry_slots.push(text("photo-id-1"));
    entry_slots.push(num(1));
    for _ in 2..6 {
        entry_slots.push(null());
    }
    entry_slots.push(arr(vec![
        text("https://cdn.example/p.jpg"),
        text("9 Photos"),
        arr(vec![num(1200), num(800)]),
        arr(vec![num(120), num(80)]),
    ]));
    entry_slots.push(null());
    entry_slots.push(arr(vec![arr(vec![null(), dec("-111.8"), dec("40.7")])]));
    entry_slots.push(text("entity-xyz"));
    // The tail element carries the cluster counts.
    entry_slots.push(arr(vec![arr(vec![arr(vec![num(1), num(9)])]), null(), null(), null(), num(0)]));
    let wrapper = arr(vec![
        arr(entry_slots),
        null(),
        null(),
        text("entity-xyz"),
        null(),
        text("track-tok"),
        null(),
        null(),
        arr(vec![arr(vec![arr(vec![num(1), num(9)])]), num(0), null(), num(9), num(0)]),
    ]);
    let w = decode_photo_wrapper(&wrapper).unwrap();
    assert_eq!(w.entry.photo_id, "photo-id-1");
    assert_eq!(w.entry.media_type, 1);
    assert_eq!(w.entry.image_url.as_deref(), Some("https://cdn.example/p.jpg"));
    assert_eq!(w.entry.label.as_deref(), Some("9 Photos"));
    assert_eq!(w.entry.original_size, Some((1200, 800)));
    assert_eq!(w.entry.thumbnail_size, Some((120, 80)));
    let loc = w.entry.location.as_ref().unwrap();
    assert_eq!(loc.lat, JsonNumber::Dec("40.7".to_string()));
    assert_eq!(loc.lon, JsonNumber::Dec("-111.8".to_string()));
    assert_eq!(w.entry.business.entity_id, "entity-xyz");
    let ci = w.entry.cluster_info.as_ref().unwrap();
    assert_eq!(ci.label, "9 Photos");
    assert_eq!(ci.count, Some(9));
    assert_eq!(w.entity_id.as_deref(), Some("entity-xyz"));
    assert_eq!(w.tracking_token.as_deref(), Some("track-tok"));
    let cm = w.cluster_meta.as_ref().unwrap();
    assert_eq!(cm.media_type_counts, vec![(1, 9)]);
    assert_eq!(cm.total_count, Some(9));
    // A wrapper without a decodable photo entry fails.
    assert!(decode_photo_wrapper(&arr(vec![null()])).is_err());
}
