//! Entry classification, the business-entity assembler and the schema-drift
//! validator.
//!
//! Decode policy: a sub-decoder failure for an optional, non-identity field
//! degrades to `None` for that field and decoding continues; the two
//! length-guarded fixed-shape blocks (the identifier bundle at index 227 and
//! the geo-containment hierarchy at index 245) fail the entity; a malformed
//! entry shape fails the entry at classification.
use vstd::prelude::*;
use crate::json::{jget, get_element, json_eq, JsonValue};
use crate::decode::{
    spec_text_at, get_text_at, spec_decode_reviews, decode_reviews, spec_decode_website_links,
    decode_website_links, spec_decode_geo_point, decode_geo_point, spec_decode_coordinate_blocks,
    decode_coordinate_blocks, spec_decode_categories, decode_categories, vget, value_get,
};
use crate::decode_blocks::{
    spec_decode_identifiers, decode_identifiers, spec_decode_fulfillment, decode_fulfillment,
    spec_parse_geo_containment_hierarchy, parse_geo_containment_hierarchy,
};
use crate::decode_feature::{spec_decode_feature_set, decode_feature_set};
use crate::decode_hours::{spec_decode_hours, decode_hours};
use crate::decode_phone::{spec_decode_phone, decode_phone};
use crate::decode_service::{spec_decode_service_cluster, decode_service_cluster};
use crate::decode_photo::{spec_photo_list, decode_photo_list};
use crate::model::{
    BusinessEntity, SpecBusinessEntity, SpecBusinessEntityIdentifier, SpecFulfillmentIntegration,
    SpecGeoContainmentHierarchy, SpecServiceCluster, SpecPhotoWrapper, entity_dv,
};

verus! {

/// Why one listing entry could not be decoded.
#[derive(Debug, Clone, Copy, PartialEq, Eq)]
pub enum EntityError {
    /// The entry is not the `[null, payload]` 2-tuple that every observed
    /// sample has had.
    UnexpectedEntryShape,
    /// A length-guarded fixed-shape block failed to decode.
    FixedShapeBlock { index: usize },
}

// ————————————————————————————————————————————————————————————————————————
// The known universe of indices
// ————————————————————————————————————————————————————————————————————————

/// Indices that the decoders consult.  The geo-containment slot is consulted
/// only when the listing array has exactly 246 elements.
pub open spec fn visited_index(i: int, len: int) -> bool {
    ||| i == 0 || i == 1 || i == 2 || i == 4 || i == 7 || i == 9 || i == 10 || i == 11
    ||| i == 13 || i == 14 || i == 18 || i == 30 || i == 37 || i == 39 || i == 72 || i == 75
    ||| i == 76 || i == 78 || i == 89 || i == 100 || i == 125 || i == 157 || i == 166
    ||| i == 174 || i == 178 || i == 203 || i == 208 || i == 227
    ||| (i == 245 && len == 246)
}

/// Indices known to carry data that is deliberately not modeled.
pub open spec fn skip_index(i: int) -> bool {
    ||| i == 24 || i == 25 || i == 32 || i == 40 || i == 61 || i == 67 || i == 105 || i == 110
    ||| i == 112 || i == 118 || i == 130 || i == 134 || i == 136 || i == 146 || i == 160
    ||| i == 165 || i == 170 || i == 181 || i == 205 || i == 214 || i == 243
}

/// Indices whose payload is known but not yet decoded; non-null data there
/// is reported as known-unhandled drift.
pub open spec fn todo_index(i: int) -> bool {
    ||| i == 34 || i == 49 || i == 57 || i == 82 || i == 88 || i == 113 || i == 142 || i == 164
    ||| i == 183 || i == 196 || i == 209 || i == 226
}

fn is_visited_index(i: usize, len: usize) -> (r: bool)
    ensures
        r == visited_index(i as int, len as int),
{
    match i {
        0 | 1 | 2 | 4 | 7 | 9 | 10 | 11 | 13 | 14 | 18 | 30 | 37 | 39 | 72 | 75 | 76 | 78 | 89
            | 100 | 125 | 157 | 166 | 174 | 178 | 203 | 208 | 227 => true,
        245 => len == 246,
        _ => false,
    }
}

fn is_skip_index(i: usize) -> (r: bool)
    ensures
        r == skip_index(i as int),
{
    match i {
        24 | 25 | 32 | 40 | 61 | 67 | 105 | 110 | 112 | 118 | 130 | 134 | 136 | 146 | 160 | 165
            | 170 | 181 | 205 | 214 | 243 => true,
        _ => false,
    }
}

fn is_todo_index(i: usize) -> (r: bool)
    ensures
        r == todo_index(i as int),
{
    match i {
        34 | 49 | 57 | 82 | 88 | 113 | 142 | 164 | 183 | 196 | 209 | 226 => true,
        _ => false,
    }
}

// ————————————————————————————————————————————————————————————————————————
// Entry classification
// ————————————————————————————————————————————————————————————————————————

/// Classification of one listings-array element: `Ok(Some(..))` carries the
/// payload slots of an organic listing, `Ok(None)` is an advertised or other
/// entry (left opaque by design), and any shape other than a `[null, x]`
/// 2-tuple is a hard failure.
pub open spec fn spec_classify(entry: JsonValue) -> Result<Option<Seq<JsonValue>>, EntityError> {
    match entry {
        JsonValue::Arr(pair) => {
            if pair@.len() == 2 && pair@[0] is Null {
                match pair@[1] {
                    JsonValue::Arr(inner) => Ok(Some(inner@)),
                    _ => Ok(None),
                }
            } else {
                Err(EntityError::UnexpectedEntryShape)
            }
        },
        _ => Err(EntityError::UnexpectedEntryShape),
    }
}

/// Exec counterpart of [`spec_classify`].
pub fn classify_entry<'a>(entry: &'a JsonValue) -> (r: Result<Option<&'a Vec<JsonValue>>, EntityError>)
    ensures
        match (r, spec_classify(*entry)) {
            (Ok(Some(inner)), Ok(Some(s))) => inner@ == s,
            (Ok(None), Ok(None)) => true,
            (Err(e1), Err(e2)) => e1 == e2,
            _ => false,
        },
{
    let pair = match entry.as_array() {
        Some(pair) => pair,
        None => {
            return Err(EntityError::UnexpectedEntryShape);
        }
    };
    if pair.len() != 2 || !pair[0].is_null() {
        return Err(EntityError::UnexpectedEntryShape);
    }
    match &pair[1] {
        JsonValue::Arr(inner) => Ok(Some(inner)),
        _ => Ok(None),
    }
}

// ————————————————————————————————————————————————————————————————————————
// Per-field degrade wrappers
// ————————————————————————————————————————————————————————————————————————

/// A list of strings: every element must be a string.
pub open spec fn spec_text_list(a: Seq<JsonValue>) -> Option<Seq<String>> {
    if forall|i: int| 0 <= i < a.len() ==> (#[trigger] a[i]) is Text {
        Some(Seq::new(a.len(), |i: int| a[i]->Text_0))
    } else {
        None
    }
}

fn text_list(a: &Vec<JsonValue>) -> (r: Option<Vec<String>>)
    ensures
        match (r, spec_text_list(a@)) {
            (Some(v), Some(s)) => v@ == s,
            (None, None) => true,
            _ => false,
        },
{
    let mut out: Vec<String> = Vec::new();
    let mut i: usize = 0;
    while i < a.len()
        invariant
            i <= a.len(),
            out@.len() == i as int,
            forall|j: int| 0 <= j < i ==> (#[trigger] a@[j]) is Text,
            forall|j: int| 0 <= j < i ==> #[trigger] out@[j] == a@[j]->Text_0,
        decreases a@.len() - i,
    {
        match &a[i] {
            JsonValue::Text(s) => {
                out.push(s.clone());
            }
            _ => {
                return None;
            }
        }
        i = i + 1;
    }
    proof {
        assert(out@ =~= spec_text_list(a@)->Some_0);
    }
    Some(out)
}

/// The string list at slot `i`, degraded to absent on any mismatch.
pub open spec fn spec_field_text_list(items: Seq<JsonValue>, i: int) -> Option<Seq<String>> {
    match jget(items, i) {
        Some(v) => match v {
            JsonValue::Arr(a) => spec_text_list(a@),
            _ => None,
        },
        None => None,
    }
}

/// The single profile link at slot 174: an array of exactly one string.
pub open spec fn spec_field_profile_link(items: Seq<JsonValue>) -> Option<String> {
    match jget(items, 174) {
        Some(v) => match v {
            JsonValue::Arr(a) => if a@.len() == 1 && a@[0] is Text {
                Some(a@[0]->Text_0)
            } else {
                None
            },
            _ => None,
        },
        None => None,
    }
}

/// The fulfillment integration: the payload sits behind `slot[0][0]`.
pub open spec fn spec_field_cta(items: Seq<JsonValue>) -> Option<SpecFulfillmentIntegration> {
    match jget(items, 75) {
        Some(v) => match vget(v, 0) {
            Some(x) => match vget(x, 0) {
                Some(target) => match spec_decode_fulfillment(target) {
                    Ok(f) => Some(f),
                    Err(_) => None,
                },
                None => None,
            },
            None => None,
        },
        None => None,
    }
}

/// The photo list at slot `i`, degraded to absent unless the slot is an
/// array.
pub open spec fn spec_field_photos(items: Seq<JsonValue>, i: int) -> Option<Seq<SpecPhotoWrapper>> {
    match jget(items, i) {
        Some(v) => match v {
            JsonValue::Arr(a) => Some(spec_photo_list(a@)),
            _ => None,
        },
        None => None,
    }
}

/// The identifier bundle at slot 227: required, and a failure is
/// entity-fatal.
pub open spec fn spec_field_identifiers(items: Seq<JsonValue>) -> Result<SpecBusinessEntityIdentifier, EntityError> {
    match jget(items, 227) {
        Some(v) => match spec_decode_identifiers(v) {
            Ok(b) => Ok(b),
            Err(_) => Err(EntityError::FixedShapeBlock { index: 227 }),
        },
        None => Err(EntityError::FixedShapeBlock { index: 227 }),
    }
}

/// The geo-containment hierarchy at slot 245: only consulted when the array
/// has exactly 246 elements; then absence is fine but a malformed block is
/// entity-fatal.
pub open spec fn spec_field_geo_hierarchy(items: Seq<JsonValue>) -> Result<Option<SpecGeoContainmentHierarchy>, EntityError> {
    if items.len() == 246 {
        match jget(items, 245) {
            Some(v) => match spec_parse_geo_containment_hierarchy(v) {
                Ok(rs) => Ok(Some(SpecGeoContainmentHierarchy { regions: rs })),
                Err(_) => Err(EntityError::FixedShapeBlock { index: 245 }),
            },
            None => Ok(None),
        }
    } else {
        Ok(None)
    }
}

// ————————————————————————————————————————————————————————————————————————
// The entity
// ————————————————————————————————————————————————————————————————————————

/// The whole entity decode over the payload slots of one organic listing.
pub open spec fn spec_decode_entity(items: Seq<JsonValue>) -> Result<SpecBusinessEntity, EntityError> {
    match spec_field_identifiers(items) {
        Err(e) => Err(e),
        Ok(ids) => match spec_field_geo_hierarchy(items) {
            Err(e) => Err(e),
            Ok(geo) => Ok(SpecBusinessEntity {
                business_token: spec_text_at(items, 0),
                serp_tracking_token: spec_text_at(items, 1),
                address_lines: spec_field_text_list(items, 2),
                reviews: match jget(items, 4) {
                    Some(v) => match spec_decode_reviews(v) {
                        Ok(r) => Some(r),
                        Err(_) => None,
                    },
                    None => None,
                },
                business_website_links: match jget(items, 7) {
                    Some(v) => match spec_decode_website_links(v) {
                        Ok(w) => Some(w),
                        Err(_) => None,
                    },
                    None => None,
                },
                geo_location: match jget(items, 9) {
                    Some(v) => match spec_decode_geo_point(v) {
                        Ok(g) => Some(g),
                        Err(_) => None,
                    },
                    None => None,
                },
                composite_business_id: spec_text_at(items, 10),
                display_name: spec_text_at(items, 11),
                business_category_labels: spec_field_text_list(items, 13),
                neighborhood_name: spec_text_at(items, 14),
                display_title_address_line: spec_text_at(items, 18),
                timezone_field: spec_text_at(items, 30),
                hours_of_operation: None,
                media_photo_metadata: spec_field_photos(items, 37),
                formatted_address: spec_text_at(items, 39),
                claim_this_business_metadata: None,
                gmb_account_ownership_metadata_block: None,
                business_photo_gallery: spec_field_photos(items, 72),
                business_cta_links: spec_field_cta(items),
                business_categories: match jget(items, 76) {
                    Some(v) => match spec_decode_categories(v) {
                        Ok(cs) => Some(cs),
                        Err(_) => None,
                    },
                    None => None,
                },
                google_place_id: spec_text_at(items, 78),
                address_block_array: None,
                business_display_block: None,
                google_knowledge_graph_id: spec_text_at(items, 89),
                local_business_ontology_categories: match jget(items, 100) {
                    Some(v) => match spec_decode_feature_set(v) {
                        Ok(s) => Some(s),
                        Err(_) => None,
                    },
                    None => None,
                },
                another_language_code: None,
                service_taxonomy: match jget(items, 125) {
                    Some(v) => match spec_decode_service_cluster(v) {
                        Ok(gs) => Some(SpecServiceCluster { groups: gs }),
                        Err(_) => None,
                    },
                    None => None,
                },
                business_level_attributes: None,
                google_account_avatars: spec_text_at(items, 157),
                business_category_label_tuple: None,
                locality_string_city_level_location_names: spec_text_at(items, 166),
                indirect_business_profile_links: spec_field_profile_link(items),
                phone_number_entity_block: match jget(items, 178) {
                    Some(v) => match spec_decode_phone(v) {
                        Ok(p) => Some(p),
                        Err(_) => None,
                    },
                    None => None,
                },
                location_normalization_payload: None,
                identity_label_metadata: None,
                structured_business_hours_payload: match jget(items, 203) {
                    Some(v) => match spec_decode_hours(v) {
                        Ok(h) => Some(h),
                        Err(_) => None,
                    },
                    None => None,
                },
                coordinate_blocks: match jget(items, 208) {
                    Some(v) => match spec_decode_coordinate_blocks(v) {
                        Ok(g) => Some(g),
                        Err(_) => None,
                    },
                    None => None,
                },
                b64_structured_concept_identifiers: None,
                business_claim_urls: None,
                google_maps_internal_business_entity_identifiers: Some(ids),
                geographic_contextualization_metadata: geo,
            }),
        },
    }
}

/// Decodes one organic listing's payload slots into a business entity.
pub fn decode_business_entity(items: &Vec<JsonValue>) -> (r: Result<BusinessEntity, EntityError>)
    ensures
        match (r, spec_decode_entity(items@)) {
            (Ok(e), Ok(s)) => entity_dv(e) == s,
            (Err(e1), Err(e2)) => e1 == e2,
            _ => false,
        },
{
    let ids = match get_element(items, 227) {
        Some(v) => match decode_identifiers(v) {
            Ok(b) => b,
            Err(_) => {
                return Err(EntityError::FixedShapeBlock { index: 227 });
            }
        },
        None => {
            return Err(EntityError::FixedShapeBlock { index: 227 });
        }
    };
    let geo = if items.len() == 246 {
        match get_element(items, 245) {
            Some(v) => match parse_geo_containment_hierarchy(v) {
                Ok(h) => Some(h),
                Err(_) => {
                    return Err(EntityError::FixedShapeBlock { index: 245 });
                }
            },
            None => None,
        }
    } else {
        None
    };
    let reviews = match get_element(items, 4) {
        Some(v) => match decode_reviews(v) {
            Ok(r) => Some(r),
            Err(_) => None,
        },
        None => None,
    };
    let business_website_links = match get_element(items, 7) {
        Some(v) => match decode_website_links(v) {
            Ok(w) => Some(w),
            Err(_) => None,
        },
        None => None,
    };
    let geo_location = match get_element(items, 9) {
        Some(v) => match decode_geo_point(v) {
            Ok(g) => Some(g),
            Err(_) => None,
        },
        None => None,
    };
    let address_lines = match get_element(items, 2) {
        Some(v) => match v.as_array() {
            Some(a) => text_list(a),
            None => None,
        },
        None => None,
    };
    let business_category_labels = match get_element(items, 13) {
        Some(v) => match v.as_array() {
            Some(a) => text_list(a),
            None => None,
        },
        None => None,
    };
    let media_photo_metadata = match get_element(items, 37) {
        Some(v) => match v.as_array() {
            Some(a) => Some(decode_photo_list(a)),
            None => None,
        },
        None => None,
    };
    let business_photo_gallery = match get_element(items, 72) {
        Some(v) => match v.as_array() {
            Some(a) => Some(decode_photo_list(a)),
            None => None,
        },
        None => None,
    };
    let business_cta_links = match get_element(items, 75) {
        Some(v) => match value_get(v, 0) {
            Some(x) => match value_get(x, 0) {
                Some(target) => match decode_fulfillment(target) {
                    Ok(f) => Some(f),
                    Err(_) => None,
                },
                None => None,
            },
            None => None,
        },
        None => None,
    };
    let business_categories = match get_element(items, 76) {
        Some(v) => match decode_categories(v) {
            Ok(cs) => Some(cs),
            Err(_) => None,
        },
        None => None,
    };
    let local_business_ontology_categories = match get_element(items, 100) {
        Some(v) => match decode_feature_set(v) {
            Ok(s) => Some(s),
            Err(_) => None,
        },
        None => None,
    };
    let service_taxonomy = match get_element(items, 125) {
        Some(v) => match decode_service_cluster(v) {
            Ok(c) => Some(c),
            Err(_) => None,
        },
        None => None,
    };
    let indirect_business_profile_links = match get_element(items, 174) {
        Some(v) => match v.as_array() {
            Some(a) => if a.len() == 1 {
                match &a[0] {
                    JsonValue::Text(s) => Some(s.clone()),
                    _ => None,
                }
            } else {
                None
            },
            None => None,
        },
        None => None,
    };
    let phone_number_entity_block = match get_element(items, 178) {
        Some(v) => match decode_phone(v) {
            Ok(p) => Some(p),
            Err(_) => None,
        },
        None => None,
    };
    let structured_business_hours_payload = match get_element(items, 203) {
        Some(v) => match decode_hours(v) {
            Ok(h) => Some(h),
            Err(_) => None,
        },
        None => None,
    };
    let coordinate_blocks = match get_element(items, 208) {
        Some(v) => match decode_coordinate_blocks(v) {
            Ok(g) => Some(g),
            Err(_) => None,
        },
        None => None,
    };
    Ok(BusinessEntity {
        business_token: get_text_at(items, 0),
        serp_tracking_token: get_text_at(items, 1),
        address_lines,
        reviews,
        business_website_links,
        geo_location,
        composite_business_id: get_text_at(items, 10),
        display_name: get_text_at(items, 11),
        business_category_labels,
        neighborhood_name: get_text_at(items, 14),
        display_title_address_line: get_text_at(items, 18),
        timezone_field: get_text_at(items, 30),
        hours_of_operation: None,
        media_photo_metadata,
        formatted_address: get_text_at(items, 39),
        claim_this_business_metadata: None,
        gmb_account_ownership_metadata_block: None,
        business_photo_gallery,
        business_cta_links,
        business_categories,
        google_place_id: get_text_at(items, 78),
        address_block_array: None,
        business_display_block: None,
        google_knowledge_graph_id: get_text_at(items, 89),
        local_business_ontology_categories,
        another_language_code: None,
        service_taxonomy,
        business_level_attributes: None,
        google_account_avatars: get_text_at(items, 157),
        business_category_label_tuple: None,
        locality_string_city_level_location_names: get_text_at(items, 166),
        indirect_business_profile_links,
        phone_number_entity_block,
        location_normalization_payload: None,
        identity_label_metadata: None,
        structured_business_hours_payload,
        coordinate_blocks,
        b64_structured_concept_identifiers: None,
        business_claim_urls: None,
        google_maps_internal_business_entity_identifiers: Some(ids),
        geographic_contextualization_metadata: geo,
    })
}

// ————————————————————————————————————————————————————————————————————————
// The drift validator
// ————————————————————————————————————————————————————————————————————————

/// What kind of drift an index signals, if any: nothing for a consulted,
/// skippable or null slot; known-unhandled for a populated TODO slot; and
/// unexpected for any other non-null value, the early warning that the
/// format changed upstream.
#[derive(Debug, Clone, Copy, PartialEq, Eq)]
pub enum DriftKind {
    KnownUnhandled,
    Unexpected,
}

/// One structured drift observation.
#[derive(Debug, PartialEq, Eq)]
pub struct DriftRecord {
    /// Position of the listing inside the listings array.
    pub entry_index: usize,
    /// The listing-array index that signalled drift.
    pub index: usize,
    pub kind: DriftKind,
    /// The raw value found there.
    pub raw: JsonValue,
}

/// The drift signal of index `i`.
pub open spec fn spec_drift_kind(items: Seq<JsonValue>, i: int) -> Option<DriftKind> {
    if visited_index(i, items.len() as int) || skip_index(i) {
        None
    } else if items[i] is Null {
        None
    } else if todo_index(i) {
        Some(DriftKind::KnownUnhandled)
    } else {
        Some(DriftKind::Unexpected)
    }
}

/// The `(index, kind)` pairs of every drift signal below `upto`, in index
/// order.
pub open spec fn spec_drift_indices(items: Seq<JsonValue>, upto: int) -> Seq<(int, DriftKind)>
    decreases upto,
{
    if upto <= 0 {
        Seq::empty()
    } else {
        let rest = spec_drift_indices(items, upto - 1);
        match spec_drift_kind(items, upto - 1) {
            Some(k) => rest.push((upto - 1, k)),
            None => rest,
        }
    }
}

/// Walks every index of a decoded listing and reports each drift signal with
/// the raw value found there.
pub fn validate_drift(entry_index: usize, items: &Vec<JsonValue>) -> (r: Vec<DriftRecord>)
    ensures
        r@.map_values(|d: DriftRecord| (d.index as int, d.kind)) == spec_drift_indices(
            items@,
            items@.len() as int,
        ),
        forall|k: int| 0 <= k < r@.len()
            ==> 0 <= (#[trigger] r@[k]).index < items@.len() && json_eq(
                r@[k].raw,
                items@[r@[k].index as int],
            ),
        forall|k: int| 0 <= k < r@.len() ==> (#[trigger] r@[k]).entry_index == entry_index,
{
    let mut out: Vec<DriftRecord> = Vec::new();
    let mut i: usize = 0;
    let n = items.len();
    proof {
        assert(out@.map_values(|d: DriftRecord| (d.index as int, d.kind)) =~= Seq::<(
            int,
            DriftKind,
        )>::empty());
    }
    while i < n
        invariant
            i <= n,
            n == items@.len(),
            out@.map_values(|d: DriftRecord| (d.index as int, d.kind)) == spec_drift_indices(
                items@,
                i as int,
            ),
            forall|k: int| 0 <= k < out@.len()
                ==> 0 <= (#[trigger] out@[k]).index < items@.len() && json_eq(
                    out@[k].raw,
                    items@[out@[k].index as int],
                ),
            forall|k: int| 0 <= k < out@.len() ==> (#[trigger] out@[k]).entry_index == entry_index,
        decreases n - i,
    {
        let kind: Option<DriftKind> = if is_visited_index(i, n) || is_skip_index(i) {
            None
        } else if items[i].is_null() {
            None
        } else if is_todo_index(i) {
            Some(DriftKind::KnownUnhandled)
        } else {
            Some(DriftKind::Unexpected)
        };
        match kind {
            Some(k) => {
                let rec = DriftRecord { entry_index, index: i, kind: k, raw: items[i].deep_clone() };
                let ghost prev = out@;
                out.push(rec);
                proof {
                    assert(out@.map_values(|d: DriftRecord| (d.index as int, d.kind))
                        =~= prev.map_values(|d: DriftRecord| (d.index as int, d.kind)).push(
                        (i as int, k),
                    ));
                }
            }
            None => {}
        }
        i = i + 1;
    }
    out
}

// ————————————————————————————————————————————————————————————————————————
// The drift-detection invariant
// ————————————————————————————————————————————————————————————————————————

proof fn lemma_drift_empty_prefix(items: Seq<JsonValue>, upto: int, j: int)
    requires
        0 <= j < upto <= items.len(),
        spec_drift_indices(items, upto).len() == 0,
    ensures
        spec_drift_kind(items, j) is None,
    decreases upto,
{
    if j < upto - 1 {
        lemma_drift_empty_prefix(items, upto - 1, j);
    }
}

/// The core drift-detection invariant: when the validator reports nothing,
/// every index outside the visited, skip and TODO sets holds `null` — so a
/// silent decode really did account for every populated slot.
pub proof fn lemma_no_drift_means_null(items: Seq<JsonValue>, i: int)
    requires
        spec_drift_indices(items, items.len() as int).len() == 0,
        0 <= i < items.len(),
        !visited_index(i, items.len() as int),
        !skip_index(i),
        !todo_index(i),
    ensures
        items[i] is Null,
{
    lemma_drift_empty_prefix(items, items.len() as int, i);
}

/// The converse direction: any non-null value at an unaccounted index is
/// reported, so drift is never silently dropped.
pub proof fn lemma_unaccounted_value_is_reported(items: Seq<JsonValue>, i: int)
    requires
        0 <= i < items.len(),
        !visited_index(i, items.len() as int),
        !skip_index(i),
        !todo_index(i),
        !(items[i] is Null),
    ensures
        spec_drift_indices(items, items.len() as int).contains((i, DriftKind::Unexpected)),
{
    lemma_drift_contains(items, items.len() as int, i);
}

proof fn lemma_drift_contains(items: Seq<JsonValue>, upto: int, i: int)
    requires
        0 <= i < upto <= items.len(),
        spec_drift_kind(items, i) is Some,
    ensures
        spec_drift_indices(items, upto).contains((i, spec_drift_kind(items, i)->0)),
    decreases upto,
{
    if i == upto - 1 {
        assert(spec_drift_indices(items, upto).last() == (i, spec_drift_kind(items, i)->0));
    } else {
        lemma_drift_contains(items, upto - 1, i);
        let rest = spec_drift_indices(items, upto - 1);
        let k = choose|k: int| 0 <= k < rest.len() && rest[k] == (i, spec_drift_kind(items, i)->0);
        assert(spec_drift_indices(items, upto)[k] == (i, spec_drift_kind(items, i)->0));
    }
}

} // verus!
