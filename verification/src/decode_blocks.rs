//! Sub-decoders for the fixed-shape nested-array blocks of a listing: owner
//! metadata, address fields, display block, the identifier bundle, the
//! fulfillment integration and the geo-containment hierarchy.
use vstd::prelude::*;
use vstd::string::StringExecFns;
use crate::json::JsonValue;
use crate::decode::{
    ShapeError, vget, value_get, spec_text_at, get_text_at, spec_uint_at, get_uint_at,
    spec_num_at, get_num_at, spec_text_elem, text_elem, spec_uint_pair, uint_pair, spec_arr_at,
};
use crate::model::{
    BusinessAddressFields, BusinessDisplayBlock, BusinessEntityIdentifier, BusinessOwnerMetadata,
    FulfillmentIntegration, GeoContainmentHierarchy, RegionClassification,
    SpecBusinessEntityIdentifier, SpecFulfillmentIntegration, SpecRegionClassification,
    business_entity_identifier_dv, fulfillment_dv, region_classification_dv,
    geo_containment_hierarchy_dv,
};

verus! {

// ————————————————————————————————————————————————————————————————————————
// Account-ownership block
// ————————————————————————————————————————————————————————————————————————

/// The ownership block: a 9-slot array whose slots other than the display
/// name (1), the optional identity id (2) and the owner id (8) must be null.
pub open spec fn spec_decode_owner_metadata(v: JsonValue) -> Result<BusinessOwnerMetadata, ShapeError> {
    match v {
        JsonValue::Arr(items) => {
            if items@.len() >= 9
                && items@[0] is Null
                && items@[1] is Text
                && (items@[2] is Null || items@[2] is Text)
                && items@[3] is Null
                && items@[4] is Null
                && items@[5] is Null
                && items@[6] is Null
                && items@[7] is Null
                && items@[8] is Text
            {
                Ok(BusinessOwnerMetadata {
                    display_name: items@[1]->Text_0,
                    google_identity_id: spec_text_at(items@, 2),
                    canonical_owner_id: items@[8]->Text_0,
                })
            } else {
                Err(ShapeError)
            }
        },
        _ => Err(ShapeError),
    }
}

pub fn decode_owner_metadata(v: &JsonValue) -> (r: Result<BusinessOwnerMetadata, ShapeError>)
    ensures
        r == spec_decode_owner_metadata(*v),
{
    let items = match v.as_array() {
        Some(items) => items,
        None => {
            return Err(ShapeError);
        }
    };
    if items.len() < 9 {
        return Err(ShapeError);
    }
    if !items[0].is_null() {
        return Err(ShapeError);
    }
    let display_name = match &items[1] {
        JsonValue::Text(s) => s.clone(),
        _ => {
            return Err(ShapeError);
        }
    };
    let google_identity_id = if items[2].is_null() {
        None
    } else {
        match &items[2] {
            JsonValue::Text(s) => Some(s.clone()),
            _ => {
                return Err(ShapeError);
            }
        }
    };
    if !items[3].is_null() || !items[4].is_null() || !items[5].is_null() || !items[6].is_null()
        || !items[7].is_null() {
        return Err(ShapeError);
    }
    let canonical_owner_id = match &items[8] {
        JsonValue::Text(s) => s.clone(),
        _ => {
            return Err(ShapeError);
        }
    };
    Ok(BusinessOwnerMetadata { display_name, google_identity_id, canonical_owner_id })
}

// ————————————————————————————————————————————————————————————————————————
// Address fields
// ————————————————————————————————————————————————————————————————————————

/// Address fields: four slots, each null or a string; all-null reads as the
/// block being absent.
pub open spec fn spec_decode_address_fields(v: JsonValue) -> Result<Option<BusinessAddressFields>, ShapeError> {
    match v {
        JsonValue::Arr(items) => {
            if items@.len() >= 4
                && (items@[0] is Null || items@[0] is Text)
                && (items@[1] is Null || items@[1] is Text)
                && (items@[2] is Null || items@[2] is Text)
                && (items@[3] is Null || items@[3] is Text)
            {
                if items@[0] is Null && items@[1] is Null && items@[2] is Null && items@[3] is Null {
                    Ok(None)
                } else {
                    Ok(Some(BusinessAddressFields {
                        location_hint: spec_text_at(items@, 0),
                        street_address_1: spec_text_at(items@, 1),
                        street_address_2: spec_text_at(items@, 2),
                        city: spec_text_at(items@, 3),
                    }))
                }
            } else {
                Err(ShapeError)
            }
        },
        _ => Err(ShapeError),
    }
}

pub fn decode_address_fields(v: &JsonValue) -> (r: Result<Option<BusinessAddressFields>, ShapeError>)
    ensures
        r == spec_decode_address_fields(*v),
{
    let items = match v.as_array() {
        Some(items) => items,
        None => {
            return Err(ShapeError);
        }
    };
    if items.len() < 4 {
        return Err(ShapeError);
    }
    let mut i: usize = 0;
    while i < 4
        invariant
            i <= 4,
            items@.len() >= 4,
            forall|j: int| 0 <= j < i ==> items@[j] is Null || items@[j] is Text,
        decreases 4 - i,
    {
        match &items[i] {
            JsonValue::Null => {}
            JsonValue::Text(_) => {}
            _ => {
                return Err(ShapeError);
            }
        }
        i = i + 1;
    }
    if items[0].is_null() && items[1].is_null() && items[2].is_null() && items[3].is_null() {
        return Ok(None);
    }
    Ok(Some(BusinessAddressFields {
        location_hint: get_text_at(items, 0),
        street_address_1: get_text_at(items, 1),
        street_address_2: get_text_at(items, 2),
        city: get_text_at(items, 3),
    }))
}

// ————————————————————————————————————————————————————————————————————————
// Display block
// ————————————————————————————————————————————————————————————————————————

/// The display block: the business display name at slot 3.
pub open spec fn spec_decode_display_block(v: JsonValue) -> Result<BusinessDisplayBlock, ShapeError> {
    match v {
        JsonValue::Arr(items) => {
            if items@.len() >= 4 && items@[3] is Text {
                Ok(BusinessDisplayBlock { name: items@[3]->Text_0 })
            } else {
                Err(ShapeError)
            }
        },
        _ => Err(ShapeError),
    }
}

pub fn decode_display_block(v: &JsonValue) -> (r: Result<BusinessDisplayBlock, ShapeError>)
    ensures
        r == spec_decode_display_block(*v),
{
    let items = match v.as_array() {
        Some(items) => items,
        None => {
            return Err(ShapeError);
        }
    };
    if items.len() < 4 {
        return Err(ShapeError);
    }
    match &items[3] {
        JsonValue::Text(s) => Ok(BusinessDisplayBlock { name: s.clone() }),
        _ => Err(ShapeError),
    }
}

// ————————————————————————————————————————————————————————————————————————
// Identifier bundle (listing index 227)
// ————————————————————————————————————————————————————————————————————————

/// The identifier bundle: a singleton wrapper around a flat slot array.  A
/// missing composite id reads as empty.
pub open spec fn spec_decode_identifiers(v: JsonValue) -> Result<SpecBusinessEntityIdentifier, ShapeError> {
    match vget(v, 0) {
        Some(inner) => match inner {
            JsonValue::Arr(slots) => Ok(SpecBusinessEntityIdentifier {
                composite_id: match spec_text_at(slots@, 0) {
                    Some(s) => s@,
                    None => Seq::empty(),
                },
                kg_id: spec_text_at(slots@, 3),
                place_id: spec_text_at(slots@, 4),
                numeric_id: spec_text_at(slots@, 5),
                owner_id: spec_text_at(slots@, 6),
            }),
            _ => Err(ShapeError),
        },
        None => Err(ShapeError),
    }
}

pub fn decode_identifiers(v: &JsonValue) -> (r: Result<BusinessEntityIdentifier, ShapeError>)
    ensures
        match (r, spec_decode_identifiers(*v)) {
            (Ok(b), Ok(s)) => business_entity_identifier_dv(b) == s,
            (Err(e1), Err(e2)) => e1 == e2,
            _ => false,
        },
{
    let inner = match value_get(v, 0) {
        Some(inner) => inner,
        None => {
            return Err(ShapeError);
        }
    };
    let slots = match inner.as_array() {
        Some(slots) => slots,
        None => {
            return Err(ShapeError);
        }
    };
    let composite_id = match get_text_at(slots, 0) {
        Some(s) => s,
        None => String::new(),
    };
    Ok(BusinessEntityIdentifier {
        composite_id,
        kg_id: get_text_at(slots, 3),
        place_id: get_text_at(slots, 4),
        numeric_id: get_text_at(slots, 5),
        owner_id: get_text_at(slots, 6),
    })
}

// ————————————————————————————————————————————————————————————————————————
// Fulfillment integration (listing index 75, inner block)
// ————————————————————————————————————————————————————————————————————————

/// The vendor-block encoding: explicit vendor domain, logo and label, with
/// the destination inside a parallel nested block.
pub open spec fn spec_fulfillment_vendor_block(items: Seq<JsonValue>) -> Result<SpecFulfillmentIntegration, ShapeError> {
    if items.len() < 5 {
        Err(ShapeError)
    } else {
        match vget(items[2], 0) {
            Some(head) => match vget(head, 0) {
                Some(vendor_block) => match vendor_block {
                    JsonValue::Arr(vendor) => match spec_text_at(vendor@, 0) {
                        Some(domain) => {
                            let logo = vget(vendor_block, 2);
                            match vget(head, 1) {
                                Some(mid) => match vget(mid, 2) {
                                    Some(fb) => match fb {
                                        JsonValue::Arr(fulfillment) => match spec_text_at(fulfillment@, 0) {
                                            Some(destination_url) => Ok(SpecFulfillmentIntegration {
                                                vendor_domain: domain@,
                                                vendor_logo_url: match logo {
                                                    Some(lv) => spec_text_elem(lv, 0),
                                                    None => None,
                                                },
                                                vendor_label: match logo {
                                                    Some(lv) => spec_text_elem(lv, 1),
                                                    None => None,
                                                },
                                                vendor_logo_size: match logo {
                                                    Some(lv) => match vget(lv, 2) {
                                                        Some(xy) => spec_uint_pair(xy),
                                                        None => None,
                                                    },
                                                    None => None,
                                                },
                                                destination_url,
                                                tracking_info: match vget(fb, 1) {
                                                    Some(tv) => spec_text_elem(tv, 4),
                                                    None => None,
                                                },
                                                tag: spec_uint_at(items, 4),
                                            }),
                                            None => Err(ShapeError),
                                        },
                                        _ => Err(ShapeError),
                                    },
                                    None => Err(ShapeError),
                                },
                                None => Err(ShapeError),
                            }
                        },
                        None => Err(ShapeError),
                    },
                    _ => Err(ShapeError),
                },
                None => Err(ShapeError),
            },
            None => Err(ShapeError),
        }
    }
}

/// The platform-managed encoding: the platform itself is the vendor, and the
/// destination sits at a different offset inside the payload at slot 5.
pub open spec fn spec_fulfillment_platform_managed(items: Seq<JsonValue>) -> Result<SpecFulfillmentIntegration, ShapeError> {
    match spec_arr_at(items, 5) {
        Some(payload) => match vget_chain_text(payload) {
            Some(destination_url) => Ok(SpecFulfillmentIntegration {
                vendor_domain: "google.com"@,
                vendor_logo_url: None,
                vendor_label: spec_text_at(payload, 0),
                vendor_logo_size: None,
                destination_url,
                tracking_info: spec_text_at(payload, 12),
                tag: spec_uint_at(items, 4),
            }),
            None => Err(ShapeError),
        },
        None => Err(ShapeError),
    }
}

/// The destination URL of the platform-managed payload: `payload[1][2][0]`.
pub open spec fn vget_chain_text(payload: Seq<JsonValue>) -> Option<String> {
    if payload.len() > 1 {
        match vget(payload[1], 2) {
            Some(x) => spec_text_elem(x, 0),
            None => None,
        }
    } else {
        None
    }
}

/// The fulfillment integration decode: the encoding is chosen structurally by
/// whether slot 2 is itself an array (the vendor-block path) or not (the
/// platform-managed path).
pub open spec fn spec_decode_fulfillment(v: JsonValue) -> Result<SpecFulfillmentIntegration, ShapeError> {
    match v {
        JsonValue::Arr(items) => {
            if 2 < items@.len() && items@[2] is Arr {
                spec_fulfillment_vendor_block(items@)
            } else {
                spec_fulfillment_platform_managed(items@)
            }
        },
        _ => Err(ShapeError),
    }
}

pub fn decode_fulfillment(v: &JsonValue) -> (r: Result<FulfillmentIntegration, ShapeError>)
    ensures
        match (r, spec_decode_fulfillment(*v)) {
            (Ok(f), Ok(s)) => fulfillment_dv(f) == s,
            (Err(e1), Err(e2)) => e1 == e2,
            _ => false,
        },
{
    let items = match v.as_array() {
        Some(items) => items,
        None => {
            return Err(ShapeError);
        }
    };
    let vendor_path = if 2 < items.len() {
        items[2].is_array()
    } else {
        false
    };
    if vendor_path {
        decode_fulfillment_vendor_block(items)
    } else {
        decode_fulfillment_platform_managed(items)
    }
}

fn decode_fulfillment_vendor_block(items: &Vec<JsonValue>) -> (r: Result<FulfillmentIntegration, ShapeError>)
    ensures
        match (r, spec_fulfillment_vendor_block(items@)) {
            (Ok(f), Ok(s)) => fulfillment_dv(f) == s,
            (Err(e1), Err(e2)) => e1 == e2,
            _ => false,
        },
{
    if items.len() < 5 {
        return Err(ShapeError);
    }
    let head = match value_get(&items[2], 0) {
        Some(head) => head,
        None => {
            return Err(ShapeError);
        }
    };
    let vendor_block = match value_get(head, 0) {
        Some(vb) => vb,
        None => {
            return Err(ShapeError);
        }
    };
    let vendor = match vendor_block.as_array() {
        Some(vendor) => vendor,
        None => {
            return Err(ShapeError);
        }
    };
    let vendor_domain = match get_text_at(vendor, 0) {
        Some(domain) => domain,
        None => {
            return Err(ShapeError);
        }
    };
    let mut vendor_logo_url: Option<String> = None;
    let mut vendor_label: Option<String> = None;
    let mut vendor_logo_size: Option<(u64, u64)> = None;
    match value_get(vendor_block, 2) {
        Some(lv) => {
            vendor_logo_url = text_elem(lv, 0);
            vendor_label = text_elem(lv, 1);
            vendor_logo_size = match value_get(lv, 2) {
                Some(xy) => uint_pair(xy),
                None => None,
            };
        }
        None => {}
    }
    let mid = match value_get(head, 1) {
        Some(mid) => mid,
        None => {
            return Err(ShapeError);
        }
    };
    let fb = match value_get(mid, 2) {
        Some(fb) => fb,
        None => {
            return Err(ShapeError);
        }
    };
    let fulfillment = match fb.as_array() {
        Some(fulfillment) => fulfillment,
        None => {
            return Err(ShapeError);
        }
    };
    let destination_url = match get_text_at(fulfillment, 0) {
        Some(destination_url) => destination_url,
        None => {
            return Err(ShapeError);
        }
    };
    let tracking_info = match value_get(fb, 1) {
        Some(tv) => text_elem(tv, 4),
        None => None,
    };
    Ok(FulfillmentIntegration {
        vendor_domain,
        vendor_logo_url,
        vendor_label,
        vendor_logo_size,
        destination_url,
        tracking_info,
        tag: get_uint_at(items, 4),
    })
}

fn decode_fulfillment_platform_managed(items: &Vec<JsonValue>) -> (r: Result<FulfillmentIntegration, ShapeError>)
    ensures
        match (r, spec_fulfillment_platform_managed(items@)) {
            (Ok(f), Ok(s)) => fulfillment_dv(f) == s,
            (Err(e1), Err(e2)) => e1 == e2,
            _ => false,
        },
{
    let payload = match crate::decode::get_arr_at(items, 5) {
        Some(payload) => payload,
        None => {
            return Err(ShapeError);
        }
    };
    let destination_url = if payload.len() > 1 {
        match value_get(&payload[1], 2) {
            Some(x) => text_elem(x, 0),
            None => None,
        }
    } else {
        None
    };
    let destination_url = match destination_url {
        Some(destination_url) => destination_url,
        None => {
            return Err(ShapeError);
        }
    };
    Ok(FulfillmentIntegration {
        vendor_domain: String::from_str("google.com"),
        vendor_logo_url: None,
        vendor_label: get_text_at(payload, 0),
        vendor_logo_size: None,
        destination_url,
        tracking_info: get_text_at(payload, 12),
        tag: get_uint_at(items, 4),
    })
}

// ————————————————————————————————————————————————————————————————————————
// Geo-containment hierarchy (listing index 245)
// ————————————————————————————————————————————————————————————————————————

/// Alternate names of a region: the first element of each name entry that is
/// an array headed by a string; malformed entries are dropped.
pub open spec fn spec_region_names(items: Seq<JsonValue>) -> Seq<String>
    decreases items.len(),
{
    if items.len() == 0 {
        Seq::empty()
    } else {
        let rest = spec_region_names(items.drop_last());
        match items.last() {
            JsonValue::Arr(inner) => match spec_text_at(inner@, 0) {
                Some(s) => rest.push(s),
                None => rest,
            },
            _ => rest,
        }
    }
}

fn region_names(items: &Vec<JsonValue>) -> (r: Vec<String>)
    ensures
        r@ == spec_region_names(items@),
{
    let mut out: Vec<String> = Vec::new();
    let mut i: usize = 0;
    while i < items.len()
        invariant
            i <= items.len(),
            out@ == spec_region_names(items@.take(i as int)),
        decreases items@.len() - i,
    {
        proof {
            assert(items@.take(i + 1 as int).drop_last() =~= items@.take(i as int));
            assert(items@.take(i + 1 as int).last() == items@[i as int]);
        }
        match &items[i] {
            JsonValue::Arr(inner) => {
                match get_text_at(inner, 0) {
                    Some(s) => {
                        out.push(s);
                    }
                    None => {}
                }
            }
            _ => {}
        }
        i = i + 1;
    }
    assert(items@.take(items@.len() as int) =~= items@);
    out
}

/// One region entry: a required 2-part id, a required confidence number and
/// a required names array.
pub open spec fn spec_decode_region(v: JsonValue) -> Result<SpecRegionClassification, ShapeError> {
    match v {
        JsonValue::Arr(entry) => match spec_arr_at(entry@, 0) {
            Some(id_pair) => match spec_text_at(id_pair, 0) {
                Some(id1) => match spec_text_at(id_pair, 1) {
                    Some(id2) => match spec_num_at(entry@, 1) {
                        Some(confidence) => match spec_arr_at(entry@, 2) {
                            Some(names) => Ok(SpecRegionClassification {
                                region_id: (id1, id2),
                                confidence,
                                names: spec_region_names(names),
                            }),
                            None => Err(ShapeError),
                        },
                        None => Err(ShapeError),
                    },
                    None => Err(ShapeError),
                },
                None => Err(ShapeError),
            },
            None => Err(ShapeError),
        },
        _ => Err(ShapeError),
    }
}

fn decode_region(v: &JsonValue) -> (r: Result<RegionClassification, ShapeError>)
    ensures
        match (r, spec_decode_region(*v)) {
            (Ok(x), Ok(s)) => region_classification_dv(x) == s,
            (Err(e1), Err(e2)) => e1 == e2,
            _ => false,
        },
{
    let entry = match v.as_array() {
        Some(entry) => entry,
        None => {
            return Err(ShapeError);
        }
    };
    let id_pair = match crate::decode::get_arr_at(entry, 0) {
        Some(id_pair) => id_pair,
        None => {
            return Err(ShapeError);
        }
    };
    let id1 = match get_text_at(id_pair, 0) {
        Some(id1) => id1,
        None => {
            return Err(ShapeError);
        }
    };
    let id2 = match get_text_at(id_pair, 1) {
        Some(id2) => id2,
        None => {
            return Err(ShapeError);
        }
    };
    let confidence = match get_num_at(entry, 1) {
        Some(confidence) => confidence,
        None => {
            return Err(ShapeError);
        }
    };
    let names_arr = match crate::decode::get_arr_at(entry, 2) {
        Some(names_arr) => names_arr,
        None => {
            return Err(ShapeError);
        }
    };
    Ok(RegionClassification { region_id: (id1, id2), confidence, names: region_names(names_arr) })
}

/// The geo-containment hierarchy: an outer singleton wrapper holding the list
/// of region entries, each of which must decode.
pub open spec fn spec_parse_geo_containment_hierarchy(v: JsonValue) -> Result<Seq<SpecRegionClassification>, ShapeError> {
    match v {
        JsonValue::Arr(outer) => match spec_arr_at(outer@, 0) {
            Some(inner) => {
                if forall|i: int| 0 <= i < inner.len() ==> spec_decode_region(#[trigger] inner[i]) is Ok {
                    Ok(Seq::new(inner.len(), |i: int| spec_decode_region(inner[i])->Ok_0))
                } else {
                    Err(ShapeError)
                }
            },
            None => Err(ShapeError),
        },
        _ => Err(ShapeError),
    }
}

pub fn parse_geo_containment_hierarchy(v: &JsonValue) -> (r: Result<GeoContainmentHierarchy, ShapeError>)
    ensures
        match (r, spec_parse_geo_containment_hierarchy(*v)) {
            (Ok(h), Ok(s)) => geo_containment_hierarchy_dv(h).regions == s,
            (Err(e1), Err(e2)) => e1 == e2,
            _ => false,
        },
{
    let outer = match v.as_array() {
        Some(outer) => outer,
        None => {
            return Err(ShapeError);
        }
    };
    let inner = match crate::decode::get_arr_at(outer, 0) {
        Some(inner) => inner,
        None => {
            return Err(ShapeError);
        }
    };
    let mut regions: Vec<RegionClassification> = Vec::new();
    let mut i: usize = 0;
    while i < inner.len()
        invariant
            i <= inner.len(),
            regions@.len() == i as int,
            forall|j: int| 0 <= j < i ==> spec_decode_region(#[trigger] inner@[j]) is Ok,
            forall|j: int| 0 <= j < i
                ==> region_classification_dv(#[trigger] regions@[j]) == spec_decode_region(inner@[j])->Ok_0,
        decreases inner@.len() - i,
    {
        match decode_region(&inner[i]) {
            Ok(x) => {
                regions.push(x);
            }
            Err(e) => {
                return Err(e);
            }
        }
        i = i + 1;
    }
    let h = GeoContainmentHierarchy { regions };
    proof {
        assert(geo_containment_hierarchy_dv(h).regions =~= Seq::new(
            inner@.len(),
            |i: int| spec_decode_region(inner@[i])->Ok_0,
        ));
    }
    Ok(h)
}

} // verus!
