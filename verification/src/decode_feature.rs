//! Sub-decoders for the feature-set payload (listing index 100) and the
//! simplified raw category extraction.
//!
//! Malformed features, categories and tags inside the lists are dropped, as
//! the lists are tolerant; only a non-array at the top is a shape mismatch.
use vstd::prelude::*;
use crate::json::{jget, JsonValue};
use crate::decode::{
    ShapeError, vget, value_get, spec_text_at, get_text_at, spec_int_at, get_int_at,
    spec_arr_at, get_arr_at,
};
use crate::model::{
    ConfidenceTag, Feature, FeatureCategory, FeatureConfidence, FeatureSet, FeatureSetRaw,
    SpecFeature, SpecFeatureCategory, SpecFeatureConfidence, SpecFeatureSet,
    feature_category_dv, feature_confidence_dv, feature_dv, feature_set_dv,
};

verus! {

// ————————————————————————————————————————————————————————————————————————
// Confidence tags
// ————————————————————————————————————————————————————————————————————————

/// One display tag: a required score and label.
pub open spec fn spec_decode_tag(v: JsonValue) -> Option<ConfidenceTag> {
    match v {
        JsonValue::Arr(items) => match spec_int_at(items@, 0) {
            Some(score) => match spec_text_at(items@, 1) {
                Some(label) => Some(ConfidenceTag { score, label }),
                None => None,
            },
            None => None,
        },
        _ => None,
    }
}

pub fn decode_tag(v: &JsonValue) -> (r: Option<ConfidenceTag>)
    ensures
        r == spec_decode_tag(*v),
{
    let items = match v.as_array() {
        Some(items) => items,
        None => {
            return None;
        }
    };
    match get_int_at(items, 0) {
        Some(score) => match get_text_at(items, 1) {
            Some(label) => Some(ConfidenceTag { score, label }),
            None => None,
        },
        None => None,
    }
}

/// The decodable tags of a list, in order.
pub open spec fn spec_tags(items: Seq<JsonValue>) -> Seq<ConfidenceTag>
    decreases items.len(),
{
    if items.len() == 0 {
        Seq::empty()
    } else {
        let rest = spec_tags(items.drop_last());
        match spec_decode_tag(items.last()) {
            Some(t) => rest.push(t),
            None => rest,
        }
    }
}

fn decode_tags(items: &Vec<JsonValue>) -> (r: Vec<ConfidenceTag>)
    ensures
        r@ == spec_tags(items@),
{
    let mut out: Vec<ConfidenceTag> = Vec::new();
    let mut i: usize = 0;
    while i < items.len()
        invariant
            i <= items.len(),
            out@ == spec_tags(items@.take(i as int)),
        decreases items@.len() - i,
    {
        proof {
            assert(items@.take(i + 1 as int).drop_last() =~= items@.take(i as int));
            assert(items@.take(i + 1 as int).last() == items@[i as int]);
        }
        match decode_tag(&items[i]) {
            Some(t) => {
                out.push(t);
            }
            None => {}
        }
        i = i + 1;
    }
    assert(items@.take(items@.len() as int) =~= items@);
    out
}

/// The confidence block: a required score, a required tag list.
pub open spec fn spec_decode_confidence(v: JsonValue) -> Option<SpecFeatureConfidence> {
    match v {
        JsonValue::Arr(items) => match spec_int_at(items@, 0) {
            Some(score) => match spec_arr_at(items@, 1) {
                Some(tags) => Some(SpecFeatureConfidence { score, tags: spec_tags(tags) }),
                None => None,
            },
            None => None,
        },
        _ => None,
    }
}

pub fn decode_confidence(v: &JsonValue) -> (r: Option<FeatureConfidence>)
    ensures
        match (r, spec_decode_confidence(*v)) {
            (Some(c), Some(s)) => feature_confidence_dv(c) == s,
            (None, None) => true,
            _ => false,
        },
{
    let items = match v.as_array() {
        Some(items) => items,
        None => {
            return None;
        }
    };
    let score = match get_int_at(items, 0) {
        Some(score) => score,
        None => {
            return None;
        }
    };
    let tags_raw = match get_arr_at(items, 1) {
        Some(tags_raw) => tags_raw,
        None => {
            return None;
        }
    };
    Some(FeatureConfidence { score, tags: decode_tags(tags_raw) })
}

// ————————————————————————————————————————————————————————————————————————
// Weights
// ————————————————————————————————————————————————————————————————————————

/// The integer elements of a list, in order; other elements are dropped.
pub open spec fn spec_weights(items: Seq<JsonValue>) -> Seq<i64>
    decreases items.len(),
{
    if items.len() == 0 {
        Seq::empty()
    } else {
        let rest = spec_weights(items.drop_last());
        match items.last() {
            JsonValue::Num(n) => match n.spec_as_int() {
                Some(i) => rest.push(i),
                None => rest,
            },
            _ => rest,
        }
    }
}

fn decode_weights(items: &Vec<JsonValue>) -> (r: Vec<i64>)
    ensures
        r@ == spec_weights(items@),
{
    let mut out: Vec<i64> = Vec::new();
    let mut i: usize = 0;
    while i < items.len()
        invariant
            i <= items.len(),
            out@ == spec_weights(items@.take(i as int)),
        decreases items@.len() - i,
    {
        proof {
            assert(items@.take(i + 1 as int).drop_last() =~= items@.take(i as int));
            assert(items@.take(i + 1 as int).last() == items@[i as int]);
        }
        match &items[i] {
            JsonValue::Num(n) => match n.as_int() {
                Some(w) => {
                    out.push(w);
                }
                None => {}
            },
            _ => {}
        }
        i = i + 1;
    }
    assert(items@.take(items@.len() as int) =~= items@);
    out
}

// ————————————————————————————————————————————————————————————————————————
// Features, canonical variant
// ————————————————————————————————————————————————————————————————————————

/// One feature of the canonical lists: id and label required, six slots
/// required to exist, the rest tolerant.
pub open spec fn spec_decode_feature(v: JsonValue) -> Option<SpecFeature> {
    match v {
        JsonValue::Arr(items) => {
            if items@.len() < 6 {
                None
            } else {
                match spec_text_at(items@, 0) {
                    Some(id) => match spec_text_at(items@, 1) {
                        Some(label) => Some(SpecFeature {
                            id,
                            label,
                            confidence: match jget(items@, 2) {
                                Some(c) => spec_decode_confidence(c),
                                None => None,
                            },
                            metadata_flag: spec_int_at(items@, 3),
                            weights: match spec_arr_at(items@, 4) {
                                Some(w) => Some(spec_weights(w)),
                                None => None,
                            },
                            present_flag: spec_int_at(items@, 5),
                        }),
                        None => None,
                    },
                    None => None,
                }
            }
        },
        _ => None,
    }
}

pub fn decode_feature(v: &JsonValue) -> (r: Option<Feature>)
    ensures
        match (r, spec_decode_feature(*v)) {
            (Some(f), Some(s)) => feature_dv(f) == s,
            (None, None) => true,
            _ => false,
        },
{
    let items = match v.as_array() {
        Some(items) => items,
        None => {
            return None;
        }
    };
    if items.len() < 6 {
        return None;
    }
    let id = match get_text_at(items, 0) {
        Some(id) => id,
        None => {
            return None;
        }
    };
    let label = match get_text_at(items, 1) {
        Some(label) => label,
        None => {
            return None;
        }
    };
    let confidence = match crate::json::get_element(items, 2) {
        Some(c) => decode_confidence(c),
        None => None,
    };
    let weights = match get_arr_at(items, 4) {
        Some(w) => Some(decode_weights(w)),
        None => None,
    };
    Some(Feature {
        id,
        label,
        confidence,
        metadata_flag: get_int_at(items, 3),
        weights,
        present_flag: get_int_at(items, 5),
    })
}

/// The decodable features of a list, in order.
pub open spec fn spec_features(items: Seq<JsonValue>) -> Seq<SpecFeature>
    decreases items.len(),
{
    if items.len() == 0 {
        Seq::empty()
    } else {
        let rest = spec_features(items.drop_last());
        match spec_decode_feature(items.last()) {
            Some(f) => rest.push(f),
            None => rest,
        }
    }
}

fn decode_features(items: &Vec<JsonValue>) -> (r: Vec<Feature>)
    ensures
        r@.map_values(|f: Feature| feature_dv(f)) == spec_features(items@),
{
    let mut out: Vec<Feature> = Vec::new();
    let mut i: usize = 0;
    while i < items.len()
        invariant
            i <= items.len(),
            out@.map_values(|f: Feature| feature_dv(f)) == spec_features(items@.take(i as int)),
        decreases items@.len() - i,
    {
        proof {
            assert(items@.take(i + 1 as int).drop_last() =~= items@.take(i as int));
            assert(items@.take(i + 1 as int).last() == items@[i as int]);
        }
        match decode_feature(&items[i]) {
            Some(f) => {
                let ghost prev = out@;
                out.push(f);
                proof {
                    assert(out@.map_values(|f: Feature| feature_dv(f)) =~= prev.map_values(
                        |f: Feature| feature_dv(f),
                    ).push(feature_dv(f)));
                }
            }
            None => {}
        }
        i = i + 1;
    }
    assert(items@.take(items@.len() as int) =~= items@);
    out
}

/// One category of the grouped section: slug, display name and feature list
/// all required.
pub open spec fn spec_decode_feature_category(v: JsonValue) -> Option<SpecFeatureCategory> {
    match v {
        JsonValue::Arr(items) => match spec_text_at(items@, 0) {
            Some(slug) => match spec_text_at(items@, 1) {
                Some(display_name) => match spec_arr_at(items@, 2) {
                    Some(fs) => Some(SpecFeatureCategory {
                        slug,
                        display_name,
                        features: spec_features(fs),
                    }),
                    None => None,
                },
                None => None,
            },
            None => None,
        },
        _ => None,
    }
}

pub fn decode_feature_category(v: &JsonValue) -> (r: Option<FeatureCategory>)
    ensures
        match (r, spec_decode_feature_category(*v)) {
            (Some(c), Some(s)) => feature_category_dv(c) == s,
            (None, None) => true,
            _ => false,
        },
{
    let items = match v.as_array() {
        Some(items) => items,
        None => {
            return None;
        }
    };
    let slug = match get_text_at(items, 0) {
        Some(slug) => slug,
        None => {
            return None;
        }
    };
    let display_name = match get_text_at(items, 1) {
        Some(display_name) => display_name,
        None => {
            return None;
        }
    };
    let fs = match get_arr_at(items, 2) {
        Some(fs) => fs,
        None => {
            return None;
        }
    };
    Some(FeatureCategory { slug, display_name, features: decode_features(fs) })
}

/// The decodable categories of a list, in order.
pub open spec fn spec_feature_categories(items: Seq<JsonValue>) -> Seq<SpecFeatureCategory>
    decreases items.len(),
{
    if items.len() == 0 {
        Seq::empty()
    } else {
        let rest = spec_feature_categories(items.drop_last());
        match spec_decode_feature_category(items.last()) {
            Some(c) => rest.push(c),
            None => rest,
        }
    }
}

fn decode_feature_categories(items: &Vec<JsonValue>) -> (r: Vec<FeatureCategory>)
    ensures
        r@.map_values(|c: FeatureCategory| feature_category_dv(c)) == spec_feature_categories(items@),
{
    let mut out: Vec<FeatureCategory> = Vec::new();
    let mut i: usize = 0;
    while i < items.len()
        invariant
            i <= items.len(),
            out@.map_values(|c: FeatureCategory| feature_category_dv(c)) == spec_feature_categories(
                items@.take(i as int),
            ),
        decreases items@.len() - i,
    {
        proof {
            assert(items@.take(i + 1 as int).drop_last() =~= items@.take(i as int));
            assert(items@.take(i + 1 as int).last() == items@[i as int]);
        }
        match decode_feature_category(&items[i]) {
            Some(c) => {
                let ghost prev = out@;
                out.push(c);
                proof {
                    assert(out@.map_values(|c: FeatureCategory| feature_category_dv(c))
                        =~= prev.map_values(|c: FeatureCategory| feature_category_dv(c)).push(
                        feature_category_dv(c),
                    ));
                }
            }
            None => {}
        }
        i = i + 1;
    }
    assert(items@.take(items@.len() as int) =~= items@);
    out
}

// ————————————————————————————————————————————————————————————————————————
// The feature set
// ————————————————————————————————————————————————————————————————————————

/// The feature list behind slot `i`, when that slot holds an array.
pub open spec fn spec_feature_list_at(items: Seq<JsonValue>, i: int) -> Option<Seq<SpecFeature>> {
    match spec_arr_at(items, i) {
        Some(fs) => Some(spec_features(fs)),
        None => None,
    }
}

/// The category list behind slot `i`, when that slot holds an array.
pub open spec fn spec_category_list_at(items: Seq<JsonValue>, i: int) -> Option<Seq<SpecFeatureCategory>> {
    match spec_arr_at(items, i) {
        Some(cs) => Some(spec_feature_categories(cs)),
        None => None,
    }
}

/// The four-section feature set: sections 0 and 1 default to empty when
/// absent, the two tail sections stay optional.  Only a non-array payload is
/// a shape mismatch.
pub open spec fn spec_decode_feature_set(v: JsonValue) -> Result<SpecFeatureSet, ShapeError> {
    match v {
        JsonValue::Arr(items) => Ok(SpecFeatureSet {
            primary: match spec_feature_list_at(items@, 0) {
                Some(fs) => fs,
                None => Seq::empty(),
            },
            grouped: match spec_category_list_at(items@, 1) {
                Some(cs) => cs,
                None => Seq::empty(),
            },
            extra: spec_feature_list_at(items@, 2),
            grouped_tail: spec_category_list_at(items@, 3),
        }),
        _ => Err(ShapeError),
    }
}

pub fn decode_feature_set(v: &JsonValue) -> (r: Result<FeatureSet, ShapeError>)
    ensures
        match (r, spec_decode_feature_set(*v)) {
            (Ok(s), Ok(sv)) => feature_set_dv(s) == sv,
            (Err(e1), Err(e2)) => e1 == e2,
            _ => false,
        },
{
    let items = match v.as_array() {
        Some(items) => items,
        None => {
            return Err(ShapeError);
        }
    };
    let primary = match get_arr_at(items, 0) {
        Some(fs) => decode_features(fs),
        None => Vec::new(),
    };
    let grouped = match get_arr_at(items, 1) {
        Some(cs) => decode_feature_categories(cs),
        None => Vec::new(),
    };
    let extra = match get_arr_at(items, 2) {
        Some(fs) => Some(decode_features(fs)),
        None => None,
    };
    let grouped_tail = match get_arr_at(items, 3) {
        Some(cs) => Some(decode_feature_categories(cs)),
        None => None,
    };
    let s = FeatureSet { primary, grouped, extra, grouped_tail };
    proof {
        let sv = spec_decode_feature_set(*v)->Ok_0;
        assert(feature_set_dv(s).primary =~= sv.primary);
        assert(feature_set_dv(s).grouped =~= sv.grouped);
        match (feature_set_dv(s).extra, sv.extra) {
            (Some(a), Some(b)) => {
                assert(a =~= b);
            }
            _ => {}
        }
        match (feature_set_dv(s).grouped_tail, sv.grouped_tail) {
            (Some(a), Some(b)) => {
                assert(a =~= b);
            }
            _ => {}
        }
    }
    Ok(s)
}

// ————————————————————————————————————————————————————————————————————————
// The raw extraction variant
// ————————————————————————————————————————————————————————————————————————

/// One feature of the raw extraction lists.  This older variant requires the
/// weights slot to be an array and tolerates missing flag slots.
pub open spec fn spec_decode_feature_raw(v: JsonValue) -> Option<SpecFeature> {
    match v {
        JsonValue::Arr(items) => match spec_text_at(items@, 0) {
            Some(id) => match spec_text_at(items@, 1) {
                Some(label) => match spec_arr_at(items@, 4) {
                    Some(w) => Some(SpecFeature {
                        id,
                        label,
                        confidence: match jget(items@, 2) {
                            Some(c) => spec_decode_confidence(c),
                            None => None,
                        },
                        metadata_flag: spec_int_at(items@, 3),
                        weights: Some(spec_weights(w)),
                        present_flag: spec_int_at(items@, 5),
                    }),
                    None => None,
                },
                None => None,
            },
            None => None,
        },
        _ => None,
    }
}

pub fn decode_feature_raw(v: &JsonValue) -> (r: Option<Feature>)
    ensures
        match (r, spec_decode_feature_raw(*v)) {
            (Some(f), Some(s)) => feature_dv(f) == s,
            (None, None) => true,
            _ => false,
        },
{
    let items = match v.as_array() {
        Some(items) => items,
        None => {
            return None;
        }
    };
    let id = match get_text_at(items, 0) {
        Some(id) => id,
        None => {
            return None;
        }
    };
    let label = match get_text_at(items, 1) {
        Some(label) => label,
        None => {
            return None;
        }
    };
    let w = match get_arr_at(items, 4) {
        Some(w) => decode_weights(w),
        None => {
            return None;
        }
    };
    let confidence = match crate::json::get_element(items, 2) {
        Some(c) => decode_confidence(c),
        None => None,
    };
    Some(Feature {
        id,
        label,
        confidence,
        metadata_flag: get_int_at(items, 3),
        weights: Some(w),
        present_flag: get_int_at(items, 5),
    })
}

/// The decodable raw-variant features of a list, in order.
pub open spec fn spec_features_raw(items: Seq<JsonValue>) -> Seq<SpecFeature>
    decreases items.len(),
{
    if items.len() == 0 {
        Seq::empty()
    } else {
        let rest = spec_features_raw(items.drop_last());
        match spec_decode_feature_raw(items.last()) {
            Some(f) => rest.push(f),
            None => rest,
        }
    }
}

fn decode_features_raw(items: &Vec<JsonValue>) -> (r: Vec<Feature>)
    ensures
        r@.map_values(|f: Feature| feature_dv(f)) == spec_features_raw(items@),
{
    let mut out: Vec<Feature> = Vec::new();
    let mut i: usize = 0;
    while i < items.len()
        invariant
            i <= items.len(),
            out@.map_values(|f: Feature| feature_dv(f)) == spec_features_raw(items@.take(i as int)),
        decreases items@.len() - i,
    {
        proof {
            assert(items@.take(i + 1 as int).drop_last() =~= items@.take(i as int));
            assert(items@.take(i + 1 as int).last() == items@[i as int]);
        }
        match decode_feature_raw(&items[i]) {
            Some(f) => {
                let ghost prev = out@;
                out.push(f);
                proof {
                    assert(out@.map_values(|f: Feature| feature_dv(f)) =~= prev.map_values(
                        |f: Feature| feature_dv(f),
                    ).push(feature_dv(f)));
                }
            }
            None => {}
        }
        i = i + 1;
    }
    assert(items@.take(items@.len() as int) =~= items@);
    out
}

/// One raw-extraction category: like the canonical one but over the raw
/// feature variant.
pub open spec fn spec_decode_feature_category_raw(v: JsonValue) -> Option<SpecFeatureCategory> {
    match v {
        JsonValue::Arr(items) => match spec_text_at(items@, 0) {
            Some(slug) => match spec_text_at(items@, 1) {
                Some(display_name) => match spec_arr_at(items@, 2) {
                    Some(fs) => Some(SpecFeatureCategory {
                        slug,
                        display_name,
                        features: spec_features_raw(fs),
                    }),
                    None => None,
                },
                None => None,
            },
            None => None,
        },
        _ => None,
    }
}

fn decode_feature_category_raw(v: &JsonValue) -> (r: Option<FeatureCategory>)
    ensures
        match (r, spec_decode_feature_category_raw(*v)) {
            (Some(c), Some(s)) => feature_category_dv(c) == s,
            (None, None) => true,
            _ => false,
        },
{
    let items = match v.as_array() {
        Some(items) => items,
        None => {
            return None;
        }
    };
    let slug = match get_text_at(items, 0) {
        Some(slug) => slug,
        None => {
            return None;
        }
    };
    let display_name = match get_text_at(items, 1) {
        Some(display_name) => display_name,
        None => {
            return None;
        }
    };
    let fs = match get_arr_at(items, 2) {
        Some(fs) => fs,
        None => {
            return None;
        }
    };
    Some(FeatureCategory { slug, display_name, features: decode_features_raw(fs) })
}

/// The decodable raw-extraction categories of a list, in order.
pub open spec fn spec_feature_categories_raw(items: Seq<JsonValue>) -> Seq<SpecFeatureCategory>
    decreases items.len(),
{
    if items.len() == 0 {
        Seq::empty()
    } else {
        let rest = spec_feature_categories_raw(items.drop_last());
        match spec_decode_feature_category_raw(items.last()) {
            Some(c) => rest.push(c),
            None => rest,
        }
    }
}

/// The raw category extraction: the category list sits at slot 1 and is
/// required.
pub open spec fn spec_decode_feature_set_raw(v: JsonValue) -> Result<Seq<SpecFeatureCategory>, ShapeError> {
    match vget(v, 1) {
        Some(slot) => match slot {
            JsonValue::Arr(cs) => Ok(spec_feature_categories_raw(cs@)),
            _ => Err(ShapeError),
        },
        None => Err(ShapeError),
    }
}

pub fn decode_feature_set_raw(v: &JsonValue) -> (r: Result<FeatureSetRaw, ShapeError>)
    ensures
        match (r, spec_decode_feature_set_raw(*v)) {
            (Ok(s), Ok(sv)) => s.categories@.map_values(|c: FeatureCategory| feature_category_dv(c))
                == sv,
            (Err(e1), Err(e2)) => e1 == e2,
            _ => false,
        },
{
    let slot = match value_get(v, 1) {
        Some(slot) => slot,
        None => {
            return Err(ShapeError);
        }
    };
    let cs = match slot.as_array() {
        Some(cs) => cs,
        None => {
            return Err(ShapeError);
        }
    };
    let mut out: Vec<FeatureCategory> = Vec::new();
    let mut i: usize = 0;
    while i < cs.len()
        invariant
            i <= cs.len(),
            out@.map_values(|c: FeatureCategory| feature_category_dv(c))
                == spec_feature_categories_raw(cs@.take(i as int)),
        decreases cs@.len() - i,
    {
        proof {
            assert(cs@.take(i + 1 as int).drop_last() =~= cs@.take(i as int));
            assert(cs@.take(i + 1 as int).last() == cs@[i as int]);
        }
        match decode_feature_category_raw(&cs[i]) {
            Some(c) => {
                let ghost prev = out@;
                out.push(c);
                proof {
                    assert(out@.map_values(|c: FeatureCategory| feature_category_dv(c))
                        =~= prev.map_values(|c: FeatureCategory| feature_category_dv(c)).push(
                        feature_category_dv(c),
                    ));
                }
            }
            None => {}
        }
        i = i + 1;
    }
    assert(cs@.take(cs@.len() as int) =~= cs@);
    Ok(FeatureSetRaw { categories: out })
}

} // verus!
