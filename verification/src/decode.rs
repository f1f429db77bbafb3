//! Field-access primitives shared by the sub-decoders, and the sub-decoders
//! for the scalar-shaped blocks of a listing.
//!
//! Every sub-decoder is a pure function from a raw [`JsonValue`] to a typed
//! result; its contract equates the outcome with a spec function of the input,
//! so decoding is deterministic by construction.
use vstd::prelude::*;
use crate::json::{jget, get_element, JsonNumber, JsonValue};
use crate::model::{
    BusinessCategory, BusinessCategoryVector, BusinessWebsiteLinks, GeoPoint, ReviewSummaryBlock,
};

verus! {

/// A raw element did not have the expected type or length at a position
/// previously observed as stable.
#[derive(Debug, Clone, Copy, PartialEq, Eq)]
pub struct ShapeError;

// ————————————————————————————————————————————————————————————————————————
// Access primitives
// ————————————————————————————————————————————————————————————————————————

/// Element `i` of an array value, without collapsing `null`: `None` only for
/// a non-array or an index out of bounds.
pub open spec fn vget(v: JsonValue, i: int) -> Option<JsonValue> {
    match v {
        JsonValue::Arr(items) => if 0 <= i < items@.len() {
            Some(items@[i])
        } else {
            None
        },
        _ => None,
    }
}

/// Exec counterpart of [`vget`].
pub fn value_get<'a>(v: &'a JsonValue, i: usize) -> (r: Option<&'a JsonValue>)
    ensures
        match r {
            Some(x) => vget(*v, i as int) == Some(*x),
            None => vget(*v, i as int) is None,
        },
{
    match v {
        JsonValue::Arr(items) => if i < items.len() {
            Some(&items[i])
        } else {
            None
        },
        _ => None,
    }
}

/// The string at index `i`, if the element is present and a string.
pub open spec fn spec_text_at(items: Seq<JsonValue>, i: int) -> Option<String> {
    match jget(items, i) {
        Some(v) => v.spec_as_text(),
        None => None,
    }
}

pub fn get_text_at(items: &Vec<JsonValue>, i: usize) -> (r: Option<String>)
    ensures
        r == spec_text_at(items@, i as int),
{
    match get_element(items, i) {
        Some(v) => match v.as_text() {
            Some(s) => Some(s.clone()),
            None => None,
        },
        None => None,
    }
}

/// The non-negative integer at index `i`.
pub open spec fn spec_uint_at(items: Seq<JsonValue>, i: int) -> Option<u64> {
    match jget(items, i) {
        Some(v) => match v.spec_as_number() {
            Some(n) => n.spec_as_uint(),
            None => None,
        },
        None => None,
    }
}

pub fn get_uint_at(items: &Vec<JsonValue>, i: usize) -> (r: Option<u64>)
    ensures
        r == spec_uint_at(items@, i as int),
{
    match get_element(items, i) {
        Some(v) => match v.as_number() {
            Some(n) => n.as_uint(),
            None => None,
        },
        None => None,
    }
}

/// The signed integer at index `i`.
pub open spec fn spec_int_at(items: Seq<JsonValue>, i: int) -> Option<i64> {
    match jget(items, i) {
        Some(v) => match v.spec_as_number() {
            Some(n) => n.spec_as_int(),
            None => None,
        },
        None => None,
    }
}

pub fn get_int_at(items: &Vec<JsonValue>, i: usize) -> (r: Option<i64>)
    ensures
        r == spec_int_at(items@, i as int),
{
    match get_element(items, i) {
        Some(v) => match v.as_number() {
            Some(n) => n.as_int(),
            None => None,
        },
        None => None,
    }
}

/// The number at index `i`, whatever its form.
pub open spec fn spec_num_at(items: Seq<JsonValue>, i: int) -> Option<JsonNumber> {
    match jget(items, i) {
        Some(v) => v.spec_as_number(),
        None => None,
    }
}

pub fn get_num_at(items: &Vec<JsonValue>, i: usize) -> (r: Option<JsonNumber>)
    ensures
        r == spec_num_at(items@, i as int),
{
    match get_element(items, i) {
        Some(v) => match v.as_number() {
            Some(n) => Some(n.clone_num()),
            None => None,
        },
        None => None,
    }
}

/// The elements at index `i`, if that element is an array.
pub open spec fn spec_arr_at(items: Seq<JsonValue>, i: int) -> Option<Seq<JsonValue>> {
    match jget(items, i) {
        Some(v) => v.spec_as_array(),
        None => None,
    }
}

pub fn get_arr_at<'a>(items: &'a Vec<JsonValue>, i: usize) -> (r: Option<&'a Vec<JsonValue>>)
    ensures
        match r {
            Some(a) => spec_arr_at(items@, i as int) == Some(a@),
            None => spec_arr_at(items@, i as int) is None,
        },
{
    match get_element(items, i) {
        Some(v) => v.as_array(),
        None => None,
    }
}

// The same narrowings applied through [`vget`], for nested path navigation.

pub open spec fn spec_text_elem(v: JsonValue, i: int) -> Option<String> {
    match vget(v, i) {
        Some(x) => x.spec_as_text(),
        None => None,
    }
}

pub fn text_elem(v: &JsonValue, i: usize) -> (r: Option<String>)
    ensures
        r == spec_text_elem(*v, i as int),
{
    match value_get(v, i) {
        Some(x) => match x.as_text() {
            Some(s) => Some(s.clone()),
            None => None,
        },
        None => None,
    }
}

pub open spec fn spec_uint_elem(v: JsonValue, i: int) -> Option<u64> {
    match vget(v, i) {
        Some(x) => match x.spec_as_number() {
            Some(n) => n.spec_as_uint(),
            None => None,
        },
        None => None,
    }
}

pub fn uint_elem(v: &JsonValue, i: usize) -> (r: Option<u64>)
    ensures
        r == spec_uint_elem(*v, i as int),
{
    match value_get(v, i) {
        Some(x) => match x.as_number() {
            Some(n) => n.as_uint(),
            None => None,
        },
        None => None,
    }
}

pub open spec fn spec_int_elem(v: JsonValue, i: int) -> Option<i64> {
    match vget(v, i) {
        Some(x) => match x.spec_as_number() {
            Some(n) => n.spec_as_int(),
            None => None,
        },
        None => None,
    }
}

pub fn int_elem(v: &JsonValue, i: usize) -> (r: Option<i64>)
    ensures
        r == spec_int_elem(*v, i as int),
{
    match value_get(v, i) {
        Some(x) => match x.as_number() {
            Some(n) => n.as_int(),
            None => None,
        },
        None => None,
    }
}

pub open spec fn spec_num_elem(v: JsonValue, i: int) -> Option<JsonNumber> {
    match vget(v, i) {
        Some(x) => x.spec_as_number(),
        None => None,
    }
}

pub fn num_elem(v: &JsonValue, i: usize) -> (r: Option<JsonNumber>)
    ensures
        r == spec_num_elem(*v, i as int),
{
    match value_get(v, i) {
        Some(x) => match x.as_number() {
            Some(n) => Some(n.clone_num()),
            None => None,
        },
        None => None,
    }
}

/// A `(width, height)`-style pair of non-negative integers read from the
/// first two elements of an array value.
pub open spec fn spec_uint_pair(v: JsonValue) -> Option<(u64, u64)> {
    match v {
        JsonValue::Arr(_) => match spec_uint_elem(v, 0) {
            Some(a) => match spec_uint_elem(v, 1) {
                Some(b) => Some((a, b)),
                None => None,
            },
            None => None,
        },
        _ => None,
    }
}

pub fn uint_pair(v: &JsonValue) -> (r: Option<(u64, u64)>)
    ensures
        r == spec_uint_pair(*v),
{
    if !v.is_array() {
        return None;
    }
    match uint_elem(v, 0) {
        Some(a) => match uint_elem(v, 1) {
            Some(b) => Some((a, b)),
            None => None,
        },
        None => None,
    }
}

// ————————————————————————————————————————————————————————————————————————
// Reviews (listing index 4)
// ————————————————————————————————————————————————————————————————————————

/// URL, count text and tracking token from the nested 4-tuple of the reviews
/// block.  All three are absent when that slot is not an array.
pub open spec fn spec_review_links(v: JsonValue) -> (Option<String>, Option<String>, Option<String>) {
    match v {
        JsonValue::Arr(inner) => (
            spec_text_at(inner@, 0),
            spec_text_at(inner@, 1),
            spec_text_at(inner@, 3),
        ),
        _ => (None, None, None),
    }
}

/// The reviews block: rating and count at fixed offsets, link data in a
/// further-nested tuple.  Fails only when the block is not an array with at
/// least the nested slot present.
pub open spec fn spec_decode_reviews(v: JsonValue) -> Result<ReviewSummaryBlock, ShapeError> {
    match v {
        JsonValue::Arr(items) => if items@.len() <= 3 {
            Err(ShapeError)
        } else {
            let links = spec_review_links(items@[3]);
            Ok(ReviewSummaryBlock {
                reviews_url: links.0,
                reviews_text: links.1,
                tracking_token: links.2,
                average_rating: spec_num_at(items@, 7),
                review_count: spec_uint_at(items@, 8),
            })
        },
        _ => Err(ShapeError),
    }
}

pub fn decode_reviews(v: &JsonValue) -> (r: Result<ReviewSummaryBlock, ShapeError>)
    ensures
        r == spec_decode_reviews(*v),
{
    let items = match v.as_array() {
        Some(items) => items,
        None => {
            return Err(ShapeError);
        }
    };
    if items.len() <= 3 {
        return Err(ShapeError);
    }
    let mut reviews_url: Option<String> = None;
    let mut reviews_text: Option<String> = None;
    let mut tracking_token: Option<String> = None;
    match &items[3] {
        JsonValue::Arr(inner) => {
            reviews_url = get_text_at(inner, 0);
            reviews_text = get_text_at(inner, 1);
            tracking_token = get_text_at(inner, 3);
        }
        _ => {}
    }
    Ok(ReviewSummaryBlock {
        reviews_url,
        reviews_text,
        tracking_token,
        average_rating: get_num_at(items, 7),
        review_count: get_uint_at(items, 8),
    })
}

// ————————————————————————————————————————————————————————————————————————
// Website links (listing index 7)
// ————————————————————————————————————————————————————————————————————————

/// The website block: a URL and a display domain, both required strings.
pub open spec fn spec_decode_website_links(v: JsonValue) -> Result<BusinessWebsiteLinks, ShapeError> {
    match v {
        JsonValue::Arr(items) => match spec_text_at(items@, 0) {
            Some(url) => match spec_text_at(items@, 1) {
                Some(domain) => Ok(BusinessWebsiteLinks { url, domain }),
                None => Err(ShapeError),
            },
            None => Err(ShapeError),
        },
        _ => Err(ShapeError),
    }
}

pub fn decode_website_links(v: &JsonValue) -> (r: Result<BusinessWebsiteLinks, ShapeError>)
    ensures
        r == spec_decode_website_links(*v),
{
    let items = match v.as_array() {
        Some(items) => items,
        None => {
            return Err(ShapeError);
        }
    };
    match get_text_at(items, 0) {
        Some(url) => match get_text_at(items, 1) {
            Some(domain) => Ok(BusinessWebsiteLinks { url, domain }),
            None => Err(ShapeError),
        },
        None => Err(ShapeError),
    }
}

// ————————————————————————————————————————————————————————————————————————
// Geo points (listing index 9, and each element of index 208)
// ————————————————————————————————————————————————————————————————————————

/// A geo point: a 4-element array whose 3rd and 4th elements are the latitude
/// and longitude.  The leading two elements are observed always null and are
/// not inspected.
pub open spec fn spec_decode_geo_point(v: JsonValue) -> Result<GeoPoint, ShapeError> {
    match v {
        JsonValue::Arr(items) => match spec_num_at(items@, 2) {
            Some(latitude) => match spec_num_at(items@, 3) {
                Some(longitude) => Ok(GeoPoint { latitude, longitude }),
                None => Err(ShapeError),
            },
            None => Err(ShapeError),
        },
        _ => Err(ShapeError),
    }
}

pub fn decode_geo_point(v: &JsonValue) -> (r: Result<GeoPoint, ShapeError>)
    ensures
        r == spec_decode_geo_point(*v),
{
    let items = match v.as_array() {
        Some(items) => items,
        None => {
            return Err(ShapeError);
        }
    };
    match get_num_at(items, 2) {
        Some(latitude) => match get_num_at(items, 3) {
            Some(longitude) => Ok(GeoPoint { latitude, longitude }),
            None => Err(ShapeError),
        },
        None => Err(ShapeError),
    }
}

/// The independently-sourced coordinate block at index 208: a list of geo
/// points that is expected to be a singleton; any other length is an
/// unhandled case and fails.
pub open spec fn spec_decode_coordinate_blocks(v: JsonValue) -> Result<GeoPoint, ShapeError> {
    match v {
        JsonValue::Arr(items) => if items@.len() == 1 {
            spec_decode_geo_point(items@[0])
        } else {
            Err(ShapeError)
        },
        _ => Err(ShapeError),
    }
}

pub fn decode_coordinate_blocks(v: &JsonValue) -> (r: Result<GeoPoint, ShapeError>)
    ensures
        r == spec_decode_coordinate_blocks(*v),
{
    let items = match v.as_array() {
        Some(items) => items,
        None => {
            return Err(ShapeError);
        }
    };
    if items.len() == 1 {
        decode_geo_point(&items[0])
    } else {
        Err(ShapeError)
    }
}

// ————————————————————————————————————————————————————————————————————————
// Ranked categories (listing index 76)
// ————————————————————————————————————————————————————————————————————————

/// One category 3-tuple: slug, optional display label, confidence tier.
pub open spec fn spec_decode_category(v: JsonValue) -> Result<BusinessCategory, ShapeError> {
    match v {
        JsonValue::Arr(items) => match spec_text_at(items@, 0) {
            Some(label) => match spec_int_at(items@, 2) {
                Some(score) => Ok(BusinessCategory {
                    label,
                    display_name: spec_text_at(items@, 1),
                    score,
                }),
                None => Err(ShapeError),
            },
            None => Err(ShapeError),
        },
        _ => Err(ShapeError),
    }
}

pub fn decode_category(v: &JsonValue) -> (r: Result<BusinessCategory, ShapeError>)
    ensures
        r == spec_decode_category(*v),
{
    let items = match v.as_array() {
        Some(items) => items,
        None => {
            return Err(ShapeError);
        }
    };
    match get_text_at(items, 0) {
        Some(label) => match get_int_at(items, 2) {
            Some(score) => Ok(BusinessCategory {
                label,
                display_name: get_text_at(items, 1),
                score,
            }),
            None => Err(ShapeError),
        },
        None => Err(ShapeError),
    }
}

/// The ranked category vector: every entry must decode.
pub open spec fn spec_decode_categories(v: JsonValue) -> Result<Seq<BusinessCategory>, ShapeError> {
    match v {
        JsonValue::Arr(items) => {
            if forall|i: int| 0 <= i < items@.len() ==> spec_decode_category(#[trigger] items@[i]) is Ok {
                Ok(Seq::new(items@.len(), |i: int| spec_decode_category(items@[i])->Ok_0))
            } else {
                Err(ShapeError)
            }
        },
        _ => Err(ShapeError),
    }
}

pub fn decode_categories(v: &JsonValue) -> (r: Result<BusinessCategoryVector, ShapeError>)
    ensures
        match (r, spec_decode_categories(*v)) {
            (Ok(cv), Ok(s)) => cv.0@ == s,
            (Err(e1), Err(e2)) => e1 == e2,
            _ => false,
        },
{
    let items = match v.as_array() {
        Some(items) => items,
        None => {
            return Err(ShapeError);
        }
    };
    let mut out: Vec<BusinessCategory> = Vec::new();
    let mut i: usize = 0;
    while i < items.len()
        invariant
            i <= items.len(),
            out@.len() == i as int,
            forall|j: int| 0 <= j < i ==> spec_decode_category(#[trigger] items@[j]) is Ok,
            forall|j: int| 0 <= j < i
                ==> #[trigger] out@[j] == spec_decode_category(items@[j])->Ok_0,
        decreases items@.len() - i,
    {
        match decode_category(&items[i]) {
            Ok(c) => {
                out.push(c);
            }
            Err(e) => {
                return Err(e);
            }
        }
        i = i + 1;
    }
    assert(out@ =~= Seq::new(items@.len(), |i: int| spec_decode_category(items@[i])->Ok_0));
    Ok(BusinessCategoryVector(out))
}

} // verus!
