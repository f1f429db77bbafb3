//! Sub-decoders for the photo lists (listing indexes 37 and 72).
use vstd::prelude::*;
use vstd::string::StrSliceExecFns;
use crate::json::{jget, JsonValue, JsonNumber};
use crate::decode::{
    ShapeError, vget, value_get, spec_text_at, get_text_at, spec_uint_at, get_uint_at,
    spec_num_elem, num_elem, spec_arr_at, get_arr_at, spec_uint_pair, uint_pair,
};
use crate::model::{
    BusinessReference, PhotoClusterInfo, PhotoClusterMeta, PhotoEntry, PhotoGeoPoint,
    PhotoReference, PhotoWrapper, SpecPhotoClusterMeta, SpecPhotoWrapper, UploadTimestamp,
    photo_cluster_meta_dv, photo_wrapper_dv,
};

verus! {

// ————————————————————————————————————————————————————————————————————————
// Decimal parsing, for the stringly-typed reference count
// ————————————————————————————————————————————————————————————————————————

/// Whether every character is a decimal digit.
pub open spec fn all_digits(s: Seq<char>) -> bool {
    forall|i: int| 0 <= i < s.len() ==> '0' as int <= (#[trigger] s[i]) as int <= '9' as int
}

/// The value of a digit string, most significant first.
pub open spec fn digits_val(s: Seq<char>) -> int
    decreases s.len(),
{
    if s.len() == 0 {
        0
    } else {
        digits_val(s.drop_last()) * 10 + (s.last() as int - '0' as int)
    }
}

/// The digit part of an integer literal: everything after an optional
/// leading plus sign.
pub open spec fn spec_digits_part(s: Seq<char>) -> Seq<char> {
    if s.len() > 0 && s[0] == '+' {
        s.drop_first()
    } else {
        s
    }
}

/// What parsing a `u32` from decimal text yields: an optional plus sign, at
/// least one digit, nothing else, and a value in range.
pub open spec fn spec_parse_u32(s: Seq<char>) -> Option<u32> {
    if spec_digits_part(s).len() > 0 && all_digits(spec_digits_part(s)) && digits_val(
        spec_digits_part(s),
    ) <= u32::MAX {
        Some(digits_val(spec_digits_part(s)) as u32)
    } else {
        None
    }
}

proof fn lemma_digits_val_nonneg(s: Seq<char>)
    requires
        all_digits(s),
    ensures
        digits_val(s) >= 0,
    decreases s.len(),
{
    if s.len() > 0 {
        assert(all_digits(s.drop_last())) by {
            assert(forall|i: int| 0 <= i < s.len() - 1 ==> s.drop_last()[i] == s[i]);
        }
        lemma_digits_val_nonneg(s.drop_last());
    }
}

pub fn parse_u32(s: &str) -> (r: Option<u32>)
    ensures
        r == spec_parse_u32(s@),
{
    let n = s.unicode_len();
    let mut j: usize = 0;
    if n > 0 && s.get_char(0) == '+' {
        j = 1;
    }
    let ghost ds = spec_digits_part(s@);
    proof {
        assert(ds =~= s@.skip(j as int));
    }
    if j >= n {
        return None;
    }
    let base: usize = j;
    let mut acc: u64 = 0;
    let cap: u64 = 4294967295;
    while j < n
        invariant
            base <= j <= n,
            n == s@.len(),
            base + ds.len() == n,
            ds == s@.skip(base as int),
            all_digits(ds.take(j - base)),
            digits_val(ds.take(j - base)) <= cap as int ==> acc == digits_val(ds.take(j - base)),
            digits_val(ds.take(j - base)) > cap as int ==> acc == cap + 1,
            acc <= cap + 1,
            cap == u32::MAX,
        decreases n - j,
    {
        let c = s.get_char(j);
        let cv = c as u32;
        if cv < 48 || cv > 57 {
            proof {
                assert(ds[j - base] == s@[j as int]);
                assert(!all_digits(ds));
            }
            return None;
        }
        let d: u64 = (cv - 48) as u64;
        let ghost k = j - base;
        proof {
            lemma_digits_val_nonneg(ds.take(k as int));
            assert(ds.take(k + 1).drop_last() =~= ds.take(k as int));
            assert(ds.take(k + 1).last() == ds[k as int]);
            assert(ds[k as int] == s@[j as int]);
            assert(digits_val(ds.take(k + 1)) == digits_val(ds.take(k as int)) * 10 + d);
            assert(all_digits(ds.take(k + 1)));
        }
        let raw: u64 = acc * 10 + d;
        proof {
            if digits_val(ds.take(k as int)) > cap as int {
                assert(digits_val(ds.take(k as int)) * 10 >= digits_val(ds.take(k as int)));
                assert(digits_val(ds.take(k + 1)) > cap as int);
            }
        }
        if raw > cap {
            acc = cap + 1;
        } else {
            acc = raw;
        }
        j = j + 1;
    }
    proof {
        assert(ds.take(ds.len() as int) =~= ds);
    }
    if acc > cap {
        None
    } else {
        Some(acc as u32)
    }
}

// ————————————————————————————————————————————————————————————————————————
// Photo entry helpers
// ————————————————————————————————————————————————————————————————————————

/// The `(width, height)` pair behind slot `i` of a list, when present.
pub open spec fn spec_pair_at(items: Seq<JsonValue>, i: int) -> Option<(u64, u64)> {
    if 0 <= i < items.len() {
        spec_uint_pair(items[i])
    } else {
        None
    }
}

fn pair_at(items: &Vec<JsonValue>, i: usize) -> (r: Option<(u64, u64)>)
    ensures
        r == spec_pair_at(items@, i as int),
{
    if i < items.len() {
        uint_pair(&items[i])
    } else {
        None
    }
}

/// The photo's geo tag: the head of the geo block, holding longitude at
/// slot 1 and latitude at slot 2.
pub open spec fn spec_photo_location(gb: Seq<JsonValue>) -> Option<PhotoGeoPoint> {
    if gb.len() > 0 {
        match spec_num_elem(gb[0], 2) {
            Some(lat) => match spec_num_elem(gb[0], 1) {
                Some(lon) => Some(PhotoGeoPoint { lat, lon }),
                None => None,
            },
            None => None,
        }
    } else {
        None
    }
}

/// The upload timestamp behind `metadata[6][8]`: year, month and day
/// required, hour optional.
pub open spec fn spec_upload_time(md: Seq<JsonValue>) -> Option<UploadTimestamp> {
    if md.len() > 6 {
        match vget(md[6], 8) {
            Some(ts) => match ts {
                JsonValue::Arr(t) => match spec_uint_at(t@, 0) {
                    Some(year) => match spec_uint_at(t@, 1) {
                        Some(month) => match spec_uint_at(t@, 2) {
                            Some(day) => Some(UploadTimestamp {
                                year,
                                month,
                                day,
                                hour: spec_uint_at(t@, 3),
                            }),
                            None => None,
                        },
                        None => None,
                    },
                    None => None,
                },
                _ => None,
            },
            None => None,
        }
    } else {
        None
    }
}

/// The source tag behind `metadata[6][5][2]`.
pub open spec fn spec_source_tag(md: Seq<JsonValue>) -> Option<String> {
    if md.len() > 6 {
        match vget(md[6], 5) {
            Some(x) => match vget(x, 2) {
                Some(y) => y.spec_as_text(),
                None => None,
            },
            None => None,
        }
    } else {
        None
    }
}

/// The reference block behind `metadata[12]`: kind and id required, the
/// count parsed from a decimal string.
pub open spec fn spec_photo_reference(md: Seq<JsonValue>) -> Option<PhotoReference> {
    if md.len() > 12 {
        match md[12] {
            JsonValue::Arr(ra) => match spec_text_at(ra@, 0) {
                Some(kind) => match spec_text_at(ra@, 1) {
                    Some(id) => Some(PhotoReference {
                        kind,
                        id,
                        count: match spec_text_at(ra@, 2) {
                            Some(cs) => match spec_parse_u32(cs@) {
                                Some(c) => Some(c as u64),
                                None => None,
                            },
                            None => None,
                        },
                    }),
                    None => None,
                },
                None => None,
            },
            _ => None,
        }
    } else {
        None
    }
}

/// The nested string behind `items[i][0][0]`.
pub open spec fn spec_text_path2(items: Seq<JsonValue>, i: int) -> Option<String> {
    if 0 <= i < items.len() {
        match vget(items[i], 0) {
            Some(y) => match vget(y, 0) {
                Some(z) => z.spec_as_text(),
                None => None,
            },
            None => None,
        }
    } else {
        None
    }
}

/// The nested string behind `items[i][0]`.
pub open spec fn spec_text_path1(items: Seq<JsonValue>, i: int) -> Option<String> {
    if 0 <= i < items.len() {
        match vget(items[i], 0) {
            Some(y) => y.spec_as_text(),
            None => None,
        }
    } else {
        None
    }
}

/// The cluster-info tail: the last element of the photo array, read only
/// when the image label exists to reuse as the cluster label.
pub open spec fn spec_cluster_info(items: Seq<JsonValue>, label: Option<String>) -> Option<PhotoClusterInfo> {
    if items.len() > 0 {
        match items.last() {
            JsonValue::Arr(tl) => match label {
                Some(l) => Some(PhotoClusterInfo {
                    label: l,
                    count: spec_cluster_count(tl@),
                    index: spec_uint_at(tl@, 4),
                }),
                None => None,
            },
            _ => None,
        }
    } else {
        None
    }
}

/// The count behind `tail[0][0][1]`.
pub open spec fn spec_cluster_count(tl: Seq<JsonValue>) -> Option<u64> {
    if tl.len() > 0 {
        match vget(tl[0], 0) {
            Some(x) => match vget(x, 1) {
                Some(y) => match y.spec_as_number() {
                    Some(n) => n.spec_as_uint(),
                    None => None,
                },
                None => None,
            },
            None => None,
        }
    } else {
        None
    }
}

// ————————————————————————————————————————————————————————————————————————
// Photo entry
// ————————————————————————————————————————————————————————————————————————

/// The image-block fields of a photo entry, when slot 6 is an array:
/// `(image_url, label, original_size, thumbnail_size)`.
pub open spec fn spec_image_block(items: Seq<JsonValue>) -> (
    Option<String>,
    Option<String>,
    Option<(u64, u64)>,
    Option<(u64, u64)>,
) {
    match spec_arr_at(items, 6) {
        Some(ib) => (
            spec_text_at(ib, 0),
            spec_text_at(ib, 1),
            spec_pair_at(ib, 2),
            spec_pair_at(ib, 3),
        ),
        None => (None, None, None, None),
    }
}

/// One photo entry: id, media type and owning entity id are required, every
/// other field tolerant.
pub open spec fn spec_decode_photo_entry(v: JsonValue) -> Result<PhotoEntry, ShapeError> {
    match v {
        JsonValue::Arr(items) => match spec_text_at(items@, 0) {
            Some(photo_id) => match spec_uint_at(items@, 1) {
                Some(media_type) => match spec_text_at(items@, 9) {
                    Some(entity_id) => Ok(PhotoEntry {
                        photo_id,
                        media_type,
                        media_subtype: spec_uint_at(items@, 2),
                        image_url: spec_image_block(items@).0,
                        label: spec_image_block(items@).1,
                        original_size: spec_image_block(items@).2,
                        thumbnail_size: spec_image_block(items@).3,
                        location: match spec_arr_at(items@, 8) {
                            Some(gb) => spec_photo_location(gb),
                            None => None,
                        },
                        business: BusinessReference {
                            entity_id,
                            cluster_id: spec_text_path2(items@, 15),
                            address: spec_text_path1(items@, 17),
                        },
                        upload_time: match spec_arr_at(items@, 21) {
                            Some(md) => spec_upload_time(md),
                            None => None,
                        },
                        source_tag: match spec_arr_at(items@, 21) {
                            Some(md) => spec_source_tag(md),
                            None => None,
                        },
                        reference: match spec_arr_at(items@, 21) {
                            Some(md) => spec_photo_reference(md),
                            None => None,
                        },
                        cluster_info: spec_cluster_info(items@, spec_image_block(items@).1),
                        content_type_label: spec_text_at(items@, 20),
                    }),
                    None => Err(ShapeError),
                },
                None => Err(ShapeError),
            },
            None => Err(ShapeError),
        },
        _ => Err(ShapeError),
    }
}

pub fn decode_photo_entry(v: &JsonValue) -> (r: Result<PhotoEntry, ShapeError>)
    ensures
        r == spec_decode_photo_entry(*v),
{
    let items = match v.as_array() {
        Some(items) => items,
        None => {
            return Err(ShapeError);
        }
    };
    let photo_id = match get_text_at(items, 0) {
        Some(photo_id) => photo_id,
        None => {
            return Err(ShapeError);
        }
    };
    let media_type = match get_uint_at(items, 1) {
        Some(media_type) => media_type,
        None => {
            return Err(ShapeError);
        }
    };
    let entity_id = match get_text_at(items, 9) {
        Some(entity_id) => entity_id,
        None => {
            return Err(ShapeError);
        }
    };
    let mut image_url: Option<String> = None;
    let mut label: Option<String> = None;
    let mut original_size: Option<(u64, u64)> = None;
    let mut thumbnail_size: Option<(u64, u64)> = None;
    match get_arr_at(items, 6) {
        Some(ib) => {
            image_url = get_text_at(ib, 0);
            label = get_text_at(ib, 1);
            original_size = pair_at(ib, 2);
            thumbnail_size = pair_at(ib, 3);
        }
        None => {}
    }
    let location = match get_arr_at(items, 8) {
        Some(gb) => {
            if gb.len() > 0 {
                match num_elem(&gb[0], 2) {
                    Some(lat) => match num_elem(&gb[0], 1) {
                        Some(lon) => Some(PhotoGeoPoint { lat, lon }),
                        None => None,
                    },
                    None => None,
                }
            } else {
                None
            }
        }
        None => None,
    };
    let cluster_id = if 15 < items.len() {
        match value_get(&items[15], 0) {
            Some(y) => match value_get(y, 0) {
                Some(z) => match z.as_text() {
                    Some(s) => Some(s.clone()),
                    None => None,
                },
                None => None,
            },
            None => None,
        }
    } else {
        None
    };
    let address = if 17 < items.len() {
        match value_get(&items[17], 0) {
            Some(y) => match y.as_text() {
                Some(s) => Some(s.clone()),
                None => None,
            },
            None => None,
        }
    } else {
        None
    };
    let mut upload_time: Option<UploadTimestamp> = None;
    let mut source_tag: Option<String> = None;
    let mut reference: Option<PhotoReference> = None;
    match get_arr_at(items, 21) {
        Some(md) => {
            upload_time = decode_upload_time(md);
            source_tag = decode_source_tag(md);
            reference = decode_photo_reference(md);
        }
        None => {}
    }
    let cluster_info = decode_cluster_info(items, &label);
    Ok(PhotoEntry {
        photo_id,
        media_type,
        media_subtype: get_uint_at(items, 2),
        image_url,
        label,
        original_size,
        thumbnail_size,
        location,
        business: BusinessReference { entity_id, cluster_id, address },
        upload_time,
        source_tag,
        reference,
        cluster_info,
        content_type_label: get_text_at(items, 20),
    })
}

fn decode_upload_time(md: &Vec<JsonValue>) -> (r: Option<UploadTimestamp>)
    ensures
        r == spec_upload_time(md@),
{
    if md.len() <= 6 {
        return None;
    }
    let ts = match value_get(&md[6], 8) {
        Some(ts) => ts,
        None => {
            return None;
        }
    };
    let t = match ts.as_array() {
        Some(t) => t,
        None => {
            return None;
        }
    };
    let year = match get_uint_at(t, 0) {
        Some(year) => year,
        None => {
            return None;
        }
    };
    let month = match get_uint_at(t, 1) {
        Some(month) => month,
        None => {
            return None;
        }
    };
    let day = match get_uint_at(t, 2) {
        Some(day) => day,
        None => {
            return None;
        }
    };
    Some(UploadTimestamp { year, month, day, hour: get_uint_at(t, 3) })
}

fn decode_source_tag(md: &Vec<JsonValue>) -> (r: Option<String>)
    ensures
        r == spec_source_tag(md@),
{
    if md.len() <= 6 {
        return None;
    }
    match value_get(&md[6], 5) {
        Some(x) => match value_get(x, 2) {
            Some(y) => match y.as_text() {
                Some(s) => Some(s.clone()),
                None => None,
            },
            None => None,
        },
        None => None,
    }
}

fn decode_photo_reference(md: &Vec<JsonValue>) -> (r: Option<PhotoReference>)
    ensures
        r == spec_photo_reference(md@),
{
    if md.len() <= 12 {
        return None;
    }
    let ra = match md[12].as_array() {
        Some(ra) => ra,
        None => {
            return None;
        }
    };
    let kind = match get_text_at(ra, 0) {
        Some(kind) => kind,
        None => {
            return None;
        }
    };
    let id = match get_text_at(ra, 1) {
        Some(id) => id,
        None => {
            return None;
        }
    };
    let count = match get_text_at(ra, 2) {
        Some(cs) => match parse_u32(cs.as_str()) {
            Some(c) => Some(c as u64),
            None => None,
        },
        None => None,
    };
    Some(PhotoReference { kind, id, count })
}

fn decode_cluster_info(items: &Vec<JsonValue>, label: &Option<String>) -> (r: Option<PhotoClusterInfo>)
    ensures
        r == spec_cluster_info(items@, *label),
{
    if items.len() == 0 {
        return None;
    }
    let tl = match items[items.len() - 1].as_array() {
        Some(tl) => tl,
        None => {
            return None;
        }
    };
    let l = match label {
        Some(l) => l.clone(),
        None => {
            return None;
        }
    };
    let count = if tl.len() > 0 {
        match value_get(&tl[0], 0) {
            Some(x) => match value_get(x, 1) {
                Some(y) => match y.as_number() {
                    Some(n) => n.as_uint(),
                    None => None,
                },
                None => None,
            },
            None => None,
        }
    } else {
        None
    };
    Some(PhotoClusterInfo { label: l, count, index: get_uint_at(tl, 4) })
}

// ————————————————————————————————————————————————————————————————————————
// Photo wrapper
// ————————————————————————————————————————————————————————————————————————

/// The decodable `(media_type, count)` pairs of the cluster-meta list.
pub open spec fn spec_count_pairs(items: Seq<JsonValue>) -> Seq<(u64, u64)>
    decreases items.len(),
{
    if items.len() == 0 {
        Seq::empty()
    } else {
        let rest = spec_count_pairs(items.drop_last());
        match spec_uint_pair(items.last()) {
            Some(p) => rest.push(p),
            None => rest,
        }
    }
}

fn decode_count_pairs(items: &Vec<JsonValue>) -> (r: Vec<(u64, u64)>)
    ensures
        r@ == spec_count_pairs(items@),
{
    let mut out: Vec<(u64, u64)> = Vec::new();
    let mut i: usize = 0;
    while i < items.len()
        invariant
            i <= items.len(),
            out@ == spec_count_pairs(items@.take(i as int)),
        decreases items@.len() - i,
    {
        proof {
            assert(items@.take(i + 1 as int).drop_last() =~= items@.take(i as int));
            assert(items@.take(i + 1 as int).last() == items@[i as int]);
        }
        match uint_pair(&items[i]) {
            Some(p) => {
                out.push(p);
            }
            None => {}
        }
        i = i + 1;
    }
    assert(items@.take(items@.len() as int) =~= items@);
    out
}

/// The cluster-meta block at wrapper slot 8, read leniently.
pub open spec fn spec_cluster_meta(v: JsonValue) -> Option<SpecPhotoClusterMeta> {
    match vget(v, 8) {
        Some(meta) => match meta {
            JsonValue::Arr(ma) => match spec_arr_at(ma@, 0) {
                Some(pairs) => Some(SpecPhotoClusterMeta {
                    media_type_counts: spec_count_pairs(pairs),
                    selected_index: spec_uint_at(ma@, 1),
                    total_count: spec_uint_at(ma@, 3),
                    active_index: spec_uint_at(ma@, 4),
                }),
                None => None,
            },
            _ => None,
        },
        None => None,
    }
}

fn decode_cluster_meta(v: &JsonValue) -> (r: Option<PhotoClusterMeta>)
    ensures
        match (r, spec_cluster_meta(*v)) {
            (Some(m), Some(s)) => photo_cluster_meta_dv(m) == s,
            (None, None) => true,
            _ => false,
        },
{
    let meta = match value_get(v, 8) {
        Some(meta) => meta,
        None => {
            return None;
        }
    };
    let ma = match meta.as_array() {
        Some(ma) => ma,
        None => {
            return None;
        }
    };
    let pairs = match get_arr_at(ma, 0) {
        Some(pairs) => pairs,
        None => {
            return None;
        }
    };
    Some(PhotoClusterMeta {
        media_type_counts: decode_count_pairs(pairs),
        selected_index: get_uint_at(ma, 1),
        total_count: get_uint_at(ma, 3),
        active_index: get_uint_at(ma, 4),
    })
}

/// One photo wrapper: slot 0 must exist and hold a decodable photo entry.
pub open spec fn spec_decode_photo_wrapper(v: JsonValue) -> Result<SpecPhotoWrapper, ShapeError> {
    match v {
        JsonValue::Arr(items) => match vget(v, 0) {
            Some(ev) => match spec_decode_photo_entry(ev) {
                Ok(entry) => Ok(SpecPhotoWrapper {
                    entry,
                    cluster_meta: spec_cluster_meta(v),
                    entity_id: spec_text_at(items@, 3),
                    tracking_token: spec_text_at(items@, 5),
                }),
                Err(e) => Err(e),
            },
            None => Err(ShapeError),
        },
        _ => Err(ShapeError),
    }
}

pub fn decode_photo_wrapper(v: &JsonValue) -> (r: Result<PhotoWrapper, ShapeError>)
    ensures
        match (r, spec_decode_photo_wrapper(*v)) {
            (Ok(w), Ok(s)) => photo_wrapper_dv(w) == s,
            (Err(e1), Err(e2)) => e1 == e2,
            _ => false,
        },
{
    let items = match v.as_array() {
        Some(items) => items,
        None => {
            return Err(ShapeError);
        }
    };
    let ev = match value_get(v, 0) {
        Some(ev) => ev,
        None => {
            return Err(ShapeError);
        }
    };
    let entry = match decode_photo_entry(ev) {
        Ok(entry) => entry,
        Err(e) => {
            return Err(e);
        }
    };
    Ok(PhotoWrapper {
        entry,
        cluster_meta: decode_cluster_meta(v),
        entity_id: get_text_at(items, 3),
        tracking_token: get_text_at(items, 5),
    })
}

/// The decodable wrappers of a photo list, in order.
pub open spec fn spec_photo_list(items: Seq<JsonValue>) -> Seq<SpecPhotoWrapper>
    decreases items.len(),
{
    if items.len() == 0 {
        Seq::empty()
    } else {
        let rest = spec_photo_list(items.drop_last());
        match spec_decode_photo_wrapper(items.last()) {
            Ok(w) => rest.push(w),
            Err(_) => rest,
        }
    }
}

pub fn decode_photo_list(items: &Vec<JsonValue>) -> (r: Vec<PhotoWrapper>)
    ensures
        r@.map_values(|w: PhotoWrapper| photo_wrapper_dv(w)) == spec_photo_list(items@),
{
    let mut out: Vec<PhotoWrapper> = Vec::new();
    let mut i: usize = 0;
    while i < items.len()
        invariant
            i <= items.len(),
            out@.map_values(|w: PhotoWrapper| photo_wrapper_dv(w)) == spec_photo_list(
                items@.take(i as int),
            ),
        decreases items@.len() - i,
    {
        proof {
            assert(items@.take(i + 1 as int).drop_last() =~= items@.take(i as int));
            assert(items@.take(i + 1 as int).last() == items@[i as int]);
        }
        match decode_photo_wrapper(&items[i]) {
            Ok(w) => {
                let ghost prev = out@;
                out.push(w);
                proof {
                    assert(out@.map_values(|w: PhotoWrapper| photo_wrapper_dv(w)) =~= prev.map_values(
                        |w: PhotoWrapper| photo_wrapper_dv(w),
                    ).push(photo_wrapper_dv(w)));
                }
            }
            Err(_) => {}
        }
        i = i + 1;
    }
    assert(items@.take(items@.len() as int) =~= items@);
    out
}

} // verus!
