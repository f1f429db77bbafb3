//! Sub-decoder for the phone-number block (listing index 178).
use vstd::prelude::*;
use crate::json::JsonValue;
use crate::decode::{ShapeError, vget, value_get, spec_text_at, get_text_at, spec_int_at, get_int_at};
use crate::model::{PhoneEntry, PhoneVariant, SpecPhoneEntry, TelUriBlock, phone_entry_dv};

verus! {

/// One variant: a required number string and a required rank.
pub open spec fn spec_decode_phone_variant(v: JsonValue) -> Result<PhoneVariant, ShapeError> {
    match v {
        JsonValue::Arr(items) => match spec_text_at(items@, 0) {
            Some(number) => match spec_int_at(items@, 1) {
                Some(rank) => Ok(PhoneVariant { number, rank }),
                None => Err(ShapeError),
            },
            None => Err(ShapeError),
        },
        _ => Err(ShapeError),
    }
}

pub fn decode_phone_variant(v: &JsonValue) -> (r: Result<PhoneVariant, ShapeError>)
    ensures
        r == spec_decode_phone_variant(*v),
{
    let items = match v.as_array() {
        Some(items) => items,
        None => {
            return Err(ShapeError);
        }
    };
    match get_text_at(items, 0) {
        Some(number) => match get_int_at(items, 1) {
            Some(rank) => Ok(PhoneVariant { number, rank }),
            None => Err(ShapeError),
        },
        None => Err(ShapeError),
    }
}

/// The variant list at slot 1: absent or null reads as empty, an array must
/// decode in full, and anything else is a shape mismatch.
pub open spec fn spec_decode_phone_variants(v: JsonValue) -> Result<Seq<PhoneVariant>, ShapeError> {
    match vget(v, 1) {
        Some(slot) => match slot {
            JsonValue::Arr(vs) => {
                if forall|i: int| 0 <= i < vs@.len()
                    ==> spec_decode_phone_variant(#[trigger] vs@[i]) is Ok {
                    Ok(Seq::new(vs@.len(), |i: int| spec_decode_phone_variant(vs@[i])->Ok_0))
                } else {
                    Err(ShapeError)
                }
            },
            JsonValue::Null => Ok(Seq::empty()),
            _ => Err(ShapeError),
        },
        None => Ok(Seq::empty()),
    }
}

fn decode_phone_variants(v: &JsonValue) -> (r: Result<Vec<PhoneVariant>, ShapeError>)
    ensures
        match (r, spec_decode_phone_variants(*v)) {
            (Ok(out), Ok(s)) => out@ == s,
            (Err(e1), Err(e2)) => e1 == e2,
            _ => false,
        },
{
    let slot = match value_get(v, 1) {
        Some(slot) => slot,
        None => {
            return Ok(Vec::new());
        }
    };
    let vs = match slot {
        JsonValue::Arr(vs) => vs,
        JsonValue::Null => {
            return Ok(Vec::new());
        }
        _ => {
            return Err(ShapeError);
        }
    };
    let mut out: Vec<PhoneVariant> = Vec::new();
    let mut i: usize = 0;
    while i < vs.len()
        invariant
            i <= vs.len(),
            out@.len() == i as int,
            forall|j: int| 0 <= j < i ==> spec_decode_phone_variant(#[trigger] vs@[j]) is Ok,
            forall|j: int| 0 <= j < i
                ==> #[trigger] out@[j] == spec_decode_phone_variant(vs@[j])->Ok_0,
        decreases vs@.len() - i,
    {
        match decode_phone_variant(&vs[i]) {
            Ok(x) => {
                out.push(x);
            }
            Err(e) => {
                return Err(e);
            }
        }
        i = i + 1;
    }
    assert(out@ =~= Seq::new(vs@.len(), |i: int| spec_decode_phone_variant(vs@[i])->Ok_0));
    Ok(out)
}

/// The `tel:` block at slot 5: read only when that slot is a non-empty array;
/// its URI is then required.
pub open spec fn spec_decode_tel_uri(v: JsonValue) -> Result<Option<TelUriBlock>, ShapeError> {
    match vget(v, 5) {
        Some(slot) => match slot {
            JsonValue::Arr(inner) => {
                if inner@.len() == 0 {
                    Ok(None)
                } else {
                    match spec_text_at(inner@, 0) {
                        Some(uri) => Ok(Some(TelUriBlock {
                            uri,
                            click_token: spec_text_at(inner@, 3),
                        })),
                        None => Err(ShapeError),
                    }
                }
            },
            _ => Ok(None),
        },
        None => Ok(None),
    }
}

fn decode_tel_uri(v: &JsonValue) -> (r: Result<Option<TelUriBlock>, ShapeError>)
    ensures
        r == spec_decode_tel_uri(*v),
{
    let slot = match value_get(v, 5) {
        Some(slot) => slot,
        None => {
            return Ok(None);
        }
    };
    let inner = match slot {
        JsonValue::Arr(inner) => inner,
        _ => {
            return Ok(None);
        }
    };
    if inner.len() == 0 {
        return Ok(None);
    }
    match get_text_at(inner, 0) {
        Some(uri) => Ok(Some(TelUriBlock { uri, click_token: get_text_at(inner, 3) })),
        None => Err(ShapeError),
    }
}

/// The phone block: optional display string, variant list, canonical E.164
/// string and optional `tel:` URI block.
pub open spec fn spec_decode_phone(v: JsonValue) -> Result<SpecPhoneEntry, ShapeError> {
    match v {
        JsonValue::Arr(items) => match spec_decode_phone_variants(v) {
            Ok(variants) => match spec_decode_tel_uri(v) {
                Ok(tel_uri) => Ok(SpecPhoneEntry {
                    display: spec_text_at(items@, 0),
                    variants,
                    canonical: spec_text_at(items@, 3),
                    tel_uri,
                }),
                Err(e) => Err(e),
            },
            Err(e) => Err(e),
        },
        _ => Err(ShapeError),
    }
}

pub fn decode_phone(v: &JsonValue) -> (r: Result<PhoneEntry, ShapeError>)
    ensures
        match (r, spec_decode_phone(*v)) {
            (Ok(p), Ok(s)) => phone_entry_dv(p) == s,
            (Err(e1), Err(e2)) => e1 == e2,
            _ => false,
        },
{
    let items = match v.as_array() {
        Some(items) => items,
        None => {
            return Err(ShapeError);
        }
    };
    let variants = match decode_phone_variants(v) {
        Ok(variants) => variants,
        Err(e) => {
            return Err(e);
        }
    };
    let tel_uri = match decode_tel_uri(v) {
        Ok(tel_uri) => tel_uri,
        Err(e) => {
            return Err(e);
        }
    };
    Ok(PhoneEntry {
        display: get_text_at(items, 0),
        variants,
        canonical: get_text_at(items, 3),
        tel_uri,
    })
}

} // verus!
