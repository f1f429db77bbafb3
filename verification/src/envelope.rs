//! The transport envelope around a raw payload: a trailing comment marker, an
//! outer JSON object whose `d` field holds the real document as a string, and
//! a fixed anti-JSON-hijacking prefix on that string.  Any missing wrapper
//! marker means the transport format itself changed, so unwrapping fails
//! rather than guessing.
use vstd::prelude::*;
use vstd::string::StrSliceExecFns;
use crate::json::{JsonMember, JsonValue};
use crate::parse::{json_of, parse_json};
use crate::textutil::{has_prefix, has_suffix, str_has_prefix, str_has_suffix, str_eq};

verus! {

/// Why a payload's transport envelope could not be unwrapped.
#[derive(Debug, Clone, Copy, PartialEq, Eq)]
pub enum EnvelopeError {
    /// The trailing comment marker is missing.
    MissingTrailingMarker,
    /// The text before the marker is not valid JSON.
    OuterNotJson,
    /// The outer document is not an object.
    OuterNotObject,
    /// The outer object has no `d` member.
    MissingDataField,
    /// The `d` member is not a string.
    DataFieldNotText,
    /// The `d` string does not start with the anti-hijacking prefix.
    MissingInnerPrefix,
    /// The `d` string after the prefix is not valid JSON.
    InnerNotJson,
}

/// The first member of `members` whose key is `key`, if any.
pub open spec fn spec_obj_lookup(members: Seq<JsonMember>, key: Seq<char>) -> Option<JsonValue>
    decreases members.len(),
{
    if members.len() == 0 {
        None
    } else if members[0].key@ == key {
        Some(members[0].value)
    } else {
        spec_obj_lookup(members.drop_first(), key)
    }
}

pub proof fn lemma_obj_lookup_skip(members: Seq<JsonMember>, key: Seq<char>, i: int)
    requires
        0 <= i <= members.len(),
        forall|j: int| 0 <= j < i ==> members[j].key@ != key,
    ensures
        spec_obj_lookup(members, key) == spec_obj_lookup(members.skip(i), key),
    decreases i,
{
    if i > 0 {
        assert(members.skip(i - 1).drop_first() =~= members.skip(i));
        lemma_obj_lookup_skip(members, key, i - 1);
        assert(members.skip(i - 1)[0] == members[i - 1]);
    } else {
        assert(members.skip(0) =~= members);
    }
}

/// Removes and returns the value of the first member named `key`.
fn take_member(members: &mut Vec<JsonMember>, key: &str) -> (r: Option<JsonValue>)
    ensures
        r == spec_obj_lookup(old(members)@, key@),
{
    let n = members.len();
    let mut i: usize = 0;
    while i < n
        invariant
            i <= n,
            n == members@.len(),
            members@ == old(members)@,
            forall|j: int| 0 <= j < i ==> members@[j].key@ != key@,
        decreases n - i,
    {
        if str_eq(members[i].key.as_str(), key) {
            proof {
                lemma_obj_lookup_skip(members@, key@, i as int);
                assert(members@.skip(i as int)[0] == members@[i as int]);
            }
            let m = members.remove(i);
            return Some(m.value);
        }
        i = i + 1;
    }
    proof {
        lemma_obj_lookup_skip(members@, key@, n as int);
        assert(members@.skip(n as int) =~= Seq::<JsonMember>::empty());
    }
    None
}

/// What unwrapping a given piece of response text yields.
pub open spec fn spec_unwrap_envelope(text: Seq<char>) -> Result<JsonValue, EnvelopeError> {
    if !has_suffix(text, "/*\"\"*/"@) {
        Err(EnvelopeError::MissingTrailingMarker)
    } else {
        match json_of(text.subrange(0, text.len() - "/*\"\"*/"@.len())) {
            None => Err(EnvelopeError::OuterNotJson),
            Some(outer) => match outer {
                JsonValue::Obj(members) => match spec_obj_lookup(members@, "d"@) {
                    Some(JsonValue::Text(data)) => {
                        if !has_prefix(data@, ")]}'\n"@) {
                            Err(EnvelopeError::MissingInnerPrefix)
                        } else {
                            match json_of(data@.subrange(")]}'\n"@.len() as int, data@.len() as int)) {
                                Some(inner) => Ok(inner),
                                None => Err(EnvelopeError::InnerNotJson),
                            }
                        }
                    }
                    Some(_) => Err(EnvelopeError::DataFieldNotText),
                    None => Err(EnvelopeError::MissingDataField),
                },
                _ => Err(EnvelopeError::OuterNotObject),
            },
        }
    }
}

/// Strips the transport envelope from raw response text and returns the inner
/// JSON document.
pub fn unwrap_envelope(text: &str) -> (r: Result<JsonValue, EnvelopeError>)
    ensures
        r == spec_unwrap_envelope(text@),
{
    let marker = "/*\"\"*/";
    if !str_has_suffix(text, marker) {
        return Err(EnvelopeError::MissingTrailingMarker);
    }
    let cut = text.unicode_len() - marker.unicode_len();
    let body = text.substring_char(0, cut);
    let outer = match parse_json(body) {
        Some(outer) => outer,
        None => {
            return Err(EnvelopeError::OuterNotJson);
        }
    };
    let mut members = match outer {
        JsonValue::Obj(members) => members,
        _ => {
            return Err(EnvelopeError::OuterNotObject);
        }
    };
    let data = match take_member(&mut members, "d") {
        Some(JsonValue::Text(data)) => data,
        Some(_) => {
            return Err(EnvelopeError::DataFieldNotText);
        }
        None => {
            return Err(EnvelopeError::MissingDataField);
        }
    };
    let prefix = ")]}'\n";
    let ds = data.as_str();
    if !str_has_prefix(ds, prefix) {
        return Err(EnvelopeError::MissingInnerPrefix);
    }
    let inner_text = ds.substring_char(prefix.unicode_len(), ds.unicode_len());
    match parse_json(inner_text) {
        Some(inner) => Ok(inner),
        None => Err(EnvelopeError::InnerNotJson),
    }
}

} // verus!
