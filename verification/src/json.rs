//! The crate's own model of a JSON document.
//!
//! The decoder never reads an outside parser's value type directly: the parsed
//! document is converted once into `JsonValue`, and every sub-decoder works on
//! that, so the positional-array logic is ordinary verified code.
//!
//! Numbers keep their wire identity without floating point: integers that fit
//! `i64` are held as such, larger non-negative integers as `u64`, and every
//! other number as its canonical decimal rendering.
use vstd::prelude::*;

verus! {

/// A JSON number, as the decoder models it.
#[derive(Debug, PartialEq, Eq)]
pub enum JsonNumber {
    /// An integer in `i64` range.
    Int(i64),
    /// A non-negative integer above `i64::MAX`.
    Big(u64),
    /// Any other number (a fraction or exponent form), kept as its canonical
    /// decimal rendering.
    Dec(String),
}

/// One member of a JSON object.
#[derive(Debug, PartialEq, Eq)]
pub struct JsonMember {
    pub key: String,
    pub value: JsonValue,
}

/// A JSON document.
#[derive(Debug, PartialEq, Eq)]
pub enum JsonValue {
    Null,
    Bool(bool),
    Num(JsonNumber),
    Text(String),
    Arr(Vec<JsonValue>),
    Obj(Vec<JsonMember>),
}

impl JsonNumber {
    /// The number as an `i64`, when it is an integer in range.
    pub open spec fn spec_as_int(&self) -> Option<i64> {
        match self {
            JsonNumber::Int(i) => Some(*i),
            _ => None,
        }
    }

    /// The number as a `u64`, when it is a non-negative integer.
    pub open spec fn spec_as_uint(&self) -> Option<u64> {
        match self {
            JsonNumber::Int(i) => if *i >= 0 { Some(*i as u64) } else { None },
            JsonNumber::Big(u) => Some(*u),
            JsonNumber::Dec(_) => None,
        }
    }

    pub fn as_int(&self) -> (r: Option<i64>)
        ensures r == self.spec_as_int(),
    {
        match self {
            JsonNumber::Int(i) => Some(*i),
            _ => None,
        }
    }

    pub fn as_uint(&self) -> (r: Option<u64>)
        ensures r == self.spec_as_uint(),
    {
        match self {
            JsonNumber::Int(i) => if *i >= 0 { Some(*i as u64) } else { None },
            JsonNumber::Big(u) => Some(*u),
            JsonNumber::Dec(_) => None,
        }
    }
}

impl JsonValue {
    /// Absence in the wire format: a JSON `null`.
    pub open spec fn spec_is_null(&self) -> bool {
        self is Null
    }

    #[verifier::when_used_as_spec(spec_is_null)]
    pub fn is_null(&self) -> (r: bool)
        ensures r == self.spec_is_null(),
    {
        matches!(self, JsonValue::Null)
    }

    pub open spec fn spec_is_array(&self) -> bool {
        self is Arr
    }

    #[verifier::when_used_as_spec(spec_is_array)]
    pub fn is_array(&self) -> (r: bool)
        ensures r == self.spec_is_array(),
    {
        matches!(self, JsonValue::Arr(_))
    }

    /// The elements, when the value is an array.
    pub open spec fn spec_as_array(&self) -> Option<Seq<JsonValue>> {
        match self {
            JsonValue::Arr(items) => Some(items@),
            _ => None,
        }
    }

    pub fn as_array(&self) -> (r: Option<&Vec<JsonValue>>)
        ensures
            match r {
                Some(items) => self.spec_as_array() == Some(items@),
                None => self.spec_as_array() is None,
            },
    {
        match self {
            JsonValue::Arr(items) => Some(items),
            _ => None,
        }
    }

    /// The text, when the value is a string.
    pub open spec fn spec_as_text(&self) -> Option<String> {
        match self {
            JsonValue::Text(s) => Some(*s),
            _ => None,
        }
    }

    pub fn as_text(&self) -> (r: Option<&String>)
        ensures
            match r {
                Some(s) => self.spec_as_text() == Some(*s),
                None => self.spec_as_text() is None,
            },
    {
        match self {
            JsonValue::Text(s) => Some(s),
            _ => None,
        }
    }

    /// The number, when the value is one.
    pub open spec fn spec_as_number(&self) -> Option<JsonNumber> {
        match self {
            JsonValue::Num(n) => Some(*n),
            _ => None,
        }
    }

    pub fn as_number(&self) -> (r: Option<&JsonNumber>)
        ensures
            match r {
                Some(n) => self.spec_as_number() == Some(*n),
                None => self.spec_as_number() is None,
            },
    {
        match self {
            JsonValue::Num(n) => Some(n),
            _ => None,
        }
    }
}

/// Element `i` of a listing array with `null` collapsed to absence: the wire
/// format never distinguishes a missing slot from an explicit `null`, so an
/// index out of bounds and a `null` element read the same way.
pub open spec fn jget(items: Seq<JsonValue>, i: int) -> Option<JsonValue> {
    if 0 <= i < items.len() && !items[i].spec_is_null() {
        Some(items[i])
    } else {
        None
    }
}

/// Exec counterpart of [`jget`].
pub fn get_element<'a>(items: &'a Vec<JsonValue>, i: usize) -> (r: Option<&'a JsonValue>)
    ensures
        match r {
            Some(v) => jget(items@, i as int) == Some(*v),
            None => jget(items@, i as int) is None,
        },
{
    if i < items.len() {
        let v = &items[i];
        if v.is_null() {
            None
        } else {
            Some(v)
        }
    } else {
        None
    }
}

impl JsonNumber {
    /// An owned copy of the number, equal to the original.
    pub fn clone_num(&self) -> (r: JsonNumber)
        ensures r == *self,
    {
        match self {
            JsonNumber::Int(i) => JsonNumber::Int(*i),
            JsonNumber::Big(u) => JsonNumber::Big(*u),
            JsonNumber::Dec(s) => JsonNumber::Dec(s.clone()),
        }
    }
}

/// Structural equality of two documents: equal shapes, equal scalars, and
/// member keys and string payloads with equal characters.
pub open spec fn json_eq(a: JsonValue, b: JsonValue) -> bool
    decreases a,
{
    match (a, b) {
        (JsonValue::Null, JsonValue::Null) => true,
        (JsonValue::Bool(x), JsonValue::Bool(y)) => x == y,
        (JsonValue::Num(x), JsonValue::Num(y)) => x == y,
        (JsonValue::Text(x), JsonValue::Text(y)) => x == y,
        (JsonValue::Arr(x), JsonValue::Arr(y)) => {
            &&& x@.len() == y@.len()
            &&& forall|i: int| 0 <= i < x@.len() ==> json_eq(#[trigger] x@[i], y@[i])
        }
        (JsonValue::Obj(x), JsonValue::Obj(y)) => {
            &&& x@.len() == y@.len()
            &&& forall|i: int| 0 <= i < x@.len()
                ==> (#[trigger] x@[i]).key == y@[i].key && json_eq(x@[i].value, y@[i].value)
        }
        _ => false,
    }
}

impl JsonValue {
    /// An owned structural copy of the document.
    pub fn deep_clone(&self) -> (r: JsonValue)
        ensures json_eq(r, *self),
        decreases *self,
    {
        match self {
            JsonValue::Null => JsonValue::Null,
            JsonValue::Bool(b) => JsonValue::Bool(*b),
            JsonValue::Num(n) => JsonValue::Num(n.clone_num()),
            JsonValue::Text(s) => JsonValue::Text(s.clone()),
            JsonValue::Arr(items) => {
                let mut out: Vec<JsonValue> = Vec::new();
                let mut i: usize = 0;
                while i < items.len()
                    invariant
                        i <= items.len(),
                        out@.len() == i as int,
                        forall|j: int| 0 <= j < i ==> json_eq(#[trigger] out@[j], items@[j]),
                    decreases items@.len() - i,
                {
                    let c = items[i].deep_clone();
                    out.push(c);
                    i = i + 1;
                }
                JsonValue::Arr(out)
            }
            JsonValue::Obj(members) => {
                let mut out: Vec<JsonMember> = Vec::new();
                let mut i: usize = 0;
                while i < members.len()
                    invariant
                        i <= members.len(),
                        out@.len() == i as int,
                        forall|j: int| 0 <= j < i
                            ==> (#[trigger] out@[j]).key == members@[j].key
                                && json_eq(out@[j].value, members@[j].value),
                    decreases members@.len() - i,
                {
                    let c = members[i].value.deep_clone();
                    let k = members[i].key.clone();
                    out.push(JsonMember { key: k, value: c });
                    i = i + 1;
                }
                JsonValue::Obj(out)
            }
        }
    }
}

} // verus!
