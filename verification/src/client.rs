//! Types shared with the browser-automation layer.  The browser itself, the
//! tabs and the waiting logic are asynchronous I/O and live outside the
//! library; only the plain data and the anchor-list decode belong here.
use vstd::prelude::*;
use crate::json::{JsonValue, JsonMember};
use crate::parse::{json_of, parse_json};
use crate::envelope::spec_obj_lookup;
use crate::decode::ShapeError;
use crate::textutil::str_eq;

verus! {

/// How the browser window is run.
#[derive(Debug, Clone, Copy, Default, PartialEq, Eq)]
pub enum HeadlessMode {
    /// The "headful" mode.
    False,
    /// The old headless mode.
    #[default]
    True,
    /// The new headless mode.
    New,
}

/// Settings for starting a browser client.
#[derive(Debug, Default)]
pub struct WebClientSettings {
    pub headless_mode: Option<HeadlessMode>,
}

/// An operation ran out of time.
#[derive(Debug, PartialEq, Eq)]
pub struct TimeoutError(pub String);

/// One scraped anchor: its target and its text.
#[derive(Debug, PartialEq, Eq)]
pub struct Link {
    pub href: String,
    pub text: String,
}

/// One scraped-link object: both the `href` and `text` members must be
/// strings.
pub open spec fn spec_decode_link(v: JsonValue) -> Result<Link, ShapeError> {
    match v {
        JsonValue::Obj(members) => match spec_obj_lookup(members@, "href"@) {
            Some(JsonValue::Text(href)) => match spec_obj_lookup(members@, "text"@) {
                Some(JsonValue::Text(text)) => Ok(Link { href, text }),
                _ => Err(ShapeError),
            },
            _ => Err(ShapeError),
        },
        _ => Err(ShapeError),
    }
}

fn obj_get<'a>(members: &'a Vec<JsonMember>, key: &str) -> (r: Option<&'a JsonValue>)
    ensures
        match r {
            Some(v) => spec_obj_lookup(members@, key@) == Some(*v),
            None => spec_obj_lookup(members@, key@) is None,
        },
{
    let n = members.len();
    let mut i: usize = 0;
    while i < n
        invariant
            i <= n,
            n == members@.len(),
            forall|j: int| 0 <= j < i ==> (#[trigger] members@[j]).key@ != key@,
        decreases n - i,
    {
        if str_eq(members[i].key.as_str(), key) {
            proof {
                crate::envelope::lemma_obj_lookup_skip(members@, key@, i as int);
                assert(members@.skip(i as int)[0] == members@[i as int]);
            }
            return Some(&members[i].value);
        }
        i = i + 1;
    }
    proof {
        crate::envelope::lemma_obj_lookup_skip(members@, key@, n as int);
        assert(members@.skip(n as int) =~= Seq::<JsonMember>::empty());
    }
    None
}

fn decode_link(v: &JsonValue) -> (r: Result<Link, ShapeError>)
    ensures
        r == spec_decode_link(*v),
{
    let members = match v {
        JsonValue::Obj(members) => members,
        _ => {
            return Err(ShapeError);
        }
    };
    let href = match obj_get(members, "href") {
        Some(JsonValue::Text(href)) => href.clone(),
        _ => {
            return Err(ShapeError);
        }
    };
    match obj_get(members, "text") {
        Some(JsonValue::Text(text)) => Ok(Link { href, text: text.clone() }),
        _ => Err(ShapeError),
    }
}

/// What parsing a scraped-anchor list must yield: a JSON array of link
/// objects, each of which must decode.
pub open spec fn spec_parse_link_list(source: Seq<char>) -> Result<Seq<Link>, ShapeError> {
    match json_of(source) {
        Some(JsonValue::Arr(items)) => {
            if forall|i: int| 0 <= i < items@.len() ==> spec_decode_link(#[trigger] items@[i]) is Ok {
                Ok(Seq::new(items@.len(), |i: int| spec_decode_link(items@[i])->Ok_0))
            } else {
                Err(ShapeError)
            }
        },
        _ => Err(ShapeError),
    }
}

impl Link {
    /// Parses the JSON list of anchors that the scrape snippet returns.
    pub fn parse_list(source: &str) -> (r: Result<Vec<Link>, ShapeError>)
        ensures
            match (r, spec_parse_link_list(source@)) {
                (Ok(v), Ok(s)) => v@ == s,
                (Err(e1), Err(e2)) => e1 == e2,
                _ => false,
            },
    {
        let items = match parse_json(source) {
            Some(JsonValue::Arr(items)) => items,
            _ => {
                return Err(ShapeError);
            }
        };
        let mut out: Vec<Link> = Vec::new();
        let mut i: usize = 0;
        while i < items.len()
            invariant
                i <= items.len(),
                out@.len() == i as int,
                forall|j: int| 0 <= j < i ==> spec_decode_link(#[trigger] items@[j]) is Ok,
                forall|j: int| 0 <= j < i
                    ==> #[trigger] out@[j] == spec_decode_link(items@[j])->Ok_0,
            decreases items@.len() - i,
        {
            match decode_link(&items[i]) {
                Ok(l) => {
                    out.push(l);
                }
                Err(e) => {
                    return Err(e);
                }
            }
            i = i + 1;
        }
        proof {
            assert(out@ =~= spec_parse_link_list(source@)->Ok_0);
        }
        Ok(out)
    }
}

} // verus!
