//! Sub-decoder for the service taxonomy (listing index 125), in its canonical
//! cluster form.
//!
//! This is the most nesting-fragile block of the format: the group list sits
//! at `root[0][0][1]`, each group's name at `[0][0]`, and each topic another
//! three arrays deep.  Shape mismatches fail loudly rather than defaulting,
//! so drift here is caught early.
use vstd::prelude::*;
use crate::json::JsonValue;
use crate::decode::{ShapeError, vget, value_get, spec_text_at, get_text_at, spec_text_elem, text_elem};
use crate::textutil::{is_blank, str_is_blank};
use crate::model::{
    ServiceCluster, ServiceGroup, ServiceTopic, SpecServiceGroup, service_cluster_dv,
    service_group_dv,
};

verus! {

/// One topic entry: the title/description pair sits at `entry[0][0]`, with a
/// blank description read as absent.
pub open spec fn spec_decode_topic(v: JsonValue) -> Result<ServiceTopic, ShapeError> {
    match vget(v, 0) {
        Some(mid) => match vget(mid, 0) {
            Some(ta) => match ta {
                JsonValue::Arr(slots) => match spec_text_at(slots@, 0) {
                    Some(title) => Ok(ServiceTopic {
                        title,
                        description: match spec_text_at(slots@, 1) {
                            Some(d) => if is_blank(d@) {
                                None
                            } else {
                                Some(d)
                            },
                            None => None,
                        },
                    }),
                    None => Err(ShapeError),
                },
                _ => Err(ShapeError),
            },
            None => Err(ShapeError),
        },
        None => Err(ShapeError),
    }
}

pub fn decode_topic(v: &JsonValue) -> (r: Result<ServiceTopic, ShapeError>)
    ensures
        r == spec_decode_topic(*v),
{
    let mid = match value_get(v, 0) {
        Some(mid) => mid,
        None => {
            return Err(ShapeError);
        }
    };
    let ta = match value_get(mid, 0) {
        Some(ta) => ta,
        None => {
            return Err(ShapeError);
        }
    };
    let slots = match ta.as_array() {
        Some(slots) => slots,
        None => {
            return Err(ShapeError);
        }
    };
    let title = match get_text_at(slots, 0) {
        Some(title) => title,
        None => {
            return Err(ShapeError);
        }
    };
    let description = match get_text_at(slots, 1) {
        Some(d) => if str_is_blank(d.as_str()) {
            None
        } else {
            Some(d)
        },
        None => None,
    };
    Ok(ServiceTopic { title, description })
}

/// One group: its category name at `group[0][0]` and its topic list at
/// `group[1]`, every topic of which must decode.
pub open spec fn spec_decode_group(v: JsonValue) -> Result<SpecServiceGroup, ShapeError> {
    match v {
        JsonValue::Arr(slots) => {
            let category = match vget(v, 0) {
                Some(head) => spec_text_elem(head, 0),
                None => None,
            };
            match category {
                Some(category) => match vget(v, 1) {
                    Some(tslot) => match tslot {
                        JsonValue::Arr(topics) => {
                            if forall|i: int| 0 <= i < topics@.len()
                                ==> spec_decode_topic(#[trigger] topics@[i]) is Ok {
                                Ok(SpecServiceGroup {
                                    category,
                                    topics: Seq::new(
                                        topics@.len(),
                                        |i: int| spec_decode_topic(topics@[i])->Ok_0,
                                    ),
                                })
                            } else {
                                Err(ShapeError)
                            }
                        },
                        _ => Err(ShapeError),
                    },
                    None => Err(ShapeError),
                },
                None => Err(ShapeError),
            }
        },
        _ => Err(ShapeError),
    }
}

pub fn decode_group(v: &JsonValue) -> (r: Result<ServiceGroup, ShapeError>)
    ensures
        match (r, spec_decode_group(*v)) {
            (Ok(g), Ok(s)) => service_group_dv(g) == s,
            (Err(e1), Err(e2)) => e1 == e2,
            _ => false,
        },
{
    if !v.is_array() {
        return Err(ShapeError);
    }
    let category = match value_get(v, 0) {
        Some(head) => text_elem(head, 0),
        None => None,
    };
    let category = match category {
        Some(category) => category,
        None => {
            return Err(ShapeError);
        }
    };
    let tslot = match value_get(v, 1) {
        Some(tslot) => tslot,
        None => {
            return Err(ShapeError);
        }
    };
    let topics_raw = match tslot {
        JsonValue::Arr(topics) => topics,
        _ => {
            return Err(ShapeError);
        }
    };
    let mut topics: Vec<ServiceTopic> = Vec::new();
    let mut i: usize = 0;
    while i < topics_raw.len()
        invariant
            i <= topics_raw.len(),
            topics@.len() == i as int,
            forall|j: int| 0 <= j < i ==> spec_decode_topic(#[trigger] topics_raw@[j]) is Ok,
            forall|j: int| 0 <= j < i
                ==> #[trigger] topics@[j] == spec_decode_topic(topics_raw@[j])->Ok_0,
        decreases topics_raw@.len() - i,
    {
        match decode_topic(&topics_raw[i]) {
            Ok(t) => {
                topics.push(t);
            }
            Err(e) => {
                return Err(e);
            }
        }
        i = i + 1;
    }
    let g = ServiceGroup { category, topics };
    proof {
        assert(service_group_dv(g).topics =~= Seq::new(
            topics_raw@.len(),
            |i: int| spec_decode_topic(topics_raw@[i])->Ok_0,
        ));
    }
    Ok(g)
}

/// The service cluster: the group list sits at `root[0][0][1]` and every
/// group must decode.
pub open spec fn spec_decode_service_cluster(v: JsonValue) -> Result<Seq<SpecServiceGroup>, ShapeError> {
    match vget(v, 0) {
        Some(a) => match vget(a, 0) {
            Some(b) => match vget(b, 1) {
                Some(root) => match root {
                    JsonValue::Arr(groups) => {
                        if forall|i: int| 0 <= i < groups@.len()
                            ==> spec_decode_group(#[trigger] groups@[i]) is Ok {
                            Ok(Seq::new(groups@.len(), |i: int| spec_decode_group(groups@[i])->Ok_0))
                        } else {
                            Err(ShapeError)
                        }
                    },
                    _ => Err(ShapeError),
                },
                None => Err(ShapeError),
            },
            None => Err(ShapeError),
        },
        None => Err(ShapeError),
    }
}

pub fn decode_service_cluster(v: &JsonValue) -> (r: Result<ServiceCluster, ShapeError>)
    ensures
        match (r, spec_decode_service_cluster(*v)) {
            (Ok(c), Ok(s)) => service_cluster_dv(c).groups == s,
            (Err(e1), Err(e2)) => e1 == e2,
            _ => false,
        },
{
    let a = match value_get(v, 0) {
        Some(a) => a,
        None => {
            return Err(ShapeError);
        }
    };
    let b = match value_get(a, 0) {
        Some(b) => b,
        None => {
            return Err(ShapeError);
        }
    };
    let root = match value_get(b, 1) {
        Some(root) => root,
        None => {
            return Err(ShapeError);
        }
    };
    let groups_raw = match root.as_array() {
        Some(groups) => groups,
        None => {
            return Err(ShapeError);
        }
    };
    let mut groups: Vec<ServiceGroup> = Vec::new();
    let mut i: usize = 0;
    while i < groups_raw.len()
        invariant
            i <= groups_raw.len(),
            groups@.len() == i as int,
            forall|j: int| 0 <= j < i ==> spec_decode_group(#[trigger] groups_raw@[j]) is Ok,
            forall|j: int| 0 <= j < i
                ==> service_group_dv(#[trigger] groups@[j]) == spec_decode_group(groups_raw@[j])->Ok_0,
        decreases groups_raw@.len() - i,
    {
        match decode_group(&groups_raw[i]) {
            Ok(g) => {
                groups.push(g);
            }
            Err(e) => {
                return Err(e);
            }
        }
        i = i + 1;
    }
    let c = ServiceCluster { groups };
    proof {
        assert(service_cluster_dv(c).groups =~= Seq::new(
            groups_raw@.len(),
            |i: int| spec_decode_group(groups_raw@[i])->Ok_0,
        ));
    }
    Ok(c)
}

} // verus!
