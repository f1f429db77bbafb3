//! The library's stated laws, as proof functions over the decoder's spec
//! functions.  The drift-detection invariant itself lives beside the
//! validator in [`crate::entity`].
use vstd::prelude::*;
use crate::json::JsonValue;
use crate::model::{BusinessEntity, entity_dv};
use crate::entity::{spec_decode_entity, spec_field_geo_hierarchy, EntityError};
use crate::decode_blocks::{
    spec_decode_fulfillment, spec_fulfillment_platform_managed, spec_fulfillment_vendor_block,
};
use crate::decode_hours::{spec_bounds, spec_decode_time_range, spec_range_label};
use crate::model::SpecDayTimeRange;
use crate::ingest::{
    spec_batch_drift, spec_batch_entities, spec_batch_failures, spec_entry_outcome,
    spec_parse_outcome, DecodeOutcome, EntryFailure, PayloadTextError, SpecEntryOutcome,
};
use crate::entity::DriftRecord;

verus! {

/// Decoding is deterministic: two decodes of the same payload text yield
/// structurally equal entities, failures and drift reports.  Nothing of the
/// outcome depends on iteration order or the clock.
pub proof fn lemma_decode_deterministic(
    text: Seq<char>,
    r1: Result<DecodeOutcome, PayloadTextError>,
    r2: Result<DecodeOutcome, PayloadTextError>,
)
    requires
        spec_parse_outcome(text, r1),
        spec_parse_outcome(text, r2),
    ensures
        r1 is Ok <==> r2 is Ok,
        r1 is Ok ==> (r1->Ok_0).entities@.map_values(|e: BusinessEntity| entity_dv(e)) == (
        r2->Ok_0).entities@.map_values(|e: BusinessEntity| entity_dv(e)),
        r1 is Ok ==> (r1->Ok_0).failures@.map_values(
            |f: EntryFailure| (f.entry_index as int, f.error),
        ) == (r2->Ok_0).failures@.map_values(|f: EntryFailure| (f.entry_index as int, f.error)),
        r1 is Ok ==> (r1->Ok_0).drift@.map_values(
            |d: DriftRecord| (d.entry_index as int, d.index as int, d.kind),
        ) == (r2->Ok_0).drift@.map_values(
            |d: DriftRecord| (d.entry_index as int, d.index as int, d.kind),
        ),
        r1 is Err ==> r1 == r2,
{
}

/// Decoding is idempotent over the raw listings array: any two outcomes of
/// decoding the same array are structurally equal, with no state carried
/// between calls.
pub proof fn lemma_decode_idempotent(entries: Seq<JsonValue>, o1: DecodeOutcome, o2: DecodeOutcome)
    requires
        crate::ingest::spec_outcome_ok(entries, o1),
        crate::ingest::spec_outcome_ok(entries, o2),
    ensures
        o1.entities@.map_values(|e: BusinessEntity| entity_dv(e)) == o2.entities@.map_values(
            |e: BusinessEntity| entity_dv(e),
        ),
        o1.failures@.map_values(|f: EntryFailure| (f.entry_index as int, f.error))
            == o2.failures@.map_values(|f: EntryFailure| (f.entry_index as int, f.error)),
        o1.drift@.map_values(|d: DriftRecord| (d.entry_index as int, d.index as int, d.kind))
            == o2.drift@.map_values(
            |d: DriftRecord| (d.entry_index as int, d.index as int, d.kind),
        ),
{
}

/// An entry classified as advertised/other contributes neither an entity nor
/// a failure nor drift: the batch is exactly as if the decoder had not seen
/// it.
pub proof fn lemma_advertised_entry_silent(entries: Seq<JsonValue>, i: int)
    requires
        0 <= i < entries.len(),
        spec_entry_outcome(entries[i]) == SpecEntryOutcome::Advertised,
    ensures
        spec_batch_entities(entries, i + 1) == spec_batch_entities(entries, i),
        spec_batch_failures(entries, i + 1) == spec_batch_failures(entries, i),
        spec_batch_drift(entries, i + 1) == spec_batch_drift(entries, i),
{
    assert(spec_batch_drift(entries, i + 1) =~= spec_batch_drift(entries, i));
}

/// A `[null, x]` entry whose payload `x` is not an array is advertised, and
/// so never yields an error.
pub proof fn lemma_non_array_payload_is_advertised(entry: JsonValue)
    requires
        entry is Arr,
        entry->Arr_0@.len() == 2,
        entry->Arr_0@[0] is Null,
        !(entry->Arr_0@[1] is Arr),
    ensures
        spec_entry_outcome(entry) == SpecEntryOutcome::Advertised,
{
}

/// The fulfillment decode branches structurally: the vendor-block path is
/// taken exactly when element 2 of the block is itself an array, the
/// platform-managed path otherwise.
pub proof fn lemma_fulfillment_path_selection(v: JsonValue)
    requires
        v is Arr,
    ensures
        2 < v->Arr_0@.len() && v->Arr_0@[2] is Arr ==> spec_decode_fulfillment(v)
            == spec_fulfillment_vendor_block(v->Arr_0@),
        !(2 < v->Arr_0@.len() && v->Arr_0@[2] is Arr) ==> spec_decode_fulfillment(v)
            == spec_fulfillment_platform_managed(v->Arr_0@),
{
}

/// A day's time range labelled `Closed` decodes to the closed marker; any
/// other label takes its present bound pair, or an explicit empty-bounds
/// open range when the bounds slot is missing, rather than failing.
pub proof fn lemma_time_range_by_label(entry: JsonValue)
    ensures
        spec_range_label(entry) == "Closed"@ ==> spec_decode_time_range(entry) == Ok::<
            SpecDayTimeRange,
            crate::decode::ShapeError,
        >(SpecDayTimeRange::Closed),
        spec_range_label(entry) != "Closed"@ && crate::decode::vget(entry, 1) is None
            ==> spec_decode_time_range(entry) == Ok::<SpecDayTimeRange, crate::decode::ShapeError>(
            SpecDayTimeRange::OpenRange {
                label: spec_range_label(entry),
                bounds: (Seq::empty(), Seq::empty()),
            },
        ),
        ({
            &&& spec_range_label(entry) != "Closed"@
            &&& crate::decode::vget(entry, 1) matches Some(bv) && spec_bounds(bv) is Some
        }) ==> spec_decode_time_range(entry) == Ok::<
            SpecDayTimeRange,
            crate::decode::ShapeError,
        >(
            SpecDayTimeRange::OpenRange {
                label: spec_range_label(entry),
                bounds: spec_bounds(crate::decode::vget(entry, 1)->0) ->0,
            },
        ),
{
}

/// The geo-containment hierarchy is only consulted when the listing array
/// has exactly 246 elements; at any other length the field is absent and the
/// entity still decodes (as far as that block is concerned).
pub proof fn lemma_geo_hierarchy_length_guard(items: Seq<JsonValue>)
    requires
        items.len() != 246,
    ensures
        spec_field_geo_hierarchy(items) == Ok::<
            Option<crate::model::SpecGeoContainmentHierarchy>,
            EntityError,
        >(None::<crate::model::SpecGeoContainmentHierarchy>),
        spec_decode_entity(items) is Ok ==> (spec_decode_entity(
            items,
        )->Ok_0).geographic_contextualization_metadata is None,
{
}

} // verus!
