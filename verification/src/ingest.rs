//! The batch decoder: locate the listings array, classify and decode each
//! entry, and collect entities, per-entry failures and drift reports.
//!
//! One malformed listing never aborts the batch: its failure is recorded and
//! decoding continues with the next entry.
use vstd::prelude::*;
use crate::json::{json_eq, JsonValue};
use crate::parse::{json_of, parse_json};
use crate::envelope::{spec_unwrap_envelope, unwrap_envelope, EnvelopeError};
use crate::textutil::{has_prefix, str_has_prefix};
use crate::entity::{
    classify_entry, decode_business_entity, spec_classify, spec_decode_entity, spec_drift_indices,
    validate_drift, DriftKind, DriftRecord, EntityError,
};
use crate::model::{BusinessEntity, SpecBusinessEntity, entity_dv};

verus! {

/// Why a whole payload could not be decoded.
#[derive(Debug, Clone, Copy, PartialEq, Eq)]
pub enum DecodeError {
    /// The unwrapped document is not an array.
    PayloadNotAnArray,
    /// The document has no slot at the fixed listings offset.
    ListingsMissing,
    /// The slot at the listings offset is not an array.
    ListingsNotAnArray,
}

/// The listings array: the document must be an array with an array at the
/// fixed offset 64.
pub open spec fn spec_listings(v: JsonValue) -> Result<Seq<JsonValue>, DecodeError> {
    match v {
        JsonValue::Arr(top) => if top@.len() > 64 {
            match top@[64] {
                JsonValue::Arr(entries) => Ok(entries@),
                _ => Err(DecodeError::ListingsNotAnArray),
            }
        } else {
            Err(DecodeError::ListingsMissing)
        },
        _ => Err(DecodeError::PayloadNotAnArray),
    }
}

/// What one listings entry contributes to the batch.
pub enum SpecEntryOutcome {
    /// Classification or a fixed-shape block failed.
    Failed(EntityError),
    /// An advertised or other non-organic entry: dropped, with no error.
    Advertised,
    /// A decoded organic listing.
    Decoded(SpecBusinessEntity),
}

pub open spec fn spec_entry_outcome(entry: JsonValue) -> SpecEntryOutcome {
    match spec_classify(entry) {
        Err(e) => SpecEntryOutcome::Failed(e),
        Ok(None) => SpecEntryOutcome::Advertised,
        Ok(Some(inner)) => match spec_decode_entity(inner) {
            Ok(se) => SpecEntryOutcome::Decoded(se),
            Err(e) => SpecEntryOutcome::Failed(e),
        },
    }
}

/// The payload slots of an organic entry, empty for anything else.
pub open spec fn spec_entry_payload(entry: JsonValue) -> Seq<JsonValue> {
    match spec_classify(entry) {
        Ok(Some(inner)) => inner,
        _ => Seq::empty(),
    }
}

/// The decoded entities of the first `upto` entries, in listing order.
pub open spec fn spec_batch_entities(entries: Seq<JsonValue>, upto: int) -> Seq<SpecBusinessEntity>
    decreases upto,
{
    if upto <= 0 {
        Seq::empty()
    } else {
        let rest = spec_batch_entities(entries, upto - 1);
        match spec_entry_outcome(entries[upto - 1]) {
            SpecEntryOutcome::Decoded(se) => rest.push(se),
            _ => rest,
        }
    }
}

/// The `(entry index, error)` pairs of the first `upto` entries.
pub open spec fn spec_batch_failures(entries: Seq<JsonValue>, upto: int) -> Seq<(int, EntityError)>
    decreases upto,
{
    if upto <= 0 {
        Seq::empty()
    } else {
        let rest = spec_batch_failures(entries, upto - 1);
        match spec_entry_outcome(entries[upto - 1]) {
            SpecEntryOutcome::Failed(e) => rest.push((upto - 1, e)),
            _ => rest,
        }
    }
}

/// The drift signals of one entry: only a successfully decoded organic
/// listing is validated.
pub open spec fn spec_entry_drift(entry: JsonValue) -> Seq<(int, DriftKind)> {
    match spec_entry_outcome(entry) {
        SpecEntryOutcome::Decoded(_) => spec_drift_indices(
            spec_entry_payload(entry),
            spec_entry_payload(entry).len() as int,
        ),
        _ => Seq::empty(),
    }
}

/// The `(entry index, array index, kind)` triples of the first `upto`
/// entries.
pub open spec fn spec_batch_drift(entries: Seq<JsonValue>, upto: int) -> Seq<(int, int, DriftKind)>
    decreases upto,
{
    if upto <= 0 {
        Seq::empty()
    } else {
        spec_batch_drift(entries, upto - 1) + spec_entry_drift(entries[upto - 1]).map_values(
            |p: (int, DriftKind)| (upto - 1, p.0, p.1),
        )
    }
}

/// One per-entry failure of a batch decode.
#[derive(Debug, PartialEq, Eq)]
pub struct EntryFailure {
    pub entry_index: usize,
    pub error: EntityError,
}

/// Everything a batch decode returns: the entities in listing order, the
/// per-entry failures, and the drift reports.
#[derive(Debug, PartialEq, Eq)]
pub struct DecodeOutcome {
    pub entities: Vec<BusinessEntity>,
    pub failures: Vec<EntryFailure>,
    pub drift: Vec<DriftRecord>,
}

/// A drift record points into an organic entry of the batch and carries the
/// raw value found at the reported index.
pub open spec fn drift_raw_ok(entries: Seq<JsonValue>, d: DriftRecord) -> bool {
    &&& 0 <= d.entry_index < entries.len()
    &&& 0 <= d.index < spec_entry_payload(entries[d.entry_index as int]).len()
    &&& json_eq(d.raw, spec_entry_payload(entries[d.entry_index as int])[d.index as int])
}

/// The full contract of a successful batch decode against the listings
/// array.
pub open spec fn spec_outcome_ok(entries: Seq<JsonValue>, out: DecodeOutcome) -> bool {
    &&& out.entities@.map_values(|e: BusinessEntity| entity_dv(e)) == spec_batch_entities(
        entries,
        entries.len() as int,
    )
    &&& out.failures@.map_values(|f: EntryFailure| (f.entry_index as int, f.error))
        == spec_batch_failures(entries, entries.len() as int)
    &&& out.drift@.map_values(|d: DriftRecord| (d.entry_index as int, d.index as int, d.kind))
        == spec_batch_drift(entries, entries.len() as int)
    &&& forall|k: int| 0 <= k < out.drift@.len() ==> drift_raw_ok(entries, #[trigger] out.drift@[k])
}

/// Decodes an unwrapped payload document into its organic business entities,
/// per-entry failures and drift reports.
pub fn ingest_payload_extract_business_entities(value: &JsonValue) -> (r: Result<DecodeOutcome, DecodeError>)
    ensures
        match (r, spec_listings(*value)) {
            (Ok(out), Ok(entries)) => spec_outcome_ok(entries, out),
            (Err(e1), Err(e2)) => e1 == e2,
            _ => false,
        },
{
    let top = match value.as_array() {
        Some(top) => top,
        None => {
            return Err(DecodeError::PayloadNotAnArray);
        }
    };
    if top.len() <= 64 {
        return Err(DecodeError::ListingsMissing);
    }
    let entries = match top[64].as_array() {
        Some(entries) => entries,
        None => {
            return Err(DecodeError::ListingsNotAnArray);
        }
    };
    let n = entries.len();
    let mut entities: Vec<BusinessEntity> = Vec::new();
    let mut failures: Vec<EntryFailure> = Vec::new();
    let mut drift: Vec<DriftRecord> = Vec::new();
    let mut i: usize = 0;
    proof {
        assert(entities@.map_values(|e: BusinessEntity| entity_dv(e)) =~= Seq::<
            SpecBusinessEntity,
        >::empty());
        assert(failures@.map_values(|f: EntryFailure| (f.entry_index as int, f.error)) =~= Seq::<(
            int,
            EntityError,
        )>::empty());
        assert(drift@.map_values(|d: DriftRecord| (d.entry_index as int, d.index as int, d.kind))
            =~= Seq::<(int, int, DriftKind)>::empty());
    }
    while i < n
        invariant
            i <= n,
            n == entries@.len(),
            entities@.map_values(|e: BusinessEntity| entity_dv(e)) == spec_batch_entities(
                entries@,
                i as int,
            ),
            failures@.map_values(|f: EntryFailure| (f.entry_index as int, f.error))
                == spec_batch_failures(entries@, i as int),
            drift@.map_values(|d: DriftRecord| (d.entry_index as int, d.index as int, d.kind))
                == spec_batch_drift(entries@, i as int),
            forall|k: int| 0 <= k < drift@.len() ==> drift_raw_ok(entries@, #[trigger] drift@[k]),
        decreases n - i,
    {
        let ghost ent_prev = entities@;
        let ghost fail_prev = failures@;
        let ghost drift_prev = drift@;
        match classify_entry(&entries[i]) {
            Err(e) => {
                failures.push(EntryFailure { entry_index: i, error: e });
                proof {
                    assert(failures@.map_values(|f: EntryFailure| (f.entry_index as int, f.error))
                        =~= fail_prev.map_values(
                        |f: EntryFailure| (f.entry_index as int, f.error),
                    ).push((i as int, e)));
                    assert(spec_batch_drift(entries@, i + 1) =~= spec_batch_drift(
                        entries@,
                        i as int,
                    ));
                }
            }
            Ok(None) => {
                proof {
                    assert(spec_batch_drift(entries@, i + 1) =~= spec_batch_drift(
                        entries@,
                        i as int,
                    ));
                }
            }
            Ok(Some(inner)) => {
                match decode_business_entity(inner) {
                    Err(e) => {
                        failures.push(EntryFailure { entry_index: i, error: e });
                        proof {
                            assert(failures@.map_values(
                                |f: EntryFailure| (f.entry_index as int, f.error),
                            ) =~= fail_prev.map_values(
                                |f: EntryFailure| (f.entry_index as int, f.error),
                            ).push((i as int, e)));
                            assert(spec_batch_drift(entries@, i + 1) =~= spec_batch_drift(
                                entries@,
                                i as int,
                            ));
                        }
                    }
                    Ok(ent) => {
                        let mut recs = validate_drift(i, inner);
                        let ghost recs_view = recs@;
                        entities.push(ent);
                        drift.append(&mut recs);
                        proof {
                            assert(entities@.map_values(|e: BusinessEntity| entity_dv(e))
                                =~= ent_prev.map_values(|e: BusinessEntity| entity_dv(e)).push(
                                entity_dv(ent),
                            ));
                            assert(spec_entry_payload(entries@[i as int]) == inner@);
                            assert(recs_view.map_values(
                                |d: DriftRecord| (d.entry_index as int, d.index as int, d.kind),
                            ) =~= spec_entry_drift(entries@[i as int]).map_values(
                                |p: (int, DriftKind)| (i as int, p.0, p.1),
                            )) by {
                                assert(spec_entry_drift(entries@[i as int]) == recs_view.map_values(
                                    |d: DriftRecord| (d.index as int, d.kind),
                                ));
                            }
                            assert(drift@.map_values(
                                |d: DriftRecord| (d.entry_index as int, d.index as int, d.kind),
                            ) =~= drift_prev.map_values(
                                |d: DriftRecord| (d.entry_index as int, d.index as int, d.kind),
                            ) + recs_view.map_values(
                                |d: DriftRecord| (d.entry_index as int, d.index as int, d.kind),
                            ));
                            assert(forall|k: int| 0 <= k < drift@.len()
                                ==> drift_raw_ok(entries@, #[trigger] drift@[k])) by {
                                assert(forall|k: int| 0 <= k < drift_prev.len()
                                    ==> drift@[k] == drift_prev[k]);
                                assert(forall|k: int| drift_prev.len() <= k < drift@.len()
                                    ==> drift@[k] == recs_view[k - drift_prev.len()]);
                            }
                        }
                    }
                }
            }
        }
        i = i + 1;
    }
    Ok(DecodeOutcome { entities, failures, drift })
}

// ————————————————————————————————————————————————————————————————————————
// Text entry points
// ————————————————————————————————————————————————————————————————————————

/// Why a piece of payload text could not be decoded.
#[derive(Debug, Clone, Copy, PartialEq, Eq)]
pub enum PayloadTextError {
    /// The text is not valid JSON.
    InvalidJson,
    /// The document parsed but its shape is wrong.
    Decode(DecodeError),
}

/// What decoding a piece of already-unwrapped payload text must yield.
pub open spec fn spec_parse_outcome(text: Seq<char>, r: Result<DecodeOutcome, PayloadTextError>) -> bool {
    match json_of(text) {
        None => r == Err::<DecodeOutcome, PayloadTextError>(PayloadTextError::InvalidJson),
        Some(v) => match (r, spec_listings(v)) {
            (Ok(out), Ok(entries)) => spec_outcome_ok(entries, out),
            (Err(PayloadTextError::Decode(e1)), Err(e2)) => e1 == e2,
            _ => false,
        },
    }
}

/// Parses already-unwrapped payload text and decodes its listings.
pub fn parse_business_entities(payload: &str) -> (r: Result<DecodeOutcome, PayloadTextError>)
    ensures
        spec_parse_outcome(payload@, r),
{
    let value = match parse_json(payload) {
        Some(value) => value,
        None => {
            return Err(PayloadTextError::InvalidJson);
        }
    };
    match ingest_payload_extract_business_entities(&value) {
        Ok(out) => Ok(out),
        Err(e) => Err(PayloadTextError::Decode(e)),
    }
}

/// Why raw enveloped response text could not be decoded.
#[derive(Debug, Clone, Copy, PartialEq, Eq)]
pub enum EnvelopedTextError {
    /// The transport envelope is malformed.
    Envelope(EnvelopeError),
    /// The inner document's shape is wrong.
    Decode(DecodeError),
}

/// What decoding raw enveloped response text must yield.
pub open spec fn spec_enveloped_outcome(text: Seq<char>, r: Result<DecodeOutcome, EnvelopedTextError>) -> bool {
    match spec_unwrap_envelope(text) {
        Err(e) => r == Err::<DecodeOutcome, EnvelopedTextError>(EnvelopedTextError::Envelope(e)),
        Ok(v) => match (r, spec_listings(v)) {
            (Ok(out), Ok(entries)) => spec_outcome_ok(entries, out),
            (Err(EnvelopedTextError::Decode(e1)), Err(e2)) => e1 == e2,
            _ => false,
        },
    }
}

/// The thin composed entry point: strips the transport envelope, then
/// decodes the inner document's listings.
pub fn decode_enveloped_payload(text: &str) -> (r: Result<DecodeOutcome, EnvelopedTextError>)
    ensures
        spec_enveloped_outcome(text@, r),
{
    let value = match unwrap_envelope(text) {
        Ok(value) => value,
        Err(e) => {
            return Err(EnvelopedTextError::Envelope(e));
        }
    };
    match ingest_payload_extract_business_entities(&value) {
        Ok(out) => Ok(out),
        Err(e) => Err(EnvelopedTextError::Decode(e)),
    }
}

/// Whether a captured request URL is the local-results endpoint whose bodies
/// this crate decodes.
pub fn is_valid_url(url: &str) -> (r: bool)
    ensures
        r == has_prefix(url@, "https://www.google.com/search?tbm=map"@),
{
    str_has_prefix(url, "https://www.google.com/search?tbm=map")
}

} // verus!
