//! Sub-decoder for the structured business-hours payload (listing index 203).
//!
//! A day entry whose required slots are malformed is skipped; a malformed
//! bound pair or status block inside an otherwise well-formed entry is a
//! shape mismatch for the whole block.  A time range labelled `Closed`
//! decodes to [`DayTimeRange::Closed`]; any other label takes its bound pair
//! when one is present and an empty pair otherwise.
use vstd::prelude::*;
use crate::json::{JsonValue, JsonNumber};
use crate::decode::{
    ShapeError, vget, value_get, spec_text_at, get_text_at, spec_uint_at, get_uint_at,
    spec_arr_at, get_arr_at,
};
use crate::textutil::str_eq;
use crate::model::{
    BusinessHoursBlock, DailyScheduleEntry, DayTimeRange, DisplayStatus, HighlightMetadata,
    SpecBusinessHoursBlock, SpecDailyScheduleEntry, SpecDayTimeRange, SpecDisplayStatus,
    SpecTodayMeta, StatusHighlight, TodayMeta, business_hours_block_dv, daily_schedule_entry_dv,
    day_time_range_dv, display_status_dv, today_meta_dv,
};

verus! {

/// `None` read as zero, as the tolerant numeric slots do.
pub open spec fn u64_or_zero(o: Option<u64>) -> u64 {
    match o {
        Some(n) => n,
        None => 0,
    }
}

// ————————————————————————————————————————————————————————————————————————
// Time-range bounds
// ————————————————————————————————————————————————————————————————————————

/// A list of bytes: every element must be an integer in `0..=255`.
pub open spec fn spec_u8_list(items: Seq<JsonValue>) -> Option<Seq<u8>> {
    if forall|i: int| 0 <= i < items.len()
        ==> ((#[trigger] items[i]) matches JsonValue::Num(JsonNumber::Int(n)) && 0 <= n <= 255) {
        Some(Seq::new(items.len(), |i: int| (items[i]->Num_0->Int_0) as u8))
    } else {
        None
    }
}

fn decode_u8_list(items: &Vec<JsonValue>) -> (r: Option<Vec<u8>>)
    ensures
        match (r, spec_u8_list(items@)) {
            (Some(v), Some(s)) => v@ == s,
            (None, None) => true,
            _ => false,
        },
{
    let mut out: Vec<u8> = Vec::new();
    let mut i: usize = 0;
    while i < items.len()
        invariant
            i <= items.len(),
            out@.len() == i as int,
            forall|j: int| 0 <= j < i
                ==> ((#[trigger] items@[j]) matches JsonValue::Num(JsonNumber::Int(n)) && 0 <= n
                    <= 255),
            forall|j: int| 0 <= j < i ==> #[trigger] out@[j] == (items@[j]->Num_0->Int_0) as u8,
        decreases items@.len() - i,
    {
        match &items[i] {
            JsonValue::Num(JsonNumber::Int(n)) => {
                if *n < 0 || *n > 255 {
                    return None;
                }
                out.push(*n as u8);
            }
            _ => {
                return None;
            }
        }
        i = i + 1;
    }
    proof {
        assert(out@ =~= spec_u8_list(items@)->Some_0);
    }
    Some(out)
}

/// The bound pair of an open range: an array of exactly two byte lists.
pub open spec fn spec_bounds(v: JsonValue) -> Option<(Seq<u8>, Seq<u8>)> {
    match v {
        JsonValue::Arr(items) => if items@.len() == 2 {
            match (items@[0], items@[1]) {
                (JsonValue::Arr(a), JsonValue::Arr(b)) => match spec_u8_list(a@) {
                    Some(x) => match spec_u8_list(b@) {
                        Some(y) => Some((x, y)),
                        None => None,
                    },
                    None => None,
                },
                _ => None,
            }
        } else {
            None
        },
        _ => None,
    }
}

fn decode_bounds(v: &JsonValue) -> (r: Option<(Vec<u8>, Vec<u8>)>)
    ensures
        match (r, spec_bounds(*v)) {
            (Some(p), Some(s)) => p.0@ == s.0 && p.1@ == s.1,
            (None, None) => true,
            _ => false,
        },
{
    let items = match v.as_array() {
        Some(items) => items,
        None => {
            return None;
        }
    };
    if items.len() != 2 {
        return None;
    }
    let a = match &items[0] {
        JsonValue::Arr(a) => a,
        _ => {
            return None;
        }
    };
    let b = match &items[1] {
        JsonValue::Arr(b) => b,
        _ => {
            return None;
        }
    };
    let x = match decode_u8_list(a) {
        Some(x) => x,
        None => {
            return None;
        }
    };
    let y = match decode_u8_list(b) {
        Some(y) => y,
        None => {
            return None;
        }
    };
    Some((x, y))
}

// ————————————————————————————————————————————————————————————————————————
// Time ranges
// ————————————————————————————————————————————————————————————————————————

/// The label of a range entry; a missing or non-string slot reads as empty.
pub open spec fn spec_range_label(entry: JsonValue) -> Seq<char> {
    match vget(entry, 0) {
        Some(x) => match x {
            JsonValue::Text(s) => s@,
            _ => Seq::empty(),
        },
        None => Seq::empty(),
    }
}

/// One time range: `Closed` by label, otherwise an open range whose bound
/// pair must decode when the slot is present at all.
pub open spec fn spec_decode_time_range(entry: JsonValue) -> Result<SpecDayTimeRange, ShapeError> {
    let label = spec_range_label(entry);
    if label == "Closed"@ {
        Ok(SpecDayTimeRange::Closed)
    } else {
        match vget(entry, 1) {
            Some(bv) => match spec_bounds(bv) {
                Some(b) => Ok(SpecDayTimeRange::OpenRange { label, bounds: b }),
                None => Err(ShapeError),
            },
            None => Ok(SpecDayTimeRange::OpenRange {
                label,
                bounds: (Seq::empty(), Seq::empty()),
            }),
        }
    }
}

fn decode_time_range(entry: &JsonValue) -> (r: Result<DayTimeRange, ShapeError>)
    ensures
        match (r, spec_decode_time_range(*entry)) {
            (Ok(t), Ok(s)) => day_time_range_dv(t) == s,
            (Err(e1), Err(e2)) => e1 == e2,
            _ => false,
        },
{
    let label = match value_get(entry, 0) {
        Some(x) => match x.as_text() {
            Some(s) => s.clone(),
            None => String::new(),
        },
        None => String::new(),
    };
    if str_eq(label.as_str(), "Closed") {
        return Ok(DayTimeRange::Closed);
    }
    match value_get(entry, 1) {
        Some(bv) => match decode_bounds(bv) {
            Some(b) => Ok(DayTimeRange::OpenRange { label, bounds: b }),
            None => Err(ShapeError),
        },
        None => Ok(DayTimeRange::OpenRange { label, bounds: (Vec::new(), Vec::new()) }),
    }
}

/// Every range of the list must decode.
pub open spec fn spec_decode_time_ranges(items: Seq<JsonValue>) -> Result<Seq<SpecDayTimeRange>, ShapeError> {
    if forall|i: int| 0 <= i < items.len()
        ==> spec_decode_time_range(#[trigger] items[i]) is Ok {
        Ok(Seq::new(items.len(), |i: int| spec_decode_time_range(items[i])->Ok_0))
    } else {
        Err(ShapeError)
    }
}

fn decode_time_ranges(items: &Vec<JsonValue>) -> (r: Result<Vec<DayTimeRange>, ShapeError>)
    ensures
        match (r, spec_decode_time_ranges(items@)) {
            (Ok(v), Ok(s)) => v@.map_values(|t: DayTimeRange| day_time_range_dv(t)) == s,
            (Err(e1), Err(e2)) => e1 == e2,
            _ => false,
        },
{
    let mut out: Vec<DayTimeRange> = Vec::new();
    let mut i: usize = 0;
    while i < items.len()
        invariant
            i <= items.len(),
            out@.len() == i as int,
            forall|j: int| 0 <= j < i ==> spec_decode_time_range(#[trigger] items@[j]) is Ok,
            forall|j: int| 0 <= j < i
                ==> day_time_range_dv(#[trigger] out@[j]) == spec_decode_time_range(items@[j])->Ok_0,
        decreases items@.len() - i,
    {
        match decode_time_range(&items[i]) {
            Ok(t) => {
                out.push(t);
            }
            Err(e) => {
                return Err(e);
            }
        }
        i = i + 1;
    }
    proof {
        assert(out@.map_values(|t: DayTimeRange| day_time_range_dv(t)) =~= Seq::new(
            items@.len(),
            |i: int| spec_decode_time_range(items@[i])->Ok_0,
        ));
    }
    Ok(out)
}

// ————————————————————————————————————————————————————————————————————————
// Day entries
// ————————————————————————————————————————————————————————————————————————

/// The `[year, month, day]` triple of a day entry.
pub open spec fn spec_date(items: Seq<JsonValue>) -> Option<(u64, u64, u64)> {
    match spec_arr_at(items, 2) {
        Some(d) => match spec_uint_at(d, 0) {
            Some(y) => match spec_uint_at(d, 1) {
                Some(m) => match spec_uint_at(d, 2) {
                    Some(dd) => Some((y, m, dd)),
                    None => None,
                },
                None => None,
            },
            None => None,
        },
        None => None,
    }
}

/// One day entry.  `None` means the entry is skipped (a required slot is
/// missing); `Some(Err(..))` means a range inside it failed to decode.
pub open spec fn spec_decode_day(v: JsonValue) -> Option<Result<SpecDailyScheduleEntry, ShapeError>> {
    match v {
        JsonValue::Arr(items) => match spec_text_at(items@, 0) {
            Some(day_name) => match spec_uint_at(items@, 1) {
                Some(day_index) => match spec_date(items@) {
                    Some(date) => match spec_arr_at(items@, 3) {
                        Some(ranges) => match spec_decode_time_ranges(ranges) {
                            Ok(trs) => Some(Ok(SpecDailyScheduleEntry {
                                day_name,
                                day_index,
                                date,
                                time_ranges: trs,
                                flag: u64_or_zero(spec_uint_at(items@, 4)),
                                status_code: u64_or_zero(spec_uint_at(items@, 5)),
                            })),
                            Err(e) => Some(Err(e)),
                        },
                        None => None,
                    },
                    None => None,
                },
                None => None,
            },
            None => None,
        },
        _ => None,
    }
}

fn decode_day(v: &JsonValue) -> (r: Option<Result<DailyScheduleEntry, ShapeError>>)
    ensures
        match (r, spec_decode_day(*v)) {
            (Some(Ok(e)), Some(Ok(s))) => daily_schedule_entry_dv(e) == s,
            (Some(Err(e1)), Some(Err(e2))) => e1 == e2,
            (None, None) => true,
            _ => false,
        },
{
    let items = match v.as_array() {
        Some(items) => items,
        None => {
            return None;
        }
    };
    let day_name = match get_text_at(items, 0) {
        Some(day_name) => day_name,
        None => {
            return None;
        }
    };
    let day_index = match get_uint_at(items, 1) {
        Some(day_index) => day_index,
        None => {
            return None;
        }
    };
    let d = match get_arr_at(items, 2) {
        Some(d) => d,
        None => {
            return None;
        }
    };
    let y = match get_uint_at(d, 0) {
        Some(y) => y,
        None => {
            return None;
        }
    };
    let m = match get_uint_at(d, 1) {
        Some(m) => m,
        None => {
            return None;
        }
    };
    let dd = match get_uint_at(d, 2) {
        Some(dd) => dd,
        None => {
            return None;
        }
    };
    let ranges = match get_arr_at(items, 3) {
        Some(ranges) => ranges,
        None => {
            return None;
        }
    };
    let time_ranges = match decode_time_ranges(ranges) {
        Ok(trs) => trs,
        Err(e) => {
            return Some(Err(e));
        }
    };
    let flag = match get_uint_at(items, 4) {
        Some(n) => n,
        None => 0,
    };
    let status_code = match get_uint_at(items, 5) {
        Some(n) => n,
        None => 0,
    };
    Some(Ok(DailyScheduleEntry { day_name, day_index, date: (y, m, dd), time_ranges, flag, status_code }))
}

/// The weekly schedule: skipped entries are dropped, a failing entry fails
/// the schedule.
pub open spec fn spec_weekly(items: Seq<JsonValue>) -> Result<Seq<SpecDailyScheduleEntry>, ShapeError>
    decreases items.len(),
{
    if items.len() == 0 {
        Ok(Seq::empty())
    } else {
        match spec_weekly(items.drop_last()) {
            Ok(rest) => match spec_decode_day(items.last()) {
                Some(Ok(d)) => Ok(rest.push(d)),
                Some(Err(e)) => Err(e),
                None => Ok(rest),
            },
            Err(e) => Err(e),
        }
    }
}

proof fn lemma_weekly_err(items: Seq<JsonValue>, i: int, j: int)
    requires
        0 <= i <= j <= items.len(),
        spec_weekly(items.take(i)) is Err,
    ensures
        spec_weekly(items.take(j)) is Err,
    decreases j - i,
{
    if j > i {
        lemma_weekly_err(items, i, j - 1);
        assert(items.take(j).drop_last() =~= items.take(j - 1));
    }
}

fn decode_weekly(items: &Vec<JsonValue>) -> (r: Result<Vec<DailyScheduleEntry>, ShapeError>)
    ensures
        match (r, spec_weekly(items@)) {
            (Ok(v), Ok(s)) => v@.map_values(|e: DailyScheduleEntry| daily_schedule_entry_dv(e)) == s,
            (Err(e1), Err(e2)) => e1 == e2,
            _ => false,
        },
{
    let mut out: Vec<DailyScheduleEntry> = Vec::new();
    let mut i: usize = 0;
    proof {
        assert(items@.take(0) =~= Seq::<JsonValue>::empty());
        assert(out@.map_values(|e: DailyScheduleEntry| daily_schedule_entry_dv(e))
            =~= Seq::<SpecDailyScheduleEntry>::empty());
    }
    while i < items.len()
        invariant
            i <= items.len(),
            spec_weekly(items@.take(i as int)) == Ok::<_, ShapeError>(
                out@.map_values(|e: DailyScheduleEntry| daily_schedule_entry_dv(e)),
            ),
        decreases items@.len() - i,
    {
        proof {
            assert(items@.take(i + 1 as int).drop_last() =~= items@.take(i as int));
            assert(items@.take(i + 1 as int).last() == items@[i as int]);
        }
        match decode_day(&items[i]) {
            Some(Ok(e)) => {
                let ghost prev = out@;
                out.push(e);
                proof {
                    assert(out@.map_values(|e: DailyScheduleEntry| daily_schedule_entry_dv(e))
                        =~= prev.map_values(|e: DailyScheduleEntry| daily_schedule_entry_dv(e)).push(
                        daily_schedule_entry_dv(e),
                    ));
                }
            }
            Some(Err(e)) => {
                proof {
                    lemma_weekly_err(items@, i + 1 as int, items@.len() as int);
                    assert(items@.take(items@.len() as int) =~= items@);
                }
                return Err(e);
            }
            None => {}
        }
        i = i + 1;
    }
    assert(items@.take(items@.len() as int) =~= items@);
    Ok(out)
}

// ————————————————————————————————————————————————————————————————————————
// Status strings
// ————————————————————————————————————————————————————————————————————————

/// The stable identifier pair of a highlight: slot 1 must be an array of
/// exactly two non-negative integers.
pub open spec fn spec_decode_highlight_metadata(v: JsonValue) -> Result<HighlightMetadata, ShapeError> {
    match v {
        JsonValue::Arr(_) => match vget(v, 1) {
            Some(t) => match t {
                JsonValue::Arr(p) => if p@.len() == 2 {
                    match spec_uint_at(p@, 0) {
                        Some(a) => match spec_uint_at(p@, 1) {
                            Some(b) => Ok(HighlightMetadata { tokens: (a, b) }),
                            None => Err(ShapeError),
                        },
                        None => Err(ShapeError),
                    }
                } else {
                    Err(ShapeError)
                },
                _ => Err(ShapeError),
            },
            None => Err(ShapeError),
        },
        _ => Err(ShapeError),
    }
}

fn decode_highlight_metadata(v: &JsonValue) -> (r: Result<HighlightMetadata, ShapeError>)
    ensures
        r == spec_decode_highlight_metadata(*v),
{
    if !v.is_array() {
        return Err(ShapeError);
    }
    let t = match value_get(v, 1) {
        Some(t) => t,
        None => {
            return Err(ShapeError);
        }
    };
    let p = match t.as_array() {
        Some(p) => p,
        None => {
            return Err(ShapeError);
        }
    };
    if p.len() != 2 {
        return Err(ShapeError);
    }
    match get_uint_at(p, 0) {
        Some(a) => match get_uint_at(p, 1) {
            Some(b) => Ok(HighlightMetadata { tokens: (a, b) }),
            None => Err(ShapeError),
        },
        None => Err(ShapeError),
    }
}

/// One highlight span: tolerant offsets, but a present metadata slot must
/// decode.
pub open spec fn spec_decode_highlight(v: JsonValue) -> Result<StatusHighlight, ShapeError> {
    match v {
        JsonValue::Arr(items) => match vget(v, 2) {
            Some(m) => match spec_decode_highlight_metadata(m) {
                Ok(md) => Ok(StatusHighlight {
                    start_char: u64_or_zero(spec_uint_at(items@, 0)),
                    end_char: u64_or_zero(spec_uint_at(items@, 1)),
                    metadata: Some(md),
                }),
                Err(e) => Err(e),
            },
            None => Ok(StatusHighlight {
                start_char: u64_or_zero(spec_uint_at(items@, 0)),
                end_char: u64_or_zero(spec_uint_at(items@, 1)),
                metadata: None,
            }),
        },
        _ => Err(ShapeError),
    }
}

fn decode_highlight(v: &JsonValue) -> (r: Result<StatusHighlight, ShapeError>)
    ensures
        r == spec_decode_highlight(*v),
{
    let items = match v.as_array() {
        Some(items) => items,
        None => {
            return Err(ShapeError);
        }
    };
    let metadata = match value_get(v, 2) {
        Some(m) => match decode_highlight_metadata(m) {
            Ok(md) => Some(md),
            Err(e) => {
                return Err(e);
            }
        },
        None => None,
    };
    let start_char = match get_uint_at(items, 0) {
        Some(n) => n,
        None => 0,
    };
    let end_char = match get_uint_at(items, 1) {
        Some(n) => n,
        None => 0,
    };
    Ok(StatusHighlight { start_char, end_char, metadata })
}

/// The status text: slot 0 when it is a string, empty otherwise.
pub open spec fn spec_status_text(items: Seq<JsonValue>) -> Seq<char> {
    match spec_text_at(items, 0) {
        Some(s) => s@,
        None => Seq::empty(),
    }
}

/// The highlight list slot: slot 1 when it is an array, empty otherwise.
pub open spec fn spec_highlight_items(items: Seq<JsonValue>) -> Seq<JsonValue> {
    match spec_arr_at(items, 1) {
        Some(h) => h,
        None => Seq::empty(),
    }
}

/// Every highlight of the list must decode.
pub open spec fn spec_decode_highlights(hs: Seq<JsonValue>) -> Result<Seq<StatusHighlight>, ShapeError> {
    if forall|i: int| 0 <= i < hs.len() ==> spec_decode_highlight(#[trigger] hs[i]) is Ok {
        Ok(Seq::new(hs.len(), |i: int| spec_decode_highlight(hs[i])->Ok_0))
    } else {
        Err(ShapeError)
    }
}

/// A display status: its text (empty when missing) and its highlight list,
/// every element of which must decode.
pub open spec fn spec_decode_display_status(v: JsonValue) -> Result<SpecDisplayStatus, ShapeError> {
    match v {
        JsonValue::Arr(items) => match spec_decode_highlights(spec_highlight_items(items@)) {
            Ok(highlights) => Ok(SpecDisplayStatus { text: spec_status_text(items@), highlights }),
            Err(e) => Err(e),
        },
        _ => Err(ShapeError),
    }
}

fn decode_display_status(v: &JsonValue) -> (r: Result<DisplayStatus, ShapeError>)
    ensures
        match (r, spec_decode_display_status(*v)) {
            (Ok(s), Ok(sv)) => display_status_dv(s) == sv,
            (Err(e1), Err(e2)) => e1 == e2,
            _ => false,
        },
{
    let items = match v.as_array() {
        Some(items) => items,
        None => {
            return Err(ShapeError);
        }
    };
    let text = match get_text_at(items, 0) {
        Some(s) => s,
        None => String::new(),
    };
    let mut highlights: Vec<StatusHighlight> = Vec::new();
    let ghost hs = spec_highlight_items(items@);
    match get_arr_at(items, 1) {
        Some(hl) => {
            proof {
                assert(hs == hl@);
            }
            let mut i: usize = 0;
            while i < hl.len()
                invariant
                    i <= hl.len(),
                    hs == hl@,
                    highlights@.len() == i as int,
                    forall|j: int| 0 <= j < i ==> spec_decode_highlight(#[trigger] hl@[j]) is Ok,
                    forall|j: int| 0 <= j < i
                        ==> #[trigger] highlights@[j] == spec_decode_highlight(hl@[j])->Ok_0,
                decreases hl@.len() - i,
            {
                match decode_highlight(&hl[i]) {
                    Ok(h) => {
                        highlights.push(h);
                    }
                    Err(e) => {
                        proof {
                            assert(!(spec_decode_highlight(hs[i as int]) is Ok));
                            assert(spec_decode_highlights(hs) is Err);
                        }
                        return Err(e);
                    }
                }
                i = i + 1;
            }
            let s = DisplayStatus { text, highlights };
            proof {
                assert(spec_decode_highlights(hs) is Ok);
                assert(display_status_dv(s).highlights =~= spec_decode_highlights(hs)->Ok_0);
            }
            Ok(s)
        }
        None => {
            let s = DisplayStatus { text, highlights };
            proof {
                assert(hs =~= Seq::<JsonValue>::empty());
                assert(spec_decode_highlights(hs) is Ok);
                assert(display_status_dv(s).highlights =~= spec_decode_highlights(hs)->Ok_0);
            }
            Ok(s)
        }
    }
}

/// The status slot at index `i` of the today block: absent reads as `None`,
/// a present slot must decode.
pub open spec fn spec_status_at(v: JsonValue, i: int) -> Result<Option<SpecDisplayStatus>, ShapeError> {
    match vget(v, i) {
        Some(x) => match spec_decode_display_status(x) {
            Ok(ds) => Ok(Some(ds)),
            Err(e) => Err(e),
        },
        None => Ok(None),
    }
}

fn status_at(v: &JsonValue, i: usize) -> (r: Result<Option<DisplayStatus>, ShapeError>)
    ensures
        match (r, spec_status_at(*v, i as int)) {
            (Ok(Some(s)), Ok(Some(sv))) => display_status_dv(s) == sv,
            (Ok(None), Ok(None)) => true,
            (Err(e1), Err(e2)) => e1 == e2,
            _ => false,
        },
{
    match value_get(v, i) {
        Some(x) => match decode_display_status(x) {
            Ok(ds) => Ok(Some(ds)),
            Err(e) => Err(e),
        },
        None => Ok(None),
    }
}

// ————————————————————————————————————————————————————————————————————————
// The today block and the whole payload
// ————————————————————————————————————————————————————————————————————————

/// The today block: an optional mirrored day entry plus status strings.
pub open spec fn spec_decode_today(v: JsonValue) -> Result<SpecTodayMeta, ShapeError> {
    match v {
        JsonValue::Arr(items) => {
            let entry0 = match vget(v, 0) {
                Some(e0) => spec_decode_day(e0),
                None => None,
            };
            match entry0 {
                Some(Err(e)) => Err(e),
                _ => match spec_status_at(v, 4) {
                    Ok(status_text) => match spec_status_at(v, 5) {
                        Ok(status_text_repeat) => match spec_status_at(v, 8) {
                            Ok(simplified_status) => Ok(SpecTodayMeta {
                                entry: match entry0 {
                                    Some(Ok(d)) => Some(d),
                                    _ => None,
                                },
                                meta_flag_1: spec_uint_at(items@, 1),
                                open_status_code: spec_uint_at(items@, 2),
                                status_text,
                                status_text_repeat,
                                simplified_status,
                            }),
                            Err(e) => Err(e),
                        },
                        Err(e) => Err(e),
                    },
                    Err(e) => Err(e),
                },
            }
        },
        _ => Err(ShapeError),
    }
}

fn decode_today(v: &JsonValue) -> (r: Result<TodayMeta, ShapeError>)
    ensures
        match (r, spec_decode_today(*v)) {
            (Ok(t), Ok(s)) => today_meta_dv(t) == s,
            (Err(e1), Err(e2)) => e1 == e2,
            _ => false,
        },
{
    let items = match v.as_array() {
        Some(items) => items,
        None => {
            return Err(ShapeError);
        }
    };
    let entry = match value_get(v, 0) {
        Some(e0) => match decode_day(e0) {
            Some(Ok(d)) => Some(d),
            Some(Err(e)) => {
                return Err(e);
            }
            None => None,
        },
        None => None,
    };
    let status_text = match status_at(v, 4) {
        Ok(s) => s,
        Err(e) => {
            return Err(e);
        }
    };
    let status_text_repeat = match status_at(v, 5) {
        Ok(s) => s,
        Err(e) => {
            return Err(e);
        }
    };
    let simplified_status = match status_at(v, 8) {
        Ok(s) => s,
        Err(e) => {
            return Err(e);
        }
    };
    Ok(TodayMeta {
        entry,
        meta_flag_1: get_uint_at(items, 1),
        open_status_code: get_uint_at(items, 2),
        status_text,
        status_text_repeat,
        simplified_status,
    })
}

/// The whole hours payload: an optional weekly schedule at slot 0, a today
/// block at slot 1 that must decode whenever the slot exists, and two
/// tolerant numeric slots.
pub open spec fn spec_decode_hours(v: JsonValue) -> Result<SpecBusinessHoursBlock, ShapeError> {
    match v {
        JsonValue::Arr(items) => {
            let weekly = match spec_arr_at(items@, 0) {
                Some(entries) => match spec_weekly(entries) {
                    Ok(w) => Ok(Some(w)),
                    Err(e) => Err(e),
                },
                None => Ok(None),
            };
            match weekly {
                Ok(weekly_schedule) => {
                    let today = match vget(v, 1) {
                        Some(t) => match spec_decode_today(t) {
                            Ok(tm) => Ok(Some(tm)),
                            Err(e) => Err(e),
                        },
                        None => Ok(None),
                    };
                    match today {
                        Ok(today_status) => Ok(SpecBusinessHoursBlock {
                            weekly_schedule,
                            today_status,
                            schedule_type: spec_uint_at(items@, 2),
                            timezone_or_region_code: spec_uint_at(items@, 5),
                        }),
                        Err(e) => Err(e),
                    }
                },
                Err(e) => Err(e),
            }
        },
        _ => Err(ShapeError),
    }
}

pub fn decode_hours(v: &JsonValue) -> (r: Result<BusinessHoursBlock, ShapeError>)
    ensures
        match (r, spec_decode_hours(*v)) {
            (Ok(b), Ok(s)) => business_hours_block_dv(b) == s,
            (Err(e1), Err(e2)) => e1 == e2,
            _ => false,
        },
{
    let items = match v.as_array() {
        Some(items) => items,
        None => {
            return Err(ShapeError);
        }
    };
    let weekly_schedule = match get_arr_at(items, 0) {
        Some(entries) => match decode_weekly(entries) {
            Ok(w) => Some(w),
            Err(e) => {
                return Err(e);
            }
        },
        None => None,
    };
    let today_status = match value_get(v, 1) {
        Some(t) => match decode_today(t) {
            Ok(tm) => Some(tm),
            Err(e) => {
                return Err(e);
            }
        },
        None => None,
    };
    Ok(BusinessHoursBlock {
        weekly_schedule,
        today_status,
        schedule_type: get_uint_at(items, 2),
        timezone_or_region_code: get_uint_at(items, 5),
    })
}

} // verus!
