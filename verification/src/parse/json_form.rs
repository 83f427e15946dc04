//! The JSON offline exchange form.
//!
//! The document is an object with the members `_synthetic` (a boolean or `null`,
//! optional), `_note` (a string or `null`, optional) and `observations` (an array,
//! required), and no other member. Each observation is an object with the string
//! members `series`, `period`, `unit` and `frequency`, the member `value` (any JSON
//! value), the optional member `revision` (a string or `null`), and no other
//! member. Either object may also be written as an array of its members' values in
//! that order (an observation may leave out its last, optional member). Any
//! departure from this shape refuses the whole document as `Invalid`, with a fixed
//! message that carries no position.
//!
//! The document is read with serde_json into [`JsonValue`]; its objects keep one
//! value per key, the last one written, so a member written twice is taken with
//! its last value rather than refused.

use vstd::prelude::*;

use crate::error::{UkCbError, UkCbErrorKind, UkCbResult};
use crate::json::{read_json, spec_json_document, JsonValue, JsonView};
use crate::parse::{
    line_text, marker_fault, observation_matches, refused_with, synthetic_marker_check, Fault,
    RowSpec, ValueSpec,
};
use crate::text::{blank_text, decimal, is_blank, same_text, trim, trimmed};
use crate::value::{
    check_observation, frequency_refusal, joined, observation_fault, observation_refusal,
    parse_period, series_refusal, spec_parse_period, spec_series_text, unit_refusal, Frequency,
    UkCbAbsence, UkCbObservation, UkCbSeriesId, UkCbUnit, UkCbValue,
};

verus! {

/// The value of the first member named `key`, if any (`keys` and `values` in step).
pub open spec fn member(keys: Seq<Seq<char>>, values: Seq<JsonView>, key: Seq<char>) -> Option<
    JsonView,
>
    decreases keys.len(),
{
    if keys.len() == 0 {
        None
    } else if keys[0] == key {
        Some(values[0])
    } else {
        member(keys.drop_first(), values.drop_first(), key)
    }
}

/// A member name of the document object.
pub open spec fn is_file_key(k: Seq<char>) -> bool {
    k == "_synthetic"@ || k == "_note"@ || k == "observations"@
}

/// A member name of an observation object.
pub open spec fn is_item_key(k: Seq<char>) -> bool {
    k == "series"@ || k == "period"@ || k == "value"@ || k == "unit"@ || k == "frequency"@ || k
        == "revision"@
}

/// An optional boolean slot: absent or `null` gives none; another non-boolean is a fault.
pub open spec fn optional_bool(v: Option<JsonView>) -> Option<Option<bool>> {
    match v {
        None => Some(None),
        Some(JsonView::Null) => Some(None),
        Some(JsonView::Bool(b)) => Some(Some(b)),
        _ => None,
    }
}

/// An optional string slot: absent or `null` gives none; another non-string is a fault.
pub open spec fn optional_text(v: Option<JsonView>) -> Option<Option<Seq<char>>> {
    match v {
        None => Some(None),
        Some(JsonView::Null) => Some(None),
        Some(JsonView::Text(s)) => Some(Some(s)),
        _ => None,
    }
}

/// A required string slot.
pub open spec fn required_text(v: Option<JsonView>) -> Option<Seq<char>> {
    match v {
        Some(JsonView::Text(s)) => Some(s),
        _ => None,
    }
}

/// The slots of the document: `_synthetic`, `_note`, `observations`.
pub open spec fn file_slots(doc: JsonView) -> Option<(Option<JsonView>, Option<JsonView>, Option<JsonView>)> {
    match doc {
        JsonView::Object(ks, vs) => if forall|i: int| 0 <= i < ks.len() ==> is_file_key(#[trigger] ks[i]) {
            Some(
                (
                    member(ks, vs, "_synthetic"@),
                    member(ks, vs, "_note"@),
                    member(ks, vs, "observations"@),
                ),
            )
        } else {
            None
        },
        JsonView::Array(es) => if es.len() == 3 {
            Some((Some(es[0]), Some(es[1]), Some(es[2])))
        } else {
            None
        },
        _ => None,
    }
}

/// The slots of an observation: `series`, `period`, `value`, `unit`, `frequency`, `revision`.
pub open spec fn item_slots(v: JsonView) -> Option<Seq<Option<JsonView>>> {
    match v {
        JsonView::Object(ks, vs) => if forall|i: int| 0 <= i < ks.len() ==> is_item_key(#[trigger] ks[i]) {
            Some(
                seq![
                    member(ks, vs, "series"@),
                    member(ks, vs, "period"@),
                    member(ks, vs, "value"@),
                    member(ks, vs, "unit"@),
                    member(ks, vs, "frequency"@),
                    member(ks, vs, "revision"@),
                ],
            )
        } else {
            None
        },
        JsonView::Array(es) => if es.len() == 5 {
            Some(seq![Some(es[0]), Some(es[1]), Some(es[2]), Some(es[3]), Some(es[4]), None])
        } else if es.len() == 6 {
            Some(seq![Some(es[0]), Some(es[1]), Some(es[2]), Some(es[3]), Some(es[4]), Some(es[5])])
        } else {
            None
        },
        _ => None,
    }
}

/// The members of one observation, as the document holds them.
pub struct JsonRawItem {
    /// `series`.
    pub series: Seq<char>,
    /// `period`.
    pub period: Seq<char>,
    /// `value`.
    pub value: JsonView,
    /// `unit`.
    pub unit: Seq<char>,
    /// `frequency`.
    pub frequency: Seq<char>,
    /// `revision`.
    pub revision: Option<Seq<char>>,
}

/// The members of the document.
pub struct JsonRawFile {
    /// `_synthetic`.
    pub synthetic: Option<bool>,
    /// `_note`.
    pub note: Option<Seq<char>>,
    /// `observations`.
    pub items: Seq<JsonRawItem>,
}

/// One observation of the right shape, or `None`.
pub open spec fn json_item(v: JsonView) -> Option<JsonRawItem> {
    match item_slots(v) {
        None => None,
        Some(f) => match (
            required_text(f[0]),
            required_text(f[1]),
            f[2],
            required_text(f[3]),
            required_text(f[4]),
            optional_text(f[5]),
        ) {
            (Some(series), Some(period), Some(value), Some(unit), Some(frequency), Some(revision)) => Some(
                JsonRawItem { series, period, value, unit, frequency, revision },
            ),
            _ => None,
        },
    }
}

/// The document's `_synthetic` and `_note`, and the elements of `observations`,
/// if those slots have the right types.
pub open spec fn file_parts(doc: JsonView) -> Option<(Option<bool>, Option<Seq<char>>, Seq<JsonView>)> {
    match file_slots(doc) {
        None => None,
        Some((s, n, o)) => match (optional_bool(s), optional_text(n), o) {
            (Some(synthetic), Some(note), Some(JsonView::Array(list))) => Some(
                (synthetic, note, list),
            ),
            _ => None,
        },
    }
}

/// The document's members if it has the right shape, or `None`.
pub open spec fn json_shape(doc: JsonView) -> Option<JsonRawFile> {
    match file_parts(doc) {
        None => None,
        Some((synthetic, note, list)) => if forall|i: int|
            0 <= i < list.len() ==> #[trigger] json_item(list[i]) is Some {
            Some(
                JsonRawFile {
                    synthetic,
                    note,
                    items: Seq::new(list.len(), |i: int| json_item(list[i])->Some_0),
                },
            )
        } else {
            None
        },
    }
}

/// How a JSON `value` describes the value: a number is present, `null` or a blank
/// string is blank, another string is a marker; a boolean, array or object is a fault.
pub open spec fn json_value(v: JsonView) -> Option<ValueSpec> {
    match v {
        JsonView::Number(n) => Some(ValueSpec::Numeral(n)),
        JsonView::Null => Some(ValueSpec::Blank),
        JsonView::Text(s) => Some(
            if is_blank(s) {
                ValueSpec::Blank
            } else {
                ValueSpec::Marker
            },
        ),
        _ => None,
    }
}

/// The message refusing a JSON `value` that is a boolean, an array or an object.
pub open spec fn value_refusal() -> Seq<char> {
    "JSON 取值只接受数值、null 或字符串标记"@
}

/// The message refusing a document whose structure departs from the form.
pub open spec fn shape_refusal() -> Seq<char> {
    "JSON 形态非法：结构与离线交换形态不符（未知字段、缺必需字段或类型不符）"@
}

/// The message refusing a document with a syntax error at `line` and `column`.
pub open spec fn syntax_refusal(line: int, column: int) -> Seq<char> {
    "JSON 形态非法（第 "@ + decimal(line as nat) + " 行第 "@ + decimal(column as nat) + " 列）"@
}

/// The observation one item describes, or its first refusal: series, period,
/// value, unit, frequency, then the observation's own checks.
pub open spec fn json_row(item: JsonRawItem) -> Result<RowSpec, Fault> {
    match spec_series_text(item.series) {
        Err(k) => Err(Fault { kind: k, message: series_refusal(item.series) }),
        Ok(series) => match spec_parse_period(item.period) {
            Err(m) => Err(Fault { kind: UkCbErrorKind::Invalid, message: m }),
            Ok(period) => match json_value(item.value) {
                None => Err(Fault { kind: UkCbErrorKind::Invalid, message: value_refusal() }),
                Some(value) => match UkCbUnit::spec_from(trim(item.unit)) {
                    None => Err(
                        Fault {
                            kind: UkCbErrorKind::SemanticallyRejected,
                            message: unit_refusal(),
                        },
                    ),
                    Some(unit) => match Frequency::spec_from(trim(item.frequency)) {
                        None => Err(
                            Fault {
                                kind: UkCbErrorKind::NotApplicable,
                                message: frequency_refusal(),
                            },
                        ),
                        Some(frequency) => {
                            let revision = match item.revision {
                                Some(t) => if is_blank(t) {
                                    None
                                } else {
                                    Some(trim(t))
                                },
                                None => None,
                            };
                            match observation_fault(period, true, revision, frequency) {
                                Some(k) => Err(
                                    Fault {
                                        kind: k,
                                        message: observation_refusal(
                                            period,
                                            true,
                                            revision,
                                            frequency,
                                        ),
                                    },
                                ),
                                None => Ok(
                                    RowSpec { series, period, value, unit, frequency, revision },
                                ),
                            }
                        },
                    },
                },
            },
        },
    }
}

/// The observations the items describe, or the first item's refusal.
pub open spec fn json_rows(items: Seq<JsonRawItem>) -> Result<Seq<RowSpec>, Fault>
    decreases items.len(),
{
    if items.len() == 0 {
        Ok(Seq::empty())
    } else {
        match json_row(items[0]) {
            Err(f) => Err(f),
            Ok(row) => match json_rows(items.drop_first()) {
                Err(f) => Err(f),
                Ok(rest) => Ok(seq![row] + rest),
            },
        }
    }
}

/// What a JSON document, once read into values, describes, or its refusal: a
/// departure from the shape is `Invalid`; then the synthetic label is checked
/// (`_synthetic` exactly `true`, a non-blank `_note`); then the items in order.
pub open spec fn json_file(doc: JsonView) -> Result<Seq<RowSpec>, Fault> {
    match json_shape(doc) {
        None => Err(Fault { kind: UkCbErrorKind::Invalid, message: shape_refusal() }),
        Some(raw) => match marker_fault(
            raw.synthetic,
            match raw.note {
                Some(n) => !is_blank(n),
                None => false,
            },
        ) {
            Some(f) => Err(f),
            None => json_rows(raw.items),
        },
    }
}

/// What a JSON input describes, or its refusal: a syntax error (with its line and
/// column) is `Invalid`; a document that reads is taken as [`json_file`] says.
pub open spec fn json_document(input: Seq<char>) -> Result<Seq<RowSpec>, Fault> {
    match spec_json_document(input) {
        Err((line, column)) => Err(
            Fault { kind: UkCbErrorKind::Invalid, message: syntax_refusal(line, column) },
        ),
        Ok(doc) => json_file(doc),
    }
}

/// The values that JSON documents describe are numbers, blanks and markers, never
/// cells for the numeral reader.
pub open spec fn reads_no_cells(rows: Seq<RowSpec>) -> bool {
    forall|i: int| 0 <= i < rows.len() ==> !(#[trigger] rows[i].value is Token)
}

proof fn lemma_json_rows_read_no_cells(items: Seq<JsonRawItem>)
    ensures
        json_rows(items) matches Ok(rows) ==> reads_no_cells(rows),
    decreases items.len(),
{
    if items.len() > 0 {
        lemma_json_rows_read_no_cells(items.drop_first());
        if let Ok(rows) = json_rows(items) {
            let rest = json_rows(items.drop_first())->Ok_0;
            assert forall|i: int| 0 <= i < rows.len() implies !(#[trigger] rows[i].value is Token) by {
                if i > 0 {
                    assert(rows[i] == rest[i - 1]);
                }
            }
        }
    }
}

/// The value a slot holds, by its view.
pub open spec fn slot_view(r: Option<&JsonValue>) -> Option<JsonView> {
    match r {
        Some(x) => Some(x@),
        None => None,
    }
}

/// An optional text, by its view.
pub open spec fn text_view(r: Option<&String>) -> Option<Seq<char>> {
    match r {
        Some(x) => Some(x@),
        None => None,
    }
}

proof fn lemma_member_step(ks: Seq<Seq<char>>, vs: Seq<JsonView>, i: int, key: Seq<char>)
    requires
        0 <= i < ks.len(),
        ks.len() == vs.len(),
    ensures
        member(ks.subrange(i, ks.len() as int), vs.subrange(i, vs.len() as int), key) == if ks[i]
            == key {
            Some(vs[i])
        } else {
            member(ks.subrange(i + 1, ks.len() as int), vs.subrange(i + 1, vs.len() as int), key)
        },
{
    assert(ks.subrange(i, ks.len() as int).drop_first() =~= ks.subrange(i + 1, ks.len() as int));
    assert(vs.subrange(i, vs.len() as int).drop_first() =~= vs.subrange(i + 1, vs.len() as int));
}

fn lookup<'a>(v: &'a JsonValue, key: &str) -> (r: Option<&'a JsonValue>)
    requires
        v@ is Object,
    ensures
        slot_view(r) == member(v@->Object_0, v@->Object_1, key@),
{
    match v {
        JsonValue::Object(ms) => {
            let ghost ks = v@->Object_0;
            let ghost vs = v@->Object_1;
            assert(ks.subrange(0, ks.len() as int) =~= ks);
            assert(vs.subrange(0, vs.len() as int) =~= vs);
            let mut i: usize = 0;
            while i < ms.len()
                invariant
                    0 <= i <= ms@.len(),
                    ks == v@->Object_0,
                    vs == v@->Object_1,
                    ks.len() == ms@.len(),
                    vs.len() == ms@.len(),
                    forall|j: int| 0 <= j < ms@.len() ==> #[trigger] ks[j] == ms@[j].0@,
                    forall|j: int| 0 <= j < ms@.len() ==> #[trigger] vs[j] == ms@[j].1@,
                    member(ks, vs, key@) == member(
                        ks.subrange(i as int, ks.len() as int),
                        vs.subrange(i as int, vs.len() as int),
                        key@,
                    ),
                decreases ms@.len() - i,
            {
                proof {
                    lemma_member_step(ks, vs, i as int, key@);
                }
                assert(ks[i as int] == ms@[i as int].0@);
                assert(vs[i as int] == ms@[i as int].1@);
                if same_text(ms[i].0.as_str(), key) {
                    return Some(&ms[i].1);
                }
                i = i + 1;
            }
            assert(ks.subrange(i as int, ks.len() as int) =~= Seq::<Seq<char>>::empty());
            None
        },
        _ => None,
    }
}

fn keys_known(v: &JsonValue, item: bool) -> (r: bool)
    requires
        v@ is Object,
    ensures
        item ==> (r == forall|i: int|
            0 <= i < v@->Object_0.len() ==> is_item_key(#[trigger] v@->Object_0[i])),
        !item ==> (r == forall|i: int|
            0 <= i < v@->Object_0.len() ==> is_file_key(#[trigger] v@->Object_0[i])),
{
    match v {
        JsonValue::Object(ms) => {
            let ghost ks = v@->Object_0;
            let mut i: usize = 0;
            while i < ms.len()
                invariant
                    0 <= i <= ms@.len(),
                    ks == v@->Object_0,
                    ks.len() == ms@.len(),
                    forall|j: int| 0 <= j < ms@.len() ==> #[trigger] ks[j] == ms@[j].0@,
                    item ==> forall|j: int| 0 <= j < i ==> is_item_key(#[trigger] ks[j]),
                    !item ==> forall|j: int| 0 <= j < i ==> is_file_key(#[trigger] ks[j]),
                decreases ms@.len() - i,
            {
                let k = ms[i].0.as_str();
                assert(ks[i as int] == k@);
                let known = if item {
                    same_text(k, "series") || same_text(k, "period") || same_text(k, "value")
                        || same_text(k, "unit") || same_text(k, "frequency") || same_text(
                        k,
                        "revision",
                    )
                } else {
                    same_text(k, "_synthetic") || same_text(k, "_note") || same_text(
                        k,
                        "observations",
                    )
                };
                proof {
                    reveal_strlit("series");
                    reveal_strlit("period");
                    reveal_strlit("value");
                    reveal_strlit("unit");
                    reveal_strlit("frequency");
                    reveal_strlit("revision");
                }
                if !known {
                    assert(item ==> !is_item_key(ks[i as int]));
                    assert(!item ==> !is_file_key(ks[i as int]));
                    return false;
                }
                i = i + 1;
            }
            true
        },
        _ => false,
    }
}

fn required_text_of(x: Option<&JsonValue>) -> (r: Option<&String>)
    ensures
        text_view(r) == required_text(slot_view(x)),
{
    match x {
        Some(JsonValue::Text(s)) => Some(s),
        _ => None,
    }
}

fn optional_text_of(x: Option<&JsonValue>) -> (r: Option<Option<&String>>)
    ensures
        match optional_text(slot_view(x)) {
            None => r is None,
            Some(t) => r matches Some(y) && text_view(y) == t,
        },
{
    match x {
        None => Some(None),
        Some(JsonValue::Null) => Some(None),
        Some(JsonValue::Text(s)) => Some(Some(s)),
        _ => None,
    }
}

fn optional_bool_of(x: Option<&JsonValue>) -> (r: Option<Option<bool>>)
    ensures
        r == optional_bool(slot_view(x)),
{
    match x {
        None => Some(None),
        Some(JsonValue::Null) => Some(None),
        Some(JsonValue::Bool(b)) => Some(Some(*b)),
        _ => None,
    }
}

/// The members of one observation, borrowed from the document.
type ItemParts<'a> = (&'a String, &'a String, &'a JsonValue, &'a String, &'a String, Option<&'a String>);

/// Whether `p` holds the members that `item` describes.
pub open spec fn parts_match(p: (&String, &String, &JsonValue, &String, &String, Option<&String>), item: JsonRawItem) -> bool {
    &&& p.0@ == item.series
    &&& p.1@ == item.period
    &&& p.2@ == item.value
    &&& p.3@ == item.unit
    &&& p.4@ == item.frequency
    &&& text_view(p.5) == item.revision
}

fn item_parts<'a>(v: &'a JsonValue) -> (r: Option<ItemParts<'a>>)
    ensures
        match json_item(v@) {
            None => r is None,
            Some(item) => r matches Some(p) && parts_match(p, item),
        },
{
    proof {
        reveal_strlit("series");
        reveal_strlit("period");
        reveal_strlit("value");
        reveal_strlit("unit");
        reveal_strlit("frequency");
        reveal_strlit("revision");
    }
    let slots: [Option<&JsonValue>; 6] = match v {
        JsonValue::Object(_) => {
            if !keys_known(v, true) {
                return None;
            }
            [
                lookup(v, "series"),
                lookup(v, "period"),
                lookup(v, "value"),
                lookup(v, "unit"),
                lookup(v, "frequency"),
                lookup(v, "revision"),
            ]
        },
        JsonValue::Array(es) => {
            if es.len() == 5 {
                [Some(&es[0]), Some(&es[1]), Some(&es[2]), Some(&es[3]), Some(&es[4]), None]
            } else if es.len() == 6 {
                [Some(&es[0]), Some(&es[1]), Some(&es[2]), Some(&es[3]), Some(&es[4]), Some(&es[5])]
            } else {
                return None;
            }
        },
        _ => {
            return None;
        },
    };
    let ghost f = item_slots(v@)->Some_0;
    assert(forall|k: int| 0 <= k < 6 ==> slot_view(#[trigger] slots@[k]) == f[k]);
    let series = required_text_of(slots[0]);
    let period = required_text_of(slots[1]);
    let unit = required_text_of(slots[3]);
    let frequency = required_text_of(slots[4]);
    let revision = optional_text_of(slots[5]);
    match (series, period, slots[2], unit, frequency, revision) {
        (Some(s), Some(p), Some(x), Some(u), Some(fq), Some(rv)) => Some((s, p, x, u, fq, rv)),
        _ => None,
    }
}

fn value_of(x: &JsonValue) -> (r: UkCbResult<UkCbValue>)
    ensures
        match json_value(x@) {
            None => refused_with(r, Fault { kind: UkCbErrorKind::Invalid, message: value_refusal() }),
            Some(spec) => r matches Ok(v) && crate::parse::value_matches(
                v,
                spec,
                |s: &str| true,
            ),
        },
{
    match x {
        JsonValue::Number(n) => Ok(UkCbValue::Present(n.clone())),
        JsonValue::Null => Ok(UkCbValue::Absent(UkCbAbsence::BlankInSource)),
        JsonValue::Text(t) => Ok(
            UkCbValue::Absent(
                if blank_text(t.as_str()) {
                    UkCbAbsence::BlankInSource
                } else {
                    UkCbAbsence::ExplicitMarker
                },
            ),
        ),
        _ => Err(UkCbError::Invalid(String::from_str("JSON 取值只接受数值、null 或字符串标记"))),
    }
}

proof fn lemma_array_view(v: &JsonValue)
    ensures
        v matches JsonValue::Array(items) ==> v@->Array_0.len() == items@.len() && forall|i: int|
            0 <= i < items@.len() ==> #[trigger] v@->Array_0[i] == items@[i]@,
{
}

fn file_parts_of<'a>(doc: &'a JsonValue) -> (r: Option<
    (Option<bool>, Option<&'a String>, &'a Vec<JsonValue>),
>)
    ensures
        match file_parts(doc@) {
            None => r is None,
            Some((synthetic, note, list)) => r matches Some(p) && p.0 == synthetic && text_view(p.1)
                == note && p.2@.len() == list.len() && forall|i: int|
                0 <= i < list.len() ==> #[trigger] p.2@[i]@ == list[i],
        },
{
    proof {
        reveal_strlit("_synthetic");
        reveal_strlit("_note");
        reveal_strlit("observations");
    }
    let slots: [Option<&JsonValue>; 3] = match doc {
        JsonValue::Object(_) => {
            if !keys_known(doc, false) {
                return None;
            }
            [lookup(doc, "_synthetic"), lookup(doc, "_note"), lookup(doc, "observations")]
        },
        JsonValue::Array(es) => {
            if es.len() == 3 {
                [Some(&es[0]), Some(&es[1]), Some(&es[2])]
            } else {
                return None;
            }
        },
        _ => {
            return None;
        },
    };
    proof {
        lemma_array_view(doc);
    }
    let ghost f = file_slots(doc@)->Some_0;
    assert(slot_view(slots[0]) == f.0 && slot_view(slots[1]) == f.1 && slot_view(slots[2]) == f.2);
    let synthetic = optional_bool_of(slots[0]);
    let note = optional_text_of(slots[1]);
    match (synthetic, note, slots[2]) {
        (Some(s), Some(n), Some(observations)) => match observations {
            JsonValue::Array(list) => {
                proof {
                    lemma_array_view(observations);
                }
                Some((s, n, list))
            },
            _ => None,
        },
        _ => None,
    }
}

/// The raw item that borrowed members `p` hold.
pub open spec fn raw_item_of(p: (&String, &String, &JsonValue, &String, &String, Option<&String>)) -> JsonRawItem {
    JsonRawItem {
        series: p.0@,
        period: p.1@,
        value: p.2@,
        unit: p.3@,
        frequency: p.4@,
        revision: text_view(p.5),
    }
}

fn item_observation(p: ItemParts) -> (r: UkCbResult<UkCbObservation>)
    ensures
        match json_row(raw_item_of(p)) {
            Err(f) => refused_with(r, f),
            Ok(row) => r matches Ok(o) && observation_matches(o, row, |s: &str| true),
        },
{
    let (series_text, period_text, value_json, unit_text, frequency_text, revision_text) = p;
    let series = match UkCbSeriesId::parse(series_text.as_str()) {
        Ok(id) => id,
        Err(e) => return Err(e),
    };
    let period = match parse_period(period_text.as_str()) {
        Ok(x) => x,
        Err(e) => return Err(e),
    };
    let value = match value_of(value_json) {
        Ok(v) => v,
        Err(e) => return Err(e),
    };
    let unit = match UkCbUnit::parse(trimmed(unit_text.as_str()).as_str()) {
        Ok(u) => u,
        Err(e) => return Err(e),
    };
    let frequency = match Frequency::parse(trimmed(frequency_text.as_str()).as_str()) {
        Ok(f) => f,
        Err(e) => return Err(e),
    };
    let revision = match revision_text {
        Some(t) => if blank_text(t.as_str()) {
            None
        } else {
            Some(trimmed(t.as_str()))
        },
        None => None,
    };
    match check_observation(&period, true, &revision, frequency) {
        Ok(()) => {},
        Err(e) => return Err(e),
    }
    Ok(UkCbObservation { series, period, value, unit, frequency, revision })
}

/// `rows` followed by the observations `rest` describes (a fault stays a fault).
pub open spec fn after_rows(rows: Seq<RowSpec>, rest: Result<Seq<RowSpec>, Fault>) -> Result<
    Seq<RowSpec>,
    Fault,
> {
    match rest {
        Err(f) => Err(f),
        Ok(r) => Ok(rows + r),
    }
}

proof fn lemma_rows_step(items: Seq<JsonRawItem>, i: int, rows: Seq<RowSpec>)
    requires
        0 <= i < items.len(),
    ensures
        after_rows(rows, json_rows(items.subrange(i, items.len() as int))) == match json_row(
            items[i],
        ) {
            Err(f) => Err(f),
            Ok(row) => after_rows(rows.push(row), json_rows(items.subrange(i + 1, items.len() as int))),
        },
{
    assert(items.subrange(i, items.len() as int).drop_first() =~= items.subrange(
        i + 1,
        items.len() as int,
    ));
    match json_row(items[i]) {
        Err(k) => {},
        Ok(row) => {
            match json_rows(items.subrange(i + 1, items.len() as int)) {
                Err(k) => {},
                Ok(rest) => {
                    assert(rows + (seq![row] + rest) =~= rows.push(row) + rest);
                },
            }
        },
    }
}

/// The observations of a JSON document that has been read into values, exactly as
/// [`json_file`] describes them (the JSON half of the offline parser, after the
/// document is read).
pub fn json_observations(doc: &JsonValue) -> (r: UkCbResult<Vec<UkCbObservation>>)
    ensures
        crate::parse::parsed_as(r, json_file(doc@), |s: &str| true),
{
    let shape_fault = "JSON 形态非法：结构与离线交换形态不符（未知字段、缺必需字段或类型不符）";
    let (synthetic, note, list) = match file_parts_of(doc) {
        Some(p) => p,
        None => return Err(UkCbError::Invalid(String::from_str(shape_fault))),
    };
    let ghost parts = file_parts(doc@)->Some_0;
    let ghost views = parts.2;
    let mut members: Vec<ItemParts> = Vec::new();
    let mut i: usize = 0;
    while i < list.len()
        invariant
            0 <= i <= list@.len(),
            file_parts(doc@) == Some(parts),
            views == parts.2,
            list@.len() == views.len(),
            forall|j: int| 0 <= j < views.len() ==> #[trigger] list@[j]@ == views[j],
            forall|j: int| 0 <= j < i ==> #[trigger] json_item(views[j]) is Some,
            members@.len() == i,
            forall|j: int|
                0 <= j < i ==> parts_match(#[trigger] members@[j], json_item(views[j])->Some_0),
            shape_fault@ == shape_refusal(),
        decreases list@.len() - i,
    {
        match item_parts(&list[i]) {
            Some(p) => members.push(p),
            None => {
                assert(json_item(views[i as int]) is None);
                assert(json_shape(doc@) is None);
                return Err(UkCbError::Invalid(String::from_str(shape_fault)));
            },
        }
        i = i + 1;
    }
    let ghost raw = json_shape(doc@)->Some_0;
    assert(json_shape(doc@) is Some);
    let note_present = match note {
        Some(t) => !blank_text(t.as_str()),
        None => false,
    };
    match synthetic_marker_check(synthetic, note_present) {
        Ok(()) => {},
        Err(e) => return Err(e),
    }
    let ghost items = raw.items;
    let mut observations: Vec<UkCbObservation> = Vec::new();
    let ghost mut rows: Seq<RowSpec> = Seq::empty();
    assert(items.subrange(0, items.len() as int) =~= items);
    assert(rows + json_rows(items)->Ok_0 =~= json_rows(items)->Ok_0);
    let mut k: usize = 0;
    while k < members.len()
        invariant
            0 <= k <= members@.len(),
            members@.len() == items.len(),
            forall|j: int| 0 <= j < items.len() ==> parts_match(#[trigger] members@[j], items[j]),
            json_file(doc@) == after_rows(rows, json_rows(items.subrange(k as int, items.len() as int))),
            observations@.len() == rows.len(),
            forall|j: int|
                0 <= j < rows.len() ==> observation_matches(
                    #[trigger] observations@[j],
                    rows[j],
                    |s: &str| true,
                ),
        decreases members@.len() - k,
    {
        proof {
            lemma_rows_step(items, k as int, rows);
        }
        let p = members[k];
        assert(raw_item_of(p) == items[k as int]);
        match item_observation(p) {
            Ok(o) => {
                let ghost row = json_row(items[k as int])->Ok_0;
                observations.push(o);
                proof {
                    rows = rows.push(row);
                }
            },
            Err(e) => return Err(e),
        }
        k = k + 1;
    }
    assert(items.subrange(items.len() as int, items.len() as int) =~= Seq::<JsonRawItem>::empty());
    assert(rows + Seq::<RowSpec>::empty() =~= rows);
    Ok(observations)
}

/// Parses a JSON input into observations (the JSON half of the offline parser).
pub(crate) fn parse_json<F: Fn(&str) -> bool>(input: &str, numeral: &F) -> (r: UkCbResult<
    Vec<UkCbObservation>,
>)
    ensures
        crate::parse::parsed_as(r, json_document(input@), *numeral),
{
    let doc = match read_json(input) {
        Ok(d) => d,
        Err((line, column)) => {
            let mut msg = joined("JSON 形态非法（第 ", line_text(line).as_str());
            msg.append(" 行第 ");
            msg.append(line_text(column).as_str());
            msg.append(" 列）");
            return Err(UkCbError::Invalid(msg));
        },
    };
    let r = json_observations(&doc);
    proof {
        if let Ok(rows) = json_file(doc@) {
            let raw = json_shape(doc@)->Some_0;
            lemma_json_rows_read_no_cells(raw.items);
            assert forall|i: int| 0 <= i < rows.len() implies observation_matches(
                #[trigger] r->Ok_0@[i],
                rows[i],
                *numeral,
            ) by {
                assert(observation_matches(r->Ok_0@[i], rows[i], |s: &str| true));
                assert(!(rows[i].value is Token));
            }
        }
    }
    r
}

} // verus!
