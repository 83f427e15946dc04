//! The offline parser: text in one of the declared exchange forms → observations.
//!
//! The CSV and JSON forms are this layer's own offline exchange forms, not the
//! Bank's file layouts. There is no network parameter of any kind.
//!
//! Four hard rules:
//!
//! 1. the curve source S07 is routed to `yield_curve` before anything else;
//! 2. only explicitly labelled synthetic samples are accepted (`_synthetic: true`
//!    and a non-blank `_note`, both required);
//! 3. unknown fields fail the whole input (CSV header and JSON structure alike);
//! 4. a repeated identity (same series and business period) fails the whole input —
//!    it is rejected, never deduplicated.
//!
//! Sources whose manifest "form" names no format (S02 / S06 / S08 / S09) and the
//! formats that are not built (xlsx / ZIP / XML / Excel) get `NotApplicable`.

pub mod csv;
pub mod json_form;

pub use csv::{csv_document, csv_row, csv_scan, csv_step, CsvScan, CSV_HEADER};
pub use json_form::{
    json_document, json_file, json_item, json_observations, json_shape, JsonRawFile, JsonRawItem,
};

use csv::parse_csv;
use json_form::parse_json;

use vstd::prelude::*;

use crate::error::{UkCbError, UkCbErrorKind, UkCbResult};
use crate::text::{decimal, decimal_text, same_text, trim};
use crate::value::{
    curve_refusal, guard_curve, reads_as, revision_view, spec_source_plans, Frequency, Period,
    UkCbAbsence, UkCbFormat, UkCbObservation, UkCbSourceId, UkCbUnit, UkCbValue,
};

verus! {

/// How an input describes the value of one observation.
pub enum ValueSpec {
    /// A JSON number, kept as its spelling: a present value.
    Numeral(Seq<char>),
    /// An empty cell, `null` or a blank string: missing because blank.
    Blank,
    /// A non-blank JSON string: missing, with a marker.
    Marker,
    /// A non-blank CSV cell (trimmed): present if the numeral reader takes it as a
    /// finite number, otherwise missing with a marker.
    Token(Seq<char>),
}

/// One observation as an input describes it.
pub struct RowSpec {
    /// Series identifier (trimmed).
    pub series: Seq<char>,
    /// Business period.
    pub period: Period,
    /// Value.
    pub value: ValueSpec,
    /// Unit.
    pub unit: UkCbUnit,
    /// Frequency.
    pub frequency: Frequency,
    /// Revision tag (trimmed; absent when blank).
    pub revision: Option<Seq<char>>,
}

/// Whether `value` is what the description `v` yields, `numeral` deciding CSV cells.
pub open spec fn value_matches<F: Fn(&str) -> bool>(value: UkCbValue, v: ValueSpec, numeral: F) -> bool {
    match v {
        ValueSpec::Numeral(t) => value matches UkCbValue::Present(p) && p@ == t,
        ValueSpec::Blank => value == UkCbValue::Absent(UkCbAbsence::BlankInSource),
        ValueSpec::Marker => value == UkCbValue::Absent(UkCbAbsence::ExplicitMarker),
        ValueSpec::Token(t) => (value matches UkCbValue::Present(p) && p@ == t && reads_as(
            numeral,
            t,
            true,
        )) || (value == UkCbValue::Absent(UkCbAbsence::ExplicitMarker) && reads_as(
            numeral,
            t,
            false,
        )),
    }
}

/// Whether observation `o` is what the description `row` yields.
pub open spec fn observation_matches<F: Fn(&str) -> bool>(
    o: UkCbObservation,
    row: RowSpec,
    numeral: F,
) -> bool {
    &&& o.series@ == row.series
    &&& o.period == row.period
    &&& value_matches(o.value, row.value, numeral)
    &&& o.unit == row.unit
    &&& o.frequency == row.frequency
    &&& revision_view(o.revision) == row.revision
}

/// A refusal as the parser reports it: the error's kind and its message.
pub struct Fault {
    /// The kind of the error.
    pub kind: UkCbErrorKind,
    /// The message the error carries.
    pub message: Seq<char>,
}

/// Whether `r` is the refusal `f`: an error of its kind carrying its message.
pub open spec fn refused_with<T>(r: UkCbResult<T>, f: Fault) -> bool {
    r matches Err(e) && e.spec_kind() == f.kind && e.spec_detail() == f.message
}

/// The fault of the synthetic labelling: `_synthetic` must be exactly `true` and
/// a non-blank `_note` must be present.
pub open spec fn marker_fault(synthetic: Option<bool>, note_present: bool) -> Option<Fault> {
    match synthetic {
        Some(true) => if note_present {
            None
        } else {
            Some(
                Fault {
                    kind: UkCbErrorKind::SemanticallyRejected,
                    message: "样本缺少非空 `_note` 说明：合成样本须自带可直接阅读的说明"@,
                },
            )
        },
        Some(false) => Some(
            Fault {
                kind: UkCbErrorKind::SemanticallyRejected,
                message: "样本声明 `_synthetic: false`：本层只接受显式标注的合成样本"@,
            },
        ),
        None => Some(
            Fault {
                kind: UkCbErrorKind::SemanticallyRejected,
                message: "样本缺少 `_synthetic: true` 标注：本层只接受显式标注的合成样本"@,
            },
        ),
    }
}

/// Whether two of the described observations share series and business period.
pub open spec fn has_repeated_identity(rows: Seq<RowSpec>) -> bool {
    exists|i: int, j: int|
        0 <= i < j < rows.len() && #[trigger] rows[i].series == #[trigger] rows[j].series
            && rows[i].period == rows[j].period
}

/// Whether the observation at `j` repeats the identity of an earlier one.
pub open spec fn repeats_earlier(rows: Seq<RowSpec>, j: int) -> bool {
    exists|i: int|
        0 <= i < j && #[trigger] rows[i].series == rows[j].series && rows[i].period
            == rows[j].period
}

/// The first position, from `j` on, whose observation repeats an earlier identity.
pub open spec fn first_repeat(rows: Seq<RowSpec>, j: nat) -> Option<nat>
    decreases rows.len() - j,
{
    if j >= rows.len() {
        None
    } else if repeats_earlier(rows, j as int) {
        Some(j)
    } else {
        first_repeat(rows, j + 1)
    }
}

/// The message refusing a repeated identity at the `position`-th observation
/// (counted from 1); it gives the position only, not the series.
pub open spec fn repeat_refusal(position: nat) -> Seq<char> {
    "重复身份：序列 + 业务期间在样本内出现两次（第 "@ + decimal(position) + " 条观测）"@
}

/// The first format in `formats` that the offline parser implements.
pub open spec fn first_implemented(formats: Seq<UkCbFormat>) -> Option<UkCbFormat>
    decreases formats.len(),
{
    if formats.len() == 0 {
        None
    } else if formats[0].spec_offline_implemented() {
        Some(formats[0])
    } else {
        first_implemented(formats.drop_first())
    }
}

/// The names of `formats`, separated by ` / `.
pub open spec fn format_names(formats: Seq<UkCbFormat>) -> Seq<char>
    decreases formats.len(),
{
    if formats.len() == 0 {
        Seq::empty()
    } else if formats.len() == 1 {
        formats[0].spec_str()
    } else {
        format_names(formats.drop_last()) + " / "@ + formats.last().spec_str()
    }
}

/// The message refusing a source whose plan names no implemented format.
pub open spec fn unimplemented_refusal(formats: Seq<UkCbFormat>) -> Seq<char> {
    if formats.len() == 0 {
        "该源在清单「形式」列未点名格式，离线解析不实现（不得猜格式）"@
    } else {
        "清单点名的格式 "@ + format_names(formats) + " 均未落地，不得假装已支持"@
    }
}

/// What `input` describes in the offline form of `source` — the first implemented
/// format of the source's plan (none → `NotApplicable`) — before identities are
/// compared.
pub open spec fn spec_described(source: UkCbSourceId, input: Seq<char>) -> Result<
    Seq<RowSpec>,
    Fault,
> {
    let formats = spec_source_plans()[source.spec_index()].formats@;
    match first_implemented(formats) {
        Some(UkCbFormat::Csv) => csv_document(input),
        Some(UkCbFormat::Json) => json_document(input),
        _ => Err(
            Fault { kind: UkCbErrorKind::NotApplicable, message: unimplemented_refusal(formats) },
        ),
    }
}

/// What parsing `input` as source `source` describes, or the refusal.
///
/// The curve source is routed first; then the input is read in the source's form
/// ([`spec_described`]); the first observation that repeats an earlier identity
/// fails the whole input.
pub open spec fn spec_parse(source: UkCbSourceId, input: Seq<char>) -> Result<
    Seq<RowSpec>,
    Fault,
> {
    if source == UkCbSourceId::S07 {
        Err(Fault { kind: UkCbErrorKind::RoutedElsewhere, message: curve_refusal() })
    } else {
        match spec_described(source, input) {
            Err(f) => Err(f),
            Ok(rows) => match first_repeat(rows, 0) {
                Some(j) => Err(
                    Fault {
                        kind: UkCbErrorKind::SemanticallyRejected,
                        message: repeat_refusal(j + 1),
                    },
                ),
                None => Ok(rows),
            },
        }
    }
}

/// Whether `r` is the outcome that the description `d` calls for.
pub open spec fn parsed_as<F: Fn(&str) -> bool>(
    r: UkCbResult<Vec<UkCbObservation>>,
    d: Result<Seq<RowSpec>, Fault>,
    numeral: F,
) -> bool {
    match d {
        Err(f) => refused_with(r, f),
        Ok(rows) => r matches Ok(obs) && obs@.len() == rows.len() && forall|i: int|
            0 <= i < rows.len() ==> observation_matches(#[trigger] obs@[i], rows[i], numeral),
    }
}

/// The first repeated position exists exactly when some identity is repeated.
pub proof fn lemma_first_repeat(rows: Seq<RowSpec>, j: nat)
    requires
        j <= rows.len(),
    ensures
        first_repeat(rows, j) is Some <==> exists|b: int|
            j <= b < rows.len() && #[trigger] repeats_earlier(rows, b),
        first_repeat(rows, j) matches Some(b) ==> j <= b < rows.len() && repeats_earlier(
            rows,
            b as int,
        ),
    decreases rows.len() - j,
{
    if j < rows.len() {
        lemma_first_repeat(rows, j + 1);
        if first_repeat(rows, j) is None {
            assert forall|b: int| j <= b < rows.len() implies !#[trigger] repeats_earlier(
                rows,
                b,
            ) by {
                if b == j {
                } else {
                    assert(j + 1 <= b);
                }
            }
        }
    }
}

/// Some identity is repeated exactly when a first repeated position exists.
pub proof fn lemma_repeated_identity_has_a_first(rows: Seq<RowSpec>)
    ensures
        has_repeated_identity(rows) <==> first_repeat(rows, 0) is Some,
{
    lemma_first_repeat(rows, 0);
    if has_repeated_identity(rows) {
        let (i, j) = choose|i: int, j: int|
            0 <= i < j < rows.len() && #[trigger] rows[i].series == #[trigger] rows[j].series
                && rows[i].period == rows[j].period;
        assert(repeats_earlier(rows, j));
    }
    if first_repeat(rows, 0) is Some {
        let b = choose|b: int| 0 <= b < rows.len() && #[trigger] repeats_earlier(rows, b);
        let i = choose|i: int|
            0 <= i < b && #[trigger] rows[i].series == rows[b].series && rows[i].period
                == rows[b].period;
        assert(rows[i].series == rows[b].series);
    }
}

pub(crate) fn synthetic_marker_check(synthetic: Option<bool>, note_present: bool) -> (r:
    UkCbResult<()>)
    ensures
        match marker_fault(synthetic, note_present) {
            None => r is Ok,
            Some(f) => refused_with(r, f),
        },
{
    match synthetic {
        Some(true) => {},
        Some(false) => {
            return Err(
                UkCbError::SemanticallyRejected(
                    String::from_str("样本声明 `_synthetic: false`：本层只接受显式标注的合成样本"),
                ),
            );
        },
        None => {
            return Err(
                UkCbError::SemanticallyRejected(
                    String::from_str("样本缺少 `_synthetic: true` 标注：本层只接受显式标注的合成样本"),
                ),
            );
        },
    }
    if !note_present {
        return Err(
            UkCbError::SemanticallyRejected(
                String::from_str("样本缺少非空 `_note` 说明：合成样本须自带可直接阅读的说明"),
            ),
        );
    }
    Ok(())
}

/// The refusal of a source whose plan names no implemented format.
fn unimplemented_format(formats: &[UkCbFormat]) -> (r: UkCbError)
    ensures
        r.spec_kind() == UkCbErrorKind::NotApplicable,
        r.spec_detail() == unimplemented_refusal(formats@),
{
    if formats.len() == 0 {
        return UkCbError::NotApplicable(
            String::from_str("该源在清单「形式」列未点名格式，离线解析不实现（不得猜格式）"),
        );
    }
    let mut names = String::from_str(formats[0].as_str());
    assert(formats@.take(1) =~= seq![formats@[0]]);
    let mut i: usize = 1;
    while i < formats.len()
        invariant
            1 <= i <= formats@.len(),
            names@ == format_names(formats@.take(i as int)),
        decreases formats@.len() - i,
    {
        assert(formats@.take(i + 1).drop_last() =~= formats@.take(i as int));
        names.append(" / ");
        names.append(formats[i].as_str());
        i = i + 1;
    }
    assert(formats@.take(formats@.len() as int) =~= formats@);
    let mut msg = String::from_str("清单点名的格式 ");
    msg.append(names.as_str());
    msg.append(" 均未落地，不得假装已支持");
    UkCbError::NotApplicable(msg)
}

proof fn lemma_first_implemented_step(formats: Seq<UkCbFormat>, i: int)
    requires
        0 <= i < formats.len(),
    ensures
        first_implemented(formats.subrange(i, formats.len() as int)) == if formats[i].spec_offline_implemented() {
            Some(formats[i])
        } else {
            first_implemented(formats.subrange(i + 1, formats.len() as int))
        },
{
    assert(formats.subrange(i, formats.len() as int).drop_first() =~= formats.subrange(
        i + 1,
        formats.len() as int,
    ));
}

proof fn lemma_first_implemented_is_implemented(formats: Seq<UkCbFormat>)
    ensures
        first_implemented(formats) matches Some(f) ==> f.spec_offline_implemented(),
    decreases formats.len(),
{
    if formats.len() > 0 {
        lemma_first_implemented_is_implemented(formats.drop_first());
    }
}

fn choose_format(formats: &[UkCbFormat]) -> (r: Option<UkCbFormat>)
    ensures
        r == first_implemented(formats@),
{
    let mut i: usize = 0;
    assert(formats@.subrange(0, formats@.len() as int) =~= formats@);
    while i < formats.len()
        invariant
            0 <= i <= formats@.len(),
            first_implemented(formats@) == first_implemented(
                formats@.subrange(i as int, formats@.len() as int),
            ),
        decreases formats@.len() - i,
    {
        proof {
            lemma_first_implemented_step(formats@, i as int);
        }
        if formats[i].is_offline_implemented() {
            return Some(formats[i]);
        }
        i = i + 1;
    }
    assert(formats@.subrange(i as int, formats@.len() as int) =~= Seq::<UkCbFormat>::empty());
    None
}

/// Refuses `observations` at the first one that repeats the series and business
/// period of an earlier one.
fn reject_repeated_identity(observations: Vec<UkCbObservation>, rows: Ghost<Seq<RowSpec>>) -> (r: UkCbResult<Vec<UkCbObservation>>)
    requires
        observations@.len() == rows@.len(),
        forall|j: int|
            #![trigger observations@[j]]
            0 <= j < rows@.len() ==> observations@[j].series@ == rows@[j].series
                && observations@[j].period == rows@[j].period,
    ensures
        match first_repeat(rows@, 0) {
            Some(j) => refused_with(
                r,
                Fault {
                    kind: UkCbErrorKind::SemanticallyRejected,
                    message: repeat_refusal((j + 1) as nat),
                },
            ),
            None => r == Ok::<Vec<UkCbObservation>, UkCbError>(observations),
        },
{
    let n = observations.len();
    let mut j: usize = 0;
    while j < n
        invariant
            n == observations@.len(),
            observations@.len() == rows@.len(),
            forall|m: int|
                #![trigger observations@[m]]
                0 <= m < rows@.len() ==> observations@[m].series@ == rows@[m].series
                    && observations@[m].period == rows@[m].period,
            0 <= j <= n,
            first_repeat(rows@, 0) == first_repeat(rows@, j as nat),
        decreases n - j,
    {
        let mut i: usize = 0;
        while i < j
            invariant
                n == observations@.len(),
                observations@.len() == rows@.len(),
                forall|m: int|
                    #![trigger observations@[m]]
                    0 <= m < rows@.len() ==> observations@[m].series@ == rows@[m].series
                        && observations@[m].period == rows@[m].period,
                0 <= i <= j < n,
                first_repeat(rows@, 0) == first_repeat(rows@, j as nat),
                forall|a: int| 0 <= a < i ==> !(#[trigger] rows@[a].series == rows@[j as int].series
                    && rows@[a].period == rows@[j as int].period),
            decreases j - i,
        {
            assert(observations@[i as int].series@ == rows@[i as int].series);
            assert(observations@[j as int].series@ == rows@[j as int].series);
            if same_text(observations[i].series.as_str(), observations[j].series.as_str())
                && observations[i].period == observations[j].period {
                let mut msg = String::from_str("重复身份：序列 + 业务期间在样本内出现两次（第 ");
                msg.append(line_text(j + 1).as_str());
                msg.append(" 条观测）");
                assert(repeats_earlier(rows@, j as int)) by {
                    assert(rows@[i as int].series == rows@[j as int].series);
                }
                assert(first_repeat(rows@, j as nat) == Some(j as nat));
                assert(msg@ =~= repeat_refusal((j + 1) as nat));
                return Err(UkCbError::SemanticallyRejected(msg));
            }
            i = i + 1;
        }
        assert(!repeats_earlier(rows@, j as int));
        j = j + 1;
    }
    Ok(observations)
}

/// Parses a declared source's offline sample.
///
/// `numeral` reads a non-blank CSV value cell: `true` when the cell is a finite
/// number (a value), `false` otherwise (a marker). The outcome is exactly what
/// [`spec_parse`] describes, message included: S07 is `RoutedElsewhere`; a source
/// whose plan names no implemented format is `NotApplicable`; a missing synthetic
/// label is `SemanticallyRejected`; a wrong shape, an unknown or missing field, a
/// bad period or cell count is `Invalid`; an unknown unit, an unpinned identity and
/// a repeated identity are `SemanticallyRejected`; an unknown frequency is
/// `NotApplicable`.
pub fn parse_uk_cb_observations<F: Fn(&str) -> bool>(
    source: UkCbSourceId,
    input: &str,
    numeral: &F,
) -> (r: UkCbResult<Vec<UkCbObservation>>)
    requires
        forall|x: &str| call_requires(*numeral, (x,)),
    ensures
        parsed_as(r, spec_parse(source, input@), *numeral),
{
    match guard_curve(source) {
        Ok(()) => {},
        Err(e) => return Err(e),
    }
    let plan = source.plan();
    proof {
        lemma_first_implemented_is_implemented(plan.formats@);
    }
    let observations = match choose_format(plan.formats) {
        Some(UkCbFormat::Csv) => parse_csv(input, numeral),
        Some(UkCbFormat::Json) => parse_json(input, numeral),
        Some(other) => {
            assert(false);
            let mut msg = String::from_str(other.as_str());
            msg.append(" 格式的解析栈未落地，不得假装已支持");
            return Err(UkCbError::NotApplicable(msg));
        },
        None => return Err(unimplemented_format(plan.formats)),
    };
    let observations = match observations {
        Ok(o) => o,
        Err(e) => return Err(e),
    };
    let ghost rows = match first_implemented(plan.formats@) {
        Some(UkCbFormat::Csv) => csv_document(input@)->Ok_0,
        _ => json_document(input@)->Ok_0,
    };
    assert forall|j: int| #![trigger observations@[j]] 0 <= j < rows.len() implies observations@[j].series@
        == rows[j].series && observations@[j].period == rows[j].period by {
        assert(observation_matches(observations@[j], rows[j], *numeral));
    }
    reject_repeated_identity(observations, Ghost(rows))
}

/// Line numbers in messages: `n` spelled in decimal.
pub(crate) fn line_text(n: usize) -> (r: String)
    ensures
        r@ == decimal(n as nat),
{
    decimal_text(n as u64)
}

} // verus!
