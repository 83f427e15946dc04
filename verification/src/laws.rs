//! Properties of the library as a whole, stated over the specifications that the
//! functions' contracts use and proved by Verus.

use vstd::prelude::*;

use crate::authz::{spec_denial, UkCbAuthorizationEvidence};
use crate::error::UkCbErrorKind;
use crate::json::{spec_json_document, JsonView};
use crate::parse::csv::{csv_initial, rows_fault, without_bom};
use crate::parse::json_form::{file_parts, is_file_key, is_item_key, json_rows};
use crate::parse::{
    csv_document, csv_scan, csv_step, first_implemented, has_repeated_identity, json_document,
    json_item, lemma_repeated_identity_has_a_first, marker_fault, spec_described, spec_parse,
    unimplemented_refusal, CsvScan, Fault, RowSpec, CSV_HEADER,
};
use crate::text::{
    all_digit_bytes, all_digits, ascii_bytes, bytes_num, digits_num, is_blank, is_digit,
    lemma_ascii_from_bytes, lemma_digit_bytes, lemma_digits_injective, lemma_digits_num_bound,
    pow10, split_on, starts_with, trim, zero_padded,
};
use crate::value::{
    curve_refusal, date_before, date_text, is_leap, lemma_padded_reads_back, month_days,
    observation_fault, spec_parse_date, spec_source_plans, Date, Frequency, Period, UkCbFormat,
    UkCbSourceId, UkCbUnit,
};
use vstd::utf8::{encode_utf8, is_ascii_chars, is_ascii_chars_encode_utf8};

verus! {

/// The curve source S07 is routed to `yield_curve` before anything else: whatever
/// the input, parsing it as S07 is `RoutedElsewhere`.
pub proof fn law_curve_source_is_routed_first(input: Seq<char>)
    ensures
        spec_parse(UkCbSourceId::S07, input) matches Err(f) && f.kind
            == UkCbErrorKind::RoutedElsewhere && f.message == curve_refusal(),
{
}

/// The sources whose manifest "form" names no format (S02, S06, S08, S09) are
/// never parsed: whatever the input, the outcome is `NotApplicable`.
pub proof fn law_undeclared_format_sources_are_not_applicable(
    source: UkCbSourceId,
    input: Seq<char>,
)
    requires
        source == UkCbSourceId::S02 || source == UkCbSourceId::S06 || source == UkCbSourceId::S08
            || source == UkCbSourceId::S09,
    ensures
        spec_parse(source, input) matches Err(f) && f.kind == UkCbErrorKind::NotApplicable
            && f.message == unimplemented_refusal(Seq::empty()),
{
    assert(spec_source_plans()[source.spec_index()].formats@ =~= Seq::<UkCbFormat>::empty());
}

/// Only the CSV and JSON forms are ever parsed: an accepted input came through
/// the CSV reading or the JSON reading, the first implemented format of the plan.
pub proof fn law_only_csv_and_json_are_parsed(source: UkCbSourceId, input: Seq<char>)
    ensures
        spec_parse(source, input) is Ok ==> {
            let f = first_implemented(spec_source_plans()[source.spec_index()].formats@);
            ||| f == Some(UkCbFormat::Csv) && csv_document(input) is Ok
            ||| f == Some(UkCbFormat::Json) && json_document(input) is Ok
        },
{
}

/// A repeated identity is refused, never deduplicated: no accepted input yields
/// two observations with the same series and business period, and an input (not
/// of the curve source) that describes such a pair is refused as a whole with
/// `SemanticallyRejected`.
pub proof fn law_repeated_identity_is_refused(source: UkCbSourceId, input: Seq<char>)
    ensures
        spec_parse(source, input) matches Ok(rows) ==> !has_repeated_identity(rows),
        source != UkCbSourceId::S07 ==> (spec_described(source, input) matches Ok(rows)
            && has_repeated_identity(rows) ==> (spec_parse(source, input) matches Err(f) && f.kind
            == UkCbErrorKind::SemanticallyRejected)),
{
    if let Ok(rows) = spec_described(source, input) {
        lemma_repeated_identity_has_a_first(rows);
    }
}

proof fn lemma_rows_fault_none(rows: Seq<RowSpec>)
    requires
        rows_fault(rows) is None,
    ensures
        forall|i: int|
            0 <= i < rows.len() ==> observation_fault(
                #[trigger] rows[i].period,
                true,
                rows[i].revision,
                rows[i].frequency,
            ) is None,
    decreases rows.len(),
{
    if rows.len() > 0 {
        lemma_rows_fault_none(rows.drop_first());
        assert forall|i: int| 0 <= i < rows.len() implies observation_fault(
            #[trigger] rows[i].period,
            true,
            rows[i].revision,
            rows[i].frequency,
        ) is None by {
            if i > 0 {
                assert(rows[i] == rows.drop_first()[i - 1]);
            }
        }
    }
}

proof fn lemma_json_rows_pass(items: Seq<crate::parse::JsonRawItem>)
    ensures
        json_rows(items) matches Ok(rows) ==> forall|i: int|
            0 <= i < rows.len() ==> observation_fault(
                #[trigger] rows[i].period,
                true,
                rows[i].revision,
                rows[i].frequency,
            ) is None,
    decreases items.len(),
{
    if items.len() > 0 {
        lemma_json_rows_pass(items.drop_first());
        if let Ok(rows) = json_rows(items) {
            let rest = json_rows(items.drop_first())->Ok_0;
            assert forall|i: int| 0 <= i < rows.len() implies observation_fault(
                #[trigger] rows[i].period,
                true,
                rows[i].revision,
                rows[i].frequency,
            ) is None by {
                if i > 0 {
                    assert(rows[i] == rest[i - 1]);
                }
            }
        }
    }
}

/// Whatever the parser accepts passes the observation checks: every period is in
/// range, every given revision tag is non-blank, and every frequency agrees with
/// the granularity of its period.
pub proof fn law_accepted_observations_are_valid(source: UkCbSourceId, input: Seq<char>)
    ensures
        spec_parse(source, input) matches Ok(rows) ==> forall|i: int|
            0 <= i < rows.len() ==> observation_fault(
                #[trigger] rows[i].period,
                true,
                rows[i].revision,
                rows[i].frequency,
            ) is None,
{
    if let Ok(rows) = spec_parse(source, input) {
        let f = first_implemented(spec_source_plans()[source.spec_index()].formats@);
        if f == Some(UkCbFormat::Csv) {
            let st = csv_scan(split_on(without_bom(input), '\n'), csv_initial(), 0)->Ok_0;
            lemma_rows_fault_none(st.rows);
        } else {
            let doc = crate::json::spec_json_document(input)->Ok_0;
            let raw = crate::parse::json_shape(doc)->Some_0;
            lemma_json_rows_pass(raw.items);
        }
    }
}

proof fn lemma_scan_keeps_label(lines: Seq<Seq<char>>, st: CsvScan, base: nat)
    requires
        forall|i: int|
            0 <= i < lines.len() ==> !starts_with(trim(#[trigger] lines[i]), "# _synthetic:"@),
    ensures
        csv_scan(lines, st, base) matches Ok(end) ==> end.synthetic == st.synthetic,
    decreases lines.len(),
{
    if lines.len() > 0 {
        assert(!starts_with(trim(lines[0]), "# _synthetic:"@));
        if let Ok(next) = csv_step(st, lines[0], base + 1) {
            assert(next.synthetic == st.synthetic);
            assert forall|i: int|
                0 <= i < lines.drop_first().len() implies !starts_with(
                trim(#[trigger] lines.drop_first()[i]),
                "# _synthetic:"@,
            ) by {
                assert(lines.drop_first()[i] == lines[i + 1]);
            }
            lemma_scan_keeps_label(lines.drop_first(), next, base + 1);
        }
    }
}

/// Only explicitly labelled synthetic samples are accepted: a CSV input none of
/// whose lines is a `# _synthetic:` label is refused.
pub proof fn law_unlabelled_csv_is_refused(input: Seq<char>)
    requires
        forall|i: int|
            0 <= i < split_on(without_bom(input), '\n').len() ==> !starts_with(
                trim(#[trigger] split_on(without_bom(input), '\n')[i]),
                "# _synthetic:"@,
            ),
    ensures
        csv_document(input) is Err,
{
    lemma_scan_keeps_label(split_on(without_bom(input), '\n'), csv_initial(), 0);
}

proof fn lemma_scan_finds_header(lines: Seq<Seq<char>>, st: CsvScan, base: nat)
    ensures
        csv_scan(lines, st, base) matches Ok(end) ==> (end.header ==> st.header || exists|i: int|
            0 <= i < lines.len() && trim(#[trigger] lines[i]) == CSV_HEADER@),
    decreases lines.len(),
{
    if lines.len() > 0 {
        if let Ok(next) = csv_step(st, lines[0], base + 1) {
            lemma_scan_finds_header(lines.drop_first(), next, base + 1);
            if let Ok(end) = csv_scan(lines, st, base) {
                if end.header && !st.header {
                    if next.header {
                        assert(trim(lines[0]) == CSV_HEADER@);
                    } else {
                        let i = choose|i: int|
                            0 <= i < lines.drop_first().len() && trim(
                                #[trigger] lines.drop_first()[i],
                            ) == CSV_HEADER@;
                        assert(lines.drop_first()[i] == lines[i + 1]);
                    }
                }
            }
        }
    }
}

/// The CSV header is fixed word for word: an accepted CSV input has a line that,
/// trimmed, is exactly `series,period,value,unit,frequency,revision` — more,
/// fewer, renamed or reordered columns are never accepted.
pub proof fn law_accepted_csv_has_the_exact_header(input: Seq<char>)
    ensures
        csv_document(input) is Ok ==> exists|i: int|
            0 <= i < split_on(without_bom(input), '\n').len() && trim(
                #[trigger] split_on(without_bom(input), '\n')[i],
            ) == CSV_HEADER@,
{
    lemma_scan_finds_header(split_on(without_bom(input), '\n'), csv_initial(), 0);
}

/// Unknown JSON members fail the whole input: in an accepted JSON document every
/// member of the document object is `_synthetic`, `_note` or `observations`, and
/// every member of an observation object is one of `series`, `period`, `value`,
/// `unit`, `frequency` and `revision`.
pub proof fn law_accepted_json_has_only_declared_members(input: Seq<char>)
    ensures
        json_document(input) is Ok ==> {
            let doc = spec_json_document(input)->Ok_0;
            &&& doc matches JsonView::Object(ks, _) ==> forall|i: int|
                0 <= i < ks.len() ==> is_file_key(#[trigger] ks[i])
            &&& file_parts(doc) matches Some(parts) && forall|j: int|
                0 <= j < parts.2.len() ==> (#[trigger] parts.2[j] matches JsonView::Object(ks, _)
                    ==> forall|i: int| 0 <= i < ks.len() ==> is_item_key(#[trigger] ks[i]))
        },
{
    if json_document(input) is Ok {
        let doc = spec_json_document(input)->Ok_0;
        let parts = file_parts(doc)->Some_0;
        assert forall|j: int| 0 <= j < parts.2.len() implies (#[trigger] parts.2[j] matches JsonView::Object(ks, _)
            ==> forall|i: int| 0 <= i < ks.len() ==> is_item_key(#[trigger] ks[i])) by {
            assert(json_item(parts.2[j]) is Some);
        }
    }
}

/// Whether the lines of a CSV input carry `_synthetic: true` and a non-blank note.
pub open spec fn csv_labelled(input: Seq<char>) -> bool {
    match csv_scan(split_on(without_bom(input), '\n'), csv_initial(), 0) {
        Ok(st) => st.synthetic == Some(true) && st.note,
        Err(_) => false,
    }
}

/// Whether a JSON input carries `"_synthetic": true` and a non-blank `_note`.
pub open spec fn json_labelled(input: Seq<char>) -> bool {
    match crate::json::spec_json_document(input) {
        Ok(doc) => match crate::parse::json_shape(doc) {
            Some(raw) => raw.synthetic == Some(true) && match raw.note {
                Some(n) => !is_blank(n),
                None => false,
            },
            None => false,
        },
        Err(_) => false,
    }
}

/// Only explicitly labelled synthetic samples are accepted: whatever the source
/// and input, an accepted input carried `_synthetic: true` and a non-blank note in
/// the form it was read in.
pub proof fn law_accepted_input_is_labelled_synthetic(source: UkCbSourceId, input: Seq<char>)
    ensures
        spec_parse(source, input) is Ok ==> {
            let f = first_implemented(spec_source_plans()[source.spec_index()].formats@);
            ||| f == Some(UkCbFormat::Csv) && csv_labelled(input)
            ||| f == Some(UkCbFormat::Json) && json_labelled(input)
        },
{
}

/// The authorization decision fails closed: it authorizes only evidence that is
/// present, names a scope and a signer, is signed off by the owner, and whose valid
/// dates form a window that contains the (valid) date asked about.
pub proof fn law_authorization_fails_closed(
    evidence: Option<&UkCbAuthorizationEvidence>,
    as_of: Date,
)
    ensures
        spec_denial(evidence, as_of) is None ==> (evidence matches Some(e) && !is_blank(e.scope@)
            && !is_blank(e.signer@) && e.owner_signed && as_of.spec_valid()
            && e.valid_from.spec_valid() && e.valid_until.spec_valid() && !date_before(
            as_of,
            e.valid_from,
        ) && !date_before(e.valid_until, as_of)),
        evidence is None ==> spec_denial(evidence, as_of) is Some,
{
}

proof fn lemma_digit_field(t: Seq<char>)
    requires
        is_ascii_chars(t),
        all_digit_bytes(ascii_bytes(t)),
        1 <= t.len() <= 4,
    ensures
        all_digits(t),
        bytes_num(ascii_bytes(t)) == digits_num(t),
        0 <= digits_num(t) < pow10(t.len()),
        zero_padded(digits_num(t), t.len()) == t,
{
    assert forall|i: int| 0 <= i < t.len() implies is_digit(#[trigger] t[i]) by {
        assert(ascii_bytes(t)[i] == t[i] as u8);
        assert('\0' <= t[i] <= '\u{7f}');
    }
    lemma_digit_bytes(t);
    lemma_digits_num_bound(t);
    let n = digits_num(t);
    lemma_padded_reads_back(n, t.len());
    lemma_digits_injective(zero_padded(n, t.len()), t);
}

/// Printing a date that `Date::parse` accepts gives back exactly the text it read:
/// the four-digit year, the two-digit month and day and the `-` separators are
/// reproduced, so `Date::to_string` undoes `Date::parse`.
pub proof fn law_parsed_date_prints_back(s: Seq<char>)
    ensures
        spec_parse_date(s) matches Ok(d) ==> date_text(d) == s,
{
    if let Ok(d) = spec_parse_date(s) {
        let b = encode_utf8(s);
        assert(b.len() == 10 && b[4] == 45u8 && b[7] == 45u8);
        let by = b.subrange(0, 4);
        let bm = b.subrange(5, 7);
        let bd = b.subrange(8, 10);
        assert(all_digit_bytes(by) && all_digit_bytes(bm) && all_digit_bytes(bd));
        assert forall|i: int| 0 <= i < b.len() implies #[trigger] b[i] < 128 by {
            if i < 4 {
                assert(b[i] == by[i]);
            } else if 5 <= i < 7 {
                assert(b[i] == bm[i - 5]);
            } else if 8 <= i {
                assert(b[i] == bd[i - 8]);
            }
        }
        lemma_ascii_from_bytes(s);
        is_ascii_chars_encode_utf8(s);
        assert(s.len() == 10);
        let y = s.subrange(0, 4);
        let m = s.subrange(5, 7);
        let dd = s.subrange(8, 10);
        assert(ascii_bytes(y) =~= by);
        assert(ascii_bytes(m) =~= bm);
        assert(ascii_bytes(dd) =~= bd);
        assert(is_ascii_chars(y) && is_ascii_chars(m) && is_ascii_chars(dd)) by {
            assert forall|i: int| 0 <= i < 4 implies '\0' <= #[trigger] y[i] <= '\u{7f}' by {
                assert(y[i] == s[i]);
            }
            assert forall|i: int| 0 <= i < 2 implies '\0' <= #[trigger] m[i] <= '\u{7f}' by {
                assert(m[i] == s[i + 5]);
            }
            assert forall|i: int| 0 <= i < 2 implies '\0' <= #[trigger] dd[i] <= '\u{7f}' by {
                assert(dd[i] == s[i + 8]);
            }
        }
        lemma_digit_field(y);
        lemma_digit_field(m);
        lemma_digit_field(dd);
        reveal_with_fuel(pow10, 5);
        assert(d.year as int == digits_num(y));
        assert(d.month as int == digits_num(m));
        assert(d.day as int == digits_num(dd));
        assert(s[4] as u8 == 45u8 && s[7] as u8 == 45u8);
        assert('\0' <= s[4] <= '\u{7f}' && '\0' <= s[7] <= '\u{7f}');
        assert(s[4] == '-' && s[7] == '-');
        assert(s =~= y + seq!['-'] + m + seq!['-'] + dd);
    }
}

/// A date as one number, `YYYYMMDD`: for dates whose month and day are in range,
/// the numbers compare as the calendar does.
pub open spec fn date_number(d: Date) -> int {
    d.year * 10000 + d.month * 100 + d.day
}

/// The order of dates used by the authorization decision is the calendar order:
/// for valid dates, `a` comes before `b` exactly when `YYYYMMDD` of `a` is smaller.
pub proof fn law_date_order_is_the_calendar_order(a: Date, b: Date)
    requires
        a.spec_valid(),
        b.spec_valid(),
    ensures
        date_before(a, b) <==> date_number(a) < date_number(b),
        !(date_before(a, b) && date_before(b, a)),
        date_before(a, b) || date_before(b, a) || a == b,
{
    assert(a.day <= 31 && b.day <= 31);
}

/// The window of authorization evidence is inclusive at both ends, in calendar
/// order: complete, owner-signed evidence with valid dates authorizes a valid date
/// exactly when `valid_from <= as_of <= valid_until`.
pub proof fn law_authorized_exactly_inside_the_window(
    e: &UkCbAuthorizationEvidence,
    as_of: Date,
)
    requires
        !is_blank(e.scope@),
        !is_blank(e.signer@),
        e.owner_signed,
        as_of.spec_valid(),
        e.valid_from.spec_valid(),
        e.valid_until.spec_valid(),
    ensures
        spec_denial(Some(e), as_of) is None <==> date_number(e.valid_from) <= date_number(as_of)
            <= date_number(e.valid_until),
{
    law_date_order_is_the_calendar_order(as_of, e.valid_from);
    law_date_order_is_the_calendar_order(e.valid_until, as_of);
    law_date_order_is_the_calendar_order(e.valid_until, e.valid_from);
}

/// The number of days in a common year before month `m` (1–12), as the calendar
/// tables give it; 365 for `m == 13`.
pub open spec fn common_days_before(m: int) -> int {
    if m <= 1 {
        0
    } else if m == 2 {
        31
    } else if m == 3 {
        59
    } else if m == 4 {
        90
    } else if m == 5 {
        120
    } else if m == 6 {
        151
    } else if m == 7 {
        181
    } else if m == 8 {
        212
    } else if m == 9 {
        243
    } else if m == 10 {
        273
    } else if m == 11 {
        304
    } else if m == 12 {
        334
    } else {
        365
    }
}

/// Month lengths follow the Gregorian calendar: each month spans the days between
/// its place in the day-of-year table and the next, February gaining a day in leap
/// years; so a day is valid exactly when it falls within its month's span, and a
/// year has 365 days, or 366 when it is a leap year.
pub proof fn law_month_lengths_follow_the_calendar(y: i16, m: u8, d: u8)
    requires
        1 <= m <= 12,
    ensures
        month_days(y as int, m as int) == common_days_before(m + 1) - common_days_before(
            m as int,
        ) + if m == 2 && is_leap(y as int) {
            1int
        } else {
            0int
        },
        (Date { year: y, month: m, day: d }).spec_valid() <==> 1 <= d <= common_days_before(m + 1)
            - common_days_before(m as int) + if m == 2 && is_leap(y as int) {
            1int
        } else {
            0int
        },
        month_days(y as int, 1) + month_days(y as int, 2) + month_days(y as int, 3) + month_days(
            y as int,
            4,
        ) + month_days(y as int, 5) + month_days(y as int, 6) + month_days(y as int, 7)
            + month_days(y as int, 8) + month_days(y as int, 9) + month_days(y as int, 10)
            + month_days(y as int, 11) + month_days(y as int, 12) == if is_leap(y as int) {
            366int
        } else {
            365int
        },
{
}

/// Only daily, monthly, quarterly and annual frequencies tie an observation to a
/// granularity: a weekly, event or irregular observation fits every valid period,
/// and a daily one fits exactly the day and event periods, a monthly one the
/// months, a quarterly one the quarters and an annual one the years.
pub proof fn law_frequency_granularity(f: Frequency, p: Period)
    requires
        p.spec_valid(),
    ensures
        (f == Frequency::Weekly || f == Frequency::Event || f == Frequency::Irregular)
            ==> observation_fault(p, true, None, f) is None,
        f == Frequency::Daily ==> (observation_fault(p, true, None, f) is None <==> (
        p is Day || p is Event)),
        f == Frequency::Monthly ==> (observation_fault(p, true, None, f) is None <==> p is Month),
        f == Frequency::Quarterly ==> (observation_fault(p, true, None, f) is None
            <==> p is Quarter),
        f == Frequency::Annual ==> (observation_fault(p, true, None, f) is None <==> p is Year),
{
}

/// In a CSV sample a `#` line that is not a `# _synthetic:` or `# _note:` label is
/// a comment wherever it stands, before or after the header: it leaves the scan
/// exactly as it was.
pub proof fn law_csv_comment_lines_are_ignored(st: CsvScan, line: Seq<char>, line_no: nat)
    requires
        trim(line).len() > 0,
        trim(line)[0] == '#',
        !starts_with(trim(line), "# _synthetic:"@),
        !starts_with(trim(line), "# _note:"@),
    ensures
        csv_step(st, line, line_no) == Ok::<CsvScan, Fault>(st),
{
}

/// Frequencies and units are read from their stable spellings only, with no
/// synonyms: whatever text is read as a frequency or a unit is exactly that
/// frequency's or unit's spelling.
pub proof fn law_only_stable_spellings_are_read(s: Seq<char>)
    ensures
        Frequency::spec_from(s) matches Some(f) ==> f.spec_str() == s,
        UkCbUnit::spec_from(s) matches Some(u) ==> u.spec_str() == s,
{
}

/// Leap years follow the Gregorian rule: a year not divisible by 4 is common, one
/// divisible by 4 but not by 100 is leap, a century is leap only when divisible by
/// 400; so the pattern repeats every 400 years.
pub proof fn law_leap_years_are_gregorian(y: int)
    ensures
        y % 4 != 0 ==> !is_leap(y),
        y % 4 == 0 && y % 100 != 0 ==> is_leap(y),
        y % 100 == 0 ==> (is_leap(y) <==> y % 400 == 0),
        is_leap(y) <==> is_leap(y + 400),
{
    assert((y + 400) % 4 == y % 4 && (y + 400) % 100 == y % 100 && (y + 400) % 400 == y % 400)
        by (nonlinear_arith);
}

} // verus!
