//! The CSV offline exchange form.
//!
//! Leading `#` lines are comments, except `# _synthetic:` and `# _note:` which
//! label the sample; the first other line must be the fixed header, word for word;
//! every later line is one observation of exactly six comma-separated cells. The
//! subset has no quoting: a line holding a double quote is refused rather than
//! misread. A single leading byte-order mark is tolerated.

use vstd::prelude::*;

use crate::error::{UkCbError, UkCbErrorKind, UkCbResult};
use crate::parse::{
    line_text, marker_fault, observation_matches, refused_with, synthetic_marker_check, Fault,
    RowSpec, ValueSpec,
};
use crate::text::{
    chars_of, decimal, equals_text, has_prefix, is_blank, split_on, split_ranges, starts_with,
    trim, trim_range,
};
use crate::value::{
    check_observation, frequency_refusal, joined, observation_fault, observation_refusal,
    parse_period, reads_as, series_refusal, spec_parse_period, spec_series_text, unit_refusal,
    Frequency, UkCbAbsence, UkCbObservation, UkCbSeriesId, UkCbUnit, UkCbValue,
};

verus! {

/// The CSV header, fixed word for word: more, fewer, renamed or reordered columns
/// are all refused.
pub const CSV_HEADER: &'static str = "series,period,value,unit,frequency,revision";

/// The state of a scan over the lines of a CSV input.
pub struct CsvScan {
    /// The last `# _synthetic:` label: whether it said exactly `true`.
    pub synthetic: Option<bool>,
    /// Whether the last `# _note:` label had non-blank text.
    pub note: bool,
    /// Whether the header line has been seen.
    pub header: bool,
    /// The observations described so far.
    pub rows: Seq<RowSpec>,
}

/// The state before the first line.
pub open spec fn csv_initial() -> CsvScan {
    CsvScan { synthetic: None, note: false, header: false, rows: Seq::empty() }
}

/// The message refusing a line that should be the header, at line `line_no`.
pub open spec fn header_refusal(line_no: nat) -> Seq<char> {
    "CSV 表头须逐字为 \"series,period,value,unit,frequency,revision\"（第 "@ + decimal(line_no)
        + " 行）"@
}

/// The observation that the trimmed data line `t` (line `line_no`) describes, or
/// its refusal, checked in cell order: quotes, cell count, series, period, unit,
/// frequency.
pub open spec fn csv_row(t: Seq<char>, line_no: nat) -> Result<RowSpec, Fault> {
    let cells = split_on(t, ',');
    if t.contains('"') {
        Err(
            Fault {
                kind: UkCbErrorKind::Invalid,
                message: "第 "@ + decimal(line_no)
                    + " 行含引号：本层 CSV 子集不支持引号转义，拒绝以防误解析"@,
            },
        )
    } else if cells.len() != 6 {
        Err(
            Fault {
                kind: UkCbErrorKind::Invalid,
                message: "第 "@ + decimal(line_no) + " 行的列数须为 6，收到 "@ + decimal(cells.len()),
            },
        )
    } else {
        match spec_series_text(cells[0]) {
            Err(k) => Err(Fault { kind: k, message: series_refusal(cells[0]) }),
            Ok(series) => match spec_parse_period(cells[1]) {
                Err(m) => Err(Fault { kind: UkCbErrorKind::Invalid, message: m }),
                Ok(period) => match UkCbUnit::spec_from(trim(cells[3])) {
                    None => Err(
                        Fault {
                            kind: UkCbErrorKind::SemanticallyRejected,
                            message: unit_refusal(),
                        },
                    ),
                    Some(unit) => match Frequency::spec_from(trim(cells[4])) {
                        None => Err(
                            Fault {
                                kind: UkCbErrorKind::NotApplicable,
                                message: frequency_refusal(),
                            },
                        ),
                        Some(frequency) => Ok(
                            RowSpec {
                                series,
                                period,
                                value: if is_blank(cells[2]) {
                                    ValueSpec::Blank
                                } else {
                                    ValueSpec::Token(trim(cells[2]))
                                },
                                unit,
                                frequency,
                                revision: if is_blank(cells[5]) {
                                    None
                                } else {
                                    Some(trim(cells[5]))
                                },
                            },
                        ),
                    },
                },
            },
        }
    }
}

/// The scan state after one more line, line number `line_no`.
pub open spec fn csv_step(st: CsvScan, line: Seq<char>, line_no: nat) -> Result<CsvScan, Fault> {
    let t = trim(line);
    if t.len() == 0 {
        Ok(st)
    } else if starts_with(t, "# _synthetic:"@) {
        Ok(
            CsvScan {
                synthetic: Some(trim(t.subrange("# _synthetic:"@.len() as int, t.len() as int))
                    == "true"@),
                note: st.note,
                header: st.header,
                rows: st.rows,
            },
        )
    } else if starts_with(t, "# _note:"@) {
        Ok(
            CsvScan {
                synthetic: st.synthetic,
                note: !is_blank(t.subrange("# _note:"@.len() as int, t.len() as int)),
                header: st.header,
                rows: st.rows,
            },
        )
    } else if t[0] == '#' {
        Ok(st)
    } else if !st.header {
        if t == CSV_HEADER@ {
            Ok(CsvScan { synthetic: st.synthetic, note: st.note, header: true, rows: st.rows })
        } else {
            Err(Fault { kind: UkCbErrorKind::Invalid, message: header_refusal(line_no) })
        }
    } else {
        match csv_row(t, line_no) {
            Err(f) => Err(f),
            Ok(row) => Ok(
                CsvScan {
                    synthetic: st.synthetic,
                    note: st.note,
                    header: st.header,
                    rows: st.rows.push(row),
                },
            ),
        }
    }
}

/// The scan state after the lines `lines`, the first of them being line `base + 1`,
/// or the first refusal.
pub open spec fn csv_scan(lines: Seq<Seq<char>>, st: CsvScan, base: nat) -> Result<CsvScan, Fault>
    decreases lines.len(),
{
    if lines.len() == 0 {
        Ok(st)
    } else {
        match csv_step(st, lines[0], base + 1) {
            Err(f) => Err(f),
            Ok(next) => csv_scan(lines.drop_first(), next, base + 1),
        }
    }
}

/// The refusal of the first described observation that fails its checks, in order.
pub open spec fn rows_fault(rows: Seq<RowSpec>) -> Option<Fault>
    decreases rows.len(),
{
    if rows.len() == 0 {
        None
    } else {
        match observation_fault(rows[0].period, true, rows[0].revision, rows[0].frequency) {
            Some(k) => Some(
                Fault {
                    kind: k,
                    message: observation_refusal(
                        rows[0].period,
                        true,
                        rows[0].revision,
                        rows[0].frequency,
                    ),
                },
            ),
            None => rows_fault(rows.drop_first()),
        }
    }
}

/// `input` without one leading byte-order mark.
pub open spec fn without_bom(input: Seq<char>) -> Seq<char> {
    if input.len() > 0 && input[0] == '\u{feff}' {
        input.drop_first()
    } else {
        input
    }
}

/// What a CSV input describes, or its refusal: the lines are scanned in order;
/// then a missing header is `Missing`, a missing synthetic label is
/// `SemanticallyRejected`, and each observation is checked in turn.
pub open spec fn csv_document(input: Seq<char>) -> Result<Seq<RowSpec>, Fault> {
    match csv_scan(split_on(without_bom(input), '\n'), csv_initial(), 0) {
        Err(f) => Err(f),
        Ok(st) => if !st.header {
            Err(Fault { kind: UkCbErrorKind::Missing, message: "CSV 表头"@ })
        } else {
            match marker_fault(st.synthetic, st.note) {
                Some(f) => Err(f),
                None => match rows_fault(st.rows) {
                    Some(f) => Err(f),
                    None => Ok(st.rows),
                },
            }
        },
    }
}

fn has_quote(s: &[char], lo: usize, hi: usize) -> (r: bool)
    requires
        lo <= hi <= s@.len(),
    ensures
        r == s@.subrange(lo as int, hi as int).contains('"'),
{
    let mut k = lo;
    while k < hi
        invariant
            lo <= k <= hi <= s@.len(),
            forall|i: int| lo <= i < k ==> s@[i] != '"',
        decreases hi - k,
    {
        if s[k] == '"' {
            assert(s@.subrange(lo as int, hi as int)[k - lo] == '"');
            return true;
        }
        k = k + 1;
    }
    assert forall|i: int| 0 <= i < hi - lo implies s@.subrange(lo as int, hi as int)[i] != '"' by {
        assert(s@.subrange(lo as int, hi as int)[i] == s@[lo + i]);
    }
    false
}

fn trimmed_text(text: &str, s: &[char], lo: usize, hi: usize) -> (r: String)
    requires
        s@ == text@,
        lo <= hi <= s@.len(),
    ensures
        r@ == trim(s@.subrange(lo as int, hi as int)),
{
    let (a, b) = trim_range(s, lo, hi);
    String::from_str(text.substring_char(a, b))
}

fn parse_row<F: Fn(&str) -> bool>(
    text: &str,
    s: &[char],
    lo: usize,
    hi: usize,
    line_no: usize,
    numeral: &F,
) -> (r: UkCbResult<UkCbObservation>)
    requires
        s@ == text@,
        lo <= hi <= s@.len(),
        forall|x: &str| call_requires(*numeral, (x,)),
    ensures
        match csv_row(s@.subrange(lo as int, hi as int), line_no as nat) {
            Err(f) => refused_with(r, f),
            Ok(row) => r matches Ok(o) && observation_matches(o, row, *numeral),
        },
{
    let ghost t = s@.subrange(lo as int, hi as int);
    if has_quote(s, lo, hi) {
        let mut msg = joined("第 ", line_text(line_no).as_str());
        msg.append(" 行含引号：本层 CSV 子集不支持引号转义，拒绝以防误解析");
        return Err(UkCbError::Invalid(msg));
    }
    let cells = split_ranges(s, lo, hi, ',');
    if cells.len() != 6 {
        let mut msg = joined("第 ", line_text(line_no).as_str());
        msg.append(" 行的列数须为 6，收到 ");
        msg.append(line_text(cells.len()).as_str());
        return Err(UkCbError::Invalid(msg));
    }
    let ghost c = split_on(t, ',');
    let series_text = text.substring_char(cells[0].0, cells[0].1);
    let series = match UkCbSeriesId::parse(series_text) {
        Ok(id) => id,
        Err(e) => return Err(e),
    };
    let period_text = text.substring_char(cells[1].0, cells[1].1);
    let period = match parse_period(period_text) {
        Ok(p) => p,
        Err(e) => return Err(e),
    };
    let (va, vb) = trim_range(s, cells[2].0, cells[2].1);
    let value = if va == vb {
        UkCbValue::Absent(UkCbAbsence::BlankInSource)
    } else {
        let token = text.substring_char(va, vb);
        let finite = numeral(token);
        assert(reads_as(*numeral, token@, finite));
        if finite {
            UkCbValue::Present(String::from_str(token))
        } else {
            UkCbValue::Absent(UkCbAbsence::ExplicitMarker)
        }
    };
    let unit_text = trimmed_text(text, s, cells[3].0, cells[3].1);
    let unit = match UkCbUnit::parse(unit_text.as_str()) {
        Ok(u) => u,
        Err(e) => return Err(e),
    };
    let frequency_text = trimmed_text(text, s, cells[4].0, cells[4].1);
    let frequency = match Frequency::parse(frequency_text.as_str()) {
        Ok(f) => f,
        Err(e) => return Err(e),
    };
    let (ra, rb) = trim_range(s, cells[5].0, cells[5].1);
    let revision = if ra == rb {
        None
    } else {
        Some(String::from_str(text.substring_char(ra, rb)))
    };
    UkCbResult::Ok(UkCbObservation { series, period, value, unit, frequency, revision })
}

proof fn lemma_scan_step(lines: Seq<Seq<char>>, i: int, st: CsvScan)
    requires
        0 <= i < lines.len(),
    ensures
        csv_scan(lines.subrange(i, lines.len() as int), st, i as nat) == match csv_step(
            st,
            lines[i],
            (i + 1) as nat,
        ) {
            Err(f) => Err(f),
            Ok(next) => csv_scan(lines.subrange(i + 1, lines.len() as int), next, (i + 1) as nat),
        },
{
    assert(lines.subrange(i, lines.len() as int).drop_first() =~= lines.subrange(
        i + 1,
        lines.len() as int,
    ));
}

proof fn lemma_rows_fault_step(rows: Seq<RowSpec>, i: int)
    requires
        0 <= i < rows.len(),
    ensures
        rows_fault(rows.subrange(i, rows.len() as int)) == match observation_fault(
            rows[i].period,
            true,
            rows[i].revision,
            rows[i].frequency,
        ) {
            Some(k) => Some(
                Fault {
                    kind: k,
                    message: observation_refusal(
                        rows[i].period,
                        true,
                        rows[i].revision,
                        rows[i].frequency,
                    ),
                },
            ),
            None => rows_fault(rows.subrange(i + 1, rows.len() as int)),
        },
{
    assert(rows.subrange(i, rows.len() as int).drop_first() =~= rows.subrange(
        i + 1,
        rows.len() as int,
    ));
}

/// Parses a CSV input into observations (the CSV half of the offline parser).
pub(crate) fn parse_csv<F: Fn(&str) -> bool>(input: &str, numeral: &F) -> (r: UkCbResult<
    Vec<UkCbObservation>,
>)
    requires
        forall|x: &str| call_requires(*numeral, (x,)),
    ensures
        crate::parse::parsed_as(r, csv_document(input@), *numeral),
{
    let chars = chars_of(input);
    let s = chars.as_slice();
    let start: usize = if s.len() > 0 && s[0] == '\u{feff}' {
        1
    } else {
        0
    };
    assert(s@.subrange(start as int, s@.len() as int) =~= without_bom(input@));
    let lines = split_ranges(s, start, s.len(), '\n');
    let ghost all_lines = split_on(without_bom(input@), '\n');
    let mut synthetic: Option<bool> = None;
    let mut note = false;
    let mut header = false;
    let mut observations: Vec<UkCbObservation> = Vec::new();
    let ghost mut rows: Seq<RowSpec> = Seq::empty();
    proof {
        reveal_strlit("# _synthetic:");
        reveal_strlit("# _note:");
        assert(all_lines.subrange(0, all_lines.len() as int) =~= all_lines);
    }
    let mut i: usize = 0;
    while i < lines.len()
        invariant
            s@ == input@,
            all_lines == split_on(without_bom(input@), '\n'),
            0 <= i <= lines@.len(),
            lines@.len() == all_lines.len(),
            forall|j: int|
                0 <= j < lines@.len() ==> #[trigger] lines@[j].0 <= lines@[j].1 <= s@.len()
                    && s@.subrange(lines@[j].0 as int, lines@[j].1 as int) == all_lines[j],
            csv_scan(all_lines, csv_initial(), 0) == csv_scan(
                all_lines.subrange(i as int, all_lines.len() as int),
                CsvScan { synthetic, note, header, rows },
                i as nat,
            ),
            observations@.len() == rows.len(),
            forall|j: int|
                0 <= j < rows.len() ==> observation_matches(
                    #[trigger] observations@[j],
                    rows[j],
                    *numeral,
                ),
            forall|x: &str| call_requires(*numeral, (x,)),
            "# _synthetic:"@.len() == 13,
            "# _note:"@.len() == 8,
        decreases lines@.len() - i,
    {
        let (lo, hi) = lines[i];
        let ghost st = CsvScan { synthetic, note, header, rows };
        proof {
            lemma_scan_step(all_lines, i as int, st);
        }
        let (a, b) = trim_range(s, lo, hi);
        let ghost t = s@.subrange(a as int, b as int);
        if a == b {
        } else if has_prefix(s, a, b, "# _synthetic:") {
            let (c, d) = trim_range(s, a + 13, b);
            assert(t.subrange(13, t.len() as int) =~= s@.subrange(a + 13, b as int));
            synthetic = Some(equals_text(s, c, d, "true"));
        } else if has_prefix(s, a, b, "# _note:") {
            let (c, d) = trim_range(s, a + 8, b);
            assert(t.subrange(8, t.len() as int) =~= s@.subrange(a + 8, b as int));
            note = c != d;
        } else if s[a] == '#' {
            assert(t[0] == s@[a as int]);
        } else if !header {
            if !equals_text(s, a, b, CSV_HEADER) {
                let mut msg = String::from_str(
                    "CSV 表头须逐字为 \"series,period,value,unit,frequency,revision\"（第 ",
                );
                msg.append(line_text(i + 1).as_str());
                msg.append(" 行）");
                assert(msg@ =~= header_refusal((i + 1) as nat));

                return Err(UkCbError::Invalid(msg));
            }
            header = true;
        } else {
            assert(t[0] == s@[a as int]);
            match parse_row(input, s, a, b, i + 1, numeral) {
                Ok(o) => {
                    let ghost row = csv_row(t, (i + 1) as nat)->Ok_0;
                    observations.push(o);
                    proof {
                        rows = rows.push(row);
                    }
                },
                Err(e) => {
                    return Err(e);
                },
            }
        }
        i = i + 1;
    }
    assert(all_lines.subrange(lines@.len() as int, all_lines.len() as int) =~= Seq::<
        Seq<char>,
    >::empty());
    if !header {
        return Err(UkCbError::Missing(String::from_str("CSV 表头")));
    }
    match synthetic_marker_check(synthetic, note) {
        Ok(()) => {},
        Err(e) => return Err(e),
    }
    assert(rows.subrange(0, rows.len() as int) =~= rows);
    assert(csv_document(input@) == match rows_fault(rows) {
        Some(f) => Err(f),
        None => Ok(rows),
    });
    let mut k: usize = 0;
    while k < observations.len()
        invariant
            0 <= k <= observations@.len(),
            observations@.len() == rows.len(),
            forall|j: int|
                0 <= j < rows.len() ==> observation_matches(
                    #[trigger] observations@[j],
                    rows[j],
                    *numeral,
                ),
            rows_fault(rows) == rows_fault(rows.subrange(k as int, rows.len() as int)),
            csv_document(input@) == match rows_fault(rows) {
                Some(f) => Err(f),
                None => Ok(rows),
            },
        decreases observations@.len() - k,
    {
        proof {
            lemma_rows_fault_step(rows, k as int);
        }
        let o = &observations[k];
        assert(observation_matches(observations@[k as int], rows[k as int], *numeral));
        match check_observation(&o.period, true, &o.revision, o.frequency) {
            Ok(()) => {},
            Err(e) => return Err(e),
        }
        k = k + 1;
    }
    assert(rows.subrange(rows.len() as int, rows.len() as int) =~= Seq::<RowSpec>::empty());
    Ok(observations)
}

} // verus!
