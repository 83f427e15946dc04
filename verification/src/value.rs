//! Basic value objects: calendar date, business period, frequency and source unit.
//!
//! Only the identity of a day / month / quarter / year is needed here: no time
//! zones, arithmetic or formatting beyond the ISO spelling of a date.

mod observation;
mod source;

pub(crate) use observation::check_observation;
pub use observation::{
    frequency_fits, is_series_char, is_series_text, law_series_text_round_trip,
    observation_fault, observation_refusal, outcome_of, reads_as, refused_as_checked,
    revision_view, series_refusal, spec_series_text, validate_observation, UkCbAbsence,
    UkCbObservation, UkCbSeriesId, UkCbValue,
};

pub use source::{
    code_refusal, curve_refusal, curve_route, guard_curve, iadb_code, iadb_key_codes,
    law_key_codes_are_exactly_the_six_seeds, law_registry_lookup_is_consistent,
    law_key_code_spelling_round_trip, planned_schedule, source_plans, spec_curve_route,
    spec_iadb_key_codes, spec_planned_schedule, spec_source_plans, CurveRoute, UkCbFormat,
    UkCbIadbCode, UkCbScheduleWindow, UkCbSourceId, UkCbSourcePlan,
    PLANNED_SCHEDULE_IS_NOT_ACCESS_CONTRACT, SOURCE_ID,
};

use vstd::prelude::*;

use crate::error::{UkCbError, UkCbErrorKind, UkCbResult};
use crate::text::{
    all_digit_bytes, all_digits, ascii_bytes, bytes_num, chars_of, decimal,
    decimal_text, digit_bytes_value, digits_num, has_prefix, is_digit, lemma_digit_bytes,
    padded_text, pow10, same_text, starts_with, zero_padded,
};
use vstd::utf8::encode_utf8;

verus! {

/// Gregorian leap years: every fourth year, except centuries not divisible by 400.
pub open spec fn is_leap(year: int) -> bool {
    (year % 4 == 0 && year % 100 != 0) || year % 400 == 0
}

/// The number of days in `month` of `year` (0 for a month outside 1–12).
pub open spec fn month_days(year: int, month: int) -> int {
    if month == 1 || month == 3 || month == 5 || month == 7 || month == 8 || month == 10
        || month == 12 {
        31
    } else if month == 4 || month == 6 || month == 9 || month == 11 {
        30
    } else if month == 2 {
        if is_leap(year) {
            29
        } else {
            28
        }
    } else {
        0
    }
}

/// A strict ISO calendar date `YYYY-MM-DD`.
#[derive(Debug, Clone, Copy, PartialEq, Eq, PartialOrd, Ord, Hash, Structural)]
pub struct Date {
    /// Year (may be negative; kept as the source gives it).
    pub year: i16,
    /// Month, 1–12.
    pub month: u8,
    /// Day, bounded by the month and leap years.
    pub day: u8,
}

/// A fixed-width field of decimal digits, zero padding required: the number that
/// the bytes `b` spell, or the message naming the field `label`.
pub open spec fn fixed_digits(b: Seq<u8>, label: Seq<char>) -> Result<int, Seq<char>> {
    if all_digit_bytes(b) {
        Ok(bytes_num(b))
    } else {
        Err(label + "须为定长补零十进制数字"@)
    }
}

/// The first range fault of a date, as its message: the month must be in 1–12 and
/// the day within that month (leap years included); `None` when it has none.
pub open spec fn date_fault(d: Date) -> Option<Seq<char>> {
    if !(1 <= d.month <= 12) {
        Some("月须在 1–12"@)
    } else if !(1 <= d.day <= month_days(d.year as int, d.month as int)) {
        Some("日须在 1–"@ + decimal(month_days(d.year as int, d.month as int) as nat))
    } else {
        None
    }
}

/// What [`Date::parse`] makes of the text `s`: the date, or the message of the
/// refusal. The text must be ten bytes with `-` at bytes 4 and 7, then each field
/// must be zero-padded digits (year, month, day, in that order), then the date must
/// exist.
pub open spec fn spec_parse_date(s: Seq<char>) -> Result<Date, Seq<char>> {
    let b = encode_utf8(s);
    if b.len() != 10 || b[4] != 45u8 || b[7] != 45u8 {
        Err("日期须为严格 YYYY-MM-DD 形态"@)
    } else {
        match fixed_digits(b.subrange(0, 4), "年"@) {
            Err(m) => Err(m),
            Ok(year) => match fixed_digits(b.subrange(5, 7), "月"@) {
                Err(m) => Err(m),
                Ok(month) => match fixed_digits(b.subrange(8, 10), "日"@) {
                    Err(m) => Err(m),
                    Ok(day) => {
                        let d = Date { year: year as i16, month: month as u8, day: day as u8 };
                        match date_fault(d) {
                            Some(m) => Err(m),
                            None => Ok(d),
                        }
                    },
                },
            },
        }
    }
}

/// Whether `a` comes strictly before `b` in the calendar.
pub open spec fn date_before(a: Date, b: Date) -> bool {
    a.year < b.year || (a.year == b.year && (a.month < b.month || (a.month == b.month && a.day
        < b.day)))
}

/// The `YYYY-MM-DD` spelling of a date (year zero-padded to four places after any sign).
pub open spec fn date_text(d: Date) -> Seq<char> {
    zero_padded(d.year as int, 4) + seq!['-'] + zero_padded(d.month as int, 2) + seq!['-']
        + zero_padded(d.day as int, 2)
}

fn days_in_month(year: i16, month: u8) -> (r: u8)
    ensures
        r == month_days(year as int, month as int),
{
    if month == 1 || month == 3 || month == 5 || month == 7 || month == 8 || month == 10 || month
        == 12 {
        31
    } else if month == 4 || month == 6 || month == 9 || month == 11 {
        30
    } else if month == 2 {
        if Date::is_leap_year(year) {
            29
        } else {
            28
        }
    } else {
        0
    }
}

/// The text `a` followed by `b`.
pub(crate) fn joined(a: &str, b: &str) -> (r: String)
    ensures
        r@ == a@ + b@,
{
    let mut out = String::from_str(a);
    out.append(b);
    out
}

/// Reads the fixed-width digit field `b[lo..hi]` (at most four bytes).
fn fixed_digits_at(b: &[u8], lo: usize, hi: usize, label: &str) -> (r: Result<u16, String>)
    requires
        lo <= hi <= b@.len(),
        hi - lo <= 4,
    ensures
        match fixed_digits(b@.subrange(lo as int, hi as int), label@) {
            Ok(n) => r matches Ok(v) && v == n && n < pow10((hi - lo) as nat),
            Err(m) => r matches Err(t) && t@ == m,
        },
{
    match digit_bytes_value(b, lo, hi) {
        Some(v) => {
            proof {
                crate::text::lemma_bytes_num_bound(b@.subrange(lo as int, hi as int));
            }
            Ok(v)
        },
        None => Err(joined(label, "须为定长补零十进制数字")),
    }
}

/// Whether `r` is the refusal of kind `Invalid` with the message `m`.
pub open spec fn invalid_with<T>(r: UkCbResult<T>, m: Seq<char>) -> bool {
    r matches Err(e) && e.spec_kind() == UkCbErrorKind::Invalid && e.spec_detail() == m
}

impl Date {
    /// Whether the month is in 1–12 and the day within that month.
    pub open spec fn spec_valid(self) -> bool {
        1 <= self.month <= 12 && 1 <= self.day <= month_days(self.year as int, self.month as int)
    }

    /// Builds and checks a date.
    pub fn new(year: i16, month: u8, day: u8) -> (r: UkCbResult<Self>)
        ensures
            match date_fault(Date { year, month, day }) {
                None => r == Ok::<Date, UkCbError>(Date { year, month, day }),
                Some(m) => invalid_with(r, m),
            },
    {
        let date = Date { year, month, day };
        match date.validate() {
            Ok(()) => Ok(date),
            Err(e) => Err(e),
        }
    }

    /// Parses strictly `YYYY-MM-DD` (zero-padded month and day, `-` separators).
    pub fn parse(input: &str) -> (r: UkCbResult<Self>)
        ensures
            match spec_parse_date(input@) {
                Ok(d) => r == Ok::<Date, UkCbError>(d),
                Err(m) => invalid_with(r, m),
            },
    {
        let b = input.as_bytes();
        if b.len() != 10 || b[4] != 45u8 || b[7] != 45u8 {
            return Err(UkCbError::Invalid(String::from_str("日期须为严格 YYYY-MM-DD 形态")));
        }
        let year = match fixed_digits_at(b, 0, 4, "年") {
            Ok(v) => v,
            Err(m) => return Err(UkCbError::Invalid(m)),
        };
        let month = match fixed_digits_at(b, 5, 7, "月") {
            Ok(v) => v,
            Err(m) => return Err(UkCbError::Invalid(m)),
        };
        let day = match fixed_digits_at(b, 8, 10, "日") {
            Ok(v) => v,
            Err(m) => return Err(UkCbError::Invalid(m)),
        };
        proof {
            reveal_with_fuel(crate::text::pow10, 5);
        }
        Date::new(year as i16, month as u8, day as u8)
    }

    /// Checks the month range and the day range, leap years included.
    pub fn validate(&self) -> (r: UkCbResult<()>)
        ensures
            r is Ok <==> self.spec_valid(),
            match date_fault(*self) {
                None => r is Ok,
                Some(m) => invalid_with(r, m),
            },
    {
        if self.month < 1 || self.month > 12 {
            return Err(UkCbError::Invalid(String::from_str("月须在 1–12")));
        }
        let max = days_in_month(self.year, self.month);
        if self.day < 1 || self.day > max {
            return Err(UkCbError::Invalid(joined("日须在 1–", decimal_text(max as u64).as_str())));
        }
        Ok(())
    }

    /// Whether `year` is a leap year in the Gregorian calendar.
    pub fn is_leap_year(year: i16) -> (r: bool)
        ensures
            r == is_leap(year as int),
    {
        (year % 4 == 0 && year % 100 != 0) || year % 400 == 0
    }

    /// The `YYYY-MM-DD` spelling of the date.
    pub fn to_string(&self) -> (r: String)
        ensures
            r@ == date_text(*self),
    {
        let mut out = padded_text(self.year as i64, 4);
        out.append("-");
        out.append(padded_text(self.month as i64, 2).as_str());
        out.append("-");
        out.append(padded_text(self.day as i64, 2).as_str());
        proof {
            reveal_strlit("-");
        }
        out
    }
}

pub(crate) proof fn lemma_padded_reads_back(n: int, w: nat)
    requires
        0 <= n < pow10(w),
        w >= 1,
    ensures
        zero_padded(n, w).len() == w,
        all_digits(zero_padded(n, w)),
        digits_num(zero_padded(n, w)) == n,
{
    crate::text::lemma_decimal_len(n as nat, w);
    crate::text::lemma_decimal_reads_back(n as nat);
    let digits = decimal(n as nat);
    let pad = w - digits.len();
    crate::text::lemma_leading_zeros(pad as nat, digits);
    assert(zero_padded(n, w) =~= Seq::new(pad as nat, |i: int| '0') + digits);
}

/// Reading back the `YYYY-MM-DD` spelling of a valid date with a four-digit
/// year gives the same date (`Date::parse` undoes `Date::to_string`).
pub proof fn law_date_text_round_trip(d: Date)
    requires
        d.spec_valid(),
        0 <= d.year <= 9999,
    ensures
        spec_parse_date(date_text(d)) == Ok::<Date, Seq<char>>(d),
{
    reveal_with_fuel(crate::text::pow10, 5);
    lemma_padded_reads_back(d.year as int, 4);
    lemma_padded_reads_back(d.month as int, 2);
    lemma_padded_reads_back(d.day as int, 2);
    let y = zero_padded(d.year as int, 4);
    let m = zero_padded(d.month as int, 2);
    let dd = zero_padded(d.day as int, 2);
    let t = date_text(d);
    assert(t =~= y + seq!['-'] + m + seq!['-'] + dd);
    assert(t.subrange(0, 4) =~= y);
    assert(t.subrange(5, 7) =~= m);
    assert(t.subrange(8, 10) =~= dd);
    assert(t[4] == '-');
    assert(t[7] == '-');
    assert(vstd::utf8::is_ascii_chars(t)) by {
        assert forall|i: int| 0 <= i < t.len() implies '\0' <= #[trigger] t[i] <= '\u{7f}' by {
            if i < 4 {
                assert(t[i] == y[i]);
                assert(is_digit(y[i]));
            } else if 5 <= i < 7 {
                assert(t[i] == m[i - 5]);
                assert(is_digit(m[i - 5]));
            } else if 8 <= i {
                assert(t[i] == dd[i - 8]);
                assert(is_digit(dd[i - 8]));
            }
        }
    }
    vstd::utf8::is_ascii_chars_encode_utf8(t);
    let b = encode_utf8(t);
    assert(b =~= ascii_bytes(t));
    assert(b.subrange(0, 4) =~= ascii_bytes(y));
    assert(b.subrange(5, 7) =~= ascii_bytes(m));
    assert(b.subrange(8, 10) =~= ascii_bytes(dd));
    lemma_digit_bytes(y);
    lemma_digit_bytes(m);
    lemma_digit_bytes(dd);
    assert(b[4] == 45u8);
    assert(b[7] == 45u8);
}

/// Every period that [`parse_period`] accepts is within its ranges.
pub proof fn law_parsed_period_is_valid(s: Seq<char>)
    ensures
        spec_parse_period(s) matches Ok(p) ==> p.spec_valid(),
{
}

/// A business period. Never stand in for it with free text.
#[non_exhaustive]
#[derive(Debug, Clone, Copy, PartialEq, Eq, PartialOrd, Ord, Hash, Structural)]
pub enum Period {
    /// Day granularity: `YYYY-MM-DD`.
    Day(Date),
    /// Month granularity.
    Month {
        /// Year.
        year: i16,
        /// Month, 1–12.
        month: u8,
    },
    /// Quarter granularity.
    Quarter {
        /// Year.
        year: i16,
        /// Quarter, 1–4.
        quarter: u8,
    },
    /// Year granularity.
    Year(i16),
    /// An event period, named by the day the event happened (not a daily series).
    Event {
        /// The day of the event.
        date: Date,
    },
}

/// The first range fault of a period, as its message; `None` when it has none.
pub open spec fn period_fault(p: Period) -> Option<Seq<char>> {
    match p {
        Period::Day(d) => date_fault(d),
        Period::Event { date } => date_fault(date),
        Period::Month { month, .. } => if 1 <= month <= 12 {
            None
        } else {
            Some("月须在 1–12"@)
        },
        Period::Quarter { quarter, .. } => if 1 <= quarter <= 4 {
            None
        } else {
            Some("季须在 1–4"@)
        },
        Period::Year(_) => None,
    }
}

impl Period {
    /// Whether every field of the period is within its range.
    pub open spec fn spec_valid(self) -> bool {
        match self {
            Period::Day(d) => d.spec_valid(),
            Period::Event { date } => date.spec_valid(),
            Period::Month { month, .. } => 1 <= month <= 12,
            Period::Quarter { quarter, .. } => 1 <= quarter <= 4,
            Period::Year(_) => true,
        }
    }

    /// Checks the ranges: month 1–12, quarter 1–4, day by month and leap year.
    pub fn validate(&self) -> (r: UkCbResult<()>)
        ensures
            r is Ok <==> self.spec_valid(),
            match period_fault(*self) {
                None => r is Ok,
                Some(m) => invalid_with(r, m),
            },
    {
        match *self {
            Period::Day(date) => date.validate(),
            Period::Event { date } => date.validate(),
            Period::Month { month, .. } => {
                if 1 <= month && month <= 12 {
                    Ok(())
                } else {
                    Err(UkCbError::Invalid(String::from_str("月须在 1–12")))
                }
            },
            Period::Quarter { quarter, .. } => {
                if 1 <= quarter && quarter <= 4 {
                    Ok(())
                } else {
                    Err(UkCbError::Invalid(String::from_str("季须在 1–4")))
                }
            },
            Period::Year(_) => Ok(()),
        }
    }
}

/// What [`parse_period`] makes of the text `s`: the period, or the message of the
/// refusal. The forms are tried in order: `event:` followed by a date; ten bytes, a
/// date; seven bytes with `-Q` at bytes 4 and 5, a quarter (its digit read before
/// the year); seven bytes with `-` at byte 4, a month; four bytes, a year.
pub open spec fn spec_parse_period(s: Seq<char>) -> Result<Period, Seq<char>> {
    let b = encode_utf8(s);
    if starts_with(s, "event:"@) {
        match spec_parse_date(s.subrange(6, s.len() as int)) {
            Ok(d) => Ok(Period::Event { date: d }),
            Err(m) => Err(m),
        }
    } else if b.len() == 10 {
        match spec_parse_date(s) {
            Ok(d) => Ok(Period::Day(d)),
            Err(m) => Err(m),
        }
    } else if b.len() == 7 && b[4] == 45u8 && b[5] == 81u8 {
        match fixed_digits(b.subrange(6, 7), "季"@) {
            Err(m) => Err(m),
            Ok(quarter) => match fixed_digits(b.subrange(0, 4), "年"@) {
                Err(m) => Err(m),
                Ok(year) => {
                    let p = Period::Quarter { year: year as i16, quarter: quarter as u8 };
                    match period_fault(p) {
                        Some(m) => Err(m),
                        None => Ok(p),
                    }
                },
            },
        }
    } else if b.len() == 7 && b[4] == 45u8 {
        match fixed_digits(b.subrange(0, 4), "年"@) {
            Err(m) => Err(m),
            Ok(year) => match fixed_digits(b.subrange(5, 7), "月"@) {
                Err(m) => Err(m),
                Ok(month) => {
                    let p = Period::Month { year: year as i16, month: month as u8 };
                    match period_fault(p) {
                        Some(m) => Err(m),
                        None => Ok(p),
                    }
                },
            },
        }
    } else if b.len() == 4 {
        match fixed_digits(b, "年"@) {
            Err(m) => Err(m),
            Ok(year) => Ok(Period::Year(year as i16)),
        }
    } else {
        Err(
            "期间形态须为 YYYY-MM-DD / YYYY-MM / YYYY-Qn / YYYY / event:YYYY-MM-DD"@,
        )
    }
}

fn checked_period(p: Period) -> (r: UkCbResult<Period>)
    ensures
        match period_fault(p) {
            None => r == Ok::<Period, UkCbError>(p),
            Some(m) => invalid_with(r, m),
        },
{
    match p.validate() {
        Ok(()) => Ok(p),
        Err(e) => Err(e),
    }
}

/// Parses a business period in one of the declared forms: `YYYY-MM-DD`, `YYYY-MM`,
/// `YYYY-Qn`, `YYYY` or `event:YYYY-MM-DD`; anything else is rejected, never guessed.
pub fn parse_period(input: &str) -> (r: UkCbResult<Period>)
    ensures
        match spec_parse_period(input@) {
            Ok(p) => r == Ok::<Period, UkCbError>(p),
            Err(m) => invalid_with(r, m),
        },
{
    let chars = chars_of(input);
    assert(chars@.subrange(0, chars@.len() as int) =~= input@);
    proof {
        reveal_strlit("event:");
        reveal_with_fuel(crate::text::pow10, 5);
    }
    if has_prefix(chars.as_slice(), 0, chars.len(), "event:") {
        let rest = input.substring_char(6, chars.len());
        return match Date::parse(rest) {
            Ok(d) => Ok(Period::Event { date: d }),
            Err(e) => Err(e),
        };
    }
    let b = input.as_bytes();
    if b.len() == 10 {
        return match Date::parse(input) {
            Ok(d) => Ok(Period::Day(d)),
            Err(e) => Err(e),
        };
    }
    if b.len() == 7 && b[4] == 45u8 && b[5] == 81u8 {
        let quarter = match fixed_digits_at(b, 6, 7, "季") {
            Ok(v) => v,
            Err(m) => return Err(UkCbError::Invalid(m)),
        };
        let year = match fixed_digits_at(b, 0, 4, "年") {
            Ok(v) => v,
            Err(m) => return Err(UkCbError::Invalid(m)),
        };
        return checked_period(Period::Quarter { year: year as i16, quarter: quarter as u8 });
    }
    if b.len() == 7 && b[4] == 45u8 {
        let year = match fixed_digits_at(b, 0, 4, "年") {
            Ok(v) => v,
            Err(m) => return Err(UkCbError::Invalid(m)),
        };
        let month = match fixed_digits_at(b, 5, 7, "月") {
            Ok(v) => v,
            Err(m) => return Err(UkCbError::Invalid(m)),
        };
        return checked_period(Period::Month { year: year as i16, month: month as u8 });
    }
    if b.len() == 4 {
        assert(b@.subrange(0, 4) =~= b@);
        return match fixed_digits_at(b, 0, 4, "年") {
            Ok(v) => Ok(Period::Year(v as i16)),
            Err(m) => Err(UkCbError::Invalid(m)),
        };
    }
    Err(
        UkCbError::Invalid(
            String::from_str("期间形态须为 YYYY-MM-DD / YYYY-MM / YYYY-Qn / YYYY / event:YYYY-MM-DD"),
        ),
    )
}

/// The message refusing a text as a frequency (the text itself is not quoted).
pub open spec fn frequency_refusal() -> Seq<char> {
    "频率不在契约的七个取值内"@
}

/// The message refusing a text as a unit (the text itself is not quoted).
pub open spec fn unit_refusal() -> Seq<char> {
    "单位不在本层声明的三个取值内"@
}

/// Frequency; exactly seven values.
#[non_exhaustive]
#[derive(Debug, Clone, Copy, PartialEq, Eq, Hash, Structural)]
pub enum Frequency {
    /// Daily.
    Daily,
    /// Weekly.
    Weekly,
    /// Monthly.
    Monthly,
    /// Quarterly.
    Quarterly,
    /// Annual.
    Annual,
    /// Event-driven.
    Event,
    /// Irregular or mixed.
    Irregular,
}

impl Frequency {
    /// The stable spelling of the frequency.
    pub open spec fn spec_str(self) -> Seq<char> {
        match self {
            Frequency::Daily => "daily"@,
            Frequency::Weekly => "weekly"@,
            Frequency::Monthly => "monthly"@,
            Frequency::Quarterly => "quarterly"@,
            Frequency::Annual => "annual"@,
            Frequency::Event => "event"@,
            Frequency::Irregular => "irregular"@,
        }
    }

    /// The frequency spelled `s`, if any.
    pub open spec fn spec_from(s: Seq<char>) -> Option<Frequency> {
        if s == "daily"@ {
            Some(Frequency::Daily)
        } else if s == "weekly"@ {
            Some(Frequency::Weekly)
        } else if s == "monthly"@ {
            Some(Frequency::Monthly)
        } else if s == "quarterly"@ {
            Some(Frequency::Quarterly)
        } else if s == "annual"@ {
            Some(Frequency::Annual)
        } else if s == "event"@ {
            Some(Frequency::Event)
        } else if s == "irregular"@ {
            Some(Frequency::Irregular)
        } else {
            None
        }
    }

    /// The stable spelling (used by the offline forms and across libraries).
    pub fn as_str(self) -> (r: &'static str)
        ensures
            r@ == self.spec_str(),
    {
        match self {
            Frequency::Daily => "daily",
            Frequency::Weekly => "weekly",
            Frequency::Monthly => "monthly",
            Frequency::Quarterly => "quarterly",
            Frequency::Annual => "annual",
            Frequency::Event => "event",
            Frequency::Irregular => "irregular",
        }
    }

    /// Parses the stable spelling; anything else is `NotApplicable` (no guessing of synonyms).
    pub fn parse(input: &str) -> (r: UkCbResult<Self>)
        ensures
            r is Ok <==> Frequency::spec_from(input@) is Some,
            r matches Ok(f) ==> Frequency::spec_from(input@) == Some(f),
            r matches Err(e) ==> e.spec_kind() == UkCbErrorKind::NotApplicable && e.spec_detail()
                == frequency_refusal(),
    {
        if same_text(input, "daily") {
            Ok(Frequency::Daily)
        } else if same_text(input, "weekly") {
            Ok(Frequency::Weekly)
        } else if same_text(input, "monthly") {
            Ok(Frequency::Monthly)
        } else if same_text(input, "quarterly") {
            Ok(Frequency::Quarterly)
        } else if same_text(input, "annual") {
            Ok(Frequency::Annual)
        } else if same_text(input, "event") {
            Ok(Frequency::Event)
        } else if same_text(input, "irregular") {
            Ok(Frequency::Irregular)
        } else {
            Err(UkCbError::NotApplicable(String::from_str("频率不在契约的七个取值内")))
        }
    }
}

/// The unit on the source side; kept as declared, never inferred or converted here.
#[non_exhaustive]
#[derive(Debug, Clone, Copy, PartialEq, Eq, Hash, Structural)]
pub enum UkCbUnit {
    /// The source declares no unit (none is inferred).
    Unspecified,
    /// The indicator's native unit, varying by series (kept as is).
    Native,
    /// Percent: only when the caller declares it explicitly in the offline form.
    Percent,
}

impl UkCbUnit {
    /// The stable spelling of the unit.
    pub open spec fn spec_str(self) -> Seq<char> {
        match self {
            UkCbUnit::Unspecified => "unspecified"@,
            UkCbUnit::Native => "native"@,
            UkCbUnit::Percent => "percent"@,
        }
    }

    /// The unit spelled `s`, if any.
    pub open spec fn spec_from(s: Seq<char>) -> Option<UkCbUnit> {
        if s == "unspecified"@ {
            Some(UkCbUnit::Unspecified)
        } else if s == "native"@ {
            Some(UkCbUnit::Native)
        } else if s == "percent"@ {
            Some(UkCbUnit::Percent)
        } else {
            None
        }
    }

    /// The stable spelling.
    pub fn as_str(self) -> (r: &'static str)
        ensures
            r@ == self.spec_str(),
    {
        match self {
            UkCbUnit::Unspecified => "unspecified",
            UkCbUnit::Native => "native",
            UkCbUnit::Percent => "percent",
        }
    }

    /// Parses the stable spelling; anything else is `SemanticallyRejected`.
    pub fn parse(input: &str) -> (r: UkCbResult<Self>)
        ensures
            r is Ok <==> UkCbUnit::spec_from(input@) is Some,
            r matches Ok(u) ==> UkCbUnit::spec_from(input@) == Some(u),
            r matches Err(e) ==> e.spec_kind() == UkCbErrorKind::SemanticallyRejected
                && e.spec_detail() == unit_refusal(),
    {
        if same_text(input, "unspecified") {
            Ok(UkCbUnit::Unspecified)
        } else if same_text(input, "native") {
            Ok(UkCbUnit::Native)
        } else if same_text(input, "percent") {
            Ok(UkCbUnit::Percent)
        } else {
            Err(UkCbError::SemanticallyRejected(String::from_str("单位不在本层声明的三个取值内")))
        }
    }
}

/// Reading back the spelling of a frequency gives the same frequency.
pub proof fn law_frequency_spelling_round_trip(f: Frequency)
    ensures
        Frequency::spec_from(f.spec_str()) == Some(f),
{
    match f {
        Frequency::Daily => {
        },
        Frequency::Weekly => {
            reveal_strlit("weekly");
            reveal_strlit("daily");
            assert("weekly"@.len() != "daily"@.len());
        },
        Frequency::Monthly => {
            reveal_strlit("monthly");
            reveal_strlit("daily");
            assert("monthly"@.len() != "daily"@.len());
            reveal_strlit("weekly");
            assert("monthly"@.len() != "weekly"@.len());
        },
        Frequency::Quarterly => {
            reveal_strlit("quarterly");
            reveal_strlit("daily");
            assert("quarterly"@.len() != "daily"@.len());
            reveal_strlit("weekly");
            assert("quarterly"@.len() != "weekly"@.len());
            reveal_strlit("monthly");
            assert("quarterly"@.len() != "monthly"@.len());
        },
        Frequency::Annual => {
            reveal_strlit("annual");
            reveal_strlit("daily");
            assert("annual"@.len() != "daily"@.len());
            reveal_strlit("weekly");
            assert("annual"@[0] != "weekly"@[0]);
            reveal_strlit("monthly");
            assert("annual"@.len() != "monthly"@.len());
            reveal_strlit("quarterly");
            assert("annual"@.len() != "quarterly"@.len());
        },
        Frequency::Event => {
            reveal_strlit("event");
            reveal_strlit("daily");
            assert("event"@[0] != "daily"@[0]);
            reveal_strlit("weekly");
            assert("event"@.len() != "weekly"@.len());
            reveal_strlit("monthly");
            assert("event"@.len() != "monthly"@.len());
            reveal_strlit("quarterly");
            assert("event"@.len() != "quarterly"@.len());
            reveal_strlit("annual");
            assert("event"@.len() != "annual"@.len());
        },
        Frequency::Irregular => {
            reveal_strlit("irregular");
            reveal_strlit("daily");
            assert("irregular"@.len() != "daily"@.len());
            reveal_strlit("weekly");
            assert("irregular"@.len() != "weekly"@.len());
            reveal_strlit("monthly");
            assert("irregular"@.len() != "monthly"@.len());
            reveal_strlit("quarterly");
            assert("irregular"@[0] != "quarterly"@[0]);
            reveal_strlit("annual");
            assert("irregular"@.len() != "annual"@.len());
            reveal_strlit("event");
            assert("irregular"@.len() != "event"@.len());
        },
    }
}

/// Reading back the spelling of a unit gives the same unit.
pub proof fn law_unit_spelling_round_trip(u: UkCbUnit)
    ensures
        UkCbUnit::spec_from(u.spec_str()) == Some(u),
{
    reveal_strlit("unspecified");
    reveal_strlit("native");
    reveal_strlit("percent");
    let s = u.spec_str();
    assert(s != "unspecified"@ ==> s.len() != 11);
    assert(s != "native"@ ==> s.len() != 6 || s[0] != 'n');
}

} // verus!
