//! Series identifiers, observations and the named expression of missing values.
//!
//! A missing value is never turned into 0: it is [`UkCbValue::Absent`] with a reason.
//! No derived formula (net liquidity, spreads, z-scores, ...) belongs here.

use vstd::prelude::*;

use crate::error::{UkCbError, UkCbErrorKind, UkCbResult};
use crate::text::{chars_of, is_blank, trim, trim_range};
use crate::value::{joined, period_fault, Frequency, Period, UkCbIadbCode, UkCbUnit};

verus! {

/// A character that a series identifier may hold: ASCII letters and digits, `_`, `.`, `-`.
pub open spec fn is_series_char(c: char) -> bool {
    ('a' <= c <= 'z') || ('A' <= c <= 'Z') || ('0' <= c <= '9') || c == '_' || c == '.' || c
        == '-'
}

/// Whether `s` is a well-formed identifier: not empty, allowed characters only.
pub open spec fn is_series_text(s: Seq<char>) -> bool {
    s.len() > 0 && forall|i: int| 0 <= i < s.len() ==> is_series_char(#[trigger] s[i])
}

/// What [`UkCbSeriesId::parse`] makes of `s`: the trimmed text, or the kind of the refusal.
pub open spec fn spec_series_text(s: Seq<char>) -> Result<Seq<char>, UkCbErrorKind> {
    if trim(s).len() == 0 {
        Err(UkCbErrorKind::Missing)
    } else if is_series_text(trim(s)) {
        Ok(trim(s))
    } else {
        Err(UkCbErrorKind::Invalid)
    }
}

/// The message refusing `s` as a series identifier (the text itself is not quoted).
pub open spec fn series_refusal(s: Seq<char>) -> Seq<char> {
    if trim(s).len() == 0 {
        "序列标识"@
    } else {
        "序列标识只允许 ASCII 字母 / 数字 / `_` / `.` / `-`"@
    }
}

/// Reading back the text of a series identifier gives the same identifier: a
/// well-formed identifier has no white space to trim and only allowed characters.
pub proof fn law_series_text_round_trip(s: Seq<char>)
    requires
        is_series_text(s),
    ensures
        spec_series_text(s) == Ok::<Seq<char>, UkCbErrorKind>(s),
{
    assert(!crate::text::is_space(s[0]));
    assert(crate::text::trim_start(s) == s);
    assert(!crate::text::is_space(s.last())) by {
        assert(is_series_char(s[s.len() - 1]));
    }
    assert(trim(s) == s);
}

/// A series identifier, kept exactly as the source writes it (trimmed).
///
/// Its meaning is not interpreted, mapped or extended; key-code decisions go
/// through [`UkCbIadbCode::from_code`] (the six seeds only).
#[derive(Debug, PartialEq, Eq, PartialOrd, Ord, Hash)]
pub struct UkCbSeriesId(String);

impl Clone for UkCbSeriesId {
    /// The same identifier.
    fn clone(&self) -> (r: Self)
        ensures
            r@ == self@,
    {
        proof {
            use_type_invariant(self);
        }
        UkCbSeriesId(self.0.clone())
    }
}

impl View for UkCbSeriesId {
    type V = Seq<char>;

    closed spec fn view(&self) -> Seq<char> {
        self.0@
    }
}

fn series_char(c: char) -> (r: bool)
    ensures
        r == is_series_char(c),
{
    ('a' <= c && c <= 'z') || ('A' <= c && c <= 'Z') || ('0' <= c && c <= '9') || c == '_' || c
        == '.' || c == '-'
}

impl UkCbSeriesId {
    /// A series identifier is never empty and holds allowed characters only.
    #[verifier::type_invariant]
    spec fn well_formed(self) -> bool {
        is_series_text(self.0@)
    }

    /// Builds and checks a series identifier from `text` (trimmed first).
    ///
    /// Allowed characters are ASCII letters, digits, `_`, `.` and `-`.
    pub fn parse(text: &str) -> (r: UkCbResult<Self>)
        ensures
            r is Ok <==> spec_series_text(text@) is Ok,
            r matches Ok(id) ==> spec_series_text(text@) == Ok::<Seq<char>, UkCbErrorKind>(id@),
            r matches Err(e) ==> spec_series_text(text@) == Err::<Seq<char>, UkCbErrorKind>(
                e.spec_kind(),
            ) && e.spec_detail() == series_refusal(text@),
    {
        let chars = chars_of(text);
        assert(chars@.subrange(0, chars@.len() as int) =~= text@);
        let (a, b) = trim_range(chars.as_slice(), 0, chars.len());
        if a == b {
            return Err(UkCbError::Missing(String::from_str("序列标识")));
        }
        let mut k = a;
        while k < b
            invariant
                a <= k <= b <= chars@.len(),
                a < b,
                chars@ == text@,
                chars@.subrange(a as int, b as int) == trim(text@),
                forall|i: int| a <= i < k ==> is_series_char(#[trigger] chars@[i]),
            decreases b - k,
        {
            if !series_char(chars[k]) {
                assert(!is_series_text(chars@.subrange(a as int, b as int))) by {
                    assert(chars@.subrange(a as int, b as int)[k - a] == chars@[k as int]);
                }
                return Err(
                    UkCbError::Invalid(
                        String::from_str("序列标识只允许 ASCII 字母 / 数字 / `_` / `.` / `-`"),
                    ),
                );
            }
            k = k + 1;
        }
        assert(is_series_text(chars@.subrange(a as int, b as int))) by {
            assert forall|i: int| 0 <= i < b - a implies is_series_char(
                #[trigger] chars@.subrange(a as int, b as int)[i],
            ) by {
                assert(chars@.subrange(a as int, b as int)[i] == chars@[a + i]);
            }
        }
        Ok(UkCbSeriesId(String::from_str(text.substring_char(a, b))))
    }

    /// The identifier text.
    pub fn as_str(&self) -> (r: &str)
        ensures
            r@ == self@,
    {
        self.0.as_str()
    }

    /// The identifier text as an owned string.
    pub fn to_string(&self) -> (r: String)
        ensures
            r@ == self@,
    {
        String::from_str(self.0.as_str())
    }

    /// The key code that this identifier is, exactly when it is one of the six seeds.
    pub fn iadb_code(&self) -> (r: Option<UkCbIadbCode>)
        ensures
            r == UkCbIadbCode::spec_from(self@),
    {
        match UkCbIadbCode::from_code(self.0.as_str()) {
            Ok(c) => Some(c),
            Err(_) => None,
        }
    }
}

/// Why an observed value is missing.
///
/// The manifest does not fix the literal of a missing marker, so only "the source
/// cell is empty" and "the source gives a non-numeric marker" are told apart; the
/// marker's literal meaning is not interpreted.
#[non_exhaustive]
#[derive(Debug, Clone, Copy, PartialEq, Eq, Hash, Structural)]
pub enum UkCbAbsence {
    /// The source cell is empty.
    BlankInSource,
    /// The source gives a non-numeric marker (not interpreted).
    ExplicitMarker,
}

/// An observed value: a number as the source spells it, or a named absence.
///
/// An absence is never silently turned into 0. A present value is held as the
/// source's numeral text; the caller's numeral reader decided it is a finite number.
#[non_exhaustive]
#[derive(Debug, Clone, PartialEq)]
pub enum UkCbValue {
    /// A value, as the source's numeral text.
    Present(String),
    /// Missing, with a named reason.
    Absent(UkCbAbsence),
}

impl UkCbValue {
    /// The numeral text; `None` when the value is missing (never 0).
    pub fn present(&self) -> (r: Option<&str>)
        ensures
            r is Some <==> self is Present,
            r matches Some(t) ==> (self matches UkCbValue::Present(p) && t@ == p@),
    {
        match self {
            UkCbValue::Present(text) => Some(text.as_str()),
            UkCbValue::Absent(_) => None,
        }
    }

    /// Whether the value is missing.
    pub fn is_absent(&self) -> (r: bool)
        ensures
            r == (self is Absent),
    {
        match self {
            UkCbValue::Present(_) => false,
            UkCbValue::Absent(_) => true,
        }
    }
}

/// One source observation (a source-fact value object).
#[derive(Debug, Clone, PartialEq)]
pub struct UkCbObservation {
    /// Series identifier (kept as the source writes it).
    pub series: UkCbSeriesId,
    /// Business period.
    pub period: Period,
    /// Value, or the named reason it is missing.
    pub value: UkCbValue,
    /// Source-side unit.
    pub unit: UkCbUnit,
    /// Frequency.
    pub frequency: Frequency,
    /// Revision tag; `None` when the offline form gives none (never invented).
    pub revision: Option<String>,
}

impl UkCbObservation {
    /// The revision tag; `None` while the offline form gives no revision.
    pub fn revision(&self) -> (r: Option<&str>)
        ensures
            r is Some <==> self.revision is Some,
            r matches Some(t) ==> (self.revision matches Some(v) && t@ == v@),
    {
        match &self.revision {
            Some(text) => Some(text.as_str()),
            None => None,
        }
    }
}

/// Whether `frequency` agrees with the granularity of `period`: daily goes with a
/// day or an event day, monthly with a month, quarterly with a quarter, annual with
/// a year; the other frequencies go with any period.
pub open spec fn frequency_fits(frequency: Frequency, period: Period) -> bool {
    match frequency {
        Frequency::Daily => period is Day || period is Event,
        Frequency::Monthly => period is Month,
        Frequency::Quarterly => period is Quarter,
        Frequency::Annual => period is Year,
        _ => true,
    }
}

/// The first check that an observation fails, in order: the period's ranges, a
/// present value that is not a finite number, a blank revision tag, and the fit of
/// frequency and period; `None` when it passes all of them.
pub open spec fn observation_fault(
    period: Period,
    finite: bool,
    revision: Option<Seq<char>>,
    frequency: Frequency,
) -> Option<UkCbErrorKind> {
    if !period.spec_valid() {
        Some(UkCbErrorKind::Invalid)
    } else if !finite {
        Some(UkCbErrorKind::Invalid)
    } else if revision matches Some(r) && is_blank(r) {
        Some(UkCbErrorKind::Missing)
    } else if !frequency_fits(frequency, period) {
        Some(UkCbErrorKind::Invalid)
    } else {
        None
    }
}

/// The message of the first check that an observation fails (see [`observation_fault`]).
pub open spec fn observation_refusal(
    period: Period,
    finite: bool,
    revision: Option<Seq<char>>,
    frequency: Frequency,
) -> Seq<char> {
    if !period.spec_valid() {
        period_fault(period)->Some_0
    } else if !finite {
        "取值为非有限数值（NaN / 无穷）"@
    } else if revision matches Some(r) && is_blank(r) {
        "修订标识（给出了空串）"@
    } else {
        match frequency {
            Frequency::Daily => "日频观测的期间须为日粒度或事件日"@,
            Frequency::Monthly => "月频观测的期间须为月粒度"@,
            Frequency::Quarterly => "季频观测的期间须为季粒度"@,
            _ => "年频观测的期间须为年粒度"@,
        }
    }
}

/// The revision tag of an observation, by its view.
pub open spec fn revision_view(revision: Option<String>) -> Option<Seq<char>> {
    match revision {
        Some(r) => Some(r@),
        None => None,
    }
}

/// `numeral` read `text` and answered `finite`.
pub open spec fn reads_as<F: Fn(&str) -> bool>(numeral: F, text: Seq<char>, finite: bool) -> bool {
    exists|s: &str| s@ == text && call_ensures(numeral, (s,), finite)
}

/// Whether `r` is the outcome that a check with first failure `fault` gives.
pub open spec fn outcome_of(r: UkCbResult<()>, fault: Option<UkCbErrorKind>) -> bool {
    match fault {
        None => r is Ok,
        Some(k) => r matches Err(e) && e.spec_kind() == k,
    }
}

pub(crate) fn check_observation(
    period: &Period,
    finite: bool,
    revision: &Option<String>,
    frequency: Frequency,
) -> (r: UkCbResult<()>)
    ensures
        outcome_of(r, observation_fault(*period, finite, revision_view(*revision), frequency)),
        r matches Err(e) ==> e.spec_detail() == observation_refusal(
            *period,
            finite,
            revision_view(*revision),
            frequency,
        ),
{
    match period.validate() {
        Ok(()) => {},
        Err(e) => return Err(e),
    }
    if !finite {
        return Err(UkCbError::Invalid(String::from_str("取值为非有限数值（NaN / 无穷）")));
    }
    match revision {
        Some(text) => {
            let chars = chars_of(text.as_str());
            assert(chars@.subrange(0, chars@.len() as int) =~= text@);
            let (a, b) = trim_range(chars.as_slice(), 0, chars.len());
            if a == b {
                return Err(UkCbError::Missing(String::from_str("修订标识（给出了空串）")));
            }
        },
        None => {},
    }
    match (frequency, *period) {
        (Frequency::Daily, Period::Day(_)) => Ok(()),
        (Frequency::Daily, Period::Event { .. }) => Ok(()),
        (Frequency::Daily, _) => Err(
            UkCbError::Invalid(String::from_str("日频观测的期间须为日粒度或事件日")),
        ),
        (Frequency::Monthly, Period::Month { .. }) => Ok(()),
        (Frequency::Monthly, _) => Err(
            UkCbError::Invalid(String::from_str("月频观测的期间须为月粒度")),
        ),
        (Frequency::Quarterly, Period::Quarter { .. }) => Ok(()),
        (Frequency::Quarterly, _) => Err(
            UkCbError::Invalid(String::from_str("季频观测的期间须为季粒度")),
        ),
        (Frequency::Annual, Period::Year(_)) => Ok(()),
        (Frequency::Annual, _) => Err(
            UkCbError::Invalid(String::from_str("年频观测的期间须为年粒度")),
        ),
        _ => Ok(()),
    }
}

/// Whether `r` is the outcome of the checks on `o`, its value read as `finite`: the
/// kind and the message of the first failing check, or `Ok`.
pub open spec fn refused_as_checked(r: UkCbResult<()>, o: &UkCbObservation, finite: bool) -> bool {
    &&& outcome_of(
        r,
        observation_fault(o.period, finite, revision_view(o.revision), o.frequency),
    )
    &&& r matches Err(e) ==> e.spec_detail() == observation_refusal(
        o.period,
        finite,
        revision_view(o.revision),
        o.frequency,
    )
}

/// Checks an observation: the period's ranges, that a present value is a finite
/// number (as `numeral` reads it), that a given revision tag is not blank, and that
/// frequency and period agree (for example, no daily observation of a year).
pub fn validate_observation<F: Fn(&str) -> bool>(
    observation: &UkCbObservation,
    numeral: &F,
) -> (r: UkCbResult<()>)
    requires
        forall|s: &str| call_requires(*numeral, (s,)),
    ensures
        observation.value is Absent ==> refused_as_checked(r, observation, true),
        observation.value matches UkCbValue::Present(t) ==> exists|finite: bool|
            reads_as(*numeral, t@, finite) && refused_as_checked(r, observation, finite),
{
    let finite = match &observation.value {
        UkCbValue::Present(text) => {
            let s = text.as_str();
            let b = numeral(s);
            assert(reads_as(*numeral, text@, b));
            b
        },
        UkCbValue::Absent(_) => true,
    };
    let r = check_observation(
        &observation.period,
        finite,
        &observation.revision,
        observation.frequency,
    );
    assert(refused_as_checked(r, observation, finite));
    r
}

} // verus!
