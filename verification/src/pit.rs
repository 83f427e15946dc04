//! Publication semantics: time precision, availability evidence and formal
//! point-in-time eligibility.
//!
//! The source has no signed release calendar and no official vintage surface, so
//! the triple is always `Date` + `Inferred` + `NotEligible`. No clock time is ever
//! invented to pass a date off as an instant, and a cadence such as `T+1` is never
//! taken as availability evidence.

use vstd::prelude::*;

verus! {

/// Time precision: whether the source gives only a date or an exact instant.
#[non_exhaustive]
#[derive(Debug, Clone, Copy, PartialEq, Eq, Structural)]
pub enum TimePrecision {
    /// A date only.
    Date,
    /// An exact instant.
    Instant,
}

/// Availability evidence, strongest first: official field, calendar, inference.
#[non_exhaustive]
#[derive(Debug, Clone, Copy, PartialEq, Eq, Structural)]
pub enum AvailabilityEvidence {
    /// An official field.
    Official,
    /// A release calendar.
    Calendar,
    /// Inference.
    Inferred,
}

/// Formal point-in-time eligibility.
#[non_exhaustive]
#[derive(Debug, Clone, Copy, PartialEq, Eq, Structural)]
pub enum PitEligibility {
    /// May enter the formal point-in-time store.
    Formal,
    /// May not.
    NotEligible,
}

/// The publication triple of this source: always `(Date, Inferred, NotEligible)`.
pub fn publication_semantics() -> (r: (TimePrecision, AvailabilityEvidence, PitEligibility))
    ensures
        r == (TimePrecision::Date, AvailabilityEvidence::Inferred, PitEligibility::NotEligible),
{
    (TimePrecision::Date, AvailabilityEvidence::Inferred, PitEligibility::NotEligible)
}

/// Whether the source is eligible for the formal point-in-time store: never.
pub fn is_formal_pit_eligible() -> (r: bool)
    ensures
        r == false,
{
    match publication_semantics().2 {
        PitEligibility::Formal => true,
        PitEligibility::NotEligible => false,
    }
}

} // verus!
