//! `ukx` — the source-fact layer for the Bank of England data source
//! (`source_id = uk_cb`): the source registry and key IADB codes as types, an
//! offline parser, the curve routing rule and a fail-closed authorization decision.
//!
//! - No network: no HTTP client, no async runtime, no endpoint literal, no credentials.
//! - Fail-closed: the source's authorization is `unknown` (no owner sign-off).
//! - Only the CSV and JSON offline forms are parsed; xlsx / ZIP / XML / Excel and
//!   sources whose manifest names no format get `NotApplicable`.
//! - The S07 yield curve is routed to `yield_curve` and never written as observations.
//!
//! Every function of the library states its behaviour in a contract. Verus proves
//! each body against its contract, except three trusted functions whose contracts
//! it takes on trust: `json::read_json` and its converting helper `json_tree` (the
//! call into serde_json), and `text::string_of` (std's `collect` of characters into
//! a `String`). `spec_parse` and its helpers in [`parse`] state what the offline parser
//! accepts and what it refuses, with which error kind and message. Properties of
//! the library as a whole are proved in [`laws`].

pub mod authz;
pub mod error;
pub mod json;
pub mod laws;
pub mod parse;
pub mod pit;
pub mod text;
pub mod value;

pub use authz::{
    authorize, ensure_authorized, UkCbAuthorization, UkCbAuthorizationEvidence,
    AUTHORIZATION_EVIDENCE, AUTHORIZATION_STATUS,
};
pub use error::{UkCbError, UkCbErrorKind, UkCbResult};
pub use parse::parse_uk_cb_observations;
pub use pit::{
    is_formal_pit_eligible, publication_semantics, AvailabilityEvidence, PitEligibility,
    TimePrecision,
};
pub use value::{
    curve_route, guard_curve, iadb_code, iadb_key_codes, parse_period, planned_schedule,
    source_plans, validate_observation, CurveRoute, Date, Frequency, Period, UkCbAbsence,
    UkCbFormat, UkCbIadbCode, UkCbObservation, UkCbScheduleWindow, UkCbSeriesId, UkCbSourceId,
    UkCbSourcePlan, UkCbUnit, UkCbValue, PLANNED_SCHEDULE_IS_NOT_ACCESS_CONTRACT, SOURCE_ID,
};
