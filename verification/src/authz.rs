//! The authorization decision, which fails closed.
//!
//! The roster registers this source as `authorization = unknown` with no owner
//! sign-off, so the decision denies by default: missing, expired, unsigned or
//! unscoped evidence is always `Denied`. The decision is a read-only conclusion; it
//! does not change the roster and does not make the library production ready.

use vstd::prelude::*;

use crate::error::{UkCbError, UkCbErrorKind, UkCbResult};
use crate::text::{blank_text, is_blank};
use crate::value::{date_before, date_text, joined, Date};

verus! {

/// The authorization status that the roster registers (a read-only reference).
pub const AUTHORIZATION_STATUS: &'static str = "unknown";

/// The roster's note on the authorization evidence (a read-only reference).
pub const AUTHORIZATION_EVIDENCE: &'static str = "无 Owner 签核文件；Series/UA/许可 UNKNOWN";

/// The outcome of the authorization decision.
#[non_exhaustive]
#[derive(Debug, Clone, PartialEq, Eq)]
pub enum UkCbAuthorization {
    /// The evidence holds and covers the requested scope and date.
    Authorized {
        /// What is covered (source / mode / purpose), readable.
        scope: String,
    },
    /// The evidence is missing, expired, unsigned or of unclear scope.
    Denied {
        /// A readable reason.
        reason: String,
    },
}

/// The shape of authorization evidence.
///
/// The source has no sign-off file at present, so in practice callers pass `None`
/// and get the fail-closed `Denied`.
#[derive(Debug, Clone, PartialEq, Eq)]
pub struct UkCbAuthorizationEvidence {
    /// What is covered (source / mode / purpose).
    pub scope: String,
    /// Who signed.
    pub signer: String,
    /// Whether the owner signed it off.
    pub owner_signed: bool,
    /// First day of validity (inclusive).
    pub valid_from: Date,
    /// Last day of validity (inclusive).
    pub valid_until: Date,
}

/// Why the decision denies, in the order the checks run; `None` when it authorizes.
///
/// Missing evidence, a blank scope, a blank signer, no owner sign-off, an
/// impossible date or a reversed validity window, a date before the window, a date
/// after the window: each of these denies, with its own reason.
pub open spec fn spec_denial(evidence: Option<&UkCbAuthorizationEvidence>, as_of: Date) -> Option<
    Seq<char>,
> {
    match evidence {
        None => Some("证据缺失："@ + AUTHORIZATION_EVIDENCE@),
        Some(e) => if is_blank(e.scope@) {
            Some("覆盖范围不明：scope 为空"@)
        } else if is_blank(e.signer@) {
            Some("签署者不明：signer 为空"@)
        } else if !e.owner_signed {
            Some("未获 Owner 签核"@)
        } else if !as_of.spec_valid() || !e.valid_from.spec_valid() || !e.valid_until.spec_valid()
            || date_before(e.valid_until, e.valid_from) {
            Some("授权日期非法或有效期区间倒置，无法确认有效性"@)
        } else if date_before(as_of, e.valid_from) {
            Some("证据尚未生效（生效日 "@ + date_text(e.valid_from) + "）"@)
        } else if date_before(e.valid_until, as_of) {
            Some("证据已过期（失效日 "@ + date_text(e.valid_until) + "）"@)
        } else {
            None
        },
    }
}

fn before(a: Date, b: Date) -> (r: bool)
    ensures
        r == date_before(a, b),
{
    a.year < b.year || (a.year == b.year && (a.month < b.month || (a.month == b.month && a.day
        < b.day)))
}

/// The fail-closed authorization decision.
///
/// The checks run in order and any failure denies, never allows by default:
/// missing evidence; blank scope; blank signer; no owner sign-off; an impossible
/// date or a reversed validity window; `as_of` before `valid_from` or after
/// `valid_until`. Only evidence that passes all of them authorizes its scope.
pub fn authorize(evidence: Option<&UkCbAuthorizationEvidence>, as_of: Date) -> (r:
    UkCbAuthorization)
    ensures
        match spec_denial(evidence, as_of) {
            None => evidence matches Some(e) && r matches UkCbAuthorization::Authorized { scope }
                && scope@ == e.scope@,
            Some(m) => r matches UkCbAuthorization::Denied { reason } && reason@ == m,
        },
{
    let evidence = match evidence {
        Some(e) => e,
        None => {
            return UkCbAuthorization::Denied {
                reason: joined("证据缺失：", AUTHORIZATION_EVIDENCE),
            };
        },
    };
    if blank_text(evidence.scope.as_str()) {
        return UkCbAuthorization::Denied { reason: String::from_str("覆盖范围不明：scope 为空") };
    }
    if blank_text(evidence.signer.as_str()) {
        return UkCbAuthorization::Denied { reason: String::from_str("签署者不明：signer 为空") };
    }
    if !evidence.owner_signed {
        return UkCbAuthorization::Denied { reason: String::from_str("未获 Owner 签核") };
    }
    if as_of.validate().is_err() || evidence.valid_from.validate().is_err()
        || evidence.valid_until.validate().is_err() || before(
        evidence.valid_until,
        evidence.valid_from,
    ) {
        return UkCbAuthorization::Denied {
            reason: String::from_str("授权日期非法或有效期区间倒置，无法确认有效性"),
        };
    }
    if before(as_of, evidence.valid_from) {
        let mut reason = joined("证据尚未生效（生效日 ", evidence.valid_from.to_string().as_str());
        reason.append("）");
        return UkCbAuthorization::Denied { reason };
    }
    if before(evidence.valid_until, as_of) {
        let mut reason = joined("证据已过期（失效日 ", evidence.valid_until.to_string().as_str());
        reason.append("）");
        return UkCbAuthorization::Denied { reason };
    }
    UkCbAuthorization::Authorized { scope: evidence.scope.clone() }
}

/// The decision as a typed error, for `?`: `Ok` exactly when [`authorize`] authorizes.
pub fn ensure_authorized(evidence: Option<&UkCbAuthorizationEvidence>, as_of: Date) -> (r:
    UkCbResult<()>)
    ensures
        r is Ok <==> spec_denial(evidence, as_of) is None,
        r matches Err(e) ==> e.spec_kind() == UkCbErrorKind::AuthorizationDenied && Some(
            e.spec_detail(),
        ) == spec_denial(evidence, as_of),
{
    match authorize(evidence, as_of) {
        UkCbAuthorization::Authorized { .. } => Ok(()),
        UkCbAuthorization::Denied { reason } => Err(UkCbError::AuthorizationDenied(reason)),
    }
}

} // verus!
