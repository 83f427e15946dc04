//! Error kinds and the error type of the library.
//!
//! A caller tells errors apart by [`UkCbErrorKind`], never by matching text.
//! The layer has no network, so only [`UkCbErrorKind::Invariant`] is worth a retry.

use vstd::prelude::*;

verus! {

/// What a caller should do about an error.
#[non_exhaustive]
#[derive(Debug, Clone, Copy, PartialEq, Eq, Hash, Structural)]
pub enum UkCbErrorKind {
    /// The input's shape or value is wrong (fix the data; retrying is pointless).
    Invalid,
    /// A required item is missing.
    Missing,
    /// The authorization decision did not pass (the fail-closed outcome).
    AuthorizationDenied,
    /// The product belongs to another domain and was routed there.
    RoutedElsewhere,
    /// A write outside this layer's authority.
    WriteAuthorityDenied,
    /// Well-formed but not accepted (an unpinned identifier, a repeated identity).
    SemanticallyRejected,
    /// A planned capability that is not implemented.
    NotApplicable,
    /// A broken invariant (a bug in the library).
    Invariant,
}

/// An error of the library; each variant carries a readable message.
#[non_exhaustive]
#[derive(Debug)]
pub enum UkCbError {
    /// Invalid input.
    Invalid(String),
    /// A required item is missing.
    Missing(String),
    /// Authorization denied.
    AuthorizationDenied(String),
    /// Routed to another domain.
    RoutedElsewhere(String),
    /// Write outside this layer's authority.
    WriteAuthorityDenied(String),
    /// Semantically rejected.
    SemanticallyRejected(String),
    /// Planned capability not implemented.
    NotApplicable(String),
    /// Broken invariant.
    Invariant(String),
}

/// The result type of the library.
pub type UkCbResult<T> = Result<T, UkCbError>;

impl UkCbErrorKind {
    /// The text that the rendered message of an error of this kind starts with.
    pub open spec fn spec_label(self) -> Seq<char> {
        match self {
            UkCbErrorKind::Invalid => "输入非法："@,
            UkCbErrorKind::Missing => "缺少必需项："@,
            UkCbErrorKind::AuthorizationDenied => "授权判定未通过："@,
            UkCbErrorKind::RoutedElsewhere => "不属于本域，已路由他处："@,
            UkCbErrorKind::WriteAuthorityDenied => "越权写入被拒绝："@,
            UkCbErrorKind::SemanticallyRejected => "语义不被接受："@,
            UkCbErrorKind::NotApplicable => "规划能力尚未实现："@,
            UkCbErrorKind::Invariant => "不变量被破坏："@,
        }
    }

    fn label(self) -> (r: &'static str)
        ensures
            r@ == self.spec_label(),
    {
        match self {
            UkCbErrorKind::Invalid => "输入非法：",
            UkCbErrorKind::Missing => "缺少必需项：",
            UkCbErrorKind::AuthorizationDenied => "授权判定未通过：",
            UkCbErrorKind::RoutedElsewhere => "不属于本域，已路由他处：",
            UkCbErrorKind::WriteAuthorityDenied => "越权写入被拒绝：",
            UkCbErrorKind::SemanticallyRejected => "语义不被接受：",
            UkCbErrorKind::NotApplicable => "规划能力尚未实现：",
            UkCbErrorKind::Invariant => "不变量被破坏：",
        }
    }
}

impl UkCbError {
    /// The kind of this error.
    pub open spec fn spec_kind(&self) -> UkCbErrorKind {
        match self {
            UkCbError::Invalid(_) => UkCbErrorKind::Invalid,
            UkCbError::Missing(_) => UkCbErrorKind::Missing,
            UkCbError::AuthorizationDenied(_) => UkCbErrorKind::AuthorizationDenied,
            UkCbError::RoutedElsewhere(_) => UkCbErrorKind::RoutedElsewhere,
            UkCbError::WriteAuthorityDenied(_) => UkCbErrorKind::WriteAuthorityDenied,
            UkCbError::SemanticallyRejected(_) => UkCbErrorKind::SemanticallyRejected,
            UkCbError::NotApplicable(_) => UkCbErrorKind::NotApplicable,
            UkCbError::Invariant(_) => UkCbErrorKind::Invariant,
        }
    }

    /// The message this error carries.
    pub open spec fn spec_detail(&self) -> Seq<char> {
        match self {
            UkCbError::Invalid(m) => m@,
            UkCbError::Missing(m) => m@,
            UkCbError::AuthorizationDenied(m) => m@,
            UkCbError::RoutedElsewhere(m) => m@,
            UkCbError::WriteAuthorityDenied(m) => m@,
            UkCbError::SemanticallyRejected(m) => m@,
            UkCbError::NotApplicable(m) => m@,
            UkCbError::Invariant(m) => m@,
        }
    }

    /// The kind of this error, so that callers can branch on how to react.
    pub fn kind(&self) -> (k: UkCbErrorKind)
        ensures
            k == self.spec_kind(),
    {
        match self {
            UkCbError::Invalid(_) => UkCbErrorKind::Invalid,
            UkCbError::Missing(_) => UkCbErrorKind::Missing,
            UkCbError::AuthorizationDenied(_) => UkCbErrorKind::AuthorizationDenied,
            UkCbError::RoutedElsewhere(_) => UkCbErrorKind::RoutedElsewhere,
            UkCbError::WriteAuthorityDenied(_) => UkCbErrorKind::WriteAuthorityDenied,
            UkCbError::SemanticallyRejected(_) => UkCbErrorKind::SemanticallyRejected,
            UkCbError::NotApplicable(_) => UkCbErrorKind::NotApplicable,
            UkCbError::Invariant(_) => UkCbErrorKind::Invariant,
        }
    }

    /// Whether a retry could help: only for [`UkCbErrorKind::Invariant`].
    pub fn is_retryable(&self) -> (r: bool)
        ensures
            r == (self.spec_kind() == UkCbErrorKind::Invariant),
    {
        match self.kind() {
            UkCbErrorKind::Invariant => true,
            _ => false,
        }
    }

    fn detail(&self) -> (r: &String)
        ensures
            r@ == self.spec_detail(),
    {
        match self {
            UkCbError::Invalid(m) => m,
            UkCbError::Missing(m) => m,
            UkCbError::AuthorizationDenied(m) => m,
            UkCbError::RoutedElsewhere(m) => m,
            UkCbError::WriteAuthorityDenied(m) => m,
            UkCbError::SemanticallyRejected(m) => m,
            UkCbError::NotApplicable(m) => m,
            UkCbError::Invariant(m) => m,
        }
    }

    /// The readable message: the kind's label followed by the carried text.
    pub fn to_string(&self) -> (r: String)
        ensures
            r@ == self.spec_kind().spec_label() + self.spec_detail(),
    {
        let label = self.kind().label();
        let mut out = String::from_str(label);
        out.append(self.detail().as_str());
        out
    }
}

} // verus!
