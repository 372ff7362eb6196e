//! Domain errors, with the classification that retry and re-authentication
//! decisions are made from.

use vstd::prelude::*;

verus! {

/// Where a failure originated.
#[derive(Debug, Clone, Copy, PartialEq, Eq, Structural)]
pub enum ErrorSource {
    Local,
    School,
}

/// How a failure is to be handled.
#[derive(Debug, Clone, Copy, PartialEq, Eq, Structural)]
pub enum ErrorKind {
    Retryable,
    ReauthRequired,
    Terminal,
    IdempotentSuccess,
}

/// A violated domain rule or a failure reported by the school system.
///
/// Floating-point payloads (coordinates, accuracies) are carried as the IEEE-754
/// bit patterns of the values (`f64::to_bits`).
#[derive(Debug, Clone, PartialEq)]
pub enum DomainError {
    NotRunnableNow,
    InvalidPassword,
    InvalidDateRange,
    InvalidTimeWindow,
    BlankSchoolUserId,
    BlankSchoolTaskId,
    BlankUserName,
    BlankPassword,
    BlankTitle,
    BlankDaysOfWeek,
    InvalidCoordinates { lng_bits: u64, lat_bits: u64 },
    InvalidLocationAccuracy { accuracy_bits: u64 },
    InvalidTokenRefreshSkewSeconds(i64),
    InvalidRetryTimes(u32),
    SignConfigDisabled,
    BlankToken,
    PasswordMismatch,
    TaskNotFound { task_id: String },
    BlankPermissionCode,
    BlankRoleCode,
    PermissionDenied,
    UnsupportedCredentialVersion { version: u8 },
    InvalidCredentialAlgorithm,
    InvalidCredentialEnvelope,
    CredentialDecryptFailed,
    InvalidStateTransition,
    PersistenceUnavailable { message: String },
    PersistenceConflict { message: String },
    PersistenceCorrupted { message: String },
    Unauthorized { origin: ErrorSource },
    TokenExpired { origin: ErrorSource },
    RemoteTimeout { origin: ErrorSource },
    RemoteUnavailable { origin: ErrorSource },
    AlreadySigned { origin: ErrorSource },
    UpstreamRejected { origin: ErrorSource, code: Option<i64>, message: String },
}

/// The handling class of an upstream rejection with the given status code.
pub open spec fn rejection_kind(code: Option<i64>) -> ErrorKind {
    match code {
        Some(c) => if c == 401 || c == 403 {
            ErrorKind::ReauthRequired
        } else if c == 408 || c == 429 || (500 <= c && c <= 599) {
            ErrorKind::Retryable
        } else {
            ErrorKind::Terminal
        },
        None => ErrorKind::Terminal,
    }
}

impl DomainError {
    /// Errors raised by this system itself, before or without a remote call.
    pub open spec fn is_local_rule(self) -> bool {
        !(self is Unauthorized || self is TokenExpired || self is RemoteTimeout
            || self is RemoteUnavailable || self is AlreadySigned || self is UpstreamRejected)
    }

    pub open spec fn kind_spec(self) -> ErrorKind {
        match self {
            DomainError::Unauthorized { .. } | DomainError::TokenExpired { .. } => {
                ErrorKind::ReauthRequired
            },
            DomainError::RemoteTimeout { .. } | DomainError::RemoteUnavailable { .. } => {
                ErrorKind::Retryable
            },
            DomainError::AlreadySigned { .. } => ErrorKind::IdempotentSuccess,
            DomainError::UpstreamRejected { code, .. } => rejection_kind(code),
            _ => ErrorKind::Terminal,
        }
    }

    pub open spec fn source_spec(self) -> ErrorSource {
        match self {
            DomainError::Unauthorized { origin }
            | DomainError::TokenExpired { origin }
            | DomainError::RemoteTimeout { origin }
            | DomainError::RemoteUnavailable { origin }
            | DomainError::AlreadySigned { origin }
            | DomainError::UpstreamRejected { origin, .. } => origin,
            _ => ErrorSource::Local,
        }
    }

    /// How this error is to be handled: local rule violations are terminal,
    /// authentication failures call for re-authentication, timeouts and
    /// unavailability for a retry, an existing check-in counts as success, and
    /// an upstream rejection is classified by its status code.
    pub fn kind(&self) -> (r: ErrorKind)
        ensures
            r == self.kind_spec(),
    {
        match self {
            DomainError::Unauthorized { .. } | DomainError::TokenExpired { .. } => {
                ErrorKind::ReauthRequired
            },
            DomainError::RemoteTimeout { .. } | DomainError::RemoteUnavailable { .. } => {
                ErrorKind::Retryable
            },
            DomainError::AlreadySigned { .. } => ErrorKind::IdempotentSuccess,
            DomainError::UpstreamRejected { code, .. } => match code {
                Some(c) => {
                    let c = *c;
                    if c == 401 || c == 403 {
                        ErrorKind::ReauthRequired
                    } else if c == 408 || c == 429 || (500 <= c && c <= 599) {
                        ErrorKind::Retryable
                    } else {
                        ErrorKind::Terminal
                    }
                },
                None => ErrorKind::Terminal,
            },
            _ => ErrorKind::Terminal,
        }
    }

    /// Where this error originated: remote failures carry their origin, every
    /// other error is local.
    pub fn source(&self) -> (r: ErrorSource)
        ensures
            r == self.source_spec(),
    {
        match self {
            DomainError::Unauthorized { origin }
            | DomainError::TokenExpired { origin }
            | DomainError::RemoteTimeout { origin }
            | DomainError::RemoteUnavailable { origin }
            | DomainError::AlreadySigned { origin }
            | DomainError::UpstreamRejected { origin, .. } => *origin,
            _ => ErrorSource::Local,
        }
    }
}

/// Local rule violations are terminal and local.
pub proof fn lemma_local_rules_are_terminal(e: DomainError)
    requires
        e.is_local_rule(),
    ensures
        e.kind_spec() == ErrorKind::Terminal,
        e.source_spec() == ErrorSource::Local,
{
}

/// An upstream rejection is classified by its status: 401 and 403 call for
/// re-authentication; 408, 429 and every 5xx status are transient and
/// retryable; any other status, or none, is terminal.
pub proof fn lemma_upstream_status_classes(origin: ErrorSource, code: Option<i64>, message: String)
    ensures
        code matches Some(c) && (c == 401 || c == 403) ==> (DomainError::UpstreamRejected {
            origin,
            code,
            message,
        }).kind_spec() == ErrorKind::ReauthRequired,
        code matches Some(c) && (c == 408 || c == 429 || (500 <= c && c <= 599)) ==> (
        DomainError::UpstreamRejected { origin, code, message }).kind_spec() == ErrorKind::Retryable,
        code matches Some(c) && !(c == 401 || c == 403 || c == 408 || c == 429 || (500 <= c && c
            <= 599)) ==> (DomainError::UpstreamRejected { origin, code, message }).kind_spec()
            == ErrorKind::Terminal,
        code is None ==> (DomainError::UpstreamRejected { origin, code, message }).kind_spec()
            == ErrorKind::Terminal,
{
}

/// Remote failures are classified by what they say of the next attempt:
/// an authentication failure or expired token calls for re-authentication,
/// a timeout or unavailable service is retryable, and a check-in that was
/// already made counts as a success.
pub proof fn lemma_remote_failure_classes(e: DomainError)
    ensures
        (e is Unauthorized || e is TokenExpired) ==> e.kind_spec() == ErrorKind::ReauthRequired,
        (e is RemoteTimeout || e is RemoteUnavailable) ==> e.kind_spec() == ErrorKind::Retryable,
        e is AlreadySigned ==> e.kind_spec() == ErrorKind::IdempotentSuccess,
{
}

} // verus!
