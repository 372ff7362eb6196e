//! Policies for authentication and for retrying a check-in after an error.

use vstd::prelude::*;

use crate::domain::error::{DomainError, ErrorKind};
use crate::domain::school::session::SchoolSession;
use crate::time::{TimeSpan, UtcTime};

verus! {

/// The authentication and the business policies together.
#[derive(Debug, Clone)]
pub struct SchoolPolicyConfig {
    auth: SchoolAuthPolicyConfig,
    business: SchoolBusinessPolicyConfig,
}

impl SchoolPolicyConfig {
    pub closed spec fn auth_spec(&self) -> SchoolAuthPolicyConfig {
        self.auth
    }

    pub closed spec fn business_spec(&self) -> SchoolBusinessPolicyConfig {
        self.business
    }

    pub fn new(auth: SchoolAuthPolicyConfig, business: SchoolBusinessPolicyConfig) -> (r: Self)
        ensures
            r.auth_spec() == auth,
            r.business_spec() == business,
    {
        SchoolPolicyConfig { auth, business }
    }

    pub fn auth(&self) -> (r: &SchoolAuthPolicyConfig)
        ensures
            *r == self.auth_spec(),
    {
        &self.auth
    }

    pub fn business(&self) -> (r: &SchoolBusinessPolicyConfig)
        ensures
            *r == self.business_spec(),
    {
        &self.business
    }
}

/// How long before expiry a token is refreshed, and how often
/// authentication is retried.
#[derive(Debug, Clone, Copy)]
pub struct SchoolAuthPolicyConfig {
    token_need_refresh_before_expired_duration: TimeSpan,
    max_retry_times: u32,
}

impl SchoolAuthPolicyConfig {
    pub closed spec fn skew_spec(&self) -> TimeSpan {
        self.token_need_refresh_before_expired_duration
    }

    pub closed spec fn max_retry_spec(&self) -> u32 {
        self.max_retry_times
    }

    /// A non-negative skew and at least one retry.
    pub open spec fn wf(&self) -> bool {
        self.skew_spec().ns() >= 0 && self.max_retry_spec() > 0
    }

    /// The policy; a negative skew is refused (reporting its whole seconds),
    /// then a zero retry count.
    pub fn new(token_need_refresh_before_expired_duration: TimeSpan, max_retry_times: u32) -> (r:
        Result<Self, DomainError>)
        ensures
            token_need_refresh_before_expired_duration.ns() < 0 ==> (r matches Err(
                DomainError::InvalidTokenRefreshSkewSeconds(s),
            ) && s == (if token_need_refresh_before_expired_duration.secs_spec() < 0
                && token_need_refresh_before_expired_duration.nanos_spec() > 0 {
                token_need_refresh_before_expired_duration.secs_spec() + 1
            } else {
                token_need_refresh_before_expired_duration.secs_spec() as int
            })),
            token_need_refresh_before_expired_duration.ns() >= 0 && max_retry_times == 0 ==> r
                == Err::<Self, DomainError>(DomainError::InvalidRetryTimes(0)),
            token_need_refresh_before_expired_duration.ns() >= 0 && max_retry_times > 0 ==> (r matches Ok(
                c,
            ) && c.wf() && c.skew_spec() == token_need_refresh_before_expired_duration
                && c.max_retry_spec() == max_retry_times),
    {
        if token_need_refresh_before_expired_duration.is_negative() {
            return Err(
                DomainError::InvalidTokenRefreshSkewSeconds(
                    token_need_refresh_before_expired_duration.num_seconds(),
                ),
            );
        }
        if max_retry_times == 0 {
            return Err(DomainError::InvalidRetryTimes(max_retry_times));
        }
        Ok(SchoolAuthPolicyConfig { token_need_refresh_before_expired_duration, max_retry_times })
    }

    pub fn token_need_refresh_before_expired_duration(&self) -> (r: TimeSpan)
        ensures
            r == self.skew_spec(),
    {
        self.token_need_refresh_before_expired_duration
    }

    pub fn max_retry_times(&self) -> (r: u32)
        ensures
            r == self.max_retry_spec(),
    {
        self.max_retry_times
    }
}

/// How often a failed check-in is retried.
#[derive(Debug, Clone, Copy)]
pub struct SchoolBusinessPolicyConfig {
    max_retry_times: u32,
}

impl SchoolBusinessPolicyConfig {
    pub closed spec fn max_retry_spec(&self) -> u32 {
        self.max_retry_times
    }

    /// The policy; a zero retry count is refused.
    pub fn new(max_retry_times: u32) -> (r: Result<Self, DomainError>)
        ensures
            max_retry_times == 0 ==> r == Err::<Self, DomainError>(DomainError::InvalidRetryTimes(0)),
            max_retry_times > 0 ==> (r matches Ok(c) && c.max_retry_spec() == max_retry_times),
    {
        if max_retry_times == 0 {
            return Err(DomainError::InvalidRetryTimes(max_retry_times));
        }
        Ok(SchoolBusinessPolicyConfig { max_retry_times })
    }

    pub fn max_retry_times(&self) -> (r: u32)
        ensures
            r == self.max_retry_spec(),
    {
        self.max_retry_times
    }
}

/// What to do with a run after a failed attempt.
#[derive(Debug, Clone, Copy, PartialEq, Eq, Structural)]
pub enum BusinessDecision {
    Retry,
    Stop,
    Success,
}

/// How to obtain a usable token.
#[derive(Debug, Clone, Copy, PartialEq, Eq, Structural)]
pub enum AuthDecision {
    UseCurrentToken,
    RefreshToken,
    ReAuthenticate,
}

/// The authentication decision for an error of this kind.
pub open spec fn auth_decision_for(kind: ErrorKind) -> AuthDecision {
    match kind {
        ErrorKind::ReauthRequired => AuthDecision::ReAuthenticate,
        ErrorKind::Retryable => AuthDecision::RefreshToken,
        ErrorKind::Terminal | ErrorKind::IdempotentSuccess => AuthDecision::UseCurrentToken,
    }
}

/// The business decision for an error of this kind after `attempted`
/// retries, with at most `max` retries.
pub open spec fn business_decision_for(kind: ErrorKind, attempted: u32, max: u32) -> BusinessDecision {
    match kind {
        ErrorKind::IdempotentSuccess => BusinessDecision::Success,
        ErrorKind::Retryable => if attempted < max {
            BusinessDecision::Retry
        } else {
            BusinessDecision::Stop
        },
        ErrorKind::ReauthRequired | ErrorKind::Terminal => BusinessDecision::Stop,
    }
}

/// How to authenticate given the stored session: without one, anew; with
/// one whose token expires within the skew of `utc_now`, by refreshing it;
/// otherwise with it as it is.
pub open spec fn auth_decision_spec(
    config: SchoolAuthPolicyConfig,
    session: Option<SchoolSession>,
    utc_now: UtcTime,
) -> AuthDecision {
    match session {
        None => AuthDecision::ReAuthenticate,
        Some(s) => if utc_now.ns() + config.skew_spec().ns() >= s.token_spec().expired_at_spec().ns() {
            AuthDecision::RefreshToken
        } else {
            AuthDecision::UseCurrentToken
        },
    }
}

/// Decides how to authenticate.
#[derive(Debug, Clone, Copy)]
pub struct SchoolAuthDecider {
    config: SchoolAuthPolicyConfig,
}

impl SchoolAuthDecider {
    pub closed spec fn config_spec(&self) -> SchoolAuthPolicyConfig {
        self.config
    }

    pub fn new(config: SchoolAuthPolicyConfig) -> (r: Self)
        ensures
            r.config_spec() == config,
    {
        SchoolAuthDecider { config }
    }

    pub fn config(&self) -> (r: &SchoolAuthPolicyConfig)
        ensures
            *r == self.config_spec(),
    {
        &self.config
    }

    /// Without a session, authenticate anew; with one whose token expires
    /// within the configured skew, refresh it; otherwise use it as it is.
    pub fn decide_by_session(&self, session: Option<SchoolSession>, utc_now: UtcTime) -> (r:
        AuthDecision)
        ensures
            r == auth_decision_spec(self.config_spec(), session, utc_now),
    {
        match session {
            None => AuthDecision::ReAuthenticate,
            Some(session) => {
                if session.need_refresh(
                    &utc_now,
                    &self.config.token_need_refresh_before_expired_duration(),
                ) {
                    AuthDecision::RefreshToken
                } else {
                    AuthDecision::UseCurrentToken
                }
            },
        }
    }

    /// Re-authenticate after an authentication failure, refresh after a
    /// retryable failure, and keep the current token otherwise.
    pub fn decide_after_error(&self, err: &DomainError) -> (r: AuthDecision)
        ensures
            r == auth_decision_for(err.kind_spec()),
    {
        match err.kind() {
            ErrorKind::ReauthRequired => AuthDecision::ReAuthenticate,
            ErrorKind::Retryable => AuthDecision::RefreshToken,
            ErrorKind::Terminal | ErrorKind::IdempotentSuccess => AuthDecision::UseCurrentToken,
        }
    }
}

/// Decides what becomes of a check-in run after a failed attempt.
#[derive(Debug, Clone, Copy)]
pub struct SchoolBusinessDecider {
    config: SchoolBusinessPolicyConfig,
}

impl SchoolBusinessDecider {
    pub closed spec fn config_spec(&self) -> SchoolBusinessPolicyConfig {
        self.config
    }

    pub fn new(config: SchoolBusinessPolicyConfig) -> (r: Self)
        ensures
            r.config_spec() == config,
    {
        SchoolBusinessDecider { config }
    }

    pub fn config(&self) -> (r: &SchoolBusinessPolicyConfig)
        ensures
            *r == self.config_spec(),
    {
        &self.config
    }

    /// An already completed check-in is a success; a retryable failure is
    /// retried while `attempted_retry_times` is below the configured maximum;
    /// everything else stops the run.
    pub fn decide_after_error(&self, err: &DomainError, attempted_retry_times: u32) -> (r:
        BusinessDecision)
        ensures
            r == business_decision_for(
                err.kind_spec(),
                attempted_retry_times,
                self.config_spec().max_retry_spec(),
            ),
    {
        match err.kind() {
            ErrorKind::IdempotentSuccess => BusinessDecision::Success,
            ErrorKind::Retryable => {
                if attempted_retry_times < self.config.max_retry_times() {
                    BusinessDecision::Retry
                } else {
                    BusinessDecision::Stop
                }
            },
            ErrorKind::ReauthRequired | ErrorKind::Terminal => BusinessDecision::Stop,
        }
    }
}

/// Retries are bounded: once the maximum number of retries has been
/// attempted, no error leads to another retry.
pub proof fn lemma_retries_bounded(kind: ErrorKind, attempted: u32, max: u32)
    requires
        attempted >= max,
    ensures
        business_decision_for(kind, attempted, max) != BusinessDecision::Retry,
{
}

/// Only retryable errors are retried.
pub proof fn lemma_only_retryable_retried(kind: ErrorKind, attempted: u32, max: u32)
    requires
        business_decision_for(kind, attempted, max) == BusinessDecision::Retry,
    ensures
        kind == ErrorKind::Retryable,
        attempted < max,
{
}

/// Transient failures are retried while retries remain: a timeout, an
/// unavailable service, or an upstream rejection with status 408, 429 or
/// 5xx leads to a retry when fewer than the maximum retries were made.
pub proof fn lemma_transient_failures_retried(e: DomainError, attempted: u32, max: u32)
    requires
        attempted < max,
        e is RemoteTimeout || e is RemoteUnavailable || (e matches DomainError::UpstreamRejected {
            code: Some(c),
            ..
        } && (c == 408 || c == 429 || (500 <= c && c <= 599))),
    ensures
        business_decision_for(e.kind_spec(), attempted, max) == BusinessDecision::Retry,
{
}

/// A check-in already made counts as a success whatever the retries so far,
/// and an error that needs re-authentication or is terminal stops the run.
pub proof fn lemma_success_and_stop_kinds(kind: ErrorKind, attempted: u32, max: u32)
    ensures
        kind is IdempotentSuccess ==> business_decision_for(kind, attempted, max)
            == BusinessDecision::Success,
        (kind is ReauthRequired || kind is Terminal) ==> business_decision_for(kind, attempted, max)
            == BusinessDecision::Stop,
{
}

} // verus!
