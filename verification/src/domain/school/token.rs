//! The tokens that the school system issues on authentication.

use vstd::prelude::*;

use crate::domain::error::DomainError;
use crate::text::{is_blank, str_is_blank};
use crate::time::{reached_within, TimeSpan, UtcTime};

verus! {

/// An access token, its refresh token and the instant it expires.
#[derive(Debug)]
pub struct SchoolToken {
    access_token: String,
    refresh_token: String,
    expired_at: UtcTime,
}

impl SchoolToken {
    pub closed spec fn access_spec(&self) -> Seq<char> {
        self.access_token@
    }

    pub closed spec fn refresh_spec(&self) -> Seq<char> {
        self.refresh_token@
    }

    pub closed spec fn expired_at_spec(&self) -> UtcTime {
        self.expired_at
    }

    /// Neither token is blank.
    pub open spec fn wf(&self) -> bool {
        !is_blank(self.access_spec()) && !is_blank(self.refresh_spec())
    }

    /// A token; both texts must be non-blank.
    pub fn new(access_token: String, refresh_token: String, expired_at: UtcTime) -> (r: Result<
        Self,
        DomainError,
    >)
        ensures
            (is_blank(access_token@) || is_blank(refresh_token@)) ==> r == Err::<
                Self,
                DomainError,
            >(DomainError::BlankToken),
            !(is_blank(access_token@) || is_blank(refresh_token@)) ==> (r matches Ok(t) && t.wf()
                && t.access_spec() == access_token@ && t.refresh_spec() == refresh_token@
                && t.expired_at_spec() == expired_at),
    {
        if str_is_blank(access_token.as_str()) {
            return Err(DomainError::BlankToken);
        }
        if str_is_blank(refresh_token.as_str()) {
            return Err(DomainError::BlankToken);
        }
        Ok(SchoolToken { access_token, refresh_token, expired_at })
    }

    /// Replaces both tokens and the expiry; blank tokens are refused and
    /// leave the token unchanged.
    pub fn refresh(&mut self, access_token: String, refresh_token: String, expired_at: UtcTime) -> (r:
        Result<(), DomainError>)
        ensures
            (is_blank(access_token@) || is_blank(refresh_token@)) ==> (r == Err::<(), DomainError>(
                DomainError::BlankToken,
            ) && *final(self) == *old(self)),
            !(is_blank(access_token@) || is_blank(refresh_token@)) ==> (r is Ok
                && final(self).access_spec() == access_token@ && final(self).refresh_spec()
                == refresh_token@ && final(self).expired_at_spec() == expired_at),
            old(self).wf() ==> final(self).wf(),
    {
        if str_is_blank(access_token.as_str()) {
            return Err(DomainError::BlankToken);
        }
        if str_is_blank(refresh_token.as_str()) {
            return Err(DomainError::BlankToken);
        }
        self.access_token = access_token;
        self.refresh_token = refresh_token;
        self.expired_at = expired_at;
        Ok(())
    }

    /// Whether the token has expired at `utc_now` (expiry instant included).
    pub fn is_token_expired(&self, utc_now: &UtcTime) -> (r: bool)
        ensures
            r == (utc_now.ns() >= self.expired_at_spec().ns()),
    {
        utc_now.not_before(&self.expired_at)
    }

    /// Whether the token expires within `refresh_skew` of `utc_now`
    /// (`utc_now + refresh_skew >= expired_at`).
    pub fn need_refresh(&self, utc_now: &UtcTime, refresh_skew: &TimeSpan) -> (r: bool)
        ensures
            r == (utc_now.ns() + refresh_skew.ns() >= self.expired_at_spec().ns()),
    {
        reached_within(utc_now, refresh_skew, &self.expired_at)
    }

    pub fn access_token(&self) -> (r: &str)
        ensures
            r@ == self.access_spec(),
    {
        self.access_token.as_str()
    }

    pub fn refresh_token(&self) -> (r: &str)
        ensures
            r@ == self.refresh_spec(),
    {
        self.refresh_token.as_str()
    }

    pub fn expired_at(&self) -> (r: &UtcTime)
        ensures
            *r == self.expired_at_spec(),
    {
        &self.expired_at
    }
}

/// A token that has expired needs refreshing under any non-negative skew.
pub proof fn lemma_expired_needs_refresh(now: UtcTime, skew: TimeSpan, expired_at: UtcTime)
    requires
        skew.ns() >= 0,
        now.ns() >= expired_at.ns(),
    ensures
        now.ns() + skew.ns() >= expired_at.ns(),
{
}

impl Clone for SchoolToken {
    fn clone(&self) -> (r: Self)
        ensures
            r == *self,
    {
        SchoolToken {
            access_token: self.access_token.clone(),
            refresh_token: self.refresh_token.clone(),
            expired_at: self.expired_at,
        }
    }
}

} // verus!
