//! A student's authenticated session with the school system.

use vstd::prelude::*;

use crate::domain::error::DomainError;
use crate::domain::school::token::SchoolToken;
use crate::text::{is_blank, str_is_blank};
use crate::time::{TimeSpan, UtcTime};

verus! {

/// The token held for one student of one owner.
#[derive(Debug)]
pub struct SchoolSession {
    owner_user_id: u128,
    student_id: String,
    token: SchoolToken,
}

impl SchoolSession {
    pub closed spec fn owner_spec(&self) -> u128 {
        self.owner_user_id
    }

    pub closed spec fn student_spec(&self) -> Seq<char> {
        self.student_id@
    }

    pub closed spec fn token_spec(&self) -> SchoolToken {
        self.token
    }

    /// The session with these fields.
    pub closed spec fn spec_created(owner_user_id: u128, student_id: String, token: SchoolToken) -> Self {
        SchoolSession { owner_user_id, student_id, token }
    }

    /// The session with its token replaced.
    pub closed spec fn with_token(self, token: SchoolToken) -> Self {
        SchoolSession { token, ..self }
    }

    /// A session made from an owner, a student ID and a token holds exactly
    /// those.
    pub proof fn lemma_created_fields(owner_user_id: u128, student_id: String, token: SchoolToken)
        ensures
            Self::spec_created(owner_user_id, student_id, token).owner_spec() == owner_user_id,
            Self::spec_created(owner_user_id, student_id, token).student_spec() == student_id@,
            Self::spec_created(owner_user_id, student_id, token).token_spec() == token,
    {
    }

    /// A session with its token replaced keeps its owner and student and
    /// holds the new token.
    pub proof fn lemma_with_token_fields(self, token: SchoolToken)
        ensures
            self.with_token(token).owner_spec() == self.owner_spec(),
            self.with_token(token).student_spec() == self.student_spec(),
            self.with_token(token).token_spec() == token,
    {
    }

    /// A session; the student ID must not be blank.
    pub fn new(owner_user_id: u128, student_id: String, token: SchoolToken) -> (r: Result<
        Self,
        DomainError,
    >)
        ensures
            is_blank(student_id@) ==> r == Err::<Self, DomainError>(DomainError::BlankSchoolUserId),
            !is_blank(student_id@) ==> (r matches Ok(s) && s.owner_spec() == owner_user_id
                && s.student_spec() == student_id@ && s.token_spec() == token),
            !is_blank(student_id@) ==> r == Ok::<Self, DomainError>(
                Self::spec_created(owner_user_id, student_id, token),
            ),
    {
        if str_is_blank(student_id.as_str()) {
            return Err(DomainError::BlankSchoolUserId);
        }
        Ok(SchoolSession { owner_user_id, student_id, token })
    }

    pub fn owner_user_id(&self) -> (r: u128)
        ensures
            r == self.owner_spec(),
    {
        self.owner_user_id
    }

    pub fn student_id(&self) -> (r: &str)
        ensures
            r@ == self.student_spec(),
    {
        self.student_id.as_str()
    }

    pub fn access_token(&self) -> (r: &str)
        ensures
            r@ == self.token_spec().access_spec(),
    {
        self.token.access_token()
    }

    pub fn refresh_token(&self) -> (r: &str)
        ensures
            r@ == self.token_spec().refresh_spec(),
    {
        self.token.refresh_token()
    }

    pub fn expired_at(&self) -> (r: UtcTime)
        ensures
            r == self.token_spec().expired_at_spec(),
    {
        *self.token.expired_at()
    }

    pub fn is_expired(&self, utc_now: &UtcTime) -> (r: bool)
        ensures
            r == (utc_now.ns() >= self.token_spec().expired_at_spec().ns()),
    {
        self.token.is_token_expired(utc_now)
    }

    pub fn need_refresh(&self, utc_now: &UtcTime, refresh_skew: &TimeSpan) -> (r: bool)
        ensures
            r == (utc_now.ns() + refresh_skew.ns() >= self.token_spec().expired_at_spec().ns()),
    {
        self.token.need_refresh(utc_now, refresh_skew)
    }

    /// Replaces the token, keeping owner and student.
    pub fn replace_token(&mut self, token: SchoolToken)
        ensures
            final(self).owner_spec() == old(self).owner_spec(),
            final(self).student_spec() == old(self).student_spec(),
            final(self).token_spec() == token,
            *final(self) == old(self).with_token(token),
    {
        self.token = token;
    }
}

impl Clone for SchoolSession {
    fn clone(&self) -> (r: Self)
        ensures
            r == *self,
    {
        SchoolSession {
            owner_user_id: self.owner_user_id,
            student_id: self.student_id.clone(),
            token: self.token.clone(),
        }
    }
}

} // verus!
