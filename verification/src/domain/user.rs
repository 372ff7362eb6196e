//! Users of this system.

use vstd::prelude::*;

use crate::domain::error::DomainError;
use crate::text::{is_blank, str_is_blank};
use crate::time::TimeZone;

verus! {

/// A user of this system, identified by the 128-bit value of its UUID.
#[derive(Debug, Clone)]
pub struct SystemUser {
    id: u128,
    username: String,
    time_zone: TimeZone,
}

impl SystemUser {
    pub closed spec fn id_spec(&self) -> u128 {
        self.id
    }

    pub closed spec fn username_spec(&self) -> Seq<char> {
        self.username@
    }

    pub closed spec fn time_zone_spec(&self) -> Seq<char> {
        self.time_zone.name_spec()
    }

    /// A user; the name must not be blank.
    pub fn new(id: u128, username: String, time_zone: TimeZone) -> (r: Result<Self, DomainError>)
        ensures
            is_blank(username@) ==> r == Err::<Self, DomainError>(DomainError::BlankUserName),
            !is_blank(username@) ==> (r matches Ok(u) && u.id_spec() == id && u.username_spec()
                == username@ && u.time_zone_spec() == time_zone.name_spec()),
    {
        if str_is_blank(username.as_str()) {
            return Err(DomainError::BlankUserName);
        }
        Ok(SystemUser { id, username, time_zone })
    }

    pub fn id(&self) -> (r: u128)
        ensures
            r == self.id_spec(),
    {
        self.id
    }

    pub fn username(&self) -> (r: &str)
        ensures
            r@ == self.username_spec(),
    {
        self.username.as_str()
    }

    pub fn time_zone(&self) -> (r: &TimeZone)
        ensures
            r.name_spec() == self.time_zone_spec(),
    {
        &self.time_zone
    }
}

} // verus!
