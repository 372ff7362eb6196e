//! The signing scheme of the school system's business endpoints.

use vstd::prelude::*;

use crate::time::UtcTime;

verus! {

/// Produces the `flysource-sign` and `flysource-auth` header values.
pub trait SchoolSignGenerator {
    fn sign(&self, access_token: &str, url: &str, time_now: &UtcTime) -> String;

    fn auth(&self, access_token: &str) -> String;
}

} // verus!
