//! Defaults of the HTTP client of the app API.

use vstd::prelude::*;

verus! {

/// The request timeout, in seconds.
pub const DEFAULT_TIMEOUT_SECS: u64 = 10u64;

/// The user agent of requests that set none.
pub const DEFAULT_USER_AGENT: &'static str = "ahut-dorm-sign";

} // verus!
