//! The fixed parameters of a password login.

use vstd::prelude::*;

verus! {

/// The campus (tenant) of the school.
pub const TENANT_ID: &'static str = "000000";

/// The account type of a student login.
pub const TYPE: &'static str = "account";

/// The OAuth grant of a password login.
pub const GRANT_TYPE: &'static str = "password";

/// The requested scope.
pub const SCOPE: &'static str = "all";

} // verus!
