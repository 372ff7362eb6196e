//! The default page of the dormitory task list.

use vstd::prelude::*;

verus! {

/// The first page.
pub const LIST_CURRENT: i32 = 1i32;

/// Fifteen tasks per page.
pub const LIST_SIZE: i32 = 15i32;

} // verus!
