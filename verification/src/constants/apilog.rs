//! The menu whose visits the page log records.

use vstd::prelude::*;

verus! {

/// The evening dormitory sign-in menu.
pub const DORM_API_LOG_MENU_TITLE: &'static str = "晚寝签到";

} // verus!
