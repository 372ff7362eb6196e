//! The page-visit log of the dormitory check-in menu.

use vstd::prelude::*;

use crate::constants::apilog::DORM_API_LOG_MENU_TITLE;
use crate::services::apilog::ApiLogRequest;

verus! {

/// The log entry of a visit to the dormitory check-in menu.
pub fn dorm_api_log_request() -> (r: ApiLogRequest)
    ensures
        r.menu_title_spec()@ == DORM_API_LOG_MENU_TITLE@,
{
    ApiLogRequest::new(DORM_API_LOG_MENU_TITLE.to_string())
}

} // verus!
