//! The page of a dormitory check-in that the WeChat configuration is asked
//! for.

use vstd::prelude::*;

use crate::constants::wechat_mp::DORM_SIGN_CONFIG_URL_BASE;

verus! {

/// The check-in page of a task for a student.
pub open spec fn dorm_sign_config_url_spec(task_id: Seq<char>, student_id: Seq<char>) -> Seq<char> {
    DORM_SIGN_CONFIG_URL_BASE@ + "?taskId="@ + task_id + "&autoSign=1&scanSign=0&userId="@ + student_id
}

/// The check-in page of a task for a student, with automatic sign-in on.
pub fn dorm_sign_config_url(task_id: &str, student_id: &str) -> (r: String)
    ensures
        r@ == dorm_sign_config_url_spec(task_id@, student_id@),
{
    let mut out = DORM_SIGN_CONFIG_URL_BASE.to_string();
    out.append("?taskId=");
    out.append(task_id);
    out.append("&autoSign=1&scanSign=0&userId=");
    out.append(student_id);
    out
}

} // verus!
