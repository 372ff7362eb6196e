//! Endpoints of the student attendance API.

use vstd::prelude::*;

verus! {

/// The API base of the student attendance system.
pub const BASE_URL: &'static str = "https://xskq.ahut.edu.cn/api";

/// Login.
pub const LOGIN: &'static str = "/flySource-auth/oauth/token";

/// The dormitory sign-in task list.
pub const DORM_LIST: &'static str = "/flySource-yxgl/dormSignTask/getListForApp";

/// The WeChat JS-SDK configuration record.
pub const DORM_WECHAT_MP_CONFIG: &'static str = "/flySource-base/wechat/getWechatMpConfig";

/// The page-visit log.
pub const DORM_API_LOG_SAVE: &'static str = "/flySource-base/apiLog/save";

/// Adding a dormitory sign-in record.
pub const DORM_ADD_RECORD: &'static str = "/flySource-yxgl/dormSignRecord/add";

} // verus!
