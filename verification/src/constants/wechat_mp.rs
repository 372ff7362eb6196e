//! The page that the WeChat JS-SDK configuration is requested for.

use vstd::prelude::*;

verus! {

/// The dormitory check-in page.
pub const DORM_SIGN_CONFIG_URL_BASE: &'static str = "https://xskq.ahut.edu.cn/wise/pages/ssgl/dormsign";

} // verus!
