//! The query of the WeChat JS-SDK configuration request.

use vstd::prelude::*;

verus! {

/// The page that the configuration is requested for (sent as `configUrl`).
#[derive(Debug)]
pub struct WechatMpConfigRequest {
    config_url: String,
}

impl WechatMpConfigRequest {
    /// The request for the page at `config_url`.
    pub fn new(config_url: String) -> (r: Self)
        ensures
            r.config_url_spec() == config_url,
    {
        WechatMpConfigRequest { config_url }
    }

    pub closed spec fn config_url_spec(&self) -> String {
        self.config_url
    }

    /// The page.
    pub fn config_url(&self) -> (r: &str)
        ensures
            r@ == self.config_url_spec()@,
    {
        self.config_url.as_str()
    }
}

} // verus!
