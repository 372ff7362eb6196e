//! The settings of the HTTP client of the app API.

use vstd::prelude::*;

use crate::constants::client::{DEFAULT_TIMEOUT_SECS, DEFAULT_USER_AGENT};

verus! {

/// The builder of the app API client: its base address, its request timeout
/// (a `std::time::Duration`, as whole seconds and the nanoseconds beyond
/// them), and its user agent.
#[derive(Debug, Clone)]
pub struct AppClientBuilder {
    base_url: String,
    timeout_secs: u64,
    timeout_nanos: u32,
    user_agent: String,
}

impl AppClientBuilder {
    pub closed spec fn base_url_spec(&self) -> Seq<char> {
        self.base_url@
    }

    /// The timeout as whole seconds and the nanoseconds beyond them.
    pub closed spec fn timeout_spec(&self) -> (u64, u32) {
        (self.timeout_secs, self.timeout_nanos)
    }

    pub closed spec fn user_agent_spec(&self) -> Seq<char> {
        self.user_agent@
    }

    /// A builder for `base_url` with the default timeout and user agent.
    pub fn new(base_url: String) -> (r: Self)
        ensures
            r.base_url_spec() == base_url@,
            r.timeout_spec() == (DEFAULT_TIMEOUT_SECS, 0u32),
            r.user_agent_spec() == DEFAULT_USER_AGENT@,
    {
        AppClientBuilder {
            base_url,
            timeout_secs: DEFAULT_TIMEOUT_SECS,
            timeout_nanos: 0,
            user_agent: DEFAULT_USER_AGENT.to_string(),
        }
    }

    /// The builder with another timeout: `secs` seconds and `subsec_nanos`
    /// nanoseconds (below one second, as in a `Duration`).
    pub fn with_timeout(self, secs: u64, subsec_nanos: u32) -> (r: Self)
        requires
            subsec_nanos < 1_000_000_000,
        ensures
            r.base_url_spec() == self.base_url_spec(),
            r.timeout_spec() == (secs, subsec_nanos),
            r.user_agent_spec() == self.user_agent_spec(),
    {
        AppClientBuilder { timeout_secs: secs, timeout_nanos: subsec_nanos, ..self }
    }

    /// The builder with another user agent.
    pub fn with_user_agent(self, user_agent: String) -> (r: Self)
        ensures
            r.base_url_spec() == self.base_url_spec(),
            r.timeout_spec() == self.timeout_spec(),
            r.user_agent_spec() == user_agent@,
    {
        AppClientBuilder { user_agent, ..self }
    }

    /// The base address.
    pub fn base_url(&self) -> (r: &str)
        ensures
            r@ == self.base_url_spec(),
    {
        self.base_url.as_str()
    }

    /// The request timeout as whole seconds and the nanoseconds beyond them.
    pub fn timeout(&self) -> (r: (u64, u32))
        ensures
            r == self.timeout_spec(),
    {
        (self.timeout_secs, self.timeout_nanos)
    }

    /// The user agent.
    pub fn user_agent(&self) -> (r: &str)
        ensures
            r@ == self.user_agent_spec(),
    {
        self.user_agent.as_str()
    }
}

/// The HTTP methods the app API uses.
#[derive(Debug, Clone, Copy, PartialEq, Eq, Structural)]
pub enum HttpMethod {
    Get,
    Post,
}

impl HttpMethod {
    /// The method's name on the wire.
    pub fn as_str(&self) -> (r: &'static str)
        ensures
            r@ == match self {
                HttpMethod::Get => "GET"@,
                HttpMethod::Post => "POST"@,
            },
    {
        match self {
            HttpMethod::Get => "GET",
            HttpMethod::Post => "POST",
        }
    }
}

} // verus!
