//! The infrastructure configuration, assembled from environment values.

use vstd::prelude::*;

use crate::infrastructure::config::env_reader::{
    ConfigError, ConfigFault, env_parse_or, parse_or_spec, required_env, required_spec,
    value_view,
};
use crate::infrastructure::school::config::{
    AhutGatewayConfig, normalize_base_url, normalized_base_url,
};
use crate::text::{
    push_trimmed_nonblank_strs, split, split_char, str_is_blank, string_views, trimmed_nonblank,
};

verus! {

/// The user agents listed in a comma-separated setting, trimmed, blank ones
/// left out.
pub open spec fn user_agent_pool_spec(raw: Seq<char>) -> Seq<Seq<char>> {
    trimmed_nonblank(split(raw, ','))
}

/// Splits a comma-separated list of user agents.
pub fn parse_user_agent_pool(raw: &str) -> (r: Vec<String>)
    ensures
        string_views(r@) == user_agent_pool_spec(raw@),
{
    let pieces = split_char(raw, ',');
    let mut out: Vec<String> = Vec::new();
    proof {
        assert(string_views(out@) =~= Seq::<Seq<char>>::empty());
    }
    push_trimmed_nonblank_strs(&mut out, &pieces);
    proof {
        assert(string_views(out@) =~= user_agent_pool_spec(raw@));
    }
    out
}

/// The key that decrypts stored school credentials.
#[derive(Debug, Clone)]
pub struct SchoolSecurityConfig {
    pub master_key: String,
}

/// The policy settings of school sessions and retries.
#[derive(Debug, Clone)]
pub struct SchoolPolicyEnvConfig {
    pub refresh_skew_secs: i64,
    pub auth_max_retry_times: u32,
    pub biz_max_retry_times: u32,
}

/// Everything the school integration needs.
#[derive(Debug, Clone)]
pub struct SchoolInfraConfig {
    pub gateway: AhutGatewayConfig,
    pub security: SchoolSecurityConfig,
    pub policy: SchoolPolicyEnvConfig,
    pub school_fixed_authorization: String,
}

/// The environment variables the configuration is read from, as looked up
/// (`None` where a variable is not set).
#[derive(Debug, Clone)]
pub struct SchoolEnvValues {
    pub ahut_base_url: Option<String>,
    pub school_credential_master_key: Option<String>,
    pub http_fallback_user_agent: Option<String>,
    pub http_default_user_agent_pool: Option<String>,
    pub http_connect_timeout_ms: Option<String>,
    pub http_request_timeout_ms: Option<String>,
    pub http_pool_idle_timeout_secs: Option<String>,
    pub http_pool_max_idle_per_host: Option<String>,
    pub http_tcp_keepalive_secs: Option<String>,
    pub school_auth_token_refresh_skew_secs: Option<String>,
    pub school_auth_max_retry_times: Option<String>,
    pub school_biz_max_retry_times: Option<String>,
    pub school_fixed_authorization: Option<String>,
}

/// The view of a looked-up variable.
pub open spec fn env_view(v: Option<String>) -> Option<Seq<char>> {
    match v {
        Some(s) => Some(s@),
        None => None,
    }
}

/// The fault of a check, if it failed.
pub open spec fn fault_of<T>(r: Result<T, ConfigFault>) -> Option<ConfigFault> {
    match r {
        Ok(_) => None,
        Err(e) => Some(e),
    }
}

/// The first fault of a list of checks.
pub open spec fn first_fault(s: Seq<Option<ConfigFault>>) -> Option<ConfigFault>
    decreases s.len(),
{
    if s.len() == 0 {
        None
    } else if s[0] is Some {
        s[0]
    } else {
        first_fault(s.drop_first())
    }
}

/// Where the checks before `i` passed, the first fault is that of check `i`
/// or one after it.
proof fn lemma_first_fault_from(s: Seq<Option<ConfigFault>>, i: int)
    requires
        0 <= i < s.len(),
        forall|j: int| 0 <= j < i ==> s[j] is None,
    ensures
        s[i] is Some ==> first_fault(s) == s[i],
        s[i] is None ==> first_fault(s) == first_fault(s.skip(i + 1)),
    decreases i,
{
    if i > 0 {
        let t = s.drop_first();
        assert forall|j: int| 0 <= j < i - 1 implies t[j] is None by {
            assert(t[j] == s[j + 1]);
        }
        lemma_first_fault_from(t, i - 1);
        assert(t.skip(i) =~= s.skip(i + 1));
    }
}

/// The checks of the configuration, in the order they are made: the four
/// required settings, a non-empty user agent pool, the numbers, and the fixed
/// authorization.
pub open spec fn infra_checks(env: SchoolEnvValues) -> Seq<Option<ConfigFault>> {
    let pool = required_spec("HTTP_DEFAULT_USER_AGENT_POOL"@, env_view(env.http_default_user_agent_pool));
    seq![
        fault_of(required_spec("AHUT_BASE_URL"@, env_view(env.ahut_base_url))),
        fault_of(required_spec("SCHOOL_CREDENTIAL_MASTER_KEY"@, env_view(env.school_credential_master_key))),
        fault_of(required_spec("HTTP_FALLBACK_USER_AGENT"@, env_view(env.http_fallback_user_agent))),
        fault_of(pool),
        if user_agent_pool_spec(pool->Ok_0).len() == 0 {
            Some(ConfigFault::NoUserAgent("HTTP_DEFAULT_USER_AGENT_POOL"@))
        } else {
            None
        },
        fault_of(parse_or_spec("HTTP_CONNECT_TIMEOUT_MS"@, env_view(env.http_connect_timeout_ms), 3000u64)),
        fault_of(parse_or_spec("HTTP_REQUEST_TIMEOUT_MS"@, env_view(env.http_request_timeout_ms), 10000u64)),
        fault_of(parse_or_spec("HTTP_POOL_IDLE_TIMEOUT_SECS"@, env_view(env.http_pool_idle_timeout_secs), 60u64)),
        fault_of(parse_or_spec("HTTP_POOL_MAX_IDLE_PER_HOST"@, env_view(env.http_pool_max_idle_per_host), 16usize)),
        fault_of(parse_or_spec("HTTP_TCP_KEEPALIVE_SECS"@, env_view(env.http_tcp_keepalive_secs), 30u64)),
        fault_of(parse_or_spec("SCHOOL_AUTH_TOKEN_REFRESH_SKEW_SECS"@, env_view(env.school_auth_token_refresh_skew_secs), 300i64)),
        fault_of(parse_or_spec("SCHOOL_AUTH_MAX_RETRY_TIMES"@, env_view(env.school_auth_max_retry_times), 2u32)),
        fault_of(parse_or_spec("SCHOOL_BIZ_MAX_RETRY_TIMES"@, env_view(env.school_biz_max_retry_times), 2u32)),
        fault_of(required_spec("SCHOOL_FIXED_AUTHORIZATION"@, env_view(env.school_fixed_authorization))),
    ]
}

/// The value of a variable, borrowed.
fn borrow_value(v: &Option<String>) -> (r: Option<&str>)
    ensures
        value_view(r) == env_view(*v),
{
    match v {
        Some(s) => Some(s.as_str()),
        None => None,
    }
}

impl SchoolInfraConfig {
    /// Assembles the configuration. It fails with the first fault of
    /// `infra_checks`; otherwise every field is the setting (or its default)
    /// it names, the base address normalised and the user agent pool split.
    pub fn from_env(env: &SchoolEnvValues) -> (r: Result<Self, ConfigError>)
        ensures
            match first_fault(infra_checks(*env)) {
                Some(e) => r is Err && r->Err_0@ == e,
                None => r is Ok && ({
                    let c = r->Ok_0;
                    &&& required_spec("AHUT_BASE_URL"@, env_view(env.ahut_base_url)) matches Ok(
                        raw,
                    ) && c.gateway.base_url@ == normalized_base_url(raw)
                    &&& required_spec(
                        "SCHOOL_CREDENTIAL_MASTER_KEY"@,
                        env_view(env.school_credential_master_key),
                    ) == Ok::<Seq<char>, ConfigFault>(c.security.master_key@)
                    &&& required_spec("HTTP_FALLBACK_USER_AGENT"@, env_view(env.http_fallback_user_agent))
                        == Ok::<Seq<char>, ConfigFault>(c.gateway.fallback_user_agent@)
                    &&& required_spec(
                        "HTTP_DEFAULT_USER_AGENT_POOL"@,
                        env_view(env.http_default_user_agent_pool),
                    ) matches Ok(raw) && string_views(c.gateway.default_user_agent_pool@)
                        == user_agent_pool_spec(raw)
                    &&& parse_or_spec("HTTP_CONNECT_TIMEOUT_MS"@, env_view(env.http_connect_timeout_ms), 3000u64)
                        == Ok::<u64, ConfigFault>(c.gateway.connect_timeout_ms)
                    &&& parse_or_spec("HTTP_REQUEST_TIMEOUT_MS"@, env_view(env.http_request_timeout_ms), 10000u64)
                        == Ok::<u64, ConfigFault>(c.gateway.request_timeout_ms)
                    &&& parse_or_spec(
                        "HTTP_POOL_IDLE_TIMEOUT_SECS"@,
                        env_view(env.http_pool_idle_timeout_secs),
                        60u64,
                    ) == Ok::<u64, ConfigFault>(c.gateway.pool_idle_timeout_secs)
                    &&& parse_or_spec(
                        "HTTP_POOL_MAX_IDLE_PER_HOST"@,
                        env_view(env.http_pool_max_idle_per_host),
                        16usize,
                    ) == Ok::<usize, ConfigFault>(c.gateway.pool_max_idle_per_host)
                    &&& parse_or_spec("HTTP_TCP_KEEPALIVE_SECS"@, env_view(env.http_tcp_keepalive_secs), 30u64)
                        == Ok::<u64, ConfigFault>(c.gateway.tcp_keepalive_secs)
                    &&& parse_or_spec(
                        "SCHOOL_AUTH_TOKEN_REFRESH_SKEW_SECS"@,
                        env_view(env.school_auth_token_refresh_skew_secs),
                        300i64,
                    ) == Ok::<i64, ConfigFault>(c.policy.refresh_skew_secs)
                    &&& parse_or_spec(
                        "SCHOOL_AUTH_MAX_RETRY_TIMES"@,
                        env_view(env.school_auth_max_retry_times),
                        2u32,
                    ) == Ok::<u32, ConfigFault>(c.policy.auth_max_retry_times)
                    &&& parse_or_spec(
                        "SCHOOL_BIZ_MAX_RETRY_TIMES"@,
                        env_view(env.school_biz_max_retry_times),
                        2u32,
                    ) == Ok::<u32, ConfigFault>(c.policy.biz_max_retry_times)
                    &&& required_spec(
                        "SCHOOL_FIXED_AUTHORIZATION"@,
                        env_view(env.school_fixed_authorization),
                    ) == Ok::<Seq<char>, ConfigFault>(c.school_fixed_authorization@)
                }),
            },
    {
        let ghost checks = infra_checks(*env);
        proof {
            lemma_first_fault_from(checks, 0);
        }
        let raw_base_url = required_env("AHUT_BASE_URL", borrow_value(&env.ahut_base_url))?;
        proof {
            assert(checks[0] is None);
        }
        proof {
            lemma_first_fault_from(checks, 1);
        }
        let master_key = required_env(
            "SCHOOL_CREDENTIAL_MASTER_KEY",
            borrow_value(&env.school_credential_master_key),
        )?;
        proof {
            assert(checks[1] is None);
        }
        proof {
            lemma_first_fault_from(checks, 2);
        }
        let fallback_user_agent = required_env(
            "HTTP_FALLBACK_USER_AGENT",
            borrow_value(&env.http_fallback_user_agent),
        )?;
        proof {
            assert(checks[2] is None);
        }
        proof {
            lemma_first_fault_from(checks, 3);
        }
        let pool_raw = required_env(
            "HTTP_DEFAULT_USER_AGENT_POOL",
            borrow_value(&env.http_default_user_agent_pool),
        )?;
        proof {
            assert(checks[3] is None);
        }
        let default_user_agent_pool = parse_user_agent_pool(pool_raw.as_str());
        if str_is_blank(master_key.as_str()) {
            return Err(ConfigError::Blank { key: "SCHOOL_CREDENTIAL_MASTER_KEY".to_string() });
        }
        proof {
            lemma_first_fault_from(checks, 4);
        }
        if default_user_agent_pool.len() == 0 {
            return Err(ConfigError::NoUserAgent { key: "HTTP_DEFAULT_USER_AGENT_POOL".to_string() });
        }
        proof {
            assert(checks[4] is None);
        }
        proof {
            lemma_first_fault_from(checks, 5);
        }
        let connect_timeout_ms = env_parse_or(
            "HTTP_CONNECT_TIMEOUT_MS",
            borrow_value(&env.http_connect_timeout_ms),
            3000u64,
        )?;
        proof {
            lemma_first_fault_from(checks, 6);
        }
        let request_timeout_ms = env_parse_or(
            "HTTP_REQUEST_TIMEOUT_MS",
            borrow_value(&env.http_request_timeout_ms),
            10000u64,
        )?;
        proof {
            lemma_first_fault_from(checks, 7);
        }
        let pool_idle_timeout_secs = env_parse_or(
            "HTTP_POOL_IDLE_TIMEOUT_SECS",
            borrow_value(&env.http_pool_idle_timeout_secs),
            60u64,
        )?;
        proof {
            lemma_first_fault_from(checks, 8);
        }
        let pool_max_idle_per_host = env_parse_or(
            "HTTP_POOL_MAX_IDLE_PER_HOST",
            borrow_value(&env.http_pool_max_idle_per_host),
            16usize,
        )?;
        proof {
            lemma_first_fault_from(checks, 9);
        }
        let tcp_keepalive_secs = env_parse_or(
            "HTTP_TCP_KEEPALIVE_SECS",
            borrow_value(&env.http_tcp_keepalive_secs),
            30u64,
        )?;
        proof {
            lemma_first_fault_from(checks, 10);
        }
        let refresh_skew_secs = env_parse_or(
            "SCHOOL_AUTH_TOKEN_REFRESH_SKEW_SECS",
            borrow_value(&env.school_auth_token_refresh_skew_secs),
            300i64,
        )?;
        proof {
            lemma_first_fault_from(checks, 11);
        }
        let auth_max_retry_times = env_parse_or(
            "SCHOOL_AUTH_MAX_RETRY_TIMES",
            borrow_value(&env.school_auth_max_retry_times),
            2u32,
        )?;
        proof {
            lemma_first_fault_from(checks, 12);
        }
        let biz_max_retry_times = env_parse_or(
            "SCHOOL_BIZ_MAX_RETRY_TIMES",
            borrow_value(&env.school_biz_max_retry_times),
            2u32,
        )?;
        proof {
            lemma_first_fault_from(checks, 13);
        }
        let school_fixed_authorization = required_env(
            "SCHOOL_FIXED_AUTHORIZATION",
            borrow_value(&env.school_fixed_authorization),
        )?;
        proof {
            assert(checks.skip(14) =~= Seq::<Option<ConfigFault>>::empty());
        }
        Ok(SchoolInfraConfig {
            gateway: AhutGatewayConfig {
                base_url: normalize_base_url(raw_base_url.as_str()),
                fallback_user_agent,
                default_user_agent_pool,
                connect_timeout_ms,
                request_timeout_ms,
                pool_idle_timeout_secs,
                pool_max_idle_per_host,
                tcp_keepalive_secs,
            },
            security: SchoolSecurityConfig { master_key },
            policy: SchoolPolicyEnvConfig {
                refresh_skew_secs,
                auth_max_retry_times,
                biz_max_retry_times,
            },
            school_fixed_authorization,
        })
    }
}

} // verus!
