use ahut_dorm_sign::infrastructure::config::env_reader::{
    env_or, env_parse_or, required_env, ConfigError,
};
use ahut_dorm_sign::infrastructure::config::school::{
    parse_user_agent_pool, SchoolEnvValues, SchoolInfraConfig,
};
use ahut_dorm_sign::infrastructure::school::config::AhutGatewayConfig;

fn full_env() -> SchoolEnvValues {
    SchoolEnvValues {
        ahut_base_url: Some(" https://xskq.ahut.edu.cn/ ".to_string()),
        school_credential_master_key: Some("k".to_string()),
        http_fallback_user_agent: Some("fallback-ua".to_string()),
        http_default_user_agent_pool: Some("ua1, ,ua2 ,".to_string()),
        http_connect_timeout_ms: None,
        http_request_timeout_ms: Some("2500".to_string()),
        http_pool_idle_timeout_secs: Some("  ".to_string()),
        http_pool_max_idle_per_host: Some("+8".to_string()),
        http_tcp_keepalive_secs: None,
        school_auth_token_refresh_skew_secs: Some("-5".to_string()),
        school_auth_max_retry_times: None,
        school_biz_max_retry_times: Some("4".to_string()),
        school_fixed_authorization: Some("Basic xyz".to_string()),
    }
}

#[test]
fn configuration_is_assembled_from_the_environment() {
    let c = SchoolInfraConfig::from_env(&full_env()).expect("complete environment");
    assert_eq!(c.gateway.base_url, "https://xskq.ahut.edu.cn/api/");
    assert_eq!(c.gateway.fallback_user_agent, "fallback-ua");
    assert_eq!(c.gateway.default_user_agent_pool, vec!["ua1".to_string(), "ua2".to_string()]);
    assert_eq!(c.gateway.connect_timeout_ms, 3000);
    assert_eq!(c.gateway.request_timeout_ms, 2500);
    assert_eq!(c.gateway.pool_idle_timeout_secs, 60);
    assert_eq!(c.gateway.pool_max_idle_per_host, 8);
    assert_eq!(c.gateway.tcp_keepalive_secs, 30);
    assert_eq!(c.security.master_key, "k");
    assert_eq!(c.policy.refresh_skew_secs, -5);
    assert_eq!(c.policy.auth_max_retry_times, 2);
    assert_eq!(c.policy.biz_max_retry_times, 4);
    assert_eq!(c.school_fixed_authorization, "Basic xyz");
}

#[test]
fn the_first_missing_setting_is_reported() {
    let mut env = full_env();
    env.school_fixed_authorization = None;
    env.http_fallback_user_agent = Some("   ".to_string());
    match SchoolInfraConfig::from_env(&env) {
        Err(ConfigError::Blank { key }) => assert_eq!(key, "HTTP_FALLBACK_USER_AGENT"),
        other => panic!("unexpected {other:?}"),
    }
    let mut env = full_env();
    env.ahut_base_url = None;
    match SchoolInfraConfig::from_env(&env) {
        Err(ConfigError::Missing { key }) => assert_eq!(key, "AHUT_BASE_URL"),
        other => panic!("unexpected {other:?}"),
    }
    let mut env = full_env();
    env.school_fixed_authorization = None;
    match SchoolInfraConfig::from_env(&env) {
        Err(ConfigError::Missing { key }) => assert_eq!(key, "SCHOOL_FIXED_AUTHORIZATION"),
        other => panic!("unexpected {other:?}"),
    }
}

#[test]
fn an_empty_user_agent_pool_is_refused() {
    let mut env = full_env();
    env.http_default_user_agent_pool = Some(" , ,".to_string());
    match SchoolInfraConfig::from_env(&env) {
        Err(ConfigError::NoUserAgent { key }) => assert_eq!(key, "HTTP_DEFAULT_USER_AGENT_POOL"),
        other => panic!("unexpected {other:?}"),
    }
}

#[test]
fn a_number_that_does_not_parse_is_named_with_its_value() {
    let mut env = full_env();
    env.http_connect_timeout_ms = Some("3s".to_string());
    env.school_biz_max_retry_times = Some("x".to_string());
    match SchoolInfraConfig::from_env(&env) {
        Err(ConfigError::Invalid { key, value }) => {
            assert_eq!(key, "HTTP_CONNECT_TIMEOUT_MS");
            assert_eq!(value, "3s");
        }
        other => panic!("unexpected {other:?}"),
    }
    let mut env = full_env();
    env.school_auth_max_retry_times = Some("4294967296".to_string());
    assert!(matches!(
        SchoolInfraConfig::from_env(&env),
        Err(ConfigError::Invalid { .. })
    ));
}

#[test]
fn single_settings_read_as_documented() {
    assert_eq!(required_env("K", Some("v")).unwrap(), "v");
    assert!(matches!(required_env("K", None), Err(ConfigError::Missing { .. })));
    assert!(matches!(required_env("K", Some(" ")), Err(ConfigError::Blank { .. })));
    assert_eq!(env_or(Some(" "), "d"), "d");
    assert_eq!(env_or(None, "d"), "d");
    assert_eq!(env_or(Some(" x "), "d"), " x ");
    assert_eq!(env_parse_or("K", Some("12"), 5u32).unwrap(), 12);
    assert_eq!(env_parse_or("K", None, 5u32).unwrap(), 5);
    assert_eq!(env_parse_or("K", Some(""), -1i64).unwrap(), -1);
    assert!(env_parse_or("K", Some(" 12"), 5u32).is_err());
}

#[test]
fn user_agent_pool_is_split_trimmed_and_filtered() {
    assert_eq!(parse_user_agent_pool(" a ,b,, c"), vec!["a", "b", "c"]);
    assert!(parse_user_agent_pool(" ").is_empty());
}

fn gateway(pool: Vec<String>) -> AhutGatewayConfig {
    AhutGatewayConfig {
        base_url: "https://x/api/".to_string(),
        fallback_user_agent: "fallback".to_string(),
        default_user_agent_pool: pool,
        connect_timeout_ms: 1,
        request_timeout_ms: 1,
        pool_idle_timeout_secs: 1,
        pool_max_idle_per_host: 1,
        tcp_keepalive_secs: 1,
    }
}

#[test]
fn a_user_agent_is_picked_from_the_candidates_or_the_fallback() {
    let g = gateway(vec![" a ".to_string(), " ".to_string()]);
    let custom = vec!["b".to_string(), "".to_string()];
    for _ in 0..20 {
        let ua = g.pick_user_agent(&custom);
        assert!(ua == "a" || ua == "b", "{ua}");
    }
    let empty = gateway(vec!["  ".to_string()]);
    assert_eq!(empty.pick_user_agent(&[]), "fallback");
}
