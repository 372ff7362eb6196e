use ahut_dorm_sign::constants::apilog::DORM_API_LOG_MENU_TITLE;
use ahut_dorm_sign::constants::client::{DEFAULT_TIMEOUT_SECS, DEFAULT_USER_AGENT};
use ahut_dorm_sign::error::ServiceError;
use ahut_dorm_sign::services::apilog::ApiLogRequest;
use ahut_dorm_sign::services::dorm::apilog::dorm_api_log_request;
use ahut_dorm_sign::services::dorm::list::DormListRequest;
use ahut_dorm_sign::services::dorm::wechat_mp::dorm_sign_config_url;
use ahut_dorm_sign::services::login::{login_headers, login_request, LoginRequest};
use ahut_dorm_sign::services::wechat_mp::WechatMpConfigRequest;
use ahut_dorm_sign::transport::{AppClientBuilder, HttpMethod};

#[test]
fn login_request_defaults_to_the_fixed_parameters() {
    let r = LoginRequest::default();
    assert_eq!(r.tenant_id, "000000");
    assert_eq!(r.username, "");
    assert_eq!(r.password, "");
    assert_eq!(r.account_type, "account");
    assert_eq!(r.grant_type, "password");
    assert_eq!(r.scope, "all");
    let n = LoginRequest::new(
        "1".to_string(),
        "u".to_string(),
        "p".to_string(),
        "t".to_string(),
        "g".to_string(),
        "s".to_string(),
    );
    assert_eq!((n.tenant_id.as_str(), n.password.as_str(), n.scope.as_str()), ("1", "p", "s"));
}

#[test]
fn login_sends_the_md5_of_the_password() {
    let r = login_request("000000", "2023001", "123456", "account", "password", "all");
    assert_eq!(r.password, "e10adc3949ba59abbe56e057f20f883e");
    assert_eq!(r.username, "2023001");
}

#[test]
fn login_headers_carry_authorization_and_tenant() {
    let h = login_headers("Basic abc", "000000").unwrap();
    assert_eq!(
        h,
        vec![
            ("authorization".to_string(), "Basic abc".to_string()),
            ("tenant-id".to_string(), "000000".to_string())
        ]
    );
    let err = login_headers("Basic abc", "00\n0").unwrap_err();
    assert_eq!(
        err,
        ServiceError::InvalidRequest { service: "login", msg: "failed to parse header value".to_string() }
    );
    assert_eq!(err.message(), "服务[login]请求参数或构建错误: failed to parse header value");
}

#[test]
fn list_page_defaults_to_the_first_fifteen() {
    assert_eq!(DormListRequest::default(), DormListRequest::new(1, 15));
    assert_eq!(DormListRequest::new(3, 30).size, 30);
}

#[test]
fn wechat_and_log_requests_name_the_page_and_menu() {
    assert_eq!(
        dorm_sign_config_url("T1", "2023001"),
        "https://xskq.ahut.edu.cn/wise/pages/ssgl/dormsign?taskId=T1&autoSign=1&scanSign=0&userId=2023001"
    );
    assert_eq!(WechatMpConfigRequest::new("https://p".to_string()).config_url(), "https://p");
    assert_eq!(ApiLogRequest::new("m".to_string()).menu_title(), "m");
    assert_eq!(dorm_api_log_request().menu_title(), DORM_API_LOG_MENU_TITLE);
    assert_eq!(DORM_API_LOG_MENU_TITLE, "晚寝签到");
}

#[test]
fn client_builder_keeps_what_it_is_given() {
    let b = AppClientBuilder::new("https://x/api".to_string());
    assert_eq!(b.base_url(), "https://x/api");
    assert_eq!(b.timeout(), (DEFAULT_TIMEOUT_SECS, 0));
    assert_eq!(b.user_agent(), DEFAULT_USER_AGENT);
    let b = b.with_timeout(1, 500_000_000).with_user_agent("ua".to_string());
    assert_eq!((b.base_url(), b.timeout(), b.user_agent()), ("https://x/api", (1, 500_000_000), "ua"));
    assert_eq!(HttpMethod::Get.as_str(), "GET");
    assert_eq!(HttpMethod::Post.as_str(), "POST");
}
