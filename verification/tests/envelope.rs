use ahut_dorm_sign::error::ServiceError;
use ahut_dorm_sign::models::envelope::BizEnvelope;

#[test]
fn should_extract_data_when_success_and_code_200() {
    let envelope = BizEnvelope {
        code: 200,
        success: true,
        msg: "ok".to_string(),
        data: 42,
    };
    let data = envelope.into_data("test.service").expect("应成功提取 data");
    assert_eq!(data, 42);
}

#[test]
fn should_return_remote_business_when_success_false() {
    let envelope = BizEnvelope {
        code: 200,
        success: false,
        msg: "biz failed".to_string(),
        data: (),
    };

    let err = envelope
        .into_data("test.service")
        .expect_err("应返回 RemoteBusiness");

    let text = err.message();
    assert!(text.contains("test.service"));
    assert!(text.contains("200"));
    assert!(text.contains("biz failed"));
}

#[test]
fn should_return_remote_business_when_code_not_200() {
    let envelope = BizEnvelope {
        code: 500,
        success: true,
        msg: "server error".to_string(),
        data: (),
    };

    let err = envelope
        .into_data("test.service")
        .expect_err("应返回 RemoteBusiness");

    let text = err.message();
    assert!(text.contains("test.service"));
    assert!(text.contains("500"));
    assert!(text.contains("server error"));
}

#[test]
fn remote_business_error_reads_as_the_service_says() {
    let envelope = BizEnvelope {
        code: -3,
        success: false,
        msg: "busy".to_string(),
        data: 0u8,
    };
    let err = envelope.into_data("dorm.list").unwrap_err();
    assert_eq!(
        err,
        ServiceError::RemoteBusiness { service: "dorm.list", code: -3, msg: "busy".to_string() }
    );
    assert_eq!(err.message(), "服务[dorm.list]远端业务错误: code=-3, msg=busy");
}
