use ahut_dorm_sign::utils::sign::{
    app_signed_headers_at, build_app_signed_headers, flysource_sign_at, generate_flysource_auth,
    generate_flysource_sign,
};
use ahut_dorm_sign::utils::url::to_sign_path;

#[test]
fn should_generate_flysource_auth() {
    assert_eq!(generate_flysource_auth("token-123"), "bearer token-123");
}

#[test]
fn should_strip_query_when_building_sign_base_url() {
    assert_eq!(
        to_sign_path("https://example.com/api/auth/login?x=1&y=2"),
        "/api/auth/login?sign="
    );
}

#[test]
fn should_fallback_when_url_parse_failed() {
    assert_eq!(
        to_sign_path("/api/auth/login?x=1&y=2"),
        "/api/auth/login?sign="
    );
}

#[test]
fn sign_at_a_fixed_timestamp_is_the_documented_digest() {
    // md5("/api/auth/login?sign=" + md5("1700000000000tok")) + "1." + base64("1700000000000")
    assert_eq!(
        flysource_sign_at("https://example.com/api/auth/login?x=1", "tok", 1_700_000_000_000),
        "90badd4959d6e3743f7a916afd2987ed1.MTcwMDAwMDAwMDAwMA=="
    );
}

#[test]
fn sign_now_has_the_digest_shape() {
    let s = generate_flysource_sign("https://example.com/api/x", "tok");
    assert_eq!(&s[32..34], "1.");
    assert!(s[..32].chars().all(|c| c.is_ascii_hexdigit() && !c.is_ascii_uppercase()));
}

#[test]
fn signed_headers_carry_authorization_auth_and_sign() {
    let h = app_signed_headers_at("https://example.com/api/auth/login?x=1", "tok", "Basic abc", 1_700_000_000_000)
        .expect("valid header values");
    assert_eq!(h.len(), 3);
    assert_eq!(h[0], ("authorization".to_string(), "Basic abc".to_string()));
    assert_eq!(h[1], ("flysource-auth".to_string(), "bearer tok".to_string()));
    assert_eq!(
        h[2],
        (
            "flysource-sign".to_string(),
            "90badd4959d6e3743f7a916afd2987ed1.MTcwMDAwMDAwMDAwMA==".to_string()
        )
    );
}

#[test]
fn signed_headers_refuse_a_control_character() {
    assert!(app_signed_headers_at("https://e.com/a", "tok", "bad\nvalue", 1).is_err());
    assert!(build_app_signed_headers("https://e.com/a", "t\u{7f}k", "Basic abc").is_err());
    assert!(build_app_signed_headers("https://e.com/a", "tok", "Basic abc").is_ok());
}

#[test]
fn base64_follows_the_rfc_vectors() {
    for (plain, text) in [("", ""), ("f", "Zg=="), ("fo", "Zm8="), ("foo", "Zm9v"), ("foobar", "Zm9vYmFy")] {
        assert_eq!(ahut_dorm_sign::utils::hash::encode_base64(plain), text);
    }
}
