use ahut_dorm_sign::infrastructure::school::config::normalize_base_url;
use ahut_dorm_sign::utils::url::{join_base_and_path, to_sign_path};

#[test]
fn should_join_base_and_path_with_single_slash() {
    assert_eq!(
        join_base_and_path("https://xskq.ahut.edu.cn/api/", "/auth/login"),
        "https://xskq.ahut.edu.cn/api/auth/login"
    );
}

#[test]
fn should_convert_absolute_url_to_sign_path() {
    assert_eq!(
        to_sign_path("https://example.com/api/auth/login?x=1&y=2"),
        "/api/auth/login?sign="
    );
}

#[test]
fn should_convert_relative_path_to_sign_path() {
    assert_eq!(to_sign_path("/api/auth/login?x=1&y=2"), "/api/auth/login?sign=");
}

#[test]
fn join_collapses_many_slashes_on_both_sides() {
    assert_eq!(join_base_and_path("https://a.b/api///", "///x/y"), "https://a.b/api/x/y");
    assert_eq!(join_base_and_path("https://a.b", "x"), "https://a.b/x");
    assert_eq!(join_base_and_path("", ""), "/");
}

#[test]
fn base_url_is_normalised_to_end_in_api_slash() {
    assert_eq!(normalize_base_url("  https://xskq.ahut.edu.cn/api// "), "https://xskq.ahut.edu.cn/api/");
    assert_eq!(normalize_base_url("https://xskq.ahut.edu.cn"), "https://xskq.ahut.edu.cn/api/");
    assert_eq!(normalize_base_url("https://xskq.ahut.edu.cn/"), "https://xskq.ahut.edu.cn/api/");
    assert_eq!(normalize_base_url("https://h/v1/api"), "https://h/v1/api/");
    assert_eq!(normalize_base_url(""), "/api/");
}

#[test]
fn normalising_twice_changes_nothing() {
    for raw in ["", " a /", "https://h/api", "https://h/api/ ", "//", "x/api/api//"] {
        let once = normalize_base_url(raw);
        assert_eq!(normalize_base_url(&once), once, "{raw:?}");
    }
}
