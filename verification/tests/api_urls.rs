use clash_cli::api::{
    api_context, apply_secret, build_dashboard_url, build_request, normalize_controller_url,
    yaml_key_string, ApiContext,
};
use clash_cli::cli::ApiCommonArgs;
use clash_cli::host::HttpMethod;
use clash_cli::yaml::parse;

#[test]
fn normalize_controller_url_should_add_http_when_scheme_missing() {
    assert_eq!(normalize_controller_url("127.0.0.1:9090"), "http://127.0.0.1:9090");
    assert_eq!(normalize_controller_url("example.com:9999/"), "http://example.com:9999");
}

#[test]
fn normalize_controller_url_should_trim_trailing_slash() {
    assert_eq!(normalize_controller_url("http://127.0.0.1:9090/"), "http://127.0.0.1:9090");
    assert_eq!(normalize_controller_url("https://a.b.c/controller/"), "https://a.b.c/controller");
}

#[test]
fn yaml_key_string_should_read_root_mapping_key() {
    let root = parse("\nexternal-controller: 127.0.0.1:9090\nsecret: abc\n").expect("解析 YAML 失败");

    assert_eq!(yaml_key_string(&root, "external-controller").as_deref(), Some("127.0.0.1:9090"));
    assert_eq!(yaml_key_string(&root, "secret").as_deref(), Some("abc"));
    assert_eq!(yaml_key_string(&root, "missing"), None);
}

#[test]
fn build_dashboard_url_should_append_ui_path() {
    assert_eq!(build_dashboard_url("http://127.0.0.1:9090"), "http://127.0.0.1:9090/ui");
    assert_eq!(build_dashboard_url("http://127.0.0.1:9090/"), "http://127.0.0.1:9090/ui");
}

#[test]
fn normalize_controller_url_should_trim_every_trailing_slash() {
    assert_eq!(normalize_controller_url("http://h:1///"), "http://h:1");
    assert_eq!(normalize_controller_url(""), "http://");
}

#[test]
fn api_context_should_prefer_the_command_over_the_configuration() {
    let common = ApiCommonArgs {
        controller: Some("10.0.0.1:9999".to_string()),
        secret: None,
        timeout_secs: 15,
    };
    let ctx = api_context(&common, Some("127.0.0.1:9090".to_string()), Some("s3".to_string()));
    assert_eq!(ctx.base_url, "http://10.0.0.1:9999");
    assert_eq!(ctx.secret.as_deref(), Some("s3"));

    let bare = ApiCommonArgs { controller: None, secret: None, timeout_secs: 15 };
    let ctx = api_context(&bare, None, None);
    assert_eq!(ctx.base_url, "http://127.0.0.1:9090");
    assert_eq!(ctx.secret, None);
}

#[test]
fn requests_should_carry_the_secret_unless_it_is_empty() {
    let with = ApiContext { base_url: "http://h:1".to_string(), secret: Some("abc".to_string()) };
    let empty = ApiContext { base_url: "http://h:1".to_string(), secret: Some(String::new()) };
    assert_eq!(apply_secret(&with).as_deref(), Some("abc"));
    assert_eq!(apply_secret(&empty), None);

    let request = build_request(&with, HttpMethod::Get, "/version", None, 15);
    assert_eq!(request.url, "http://h:1/version");
    assert_eq!(request.bearer.as_deref(), Some("abc"));
    assert_eq!(request.connect_timeout_secs, 8);
    assert_eq!(request.timeout_secs, 15);
    assert!(request.json);
}
