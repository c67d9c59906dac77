use clash_cli::cli::StartArgs;
use clash_cli::host::FaultKind;
use clash_cli::proxy::{
    normalize_runtime_host, remove_hook_block, resolve_start_proxy_state, shell_hook_block,
    unset_script, ProxyState, RuntimeProxyDefaults, HOOK_END, HOOK_START,
};

#[test]
fn resolve_start_proxy_state_should_prefer_runtime_mixed_port() {
    let args = StartArgs {
        host: None,
        http_port: None,
        socks_port: None,
        no_proxy: "localhost".to_string(),
        auto: false,
        shell: None,
        print_env: false,
    };
    let runtime = RuntimeProxyDefaults {
        host: Some("127.0.0.1".to_string()),
        mixed_port: Some(9981),
        http_port: None,
        socks_port: None,
    };
    let state = resolve_start_proxy_state(&args, runtime);
    assert_eq!(state.host, "127.0.0.1");
    assert_eq!(state.http_port, 9981);
    assert_eq!(state.socks_port, 9981);
}

#[test]
fn resolve_start_proxy_state_should_prefer_explicit_args() {
    let args = StartArgs {
        host: Some("127.0.0.1".to_string()),
        http_port: Some(7890),
        socks_port: Some(7891),
        no_proxy: "localhost".to_string(),
        auto: false,
        shell: None,
        print_env: false,
    };
    let runtime = RuntimeProxyDefaults {
        host: Some("192.168.1.2".to_string()),
        mixed_port: Some(9981),
        http_port: Some(9990),
        socks_port: Some(9991),
    };
    let state = resolve_start_proxy_state(&args, runtime);
    assert_eq!(state.host, "127.0.0.1");
    assert_eq!(state.http_port, 7890);
    assert_eq!(state.socks_port, 7891);
}

#[test]
fn normalize_runtime_host_should_replace_any_bind() {
    assert_eq!(normalize_runtime_host("0.0.0.0").as_deref(), Some("127.0.0.1"));
    assert_eq!(normalize_runtime_host("::").as_deref(), Some("127.0.0.1"));
    assert_eq!(normalize_runtime_host("*").as_deref(), Some("127.0.0.1"));
}

#[test]
fn normalize_runtime_host_should_trim_and_refuse_the_empty() {
    assert_eq!(normalize_runtime_host("  192.168.1.2 ").as_deref(), Some("192.168.1.2"));
    assert_eq!(normalize_runtime_host("   "), None);
    assert_eq!(normalize_runtime_host(""), None);
}

#[test]
fn resolve_start_proxy_state_should_fall_back_to_the_defaults() {
    let args = StartArgs {
        host: None,
        http_port: None,
        socks_port: None,
        no_proxy: "localhost,127.0.0.1,::1".to_string(),
        auto: false,
        shell: None,
        print_env: false,
    };
    let runtime =
        RuntimeProxyDefaults { host: None, mixed_port: None, http_port: Some(8080), socks_port: None };
    let state = resolve_start_proxy_state(&args, runtime);
    assert_eq!(state.host, "127.0.0.1");
    assert_eq!(state.http_port, 8080);
    assert_eq!(state.socks_port, 7891);
    assert_eq!(state.no_proxy, "localhost,127.0.0.1,::1");
}

#[test]
fn proxy_state_should_round_trip_through_its_file() {
    let state = ProxyState {
        host: "127.0.0.1".to_string(),
        http_port: 7890,
        socks_port: 7891,
        no_proxy: "localhost,::1".to_string(),
    };
    let text = state.to_state_file();
    assert_eq!(text, "host=127.0.0.1\nhttp_port=7890\nsocks_port=7891\nno_proxy=localhost,::1\n");
    let back = ProxyState::from_state_file(&text).expect("state");
    assert_eq!(back.host, "127.0.0.1");
    assert_eq!(back.http_port, 7890);
    assert_eq!(back.socks_port, 7891);
    assert_eq!(back.no_proxy, "localhost,::1");
}

#[test]
fn proxy_state_file_errors_should_name_the_field() {
    let missing = ProxyState::from_state_file("host=a\nhttp_port=1\nsocks_port=2\n").unwrap_err();
    assert_eq!(missing.kind, FaultKind::ProxyStateField);
    assert_eq!(missing.detail, "no_proxy");
    let bad = ProxyState::from_state_file("host=a\nhttp_port=70000\n").unwrap_err();
    assert_eq!(bad.kind, FaultKind::ProxyStatePort);
    assert_eq!(bad.detail, "http_port");
    let first = ProxyState::from_state_file("").unwrap_err();
    assert_eq!(first.detail, "host");
}

#[test]
fn export_script_should_set_all_eight_variables() {
    let state = ProxyState {
        host: "127.0.0.1".to_string(),
        http_port: 7890,
        socks_port: 7891,
        no_proxy: "localhost".to_string(),
    };
    assert_eq!(
        state.export_script(),
        "export http_proxy=http://127.0.0.1:7890\nexport https_proxy=http://127.0.0.1:7890\nexport HTTP_PROXY=http://127.0.0.1:7890\nexport HTTPS_PROXY=http://127.0.0.1:7890\nexport all_proxy=socks5://127.0.0.1:7891\nexport ALL_PROXY=socks5://127.0.0.1:7891\nexport no_proxy=localhost\nexport NO_PROXY=localhost\n"
    );
    assert!(unset_script().contains("unset http_proxy"));
    assert!(unset_script().contains("unset HTTPS_PROXY"));
}

#[test]
fn hook_block_should_be_removed_with_its_markers() {
    let block = shell_hook_block();
    assert!(block.starts_with(HOOK_START));
    assert!(block.ends_with(&format!("{}\n", HOOK_END)));
    let rc = format!("alias a=b\n{}export X=1", block);
    assert_eq!(remove_hook_block(&rc), "alias a=b\nexport X=1\n");
    assert_eq!(remove_hook_block(&block), "");
    assert_eq!(remove_hook_block("one\r\ntwo"), "one\ntwo\n");
}
