use clash_cli::host::FaultKind;
use clash_cli::json::{json_doc, JsonDoc};
use clash_cli::profile::index::{
    parse_index, render_index, select_profile, validate_profile_name, ProfileEntry, ProfileIndex,
};
use clash_cli::profile::{
    apply_local_listener_defaults, infer_home_from_runtime_config, key_exists,
    runtime_config_in, trim_service_suffix,
};
use clash_cli::yaml::{
    bool_field, deep_merge, key_value, parse, render, same_node, string_field, u16_field, Node,
};

#[test]
fn validate_profile_name_should_accept_valid_name() {
    assert!(validate_profile_name("default").is_ok());
    assert!(validate_profile_name("my-profile_1.2").is_ok());
}

#[test]
fn validate_profile_name_should_reject_invalid_name() {
    assert!(validate_profile_name("").is_err());
    assert!(validate_profile_name("  ").is_err());
    assert!(validate_profile_name("abc def").is_err());
    assert!(validate_profile_name("ab/def").is_err());
    assert!(validate_profile_name("中文").is_err());
}

#[test]
fn validate_profile_name_should_tell_empty_from_bad_characters() {
    assert_eq!(validate_profile_name("  ").unwrap_err().kind, FaultKind::ProfileNameEmpty);
    assert_eq!(validate_profile_name("a b").unwrap_err().kind, FaultKind::ProfileName);
    assert_eq!(validate_profile_name("a b").unwrap_err().detail, "a b");
}

#[test]
fn deep_merge_should_merge_nested_mapping_and_replace_scalar() {
    let mut base = parse(
        "\nmixed:\n  keep: 1\n  replace: old\narr:\n  - 1\n  - 2\nscalar: old\n",
    )
    .expect("解析测试 YAML 失败");
    let patch = parse(
        "\nmixed:\n  replace: new\n  add: 2\narr:\n  - 3\nscalar:\n  nested: true\n",
    )
    .expect("解析测试 YAML 失败");
    let expected = parse(
        "\nmixed:\n  keep: 1\n  replace: new\n  add: 2\narr:\n  - 3\nscalar:\n  nested: true\n",
    )
    .expect("解析测试 YAML 失败");

    deep_merge(&mut base, &patch);
    assert!(same_node(&base, &expected));
}

#[test]
fn key_exists_should_detect_top_level_key() {
    let root = parse("\nproxies: []\nmode: rule\n").expect("解析测试 YAML 失败");
    assert!(key_exists(&root, "proxies"));
    assert!(!key_exists(&root, "rules"));
}

#[test]
fn apply_local_listener_defaults_should_override_subscription_listener_keys() {
    let mut root = parse(
        "\nallow-lan: true\nmixed-port: 9981\nsocks-port: 9982\nbind-address: 0.0.0.0\nexternal-controller: 0.0.0.0:9091\n",
    )
    .expect("解析测试 YAML 失败");

    apply_local_listener_defaults(&mut root);

    assert!(clash_cli::yaml::is_mapping(&root), "root 不是 mapping");
    assert_eq!(bool_field(Some(&root), "allow-lan"), Some(false));
    assert_eq!(u16_field(Some(&root), "mixed-port"), Some(7890));
    assert_eq!(u16_field(Some(&root), "socks-port"), Some(7891));
    assert_eq!(string_field(Some(&root), "bind-address").as_deref(), Some("127.0.0.1"));
    assert_eq!(
        string_field(Some(&root), "external-controller").as_deref(),
        Some("127.0.0.1:9090")
    );
    assert_eq!(string_field(Some(&root), "external-ui").as_deref(), Some("ui"));
    assert_eq!(string_field(Some(&root), "external-ui-name").as_deref(), Some("metacubexd"));
    assert_eq!(
        string_field(Some(&root), "external-ui-url").as_deref(),
        Some("https://ghfast.top/https://github.com/MetaCubeX/metacubexd/archive/refs/heads/gh-pages.zip")
    );
}

fn sample_index() -> ProfileIndex {
    ProfileIndex {
        active: Some("active-p".to_string()),
        profiles: vec![
            ProfileEntry {
                name: "active-p".to_string(),
                url: "https://example.com/a.yaml".to_string(),
                file: "active-p.yaml".to_string(),
                created_at: 1,
                updated_at: None,
            },
            ProfileEntry {
                name: "other".to_string(),
                url: "https://example.com/b.yaml".to_string(),
                file: "other.yaml".to_string(),
                created_at: 2,
                updated_at: None,
            },
        ],
    }
}

#[test]
fn select_profile_should_use_active_when_name_missing() {
    let index = sample_index();

    let selected = select_profile(&index, None).expect("按 active 选择失败");
    assert_eq!(selected.name, "active-p");

    let selected_by_name = select_profile(&index, Some("other")).expect("按名称选择 profile 失败");
    assert_eq!(selected_by_name.name, "other");
}

#[test]
fn select_profile_should_fail_without_a_target_or_a_match() {
    let mut index = sample_index();
    assert_eq!(select_profile(&index, Some("nope")).unwrap_err().kind, FaultKind::ProfileMissing);
    assert_eq!(select_profile(&index, Some("nope")).unwrap_err().detail, "nope");
    index.active = None;
    assert_eq!(select_profile(&index, None).unwrap_err().kind, FaultKind::NoActiveProfile);
}

#[test]
fn index_should_round_trip_through_json() {
    let index = ProfileIndex {
        active: Some("home".to_string()),
        profiles: vec![ProfileEntry {
            name: "home".to_string(),
            url: "https://example.com/sub.yaml".to_string(),
            file: "home.yaml".to_string(),
            created_at: 1,
            updated_at: Some(2),
        }],
    };
    let text = render_index(&index).expect("保存索引失败");
    assert!(text.contains("\"name\": \"home\""));
    let loaded = parse_index(&text).expect("读取索引失败");

    assert_eq!(loaded.active.as_deref(), Some("home"));
    assert_eq!(loaded.profiles.len(), 1);
    let first = loaded.profiles.first().expect("profile 不存在");
    assert_eq!(first.name, "home");
    assert_eq!(first.url, "https://example.com/sub.yaml");
    assert_eq!(first.file, "home.yaml");
    assert_eq!(first.created_at, 1);
    assert_eq!(first.updated_at, Some(2));
}

#[test]
fn index_json_should_keep_the_order_of_the_fields() {
    let entry = ProfileEntry {
        name: "n".to_string(),
        url: "u".to_string(),
        file: "f".to_string(),
        created_at: 7,
        updated_at: None,
    };
    let text = render_index(&ProfileIndex { active: None, profiles: vec![entry] }).expect("json");
    assert_eq!(
        text,
        "{\n  \"active\": null,\n  \"profiles\": [\n    {\n      \"name\": \"n\",\n      \"url\": \"u\",\n      \"file\": \"f\",\n      \"created_at\": 7,\n      \"updated_at\": null\n    }\n  ]\n}"
    );
    assert_eq!(
        render_index(&ProfileIndex { active: Some("x".to_string()), profiles: vec![] }).expect("json"),
        "{\n  \"active\": \"x\",\n  \"profiles\": []\n}"
    );
}

#[test]
fn index_should_reject_what_is_no_index() {
    for text in [
        "[]",
        "{\"active\": null}",
        "{\"profiles\": [{\"name\": 1}]}",
        "{\"active\": 3, \"profiles\": []}",
        "{\"profiles\": [{\"name\":\"a\",\"url\":\"b\",\"file\":\"c\",\"created_at\":-1}]}",
        "{\"profiles\": [{\"name\":\"a\",\"url\":\"b\",\"file\":\"c\",\"created_at\":1.5}]}",
        "{\"profiles\": [{\"name\":\"a\",\"url\":\"b\",\"created_at\":1}]}",
    ] {
        let fault = parse_index(text).unwrap_err();
        assert_eq!(fault.kind, FaultKind::IndexParse, "{}", text);
        assert_eq!(fault.detail, "", "{}", text);
    }
    let empty = parse_index("{\"profiles\": []}").expect("index");
    assert_eq!(empty.active, None);
    assert!(empty.profiles.is_empty());
    let one = parse_index(
        "{\"profiles\": [{\"name\":\"a\",\"url\":\"b\",\"file\":\"c\",\"created_at\":18446744073709551615,\"extra\":[]}], \"active\": \"zz\"}",
    )
    .expect("index");
    assert_eq!(one.active.as_deref(), Some("zz"));
    assert_eq!(one.profiles[0].created_at, u64::MAX);
    assert_eq!(one.profiles[0].updated_at, None);
    let broken = parse_index("{").unwrap_err();
    assert_eq!(broken.kind, FaultKind::IndexParse);
    assert!(!broken.detail.is_empty());
}

#[test]
fn service_config_should_be_the_word_after_the_flag() {
    assert_eq!(
        runtime_config_in("{ path=/usr/local/bin/mihomo ; argv[]=/usr/local/bin/mihomo -d /var/lib/clash-cli -f /etc/clash-cli/runtime/config.yaml ; ignore_errors=no }").as_deref(),
        Some("/etc/clash-cli/runtime/config.yaml")
    );
    assert_eq!(runtime_config_in("mihomo -f \"/a b\";").as_deref(), Some("/a"));
    assert_eq!(runtime_config_in("mihomo -f '/x/config.yaml'").as_deref(), Some("/x/config.yaml"));
    assert_eq!(runtime_config_in("mihomo -f /x/config.yaml;;").as_deref(), Some("/x/config.yaml"));
    assert_eq!(runtime_config_in("mihomo -f /x/config.yaml,,").as_deref(), Some("/x/config.yaml"));
    // Semicolons leave before commas do.
    assert_eq!(runtime_config_in("mihomo -f /x/config.yaml;;,,").as_deref(), Some("/x/config.yaml;;"));
    // Quotes leave first, so one behind a semicolon stays.
    assert_eq!(runtime_config_in("mihomo -f '/x/config.yaml';").as_deref(), Some("/x/config.yaml'"));
    assert_eq!(runtime_config_in("mihomo '' -f ,; /y").as_deref(), Some("/y"));
    assert_eq!(runtime_config_in("mihomo -d /x"), None);
    assert_eq!(runtime_config_in("  "), None);
    assert_eq!(runtime_config_in("mihomo -f"), None);
}

#[test]
fn home_should_be_inferred_from_the_runtime_configuration() {
    assert_eq!(
        infer_home_from_runtime_config("/etc/clash-cli/runtime/config.yaml").as_deref(),
        Some("/etc/clash-cli")
    );
    assert_eq!(infer_home_from_runtime_config("/etc/clash-cli/runtime/other.yaml"), None);
    assert_eq!(infer_home_from_runtime_config("/etc/clash-cli/config.yaml"), None);
    assert_eq!(trim_service_suffix("clash-mihomo.service"), "clash-mihomo");
    assert_eq!(trim_service_suffix("clash-mihomo"), "clash-mihomo");
}

#[test]
fn yaml_lookup_should_see_through_nested_mappings() {
    let root = parse("tun:\n  enable: true\n  stack: mixed\nredir-port: \"7893\"\n").unwrap();
    let tun = key_value(&root, "tun");
    assert_eq!(bool_field(tun, "enable"), Some(true));
    assert_eq!(string_field(tun, "stack").as_deref(), Some("mixed"));
    assert_eq!(bool_field(tun, "stack"), None);
    assert_eq!(u16_field(Some(&root), "redir-port"), Some(7893));
    assert_eq!(u16_field(Some(&root), "missing"), None);
    assert_eq!(bool_field(None, "enable"), None);
}

#[test]
fn documents_should_be_written_and_read_back() {
    let doc = parse("a: 1\nb:\n  - x\n  - !!str 2\nc: !tag {d: ~}\ne: 1.50\n").expect("yaml");
    let text = render(&doc).expect("text");
    assert_eq!(text, "a: 1\nb:\n- x\n- '2'\nc: !tag\n  d: null\ne: 1.5\n");
    assert!(same_node(&parse(&text).expect("yaml"), &doc));

    let fault = parse("a: [1").unwrap_err();
    assert_eq!(fault.kind, FaultKind::YamlParse);
    assert!(!fault.detail.is_empty());

    let no_tag = Node::Tagged(String::new(), Box::new(Node::Null));
    let fault = render(&Node::Sequence(vec![no_tag])).unwrap_err();
    assert_eq!(fault.kind, FaultKind::YamlRender);
}

#[test]
fn json_values_should_have_text_keys_and_no_tags() {
    let doc = Node::Tagged(
        "!t".to_string(),
        Box::new(Node::Mapping(vec![
            (Node::Text("a".to_string()), Node::Tagged("!u".to_string(), Box::new(Node::Number("1".to_string())))),
            (Node::Number("2".to_string()), Node::Sequence(vec![Node::Null, Node::Bool(true)])),
        ])),
    );
    match json_doc(&doc) {
        JsonDoc::Object(members) => {
            assert_eq!(members.len(), 2);
            assert_eq!(members[0].0, "a");
            assert!(matches!(&members[0].1, JsonDoc::Number(n) if n == "1"));
            assert_eq!(members[1].0, "");
            match &members[1].1 {
                JsonDoc::Array(items) => {
                    assert!(matches!(items[0], JsonDoc::Null));
                    assert!(matches!(items[1], JsonDoc::Bool(true)));
                }
                other => panic!("unexpected value {:?}", other),
            }
        }
        other => panic!("unexpected value {:?}", other),
    }
    assert!(matches!(json_doc(&Node::Text("x".to_string())), JsonDoc::Text(t) if t == "x"));
}
