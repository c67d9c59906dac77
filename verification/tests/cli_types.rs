use clash_cli::cli::{ApiModeValue, AutoAction, ShellKind};
use clash_cli::output::{is_json_mode, set_json_mode, OutputMode};
use clash_cli::setup::{amd64_variant_str, mirror_source_str};
use clash_cli::cli::{Amd64Variant, MirrorSource};

#[test]
fn api_mode_names_match_the_controller_api() {
    assert_eq!(ApiModeValue::Rule.as_api_str(), "rule");
    assert_eq!(ApiModeValue::Global.as_api_str(), "global");
    assert_eq!(ApiModeValue::Direct.as_api_str(), "direct");
    assert_eq!(ApiModeValue::Script.as_api_str(), "script");
}

#[test]
fn auto_action_gives_its_shell() {
    assert_eq!(AutoAction::On { shell: Some(ShellKind::Zsh) }.shell(), Some(ShellKind::Zsh));
    assert_eq!(AutoAction::Off { shell: None }.shell(), None);
    assert_eq!(AutoAction::Status { shell: Some(ShellKind::Bash) }.shell(), Some(ShellKind::Bash));
    assert_eq!(ShellKind::Bash.as_str(), "bash");
    assert_eq!(ShellKind::Zsh.as_str(), "zsh");
}

#[test]
fn output_mode_starts_as_text_and_can_be_switched() {
    let mut mode = OutputMode::new();
    assert!(!is_json_mode(&mode));
    set_json_mode(&mut mode, true);
    assert!(is_json_mode(&mode));
    set_json_mode(&mut mode, false);
    assert!(!is_json_mode(&mode));
}

#[test]
fn mirror_and_variant_names_are_the_flags_values() {
    assert_eq!(mirror_source_str(MirrorSource::Auto), "auto");
    assert_eq!(mirror_source_str(MirrorSource::Github), "github");
    assert_eq!(mirror_source_str(MirrorSource::Ghfast), "ghfast");
    assert_eq!(amd64_variant_str(Amd64Variant::Auto), "auto");
    assert_eq!(amd64_variant_str(Amd64Variant::Compatible), "compatible");
    assert_eq!(amd64_variant_str(Amd64Variant::V3), "v3");
}
