use clash_cli::host::{ChainRule, Family, FaultKind, FirewallOp, Hook, Jump, Net, Program};
use clash_cli::tun::guard::{cap_eff_of, mask_has_bit, TunAction};
use clash_cli::tun::rules::{bypass_port_list, chain_rule_list, nft_script_text};
use clash_cli::tun::service::normalize_unit_name;
use clash_cli::tun::state::{RuleBackend, TunState};

#[test]
fn nft_script_should_return_for_bypass_ports_before_redirecting() {
    let script = nft_script_text(7892);
    let expected = "table inet clash_cli_tun {
  chain prerouting {
    type nat hook prerouting priority dstnat; policy accept;
    ip daddr { 127.0.0.0/8, 10.0.0.0/8, 172.16.0.0/12, 192.168.0.0/16, 198.18.0.0/15, 224.0.0.0/4, 240.0.0.0/4 } return
    ip6 daddr { ::1/128, fc00::/7, fe80::/10, ff00::/8 } return
    tcp dport { 7890, 7891, 9090, 7892 } return
    meta l4proto tcp redirect to :7892
  }
  chain output {
    type nat hook output priority -100; policy accept;
    meta skuid 0 return
    ip daddr { 127.0.0.0/8, 10.0.0.0/8, 172.16.0.0/12, 192.168.0.0/16, 198.18.0.0/15, 224.0.0.0/4, 240.0.0.0/4 } return
    ip6 daddr { ::1/128, fc00::/7, fe80::/10, ff00::/8 } return
    tcp dport { 7890, 7891, 9090, 7892 } return
    meta l4proto tcp redirect to :7892
  }
}";
    assert_eq!(script, expected);
    let other = nft_script_text(1);
    assert!(other.contains("tcp dport { 7890, 7891, 9090, 1 } return\n    meta l4proto tcp redirect to :1\n"));
}

#[test]
fn bypass_ports_should_be_sorted_and_without_repetition() {
    assert_eq!(bypass_port_list(7892), vec![7890, 7891, 7892, 9090]);
    assert_eq!(bypass_port_list(7890), vec![7890, 7891, 9090]);
    assert_eq!(bypass_port_list(7891), vec![7890, 7891, 9090]);
    assert_eq!(bypass_port_list(9090), vec![7890, 7891, 9090]);
    assert_eq!(bypass_port_list(80), vec![80, 7890, 7891, 9090]);
    assert_eq!(bypass_port_list(65535), vec![7890, 7891, 9090, 65535]);
    assert_eq!(bypass_port_list(0), vec![0, 7890, 7891, 9090]);
}

#[test]
fn chain_rules_should_end_with_the_only_redirect() {
    for port in [0u16, 80, 7890, 7892, 9090, 65535] {
        for family in [Family::V4, Family::V6] {
            let rules = chain_rule_list(family, port);
            assert_eq!(*rules.last().unwrap(), ChainRule::Redirect(port));
            assert_eq!(rules.iter().filter(|r| matches!(r, ChainRule::Redirect(_))).count(), 1);
            for bypass in [7890u16, 7891, 9090, port] {
                assert!(rules[..rules.len() - 1].contains(&ChainRule::ReturnPort(bypass)));
            }
        }
    }
    assert_eq!(chain_rule_list(Family::V6, 1)[0], ChainRule::ReturnNet(Net::Loopback6));
}

fn line(op: FirewallOp) -> String {
    let i = op.invocation();
    format!("{} {}", i.program, i.args.join(" "))
}

#[test]
fn firewall_calls_should_have_their_command_lines() {
    let plain = Jump { hook: Hook::Prerouting, non_root_only: false };
    let guarded = Jump { hook: Hook::Output, non_root_only: true };
    assert_eq!(line(FirewallOp::NftList), "nft list table inet clash_cli_tun");
    assert_eq!(line(FirewallOp::NftDelete), "nft delete table inet clash_cli_tun");
    assert_eq!(line(FirewallOp::NftLoad(7892)), "nft -f -");
    assert_eq!(FirewallOp::NftLoad(7892).invocation().stdin, Some(nft_script_text(7892)));
    assert_eq!(FirewallOp::NftList.invocation().stdin, None);
    assert_eq!(line(FirewallOp::ChainNew(Family::V4)), "iptables -t nat -N CLASH_CLI_TUN");
    assert_eq!(line(FirewallOp::ChainFlush(Family::V6)), "ip6tables -t nat -F CLASH_CLI_TUN");
    assert_eq!(line(FirewallOp::ChainDelete(Family::V4)), "iptables -t nat -X CLASH_CLI_TUN");
    assert_eq!(
        line(FirewallOp::ChainAppend(Family::V4, ChainRule::ReturnNet(Net::Private172))),
        "iptables -t nat -A CLASH_CLI_TUN -d 172.16.0.0/12 -j RETURN"
    );
    assert_eq!(
        line(FirewallOp::ChainAppend(Family::V6, ChainRule::ReturnNet(Net::LinkLocal6))),
        "ip6tables -t nat -A CLASH_CLI_TUN -d fe80::/10 -j RETURN"
    );
    assert_eq!(
        line(FirewallOp::ChainAppend(Family::V4, ChainRule::ReturnPort(9090))),
        "iptables -t nat -A CLASH_CLI_TUN -p tcp --dport 9090 -j RETURN"
    );
    assert_eq!(
        line(FirewallOp::ChainAppend(Family::V4, ChainRule::Redirect(7892))),
        "iptables -t nat -A CLASH_CLI_TUN -p tcp -j REDIRECT --to-ports 7892"
    );
    assert_eq!(
        line(FirewallOp::JumpCheck(Family::V4, plain)),
        "iptables -t nat -C PREROUTING -p tcp -j CLASH_CLI_TUN"
    );
    assert_eq!(
        line(FirewallOp::JumpAppend(Family::V4, guarded)),
        "iptables -t nat -A OUTPUT -p tcp -m owner ! --uid-owner 0 -j CLASH_CLI_TUN"
    );
    assert_eq!(
        line(FirewallOp::JumpDelete(Family::V6, guarded)),
        "ip6tables -t nat -D OUTPUT -p tcp -m owner ! --uid-owner 0 -j CLASH_CLI_TUN"
    );
    assert!(FirewallOp::NftList.is_probe());
    assert!(FirewallOp::JumpCheck(Family::V4, plain).is_probe());
    assert!(!FirewallOp::NftDelete.is_probe());
    assert!(!FirewallOp::JumpAppend(Family::V4, plain).is_probe());
    assert_eq!(Program::Ip6tables.as_str(), "ip6tables");
}

#[test]
fn backend_names_should_round_trip() {
    for b in [RuleBackend::Nft, RuleBackend::Iptables, RuleBackend::Absent] {
        assert_eq!(RuleBackend::from_str(b.as_str()), b);
    }
    assert_eq!(RuleBackend::Absent.as_str(), "none");
    assert_eq!(RuleBackend::from_str("something"), RuleBackend::Absent);
    assert_eq!(TunAction::Doctor.as_cli_str(), "doctor");
    assert_eq!(TunAction::On.as_cli_str(), "on");
    assert_eq!(TunAction::Off.as_cli_str(), "off");
}

#[test]
fn tun_state_should_round_trip_through_its_text() {
    let state = TunState {
        enabled: true,
        service_name: "clash-mihomo".to_string(),
        user_service: false,
        backend: RuleBackend::Iptables,
        redir_port: 7892,
        rules_applied: true,
        updated_at: 1700000000,
    };
    let text = state.to_text();
    assert_eq!(
        text,
        "enabled=true\nservice_name=clash-mihomo\nuser_service=false\nbackend=iptables\nredir_port=7892\nrules_applied=true\nupdated_at=1700000000\n"
    );
    let back = TunState::from_text(&text).expect("state");
    assert!(back.enabled);
    assert_eq!(back.service_name, "clash-mihomo");
    assert!(!back.user_service);
    assert_eq!(back.backend, RuleBackend::Iptables);
    assert_eq!(back.redir_port, 7892);
    assert!(back.rules_applied);
    assert_eq!(back.updated_at, 1700000000);
}

#[test]
fn tun_state_should_have_defaults_and_required_fields() {
    let state = TunState::from_text(" enabled = true \r\nservice_name=a=b\nuser_service=yes\nupdated_at=5\nnoise\n")
        .expect("state");
    assert!(state.enabled);
    assert_eq!(state.service_name, "a=b");
    assert!(!state.user_service);
    assert_eq!(state.backend, RuleBackend::Absent);
    assert_eq!(state.redir_port, 7892);
    assert!(!state.rules_applied);
    assert_eq!(state.updated_at, 5);

    let later_wins = TunState::from_text("enabled=true\nenabled=false\nservice_name=s\nuser_service=true\nupdated_at=+7\n")
        .expect("state");
    assert!(!later_wins.enabled);
    assert_eq!(later_wins.updated_at, 7);

    assert_eq!(TunState::from_text("").unwrap_err().kind, FaultKind::StateNoEnabled);
    assert_eq!(TunState::from_text("enabled=true\n").unwrap_err().kind, FaultKind::StateNoService);
    assert_eq!(
        TunState::from_text("enabled=true\nservice_name=s\n").unwrap_err().kind,
        FaultKind::StateNoUserService
    );
    assert_eq!(
        TunState::from_text("enabled=true\nservice_name=s\nuser_service=true\n").unwrap_err().kind,
        FaultKind::StateNoStamp
    );
    let port = TunState::from_text("redir_port=65536\n").unwrap_err();
    assert_eq!(port.kind, FaultKind::StatePort);
    assert_eq!(port.detail, "65536");
    assert_eq!(TunState::from_text("updated_at=-1\n").unwrap_err().kind, FaultKind::StateStamp);
    assert_eq!(TunState::from_text("redir_port=\n").unwrap_err().kind, FaultKind::StatePort);
}

#[test]
fn capability_mask_should_be_read_from_the_process_status() {
    assert_eq!(cap_eff_of("Name:\tx\nCapEff:\t0000000000003000\nCapBnd:\tff\n"), Ok(0x3000));
    assert_eq!(cap_eff_of("CapEff: 1fFfF\n"), Ok(0x1ffff));
    assert_eq!(cap_eff_of("CapEff:\tffffffffffffffff"), Ok(u64::MAX));
    assert_eq!(cap_eff_of("CapEff:\t10000000000000000\n"), Err(FaultKind::CapParse));
    assert_eq!(cap_eff_of("CapEff:\tzz\n"), Err(FaultKind::CapParse));
    assert_eq!(cap_eff_of("CapEff:\n"), Err(FaultKind::CapParse));
    assert_eq!(cap_eff_of("CapPrm:\tff\n"), Err(FaultKind::CapMissing));
    assert!(mask_has_bit(0x3000, 12));
    assert!(mask_has_bit(0x3000, 13));
    assert!(!mask_has_bit(0x2000, 12));
    assert!(!mask_has_bit(0x1000, 13));
}

#[test]
fn unit_names_should_end_in_service() {
    assert_eq!(normalize_unit_name("clash-mihomo"), "clash-mihomo.service");
    assert_eq!(normalize_unit_name("clash-mihomo.service"), "clash-mihomo.service");
    assert_eq!(normalize_unit_name(""), ".service");
}
