use std::collections::BTreeMap;

use clash_cli::cli::{TunApplyArgs, TunCommand, TunStatusArgs};
use clash_cli::host::{
    ChainRule, Effect, Exchange, Family, Fault, FaultKind, FirewallOp, Halt, Hook, HostEnv, Jump,
    Net, Program, Replay, Reply, Step,
};
use clash_cli::tun::checks::CheckLevel;
use clash_cli::tun::state::{RuleBackend, TunState};
use clash_cli::messages::{fault_kind_text, fault_message};
use clash_cli::tun::backend::apply_iptables_rules;
use clash_cli::tun::guard::read_cap_eff;
use clash_cli::tun::service::query_service_active;
use clash_cli::tun::{run, TunReport};
use clash_cli::yaml::{bool_field, key_value, parse, string_field, u16_field};

const CONFIG: &str = "/etc/clash-cli/runtime/config.yaml";
const STATE: &str = "/etc/clash-cli/runtime/tun.state";

#[derive(Clone, Default)]
struct Chains {
    installed: bool,
    chain: bool,
    rules: Vec<ChainRule>,
    prerouting: u32,
    output_guarded: u32,
    output_plain: u32,
}

impl Chains {
    fn copies(&mut self, jump: Jump) -> &mut u32 {
        match (jump.hook, jump.non_root_only) {
            (Hook::Prerouting, _) => &mut self.prerouting,
            (Hook::Output, true) => &mut self.output_guarded,
            (Hook::Output, false) => &mut self.output_plain,
        }
    }
}

/// A machine in memory: files, a firewall, a service and a clock.
#[derive(Clone)]
struct Machine {
    files: BTreeMap<String, String>,
    nft: bool,
    nft_load_works: bool,
    table: bool,
    v4: Chains,
    v6: Chains,
    systemctl: bool,
    sudo: bool,
    sudo_succeeds: bool,
    uid: String,
    device: bool,
    service_running: bool,
    clock: u64,
    calls: Vec<String>,
    /// Effects that this machine refuses, by the beginning of their label.
    refuse: Vec<String>,
    /// Whether a loaded script leaves a table.
    table_sticks: bool,
}

fn label(effect: &Effect) -> String {
    match effect {
        Effect::Tool(program, _) => format!("Tool:{}", program.as_str()),
        Effect::Firewall(op) => {
            let line = op.invocation();
            format!("Firewall:{} {}", line.program, line.args.join(" "))
        }
        Effect::Run(line) => format!("Run:{} {}", line.program, line.args.join(" ")),
        Effect::Status(line) => format!("Status:{} {}", line.program, line.args.join(" ")),
        Effect::PathExists(path) => format!("PathExists:{}", path),
        Effect::ReadFile(path) => format!("ReadFile:{}", path),
        Effect::WriteFile(path, _) => format!("WriteFile:{}", path),
        Effect::CreateParent(path) => format!("CreateParent:{}", path),
        Effect::Clock => "Clock".to_string(),
        Effect::File(op, first, _) => format!("File:{:?}:{}", op, first),
        Effect::Http(request) => format!("Http:{}", request.url),
    }
}

impl Machine {
    fn new() -> Machine {
        let mut files = BTreeMap::new();
        files.insert(
            "/proc/self/status".to_string(),
            "Name:\tclash\nCapEff:\t0000000000000000\n".to_string(),
        );
        files.insert("/proc/sys/net/ipv4/ip_forward".to_string(), "1\n".to_string());
        files.insert("/proc/sys/net/ipv4/conf/all/rp_filter".to_string(), "2\n".to_string());
        Machine {
            files,
            nft: true,
            nft_load_works: true,
            table: false,
            v4: Chains { installed: true, ..Chains::default() },
            v6: Chains { installed: true, ..Chains::default() },
            systemctl: true,
            sudo: false,
            sudo_succeeds: true,
            uid: "0".to_string(),
            device: true,
            service_running: false,
            clock: 1_700_000_000,
            calls: Vec::new(),
            refuse: Vec::new(),
            table_sticks: true,
        }
    }

    fn family(&mut self, f: Family) -> &mut Chains {
        match f {
            Family::V4 => &mut self.v4,
            Family::V6 => &mut self.v6,
        }
    }

    fn has(&self, program: Program) -> bool {
        match program {
            Program::Nft => self.nft,
            Program::Iptables => self.v4.installed,
            Program::Ip6tables => self.v6.installed,
            Program::Systemctl => self.systemctl,
            Program::Sudo => self.sudo,
            Program::Restorecon => false,
        }
    }

    fn firewall(&mut self, op: FirewallOp) -> bool {
        let line = op.invocation();
        self.calls.push(format!("{} {}", line.program, line.args.join(" ")));
        match op {
            FirewallOp::NftList => self.nft && self.table,
            FirewallOp::NftDelete => {
                let ok = self.nft && self.table;
                if ok {
                    self.table = false;
                }
                ok
            }
            FirewallOp::NftLoad(_) => {
                let ok = self.nft && self.nft_load_works;
                if ok {
                    self.table = self.table_sticks;
                }
                ok
            }
            FirewallOp::ChainNew(f) => {
                let c = self.family(f);
                let ok = c.installed && !c.chain;
                if ok {
                    c.chain = true;
                    c.rules.clear();
                }
                ok
            }
            FirewallOp::ChainFlush(f) => {
                let c = self.family(f);
                let ok = c.installed && c.chain;
                if ok {
                    c.rules.clear();
                }
                ok
            }
            FirewallOp::ChainDelete(f) => {
                let c = self.family(f);
                let ok = c.installed
                    && c.chain
                    && c.rules.is_empty()
                    && c.prerouting == 0
                    && c.output_guarded == 0
                    && c.output_plain == 0;
                if ok {
                    c.chain = false;
                }
                ok
            }
            FirewallOp::ChainAppend(f, rule) => {
                let c = self.family(f);
                let ok = c.installed && c.chain;
                if ok {
                    c.rules.push(rule);
                }
                ok
            }
            FirewallOp::JumpCheck(f, j) => {
                let c = self.family(f);
                c.installed && *c.copies(j) > 0
            }
            FirewallOp::JumpAppend(f, j) => {
                let c = self.family(f);
                let ok = c.installed && c.chain;
                if ok {
                    *c.copies(j) += 1;
                }
                ok
            }
            FirewallOp::JumpDelete(f, j) => {
                let c = self.family(f);
                let ok = c.installed && *c.copies(j) > 0;
                if ok {
                    *c.copies(j) -= 1;
                }
                ok
            }
        }
    }

    fn answer(&mut self, effect: &Effect) -> Reply {
        let mut reply = Reply { ok: false, text: String::new(), detail: String::new(), stamp: 0 };
        let name = label(effect);
        if self.refuse.iter().any(|r| name.starts_with(r.as_str())) {
            reply.detail = "refused".to_string();
            return reply;
        }
        match effect {
            Effect::Tool(program, _) => reply.ok = self.has(*program),
            Effect::Firewall(op) => {
                reply.ok = self.firewall(*op);
                if !reply.ok {
                    reply.detail = "refused".to_string();
                }
            }
            Effect::Run(line) => {
                self.calls.push(format!("{} {}", line.program, line.args.join(" ")));
                if line.program == "id" {
                    reply.ok = true;
                    reply.text = format!("{}\n", self.uid);
                } else if line.program == "systemctl" {
                    reply.ok = self.systemctl;
                    if reply.ok && line.args.iter().any(|a| a == "restart") {
                        self.service_running = true;
                    }
                }
            }
            Effect::Status(line) => {
                self.calls.push(format!("{} {}", line.program, line.args.join(" ")));
                if line.program == "sudo" {
                    reply.ok = self.sudo_succeeds;
                } else if line.program == "systemctl" {
                    reply.ok = self.service_running;
                }
            }
            Effect::PathExists(path) => {
                reply.ok = if path == "/dev/net/tun" { self.device } else { self.files.contains_key(path) }
            }
            Effect::ReadFile(path) => match self.files.get(path) {
                Some(text) => {
                    reply.ok = true;
                    reply.text = text.clone();
                }
                None => reply.detail = "no such file".to_string(),
            },
            Effect::WriteFile(path, content) => {
                self.files.insert(path.clone(), content.clone());
                reply.ok = true;
            }
            Effect::CreateParent(_) => reply.ok = true,
            Effect::Clock => {
                reply.ok = true;
                reply.stamp = self.clock;
            }
            Effect::File(_, _, _) => reply.ok = true,
            Effect::Http(_) => reply.detail = "no network".to_string(),
        }
        reply
    }
}

fn env() -> HostEnv {
    HostEnv {
        os: "linux".to_string(),
        arch: "x86_64".to_string(),
        json: false,
        no_auto_sudo: false,
        sudo_reexec: None,
        stdin_terminal: false,
        stdout_terminal: false,
        stderr_terminal: false,
        home_override: Some("/etc/clash-cli".to_string()),
        xdg_config_home: None,
        home_dir: Some("/root".to_string()),
        current_exe: Some("/usr/local/bin/clash".to_string()),
        shell: Some("/bin/bash".to_string()),
        sudo_user: None,
        process_id: 4242,
    }
}

fn drive(command: &TunCommand, env: &HostEnv, machine: &mut Machine) -> Result<TunReport, Fault> {
    let mut record: Vec<Exchange> = Vec::new();
    for _ in 0..10_000 {
        match run(command, env, &record) {
            Step::Done(result) => return result,
            Step::Need(effect) => {
                let reply = machine.answer(&effect);
                record.push(Exchange { effect, reply });
            }
        }
    }
    panic!("the run did not end");
}

fn on_args(no_restart: bool) -> TunCommand {
    TunCommand::On(TunApplyArgs { name: "clash-mihomo".to_string(), user: false, no_restart })
}

fn off_args() -> TunCommand {
    TunCommand::Off(TunApplyArgs { name: "clash-mihomo".to_string(), user: false, no_restart: true })
}

fn status_args() -> TunCommand {
    TunCommand::Status(TunStatusArgs { name: "clash-mihomo".to_string(), user: false })
}

fn status_of(machine: &mut Machine) -> clash_cli::tun::StatusReport {
    match drive(&status_args(), &env(), machine).expect("status") {
        TunReport::Status(report) => report,
        other => panic!("unexpected report {:?}", other),
    }
}

#[test]
fn on_with_nft_on_a_fresh_config_should_enable_and_record() {
    let mut machine = Machine::new();
    let report = match drive(&on_args(true), &env(), &mut machine).expect("on") {
        TunReport::On(report) => report,
        other => panic!("unexpected report {:?}", other),
    };
    assert_eq!(report.backend, RuleBackend::Nft);
    assert!(report.rules_applied);
    assert_eq!(report.redir_port, 7892);
    assert_eq!(report.service, "clash-mihomo.service");
    assert!(!report.restart_attempted);
    assert_eq!(report.restart_ok, None);
    assert_eq!(report.config_path, CONFIG);

    let root = parse(&machine.files[CONFIG]).expect("config");
    let tun = key_value(&root, "tun");
    let dns = key_value(&root, "dns");
    assert_eq!(bool_field(tun, "enable"), Some(true));
    assert_eq!(bool_field(tun, "auto-route"), Some(true));
    assert_eq!(bool_field(tun, "auto-detect-interface"), Some(true));
    assert_eq!(bool_field(tun, "auto-redirect"), Some(true));
    assert_eq!(bool_field(tun, "strict-route"), Some(false));
    assert_eq!(string_field(tun, "stack").as_deref(), Some("mixed"));
    assert_eq!(bool_field(dns, "enable"), Some(true));
    assert_eq!(bool_field(dns, "ipv6"), Some(false));
    assert_eq!(string_field(dns, "enhanced-mode").as_deref(), Some("fake-ip"));
    assert_eq!(bool_field(Some(&root), "ipv6"), Some(false));
    assert_eq!(u16_field(Some(&root), "redir-port"), Some(7892));

    let state = TunState::from_text(&machine.files[STATE]).expect("state");
    assert!(state.enabled);
    assert_eq!(state.backend, RuleBackend::Nft);
    assert!(state.rules_applied);
    assert_eq!(state.service_name, "clash-mihomo");
    assert_eq!(state.updated_at, 1_700_000_000);
    assert!(machine.files[STATE].contains("enabled=true\n"));
    assert!(machine.files[STATE].contains("backend=nft\n"));
    assert!(machine.files[STATE].contains("rules_applied=true\n"));

    let status = status_of(&mut machine);
    assert!(status.tun_enable);
    assert!(status.device_ok);
    assert!(status.rules_active);
    assert_eq!(status.active_backend, RuleBackend::Nft);
    assert!(!status.service_active);
    assert!(!status.actual_ok);
    assert!(status.last_state.is_some());
}

#[test]
fn off_without_a_record_should_disable_and_clean_every_backend() {
    let mut machine = Machine::new();
    machine.files.insert(CONFIG.to_string(), "tun:\n  enable: true\nmode: rule\n".to_string());
    machine.table = true;
    machine.v4.chain = true;
    machine.v4.prerouting = 1;
    machine.v4.output_guarded = 1;
    let report = match drive(&off_args(), &env(), &mut machine).expect("off") {
        TunReport::Off(report) => report,
        other => panic!("unexpected report {:?}", other),
    };
    assert_eq!(report.redir_port, 7892);
    let root = parse(&machine.files[CONFIG]).expect("config");
    assert_eq!(bool_field(key_value(&root, "tun"), "enable"), Some(false));
    assert_eq!(string_field(Some(&root), "mode").as_deref(), Some("rule"));
    assert!(!machine.table);
    assert_eq!(machine.v4.prerouting, 0);
    assert_eq!(machine.v4.output_guarded, 0);
    assert!(!machine.v4.chain);
    assert!(machine.calls.iter().any(|c| c.starts_with("nft delete table")));
    assert!(machine.calls.iter().any(|c| c.starts_with("iptables -t nat -D PREROUTING")));
    let state = TunState::from_text(&machine.files[STATE]).expect("state");
    assert!(!state.enabled);
    assert_eq!(state.backend, RuleBackend::Absent);
    assert!(!state.rules_applied);
}

#[test]
fn off_should_succeed_where_only_one_backend_can_be_cleaned() {
    let mut machine = Machine::new();
    machine.v4.installed = false;
    machine.v6.installed = false;
    machine.files.insert(CONFIG.to_string(), "tun:\n  enable: true\n".to_string());
    assert!(drive(&off_args(), &env(), &mut machine).is_ok());

    let mut bare = Machine::new();
    bare.nft = false;
    bare.v4.installed = false;
    bare.v6.installed = false;
    bare.files.insert(CONFIG.to_string(), "tun:\n  enable: true\n".to_string());
    // Without nft its cleanup has nothing to do and succeeds, so the whole succeeds.
    assert!(drive(&off_args(), &env(), &mut bare).is_ok());
}

#[test]
fn on_without_any_backend_should_roll_the_config_back_byte_for_byte() {
    let before = "# kept as it is\nmode: rule\ntun:\n  enable: false   # off\n";
    let mut machine = Machine::new();
    machine.nft = false;
    machine.v4.installed = false;
    machine.v6.installed = false;
    machine.files.insert(CONFIG.to_string(), before.to_string());
    let fault = drive(&on_args(true), &env(), &mut machine).unwrap_err();
    assert_eq!(fault.kind, FaultKind::NoBackend);
    assert!(fault.rolled_back);
    assert_eq!(machine.files[CONFIG], before);
    assert!(!machine.files.contains_key(STATE));
}

#[test]
fn on_should_roll_back_when_rules_cannot_be_applied() {
    let before = "tun:\n  auto-redirect: true\n";
    let mut machine = Machine::new();
    machine.nft_load_works = false;
    machine.v4.installed = false;
    machine.v6.installed = false;
    machine.files.insert(CONFIG.to_string(), before.to_string());
    let fault = drive(&on_args(true), &env(), &mut machine).unwrap_err();
    assert_eq!(fault.kind, FaultKind::CommandFailed);
    assert!(fault.rolled_back);
    assert!(fault.detail.contains("stderr: refused"));
    assert_eq!(machine.files[CONFIG], before);
}

#[test]
fn on_should_fall_back_to_iptables_when_nft_fails() {
    let mut machine = Machine::new();
    machine.nft_load_works = false;
    let report = match drive(&on_args(true), &env(), &mut machine).expect("on") {
        TunReport::On(report) => report,
        other => panic!("unexpected report {:?}", other),
    };
    assert_eq!(report.backend, RuleBackend::Iptables);
    assert!(report.rules_applied);
    assert_eq!(machine.v4.prerouting, 1);
    assert_eq!(machine.v4.output_guarded, 1);
    assert_eq!(machine.v4.output_plain, 0);
    assert_eq!(machine.v6.prerouting, 1);

    // Every bypass port returns before the redirect, which is the last rule.
    let rules = &machine.v4.rules;
    let redirect = rules.iter().position(|r| *r == ChainRule::Redirect(7892)).expect("redirect");
    assert_eq!(redirect, rules.len() - 1);
    for port in [7890u16, 7891, 9090, 7892] {
        let at = rules.iter().position(|r| *r == ChainRule::ReturnPort(port)).expect("return");
        assert!(at < redirect);
    }
    assert_eq!(rules[0], ChainRule::ReturnNet(Net::Loopback4));
    assert_eq!(rules.len(), 7 + 4 + 1);
    assert_eq!(machine.v6.rules.len(), 4 + 4 + 1);
}

#[test]
fn on_twice_should_leave_the_same_rules_and_status_ok() {
    let mut machine = Machine::new();
    drive(&on_args(false), &env(), &mut machine).expect("first on");
    let first = status_of(&mut machine);
    assert!(first.actual_ok);
    assert_eq!(first.active_backend, RuleBackend::Nft);
    let config = machine.files[CONFIG].clone();
    drive(&on_args(false), &env(), &mut machine).expect("second on");
    let second = status_of(&mut machine);
    assert!(second.actual_ok);
    assert_eq!(second.active_backend, RuleBackend::Nft);
    assert_eq!(machine.files[CONFIG], config);
}

#[test]
fn iptables_applied_twice_should_not_duplicate_the_jumps() {
    let mut machine = Machine::new();
    machine.nft = false;
    drive(&on_args(true), &env(), &mut machine).expect("first on");
    drive(&on_args(true), &env(), &mut machine).expect("second on");
    assert_eq!(machine.v4.prerouting, 1);
    assert_eq!(machine.v4.output_guarded, 1);
    assert_eq!(machine.v4.rules.len(), 12);
}

#[test]
fn off_twice_should_not_fail_the_second_time() {
    let mut machine = Machine::new();
    drive(&on_args(true), &env(), &mut machine).expect("on");
    drive(&off_args(), &env(), &mut machine).expect("first off");
    assert!(!machine.table);
    drive(&off_args(), &env(), &mut machine).expect("second off");
    assert!(!machine.table);
}

#[test]
fn cleanup_should_remove_up_to_eight_copies_of_a_jump() {
    let mut machine = Machine::new();
    machine.nft = false;
    machine.v4.chain = true;
    machine.v4.prerouting = 10;
    machine.files.insert(CONFIG.to_string(), "{}\n".to_string());
    drive(&off_args(), &env(), &mut machine).expect("off");
    assert_eq!(machine.v4.prerouting, 2);
    drive(&off_args(), &env(), &mut machine).expect("off again");
    assert_eq!(machine.v4.prerouting, 0);
}

#[test]
fn detection_should_not_depend_on_the_state_file() {
    let mut machine = Machine::new();
    drive(&on_args(true), &env(), &mut machine).expect("on");
    machine.files.remove(STATE);
    let status = status_of(&mut machine);
    assert_eq!(status.active_backend, RuleBackend::Nft);
    assert!(status.rules_active);
    assert!(status.last_state.is_none());

    machine.table = false;
    let status = status_of(&mut machine);
    assert_eq!(status.active_backend, RuleBackend::Absent);
    assert!(!status.rules_active);
}

#[test]
fn enabling_should_keep_what_the_user_chose() {
    let mut machine = Machine::new();
    machine.files.insert(
        CONFIG.to_string(),
        "ipv6: true\ntun:\n  enable: false\n  auto-route: false\n  stack: gvisor\ndns:\n  ipv6: true\n  enhanced-mode: redir-host\nredir-port: 7900\nproxies: []\n"
            .to_string(),
    );
    let report = match drive(&on_args(true), &env(), &mut machine).expect("on") {
        TunReport::On(report) => report,
        other => panic!("unexpected report {:?}", other),
    };
    assert_eq!(report.redir_port, 7900);
    let root = parse(&machine.files[CONFIG]).expect("config");
    let tun = key_value(&root, "tun");
    let dns = key_value(&root, "dns");
    assert_eq!(bool_field(tun, "enable"), Some(true));
    assert_eq!(bool_field(tun, "auto-route"), Some(false));
    assert_eq!(string_field(tun, "stack").as_deref(), Some("gvisor"));
    assert_eq!(bool_field(Some(&root), "ipv6"), Some(false));
    assert_eq!(bool_field(dns, "ipv6"), Some(false));
    assert_eq!(string_field(dns, "enhanced-mode").as_deref(), Some("redir-host"));
    assert!(key_value(&root, "proxies").is_some());
    assert!(machine.calls.iter().any(|c| c == "nft -f -"));
}

#[test]
fn on_without_auto_redirect_should_only_remove_old_rules() {
    let mut machine = Machine::new();
    machine.table = true;
    machine.files.insert(CONFIG.to_string(), "tun:\n  auto-redirect: false\n".to_string());
    let report = match drive(&on_args(true), &env(), &mut machine).expect("on") {
        TunReport::On(report) => report,
        other => panic!("unexpected report {:?}", other),
    };
    assert_eq!(report.backend, RuleBackend::Absent);
    assert!(!report.rules_applied);
    assert_eq!(report.stale_rules_removed, Some(true));
    assert!(!machine.table);
}

#[test]
fn on_should_fail_fast_without_the_device() {
    let mut machine = Machine::new();
    machine.device = false;
    let fault = drive(&on_args(true), &env(), &mut machine).unwrap_err();
    assert_eq!(fault.kind, FaultKind::DeviceMissing);
    assert!(!fault.rolled_back);
    assert!(!machine.files.contains_key(CONFIG));
}

#[test]
fn on_should_be_refused_without_privileges() {
    let mut machine = Machine::new();
    machine.uid = "1000".to_string();
    let fault = drive(&on_args(true), &env(), &mut machine).unwrap_err();
    assert_eq!(fault.kind, FaultKind::InsufficientPrivilege);
    assert!(!machine.files.contains_key(CONFIG));
}

#[test]
fn on_should_pass_with_both_capabilities() {
    let mut machine = Machine::new();
    machine.uid = "1000".to_string();
    machine.files.insert(
        "/proc/self/status".to_string(),
        "Name:\tclash\nCapEff:\t0000000000003000\n".to_string(),
    );
    assert!(drive(&on_args(true), &env(), &mut machine).is_ok());

    let mut only_admin = Machine::new();
    only_admin.uid = "1000".to_string();
    only_admin.files.insert("/proc/self/status".to_string(), "CapEff:\t1000\n".to_string());
    let fault = drive(&on_args(true), &env(), &mut only_admin).unwrap_err();
    assert_eq!(fault.kind, FaultKind::InsufficientPrivilege);
}

#[test]
fn on_should_be_delegated_to_sudo_on_a_terminal() {
    let mut machine = Machine::new();
    machine.uid = "1000".to_string();
    machine.sudo = true;
    let mut interactive = env();
    interactive.stdin_terminal = true;
    interactive.stderr_terminal = true;
    let cmd = TunCommand::On(TunApplyArgs {
        name: "svc".to_string(),
        user: true,
        no_restart: true,
    });
    match drive(&cmd, &interactive, &mut machine).expect("delegated") {
        TunReport::Delegated => {}
        other => panic!("unexpected report {:?}", other),
    }
    assert!(machine.calls.iter().any(|c| c
        == "sudo env CLASH_CLI_SUDO_REEXEC=1 CLASH_CLI_HOME=/etc/clash-cli /usr/local/bin/clash tun on --name svc --user --no-restart"));
    assert!(!machine.files.contains_key(CONFIG));

    // The elevated copy itself must not delegate again.
    let mut again = interactive;
    again.sudo_reexec = Some("1".to_string());
    let fault = drive(&cmd, &again, &mut machine).unwrap_err();
    assert_eq!(fault.kind, FaultKind::InsufficientPrivilege);
}

#[test]
fn a_refused_sudo_should_fail_the_command() {
    let mut machine = Machine::new();
    machine.uid = "1000".to_string();
    machine.sudo = true;
    machine.sudo_succeeds = false;
    let mut interactive = env();
    interactive.stdin_terminal = true;
    interactive.stderr_terminal = true;
    let fault = drive(&on_args(true), &interactive, &mut machine).unwrap_err();
    assert_eq!(fault.kind, FaultKind::ElevationFailed);
}

#[test]
fn run_should_refuse_other_platforms() {
    let mut other = env();
    other.os = "macos".to_string();
    let mut machine = Machine::new();
    let fault = drive(&status_args(), &other, &mut machine).unwrap_err();
    assert_eq!(fault.kind, FaultKind::UnsupportedPlatform);
    assert_eq!(fault.detail, "macos");
}

#[test]
fn doctor_should_count_and_fail_only_on_failed_checks() {
    let mut machine = Machine::new();
    machine.files.insert(
        "/proc/self/status".to_string(),
        "CapEff:\t000001ffffffffff\n".to_string(),
    );
    drive(&on_args(true), &env(), &mut machine).expect("on");
    let report = match drive(&TunCommand::Doctor, &env(), &mut machine).expect("doctor") {
        TunReport::Doctor(report) => report,
        other => panic!("unexpected report {:?}", other),
    };
    assert_eq!(report.checks.len(), 6 + 8 + 1);
    assert_eq!(report.fail_count, 0);
    assert!(report.ok);
    assert_eq!(report.pass_count + report.warn_count + report.fail_count, report.checks.len());
    assert_eq!(report.checks[0].name, "TUN 设备(/dev/net/tun)");
    assert_eq!(report.checks[0].level, CheckLevel::Pass);
    assert_eq!(report.checks[4].message, "当前值=1");
    // strict-route is off by default: a warning, not a failure.
    let strict = report.checks.iter().find(|c| c.name == "tun.strict-route").expect("check");
    assert_eq!(strict.level, CheckLevel::Warn);
    let rules = report.checks.last().expect("rules check");
    assert_eq!(rules.name, "数据面规则");
    assert_eq!(rules.message, "检测到 nft 规则已存在");

    machine.device = false;
    machine.files.insert("/proc/sys/net/ipv4/ip_forward".to_string(), "0\n".to_string());
    let report = match drive(&TunCommand::Doctor, &env(), &mut machine).expect("doctor") {
        TunReport::Doctor(report) => report,
        other => panic!("unexpected report {:?}", other),
    };
    assert!(!report.ok);
    assert_eq!(report.fail_count, 1);
    assert_eq!(report.checks[0].level, CheckLevel::Fail);
    assert_eq!(report.checks[4].level, CheckLevel::Warn);
    assert_eq!(report.checks[4].message, "当前值=0，期望值=1");
}

#[test]
fn doctor_should_warn_about_a_missing_config() {
    let mut machine = Machine::new();
    let report = match drive(&TunCommand::Doctor, &env(), &mut machine).expect("doctor") {
        TunReport::Doctor(report) => report,
        other => panic!("unexpected report {:?}", other),
    };
    assert_eq!(report.checks.len(), 7);
    assert_eq!(report.checks[6].level, CheckLevel::Warn);
    assert_eq!(report.checks[6].message, format!("未找到配置文件: {}", CONFIG));
    // root without capabilities in the mask: both capability checks fail.
    assert_eq!(report.checks[1].level, CheckLevel::Fail);
    assert_eq!(report.checks[2].level, CheckLevel::Fail);
    assert!(!report.ok);
}

#[test]
fn a_record_that_is_not_the_runs_own_should_be_refused() {
    let record = vec![Exchange {
        effect: Effect::Clock,
        reply: Reply { ok: true, text: String::new(), detail: String::new(), stamp: 1 },
    }];
    match run(&status_args(), &env(), &record) {
        Step::Done(Err(fault)) => assert_eq!(fault.kind, FaultKind::RecordMismatch),
        other => panic!("unexpected step {:?}", other),
    }
}

#[test]
fn status_without_a_config_should_report_nothing_enabled() {
    let mut machine = Machine::new();
    let status = status_of(&mut machine);
    assert!(!status.config_found);
    assert!(!status.tun_enable);
    assert_eq!(status.redir_port, 7892);
    assert_eq!(status.tun_auto_route, None);
    assert!(status.backend_installed);
    assert!(!status.actual_ok);
    assert_eq!(status.service, "clash-mihomo.service");
}

fn drive_on<T>(
    machine: &mut Machine,
    call: impl Fn(&mut Replay) -> Result<T, Halt>,
) -> Result<T, Fault> {
    let mut record: Vec<Exchange> = Vec::new();
    for _ in 0..10_000 {
        let mut host = Replay::new(&record);
        match call(&mut host) {
            Ok(value) => return Ok(value),
            Err(Halt::Fail(fault)) => return Err(fault),
            Err(Halt::Need(effect)) => {
                let reply = machine.answer(&effect);
                record.push(Exchange { effect, reply });
            }
        }
    }
    panic!("the run did not end");
}

fn on_fault(machine: &mut Machine) -> Fault {
    drive(&on_args(true), &env(), machine).unwrap_err()
}

#[test]
fn on_should_name_the_step_of_the_configuration_that_failed() {
    let mut machine = Machine::new();
    machine.refuse.push(format!("CreateParent:{}", CONFIG));
    assert_eq!(on_fault(&mut machine).kind, FaultKind::ConfigDirCreate);

    let mut machine = Machine::new();
    machine.refuse.push(format!("WriteFile:{}", CONFIG));
    assert_eq!(on_fault(&mut machine).kind, FaultKind::ConfigInit);

    let mut machine = Machine::new();
    machine.files.insert(CONFIG.to_string(), "{}\n".to_string());
    machine.refuse.push(format!("ReadFile:{}", CONFIG));
    assert_eq!(on_fault(&mut machine).kind, FaultKind::ConfigRead);

    let mut machine = Machine::new();
    machine.files.insert(CONFIG.to_string(), "tun: [1\n".to_string());
    let fault = on_fault(&mut machine);
    assert_eq!(fault.kind, FaultKind::ConfigParse);
    assert!(!fault.detail.is_empty());
    assert_eq!(machine.files[CONFIG], "tun: [1\n");

    let mut machine = Machine::new();
    machine.files.insert(CONFIG.to_string(), "{}\n".to_string());
    machine.refuse.push(format!("WriteFile:{}", CONFIG));
    let fault = on_fault(&mut machine);
    assert_eq!(fault.kind, FaultKind::ConfigWrite);
    assert!(!fault.rolled_back);
    assert!(machine.calls.iter().all(|c| !c.starts_with("nft")));
}

#[test]
fn on_should_name_the_step_of_the_record_that_failed() {
    let mut machine = Machine::new();
    machine.refuse.push(format!("CreateParent:{}", STATE));
    let fault = on_fault(&mut machine);
    assert_eq!(fault.kind, FaultKind::StateDirCreate);
    // The rules are in place and stay: only applying them is rolled back.
    assert!(!fault.rolled_back);
    assert!(machine.table);

    let mut machine = Machine::new();
    machine.refuse.push(format!("WriteFile:{}", STATE));
    assert_eq!(on_fault(&mut machine).kind, FaultKind::StateWrite);

    let mut machine = Machine::new();
    machine.files.insert(STATE.to_string(), "enabled=true\n".to_string());
    machine.refuse.push(format!("ReadFile:{}", STATE));
    let fault = drive(&off_args(), &env(), &mut machine).unwrap_err();
    assert_eq!(fault.kind, FaultKind::StateRead);
    let fault = drive(&status_args(), &env(), &mut machine).unwrap_err();
    assert_eq!(fault.kind, FaultKind::StateRead);
}

#[test]
fn rules_that_do_not_show_after_loading_should_fail_the_backend() {
    let mut machine = Machine::new();
    machine.table_sticks = false;
    machine.v4.installed = false;
    machine.v6.installed = false;
    let before = "tun:\n  enable: false\n";
    machine.files.insert(CONFIG.to_string(), before.to_string());
    let fault = on_fault(&mut machine);
    assert_eq!(fault.kind, FaultKind::RulesNotVerified);
    assert_eq!(fault.detail, "nft");
    assert!(fault.rolled_back);
    assert_eq!(machine.files[CONFIG], before);
}

#[test]
fn a_failed_fallback_should_carry_both_failures() {
    let mut machine = Machine::new();
    machine.nft_load_works = false;
    machine.refuse.push("Firewall:iptables -t nat -F".to_string());
    let fault = on_fault(&mut machine);
    assert_eq!(fault.kind, FaultKind::FallbackFailed);
    assert!(fault.rolled_back);
    assert_eq!(fault.detail.matches("stderr: refused").count(), 2);
}

#[test]
fn off_should_fail_where_the_recorded_backend_cannot_be_cleaned() {
    let mut machine = Machine::new();
    drive(&on_args(true), &env(), &mut machine).expect("on");
    machine.refuse.push("Firewall:nft delete".to_string());
    let fault = drive(&off_args(), &env(), &mut machine).unwrap_err();
    assert_eq!(fault.kind, FaultKind::CleanupFailed);
    assert!(machine.table);
    let state = TunState::from_text(&machine.files[STATE]).expect("state");
    assert!(state.enabled);
}

#[test]
fn iptables_should_be_needed_for_its_rules() {
    let mut machine = Machine::new();
    machine.v4.installed = false;
    let fault = drive_on(&mut machine, |host| apply_iptables_rules(host, 7892)).unwrap_err();
    assert_eq!(fault.kind, FaultKind::ToolMissing);
    assert_eq!(fault.detail, "iptables");
    assert!(machine.calls.is_empty());
}

#[test]
fn questions_to_the_system_should_name_what_failed() {
    let mut machine = Machine::new();
    machine.refuse.push("ReadFile:/proc/self/status".to_string());
    let fault = drive_on(&mut machine, |host| read_cap_eff(host)).unwrap_err();
    assert_eq!(fault.kind, FaultKind::CapRead);

    let mut machine = Machine::new();
    machine.systemctl = false;
    let fault =
        drive_on(&mut machine, |host| query_service_active(host, "clash-mihomo", false)).unwrap_err();
    assert_eq!(fault.kind, FaultKind::NoSystemctl);
    machine.systemctl = true;
    machine.service_running = true;
    let running = drive_on(&mut machine, |host| query_service_active(host, "clash-mihomo", true));
    assert!(running.expect("answer"));
    assert_eq!(
        machine.calls.last().map(String::as_str),
        Some("systemctl --user is-active --quiet clash-mihomo.service")
    );
}

#[test]
fn delegation_should_need_the_path_of_the_program() {
    let mut machine = Machine::new();
    machine.uid = "1000".to_string();
    machine.sudo = true;
    let mut interactive = env();
    interactive.stdin_terminal = true;
    interactive.stderr_terminal = true;
    interactive.current_exe = None;
    let fault = drive(&on_args(true), &interactive, &mut machine).unwrap_err();
    assert_eq!(fault.kind, FaultKind::CurrentExeUnknown);
}

#[test]
fn a_cleanup_that_fails_everywhere_should_name_each_backend() {
    let mut machine = Machine::new();
    machine.table = true;
    machine.v4.installed = false;
    machine.v6.installed = false;
    machine.refuse.push("Firewall:nft delete".to_string());
    machine.files.insert(CONFIG.to_string(), "tun:\n  enable: true\n".to_string());
    let fault = drive(&off_args(), &env(), &mut machine).unwrap_err();
    assert_eq!(fault.kind, FaultKind::CleanupFailed);
    assert_eq!(
        fault.detail,
        "nft: 命令执行失败\nstdout: \nstderr: refused; iptables: 未检测到命令: iptables"
    );
    assert_eq!(
        fault_message(&fault),
        "清理数据面规则失败\nnft: 命令执行失败\nstdout: \nstderr: refused; iptables: 未检测到命令: iptables"
    );
}

#[test]
fn a_denial_should_name_the_capabilities_that_are_needed() {
    let mut machine = Machine::new();
    machine.uid = "1000".to_string();
    let fault = drive(&on_args(true), &env(), &mut machine).unwrap_err();
    assert_eq!(fault.kind, FaultKind::InsufficientPrivilege);
    let text = fault_message(&fault);
    assert!(text.contains("CAP_NET_ADMIN"));
    assert!(text.contains("CAP_NET_RAW"));
    assert_eq!(
        text,
        "当前权限不足：需要 root 或 CAP_NET_ADMIN + CAP_NET_RAW。请使用 sudo 执行，例如 `sudo clash tun on`"
    );
    assert_eq!(fault_kind_text(FaultKind::InsufficientPrivilege), text);
}

#[test]
fn messages_should_hold_the_kind_and_what_the_machine_said() {
    let fault = |detail: &str| Fault {
        kind: FaultKind::DeviceMissing,
        detail: detail.to_string(),
        rolled_back: false,
    };
    assert_eq!(fault_message(&fault("")), "未找到 /dev/net/tun，请先修复系统环境");
    assert_eq!(fault_message(&fault(" \n ")), "未找到 /dev/net/tun，请先修复系统环境");
    assert_eq!(fault_message(&fault(" x \n")), "未找到 /dev/net/tun，请先修复系统环境: x");
    assert_eq!(fault_message(&fault("a\nb")), "未找到 /dev/net/tun，请先修复系统环境\na\nb");
    assert_eq!(fault_kind_text(FaultKind::NoBackend), "未检测到 nft/iptables，无法下发 tun 数据面规则");
    assert_eq!(fault_kind_text(FaultKind::StateNoEnabled), "tun.state 缺少 enabled");
}
