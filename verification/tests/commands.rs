use std::collections::{BTreeMap, BTreeSet};

use clash_cli::api::{answer_summary, mode_shown, ApiReport};
use clash_cli::cli::{
    Amd64Variant, ApiCommand, ApiCommonArgs, ApiModeCommand, ApiModeSetArgs, ApiModeValue,
    AutoAction, CoreCommand, CoreInstallArgs, EnvAction, MirrorSource, ProfileAddArgs,
    ProfileCommand, ProfileFetchArgs, ProfileRemoveArgs, ProfileRenderArgs, ProfileUseArgs,
    ProfileValidateArgs, ProxyCommand, ServiceCommand, ServiceInstallArgs, ServiceLogArgs,
    ServiceTargetArgs, ServiceUninstallArgs, SetupCommand, SetupInitArgs, SetupUnifyArgs,
    ShellKind, StartArgs, StopArgs, UnitAction,
};
use clash_cli::host::{
    Effect, Exchange, Fault, FaultKind, FileOp, FirewallOp, Halt, HostEnv, HttpMethod, Program,
    Replay, Reply, Step,
};
use clash_cli::service::{
    build_unit_content, default_runtime_config, resolve_unit_path, ServiceReport,
};
use clash_cli::setup::{SetupReport, WarningKind};
use clash_cli::tun::TunReport;
use clash_cli::kernel::CoreReport;
use clash_cli::messages::{action_done, warning_message};
use clash_cli::profile::index::{ProfileEntry, ProfileIndex};
use clash_cli::profile::{load_index, save_index, ProfileReport};
use clash_cli::proxy::ProxyReport;
use clash_cli::yaml::{bool_field, key_value, parse, string_field, u16_field};

const HOME: &str = "/home/u/.config/clash-cli";

/// A machine in memory: a file tree, a network and a clock.
struct World {
    files: BTreeMap<String, String>,
    dirs: BTreeSet<String>,
    links: BTreeMap<String, String>,
    web: BTreeMap<String, String>,
    sent: Vec<String>,
    ran: Vec<String>,
    copied: Vec<String>,
    service_exec: Option<String>,
    systemctl_works: bool,
    uid: String,
    passwd: BTreeMap<String, String>,
    nft: bool,
    table: bool,
    clock: u64,
    /// Effects that this machine refuses, by the beginning of their label.
    refuse: Vec<String>,
}

fn label(effect: &Effect) -> String {
    match effect {
        Effect::Tool(program, _) => format!("Tool:{}", program.as_str()),
        Effect::Firewall(op) => {
            let line = op.invocation();
            format!("Firewall:{} {}", line.program, line.args.join(" "))
        }
        Effect::Run(line) => format!("Run:{} {}", line.program, line.args.join(" ")),
        Effect::Status(line) => format!("Status:{} {}", line.program, line.args.join(" ")),
        Effect::PathExists(path) => format!("PathExists:{}", path),
        Effect::ReadFile(path) => format!("ReadFile:{}", path),
        Effect::WriteFile(path, _) => format!("WriteFile:{}", path),
        Effect::CreateParent(path) => format!("CreateParent:{}", path),
        Effect::Clock => "Clock".to_string(),
        Effect::File(op, first, _) => format!("File:{:?}:{}", op, first),
        Effect::Http(request) => format!("Http:{}", request.url),
    }
}

impl World {
    fn new() -> World {
        World {
            files: BTreeMap::new(),
            dirs: BTreeSet::new(),
            links: BTreeMap::new(),
            web: BTreeMap::new(),
            sent: Vec::new(),
            ran: Vec::new(),
            copied: Vec::new(),
            service_exec: None,
            systemctl_works: true,
            uid: "1000".to_string(),
            passwd: BTreeMap::new(),
            nft: false,
            table: false,
            clock: 1_700_000_000,
            refuse: Vec::new(),
        }
    }

    fn make_dirs(&mut self, path: &str) {
        let mut at = path;
        while !at.is_empty() && at != "/" {
            self.dirs.insert(at.to_string());
            at = match at.rfind('/') {
                Some(i) => &at[..i],
                None => "",
            };
        }
    }

    fn read(&self, path: &str) -> Option<String> {
        let at = self.links.get(path).map(String::as_str).unwrap_or(path);
        self.files.get(at).cloned()
    }

    fn there(&self, path: &str) -> bool {
        self.files.contains_key(path) || self.dirs.contains(path) || self.links.contains_key(path)
    }

    fn file_op(&mut self, op: FileOp, a: &str, b: &str, reply: &mut Reply) {
        reply.ok = true;
        match op {
            FileOp::CreateDir => self.make_dirs(a),
            FileOp::Remove => {
                reply.ok = self.files.remove(a).is_some() | self.links.remove(a).is_some();
            }
            FileOp::RemoveDirAll => {
                let below = format!("{}/", a);
                self.files.retain(|k, _| !k.starts_with(&below));
                self.dirs.retain(|k| k != a && !k.starts_with(&below));
            }
            FileOp::Rename => {
                if let Some(text) = self.files.remove(a) {
                    self.files.insert(b.to_string(), text);
                } else if let Some(target) = self.links.remove(a) {
                    self.links.insert(b.to_string(), target);
                } else if self.dirs.contains(a) {
                    let below = format!("{}/", a);
                    let moved = |k: &str| format!("{}{}", b, &k[a.len()..]);
                    let files: Vec<String> =
                        self.files.keys().filter(|k| k.starts_with(&below)).cloned().collect();
                    for k in files {
                        let text = self.files.remove(&k).unwrap();
                        self.files.insert(moved(&k), text);
                    }
                    let dirs: Vec<String> = self
                        .dirs
                        .iter()
                        .filter(|k| *k == a || k.starts_with(&below))
                        .cloned()
                        .collect();
                    for k in dirs {
                        self.dirs.remove(&k);
                        self.dirs.insert(moved(&k));
                    }
                } else {
                    reply.ok = false;
                }
            }
            FileOp::Copy => match {
                self.copied.push(format!("{} -> {}", a, b));
                self.read(a)
            } {
                Some(text) => {
                    self.files.insert(b.to_string(), text);
                }
                None => reply.ok = false,
            },
            FileOp::Symlink => {
                self.links.insert(b.to_string(), a.to_string());
            }
            FileOp::IsSymlink => {
                reply.ok = self.there(a);
                reply.stamp = if self.links.contains_key(a) { 1 } else { 0 };
            }
            FileOp::ReadLink => match self.links.get(a) {
                Some(target) => reply.text = target.clone(),
                None => reply.ok = false,
            },
            FileOp::Canonical => {
                reply.ok = self.there(a);
                reply.text = self.links.get(a).cloned().unwrap_or(a.to_string());
            }
            FileOp::SetExecutable => reply.ok = self.files.contains_key(a),
            FileOp::Gunzip => match self.files.get(a).and_then(|t| t.strip_prefix("gz:")) {
                Some(text) => {
                    let text = text.to_string();
                    self.files.insert(b.to_string(), text);
                }
                None => reply.ok = false,
            },
            FileOp::Download => {
                self.sent.push(format!("DOWNLOAD {}", a));
                match self.web.get(a).cloned() {
                    Some(text) => {
                        self.files.insert(b.to_string(), text);
                    }
                    None => reply.ok = false,
                }
            }
        }
        if !reply.ok {
            reply.detail = "refused".to_string();
        }
    }

    fn answer(&mut self, effect: &Effect) -> Reply {
        let mut reply = Reply { ok: false, text: String::new(), detail: String::new(), stamp: 0 };
        let name = label(effect);
        if self.refuse.iter().any(|r| name.starts_with(r.as_str())) {
            reply.detail = "refused".to_string();
            return reply;
        }
        match effect {
            Effect::Tool(program, _) => {
                reply.ok = match program {
                    Program::Nft => self.nft,
                    Program::Systemctl => true,
                    _ => false,
                }
            }
            Effect::Firewall(op) => {
                let line = op.invocation();
                self.ran.push(format!("{} {}", line.program, line.args.join(" ")));
                reply.ok = self.nft
                    && match op {
                        FirewallOp::NftLoad(_) => {
                            self.table = true;
                            true
                        }
                        FirewallOp::NftList => self.table,
                        FirewallOp::NftDelete => std::mem::replace(&mut self.table, false),
                        _ => false,
                    };
            }
            Effect::Run(line) | Effect::Status(line) => {
                self.ran.push(format!("{} {}", line.program, line.args.join(" ")));
                if line.program == "id" {
                    reply.ok = true;
                    reply.text = format!("{}\n", self.uid);
                } else if line.program == "getent" {
                    if let Some(entry) = line.args.get(1).and_then(|u| self.passwd.get(u)) {
                        reply.ok = true;
                        reply.text = format!("{}\n", entry);
                    }
                } else if line.program == "journalctl" {
                    reply.ok = true;
                    reply.text = "a line of the journal\n".to_string();
                } else if line.program == "systemctl" && line.args.iter().any(|a| a == "show") {
                    if let Some(exec) = &self.service_exec {
                        reply.ok = true;
                        reply.text = format!("{}\n", exec);
                    }
                } else if line.program == "systemctl" {
                    reply.ok = self.systemctl_works;
                    if reply.ok {
                        reply.text = "done\n".to_string();
                    } else {
                        reply.detail = "Unit not found\n".to_string();
                    }
                }
            }
            Effect::PathExists(path) => reply.ok = self.there(path),
            Effect::ReadFile(path) => match self.read(path) {
                Some(text) => {
                    reply.ok = true;
                    reply.text = text;
                }
                None => reply.detail = "no such file".to_string(),
            },
            Effect::WriteFile(path, content) => {
                self.files.insert(path.clone(), content.clone());
                reply.ok = true;
            }
            Effect::CreateParent(path) => {
                if let Some(i) = path.rfind('/') {
                    self.make_dirs(&path[..i]);
                }
                reply.ok = true;
            }
            Effect::Clock => {
                reply.ok = true;
                reply.stamp = self.clock;
                self.clock += 1;
            }
            Effect::File(op, a, b) => self.file_op(*op, a, b, &mut reply),
            Effect::Http(request) => {
                let verb = match request.method {
                    HttpMethod::Get => "GET",
                    HttpMethod::Patch => "PATCH",
                };
                self.sent.push(format!(
                    "{} {} bearer={} body={}",
                    verb,
                    request.url,
                    request.bearer.as_deref().unwrap_or("-"),
                    request.body.as_deref().unwrap_or("-")
                ));
                match self.web.get(&request.url) {
                    Some(text) => {
                        reply.ok = true;
                        reply.text = text.clone();
                    }
                    None => reply.detail = "404 Not Found".to_string(),
                }
            }
        }
        reply
    }
}

fn env() -> HostEnv {
    HostEnv {
        os: "linux".to_string(),
        arch: "x86_64".to_string(),
        json: false,
        no_auto_sudo: false,
        sudo_reexec: None,
        stdin_terminal: false,
        stdout_terminal: false,
        stderr_terminal: false,
        home_override: Some(HOME.to_string()),
        xdg_config_home: None,
        home_dir: Some("/home/u".to_string()),
        current_exe: Some("/usr/local/bin/clash".to_string()),
        shell: Some("/usr/bin/zsh".to_string()),
        sudo_user: None,
        process_id: 77,
    }
}

fn drive<T>(world: &mut World, step: impl Fn(&Vec<Exchange>) -> Step<T>) -> Result<T, Fault> {
    let mut record: Vec<Exchange> = Vec::new();
    for _ in 0..10_000 {
        match step(&record) {
            Step::Done(result) => return result,
            Step::Need(effect) => {
                let reply = world.answer(&effect);
                record.push(Exchange { effect, reply });
            }
        }
    }
    panic!("the run did not end");
}

fn drive_on<T>(
    world: &mut World,
    call: impl Fn(&mut Replay) -> Result<T, Halt>,
) -> Result<T, Fault> {
    drive(world, |record| {
        let mut host = Replay::new(record);
        match call(&mut host) {
            Ok(value) => Step::Done(Ok(value)),
            Err(Halt::Need(effect)) => Step::Need(effect),
            Err(Halt::Fail(fault)) => Step::Done(Err(fault)),
        }
    })
}

fn proxy(world: &mut World, env: &HostEnv, command: ProxyCommand) -> Result<ProxyReport, Fault> {
    drive(world, |record| clash_cli::proxy::run(&command, env, record))
}

fn profile(world: &mut World, command: ProfileCommand) -> Result<ProfileReport, Fault> {
    let env = env();
    drive(world, |record| clash_cli::profile::run(&command, &env, record))
}

fn kernel(world: &mut World, env: &HostEnv, command: CoreCommand) -> Result<CoreReport, Fault> {
    drive(world, |record| clash_cli::kernel::run(&command, env, record))
}

fn api(world: &mut World, command: ApiCommand) -> Result<ApiReport, Fault> {
    let env = env();
    drive(world, |record| clash_cli::api::run(&command, &env, record))
}

fn path(rest: &str) -> String {
    format!("{}/{}", HOME, rest)
}

#[test]
fn json_proxy_env_off_should_return_unset_script() {
    let mut world = World::new();
    match proxy(&mut world, &env(), ProxyCommand::Env { action: EnvAction::Off }).expect("env off") {
        ProxyReport::EnvOff { script } => {
            assert!(script.contains("unset http_proxy"));
            assert!(script.contains("unset HTTPS_PROXY"));
        }
        other => panic!("unexpected report {:?}", other),
    }
}

#[test]
fn json_profile_list_should_return_empty_index_on_new_home() {
    let mut world = World::new();
    match profile(&mut world, ProfileCommand::List).expect("list") {
        ProfileReport::List { index, config_dir, .. } => {
            assert_eq!(index.active, None);
            assert_eq!(index.profiles.len(), 0);
            assert_eq!(config_dir, HOME);
        }
        other => panic!("unexpected report {:?}", other),
    }
}

#[test]
fn json_core_version_should_mark_uninstalled_on_new_home() {
    let mut world = World::new();
    match kernel(&mut world, &env(), CoreCommand::Version).expect("version") {
        CoreReport::Version { version } => assert_eq!(version, None),
        other => panic!("unexpected report {:?}", other),
    }
    match kernel(&mut world, &env(), CoreCommand::Path).expect("path") {
        CoreReport::Path { path } => assert_eq!(path, None),
        other => panic!("unexpected report {:?}", other),
    }
}

#[test]
fn save_and_load_index_should_round_trip() {
    let mut world = World::new();
    let index_path = "/tmp/profile_index/index.json";
    let index = ProfileIndex {
        active: Some("p1".to_string()),
        profiles: vec![ProfileEntry {
            name: "p1".to_string(),
            url: "https://example.com/sub.yaml".to_string(),
            file: "p1.yaml".to_string(),
            created_at: 1,
            updated_at: Some(2),
        }],
    };

    drive_on(&mut world, |host| save_index(host, index_path, &index)).expect("save");
    let loaded = drive_on(&mut world, |host| load_index(host, index_path)).expect("load");

    assert_eq!(loaded.active.as_deref(), Some("p1"));
    assert_eq!(loaded.profiles.len(), 1);
    let first = loaded.profiles.first().expect("profile");
    assert_eq!(first.name, "p1");
    assert_eq!(first.url, "https://example.com/sub.yaml");
    assert_eq!(first.file, "p1.yaml");
    assert_eq!(first.created_at, 1);
    assert_eq!(first.updated_at, Some(2));
    assert!(world.dirs.contains("/tmp/profile_index"));
}

#[test]
fn a_broken_index_should_be_an_error() {
    let mut world = World::new();
    world.files.insert("/i.json".to_string(), "{ not json".to_string());
    let fault = drive_on(&mut world, |host| load_index(host, "/i.json")).unwrap_err();
    assert_eq!(fault.kind, FaultKind::IndexParse);
    let missing = drive_on(&mut world, |host| load_index(host, "/none.json")).expect("load");
    assert!(missing.profiles.is_empty());
    assert_eq!(missing.active, None);
}

fn start_args() -> StartArgs {
    StartArgs {
        host: None,
        http_port: None,
        socks_port: None,
        no_proxy: "localhost,127.0.0.1,::1".to_string(),
        auto: false,
        shell: None,
        print_env: false,
    }
}

#[test]
fn proxy_start_should_record_the_state_and_the_script() {
    let mut world = World::new();
    let report = proxy(&mut world, &env(), ProxyCommand::Start(start_args())).expect("start");
    let script = match report {
        ProxyReport::Start { state, auto, script, print_env, .. } => {
            assert_eq!(state.host, "127.0.0.1");
            assert_eq!(state.http_port, 7890);
            assert_eq!(state.socks_port, 7891);
            assert!(!auto);
            assert!(!print_env);
            script
        }
        other => panic!("unexpected report {:?}", other),
    };
    assert_eq!(
        script,
        "export http_proxy=http://127.0.0.1:7890\nexport https_proxy=http://127.0.0.1:7890\nexport HTTP_PROXY=http://127.0.0.1:7890\nexport HTTPS_PROXY=http://127.0.0.1:7890\nexport all_proxy=socks5://127.0.0.1:7891\nexport ALL_PROXY=socks5://127.0.0.1:7891\nexport no_proxy=localhost,127.0.0.1,::1\nexport NO_PROXY=localhost,127.0.0.1,::1\n"
    );
    assert_eq!(world.files[&path("proxy.env")], script);
    assert_eq!(
        world.files[&path("proxy.state")],
        "host=127.0.0.1\nhttp_port=7890\nsocks_port=7891\nno_proxy=localhost,127.0.0.1,::1\n"
    );

    match proxy(&mut world, &env(), ProxyCommand::Status).expect("status") {
        ProxyReport::Status { state, zsh_auto, bash_auto } => {
            assert_eq!(state.http_port, 7890);
            assert!(!zsh_auto);
            assert!(!bash_auto);
        }
        other => panic!("unexpected report {:?}", other),
    }

    let stop = StopArgs { auto_off: false, shell: None, print_env: true };
    match proxy(&mut world, &env(), ProxyCommand::Stop(stop)).expect("stop") {
        ProxyReport::Stop { script, print_env, auto_off, .. } => {
            assert!(print_env);
            assert!(!auto_off);
            assert_eq!(
                script,
                "unset http_proxy\nunset https_proxy\nunset HTTP_PROXY\nunset HTTPS_PROXY\nunset all_proxy\nunset ALL_PROXY\nunset no_proxy\nunset NO_PROXY\n"
            );
        }
        other => panic!("unexpected report {:?}", other),
    }
    assert!(!world.files.contains_key(&path("proxy.state")));
    assert!(!world.files.contains_key(&path("proxy.env")));
    match proxy(&mut world, &env(), ProxyCommand::Status).expect("status") {
        ProxyReport::NotConfigured => {}
        other => panic!("unexpected report {:?}", other),
    }
}

#[test]
fn proxy_start_should_follow_the_running_configuration() {
    let mut world = World::new();
    world.files.insert(
        path("runtime/config.yaml"),
        "mixed-port: 7895\nbind-address: '*'\nsocks-port: 1081\n".to_string(),
    );
    match proxy(&mut world, &env(), ProxyCommand::Start(start_args())).expect("start") {
        ProxyReport::Start { state, .. } => {
            assert_eq!(state.host, "127.0.0.1");
            assert_eq!(state.http_port, 7895);
            assert_eq!(state.socks_port, 1081);
        }
        other => panic!("unexpected report {:?}", other),
    }
}

#[test]
fn proxy_start_should_go_on_without_a_readable_configuration() {
    let mut world = World::new();
    world.files.insert(path("runtime/config.yaml"), "mixed-port: [7895\n".to_string());
    match proxy(&mut world, &env(), ProxyCommand::Start(start_args())).expect("start") {
        ProxyReport::Start { state, defaults_fault, .. } => {
            assert_eq!(state.host, "127.0.0.1");
            assert_eq!(state.http_port, 7890);
            assert_eq!(state.socks_port, 7891);
            let fault = defaults_fault.expect("finding");
            assert_eq!(fault.kind, FaultKind::YamlParse);
            assert!(!fault.detail.is_empty());
        }
        other => panic!("unexpected report {:?}", other),
    }
    world.files.insert(path("runtime/config.yaml"), "port: 8080\n".to_string());
    match proxy(&mut world, &env(), ProxyCommand::Start(start_args())).expect("start") {
        ProxyReport::Start { state, defaults_fault, .. } => {
            assert_eq!(state.http_port, 8080);
            assert_eq!(state.socks_port, 7891);
            assert!(defaults_fault.is_none());
        }
        other => panic!("unexpected report {:?}", other),
    }
}

#[test]
fn proxy_env_on_should_need_a_started_proxy() {
    let mut world = World::new();
    let fault = proxy(&mut world, &env(), ProxyCommand::Env { action: EnvAction::On }).unwrap_err();
    assert_eq!(fault.kind, FaultKind::ProxyStateMissing);
    proxy(&mut world, &env(), ProxyCommand::Start(start_args())).expect("start");
    match proxy(&mut world, &env(), ProxyCommand::Env { action: EnvAction::On }).expect("env on") {
        ProxyReport::EnvOn { script } => assert!(script.starts_with("export http_proxy=http://127.0.0.1:7890\n")),
        other => panic!("unexpected report {:?}", other),
    }
}

#[test]
fn proxy_auto_should_install_and_remove_the_hook_once() {
    let mut world = World::new();
    world.files.insert("/home/u/.zshrc".to_string(), "alias ll='ls -l'\n".to_string());
    let on = ProxyCommand::Auto { action: AutoAction::On { shell: None } };
    match proxy(&mut world, &env(), on).expect("auto on") {
        ProxyReport::AutoOn { shell } => assert_eq!(shell, ShellKind::Zsh),
        other => panic!("unexpected report {:?}", other),
    }
    let hooked = world.files["/home/u/.zshrc"].clone();
    assert!(hooked.starts_with("alias ll='ls -l'\n"));
    assert!(hooked.contains("# >>> clash-cli proxy >>>\nif [ -n \"$CLASH_CLI_HOME\" ]"));
    assert!(hooked.ends_with("# <<< clash-cli proxy <<<\n"));

    let again = ProxyCommand::Auto { action: AutoAction::On { shell: Some(ShellKind::Zsh) } };
    proxy(&mut world, &env(), again).expect("auto on again");
    assert_eq!(world.files["/home/u/.zshrc"], hooked);

    let status = ProxyCommand::Auto { action: AutoAction::Status { shell: None } };
    match proxy(&mut world, &env(), status).expect("auto status") {
        ProxyReport::AutoStatus { zsh, bash } => {
            assert_eq!(zsh, Some(true));
            assert_eq!(bash, Some(false));
        }
        other => panic!("unexpected report {:?}", other),
    }

    let off = ProxyCommand::Auto { action: AutoAction::Off { shell: None } };
    proxy(&mut world, &env(), off).expect("auto off");
    assert!(!world.files["/home/u/.zshrc"].contains("clash-cli proxy"));
    assert!(world.files["/home/u/.zshrc"].starts_with("alias ll='ls -l'"));
}

#[test]
fn proxy_auto_should_need_a_known_shell() {
    let mut world = World::new();
    let mut fish = env();
    fish.shell = Some("/usr/bin/fish".to_string());
    let on = ProxyCommand::Auto { action: AutoAction::On { shell: None } };
    let fault = proxy(&mut world, &fish, on).unwrap_err();
    assert_eq!(fault.kind, FaultKind::ShellUnknown);
    let mut homeless = env();
    homeless.home_dir = None;
    let on = ProxyCommand::Auto { action: AutoAction::On { shell: Some(ShellKind::Bash) } };
    let fault = proxy(&mut world, &homeless, on).unwrap_err();
    assert_eq!(fault.kind, FaultKind::HomeUnknown);
}

const SUBSCRIPTION: &str = "mixed-port: 1234\nexternal-controller: 0.0.0.0:9999\nproxies:\n  - name: a\nrules:\n  - MATCH,DIRECT\n";

fn add(name: &str, url: &str, use_profile: bool, no_fetch: bool) -> ProfileCommand {
    ProfileCommand::Add(ProfileAddArgs {
        name: name.to_string(),
        url: url.to_string(),
        use_profile,
        no_fetch,
    })
}

#[test]
fn profile_add_should_fetch_and_activate_on_request() {
    let mut world = World::new();
    world.web.insert("https://example.com/a.yaml".to_string(), SUBSCRIPTION.to_string());
    match profile(&mut world, add("home", "https://example.com/a.yaml", true, false)).expect("add") {
        ProfileReport::Add { profile, active, fetched, used } => {
            assert_eq!(profile.name, "home");
            assert_eq!(profile.file, "home.yaml");
            assert_eq!(profile.url, "https://example.com/a.yaml");
            assert_eq!(profile.created_at, 1_700_000_000);
            assert!(profile.updated_at.is_some());
            assert_eq!(active.as_deref(), Some("home"));
            assert!(fetched);
            assert!(used);
        }
        other => panic!("unexpected report {:?}", other),
    }
    assert_eq!(world.files[&path("profiles/home.yaml")], SUBSCRIPTION);
    assert!(world.files.contains_key(&path("profiles/index.json")));

    let fault = profile(&mut world, add("home", "https://example.com/b.yaml", false, true)).unwrap_err();
    assert_eq!(fault.kind, FaultKind::ProfileExists);
    let fault = profile(&mut world, add("bad name", "https://example.com/b.yaml", false, true)).unwrap_err();
    assert_eq!(fault.kind, FaultKind::ProfileName);
    let fault = profile(&mut world, add("", "https://example.com/b.yaml", false, true)).unwrap_err();
    assert_eq!(fault.kind, FaultKind::ProfileNameEmpty);

    match profile(&mut world, add("work", "https://example.com/b.yaml", false, true)).expect("add") {
        ProfileReport::Add { profile, active, fetched, .. } => {
            assert_eq!(profile.updated_at, None);
            assert_eq!(active.as_deref(), Some("home"));
            assert!(!fetched);
        }
        other => panic!("unexpected report {:?}", other),
    }
    match profile(&mut world, ProfileCommand::List).expect("list") {
        ProfileReport::List { index, .. } => {
            assert_eq!(index.profiles.len(), 2);
            assert_eq!(index.profiles[0].name, "home");
            assert_eq!(index.profiles[1].name, "work");
        }
        other => panic!("unexpected report {:?}", other),
    }
}

#[test]
fn profile_add_should_fail_where_the_subscription_is_no_yaml() {
    let mut world = World::new();
    world.web.insert("https://example.com/a.yaml".to_string(), "a: [1, 2".to_string());
    let fault = profile(&mut world, add("home", "https://example.com/a.yaml", false, false)).unwrap_err();
    assert_eq!(fault.kind, FaultKind::FetchNotYaml);
    assert!(!world.files.contains_key(&path("profiles/index.json")));
    let fault = profile(&mut world, add("home", "https://example.com/none.yaml", false, false)).unwrap_err();
    assert_eq!(fault.kind, FaultKind::FetchFailed);
    assert_eq!(fault.detail, "404 Not Found");
}

#[test]
fn profile_render_should_apply_the_local_listeners_and_the_mixin() {
    let mut world = World::new();
    world.web.insert("https://example.com/a.yaml".to_string(), SUBSCRIPTION.to_string());
    profile(&mut world, add("home", "https://example.com/a.yaml", true, false)).expect("add");
    world.files.insert(
        path("profiles/mixin.yaml"),
        "dns:\n  enable: true\nmode: global\n".to_string(),
    );
    let render = |no_mixin: bool, follow: bool| {
        ProfileCommand::Render(ProfileRenderArgs {
            name: None,
            output: None,
            no_mixin,
            follow_subscription_port: follow,
        })
    };
    match profile(&mut world, render(false, false)).expect("render") {
        ProfileReport::Render { profile, output, follow_subscription_port } => {
            assert_eq!(profile, "home");
            assert_eq!(output, path("runtime/config.yaml"));
            assert!(!follow_subscription_port);
        }
        other => panic!("unexpected report {:?}", other),
    }
    let root = parse(&world.files[&path("runtime/config.yaml")]).expect("yaml");
    assert_eq!(u16_field(Some(&root), "mixed-port"), Some(7890));
    assert_eq!(u16_field(Some(&root), "socks-port"), Some(7891));
    assert_eq!(bool_field(Some(&root), "allow-lan"), Some(false));
    assert_eq!(string_field(Some(&root), "bind-address").as_deref(), Some("127.0.0.1"));
    assert_eq!(string_field(Some(&root), "external-controller").as_deref(), Some("127.0.0.1:9090"));
    assert_eq!(string_field(Some(&root), "mode").as_deref(), Some("global"));
    assert_eq!(bool_field(key_value(&root, "dns"), "enable"), Some(true));
    assert!(key_value(&root, "proxies").is_some());

    profile(&mut world, render(true, true)).expect("render");
    let root = parse(&world.files[&path("runtime/config.yaml")]).expect("yaml");
    assert_eq!(u16_field(Some(&root), "mixed-port"), Some(1234));
    assert_eq!(string_field(Some(&root), "external-controller").as_deref(), Some("0.0.0.0:9999"));
    assert_eq!(key_value(&root, "mode").is_some(), false);

    match profile(&mut world, ProfileCommand::Validate(ProfileValidateArgs { name: None })).expect("validate") {
        ProfileReport::Validate { profile, has_proxies, has_rules } => {
            assert_eq!(profile, "home");
            assert!(has_proxies);
            assert!(has_rules);
        }
        other => panic!("unexpected report {:?}", other),
    }
}

#[test]
fn profile_use_should_switch_and_apply() {
    let mut world = World::new();
    world.web.insert("https://example.com/a.yaml".to_string(), SUBSCRIPTION.to_string());
    world.web.insert("https://example.com/b.yaml".to_string(), "proxies: []\n".to_string());
    profile(&mut world, add("home", "https://example.com/a.yaml", false, false)).expect("add");
    profile(&mut world, add("work", "https://example.com/b.yaml", false, false)).expect("add");
    let switch = |name: &str, apply: bool, no_restart: bool| {
        ProfileCommand::Use(ProfileUseArgs {
            name: name.to_string(),
            apply,
            fetch: false,
            service_name: "clash-mihomo".to_string(),
            no_restart,
        })
    };
    match profile(&mut world, switch("work", false, false)).expect("use") {
        ProfileReport::Use { active, applied, fetched, restarted, .. } => {
            assert_eq!(active, "work");
            assert!(!applied);
            assert!(!fetched);
            assert!(!restarted);
        }
        other => panic!("unexpected report {:?}", other),
    }
    assert!(!world.files.contains_key(&path("runtime/config.yaml")));
    let fault = profile(&mut world, switch("none", false, false)).unwrap_err();
    assert_eq!(fault.kind, FaultKind::ProfileMissing);

    world.service_exec = Some(format!(
        "{{ path=/usr/bin/mihomo ; argv[]=/usr/bin/mihomo -d {} -f {} ; }}",
        path("runtime"),
        path("runtime/config.yaml")
    ));
    match profile(&mut world, switch("home", true, false)).expect("use") {
        ProfileReport::Use { active, applied, restarted, service, .. } => {
            assert_eq!(active, "home");
            assert!(applied);
            assert!(restarted);
            assert_eq!(service, "clash-mihomo.service");
        }
        other => panic!("unexpected report {:?}", other),
    }
    assert!(world.files.contains_key(&path("runtime/config.yaml")));
    assert!(world.ran.iter().any(|c| c == "systemctl restart clash-mihomo.service"));

    world.service_exec = Some("/usr/bin/mihomo -f /etc/other/runtime/config.yaml".to_string());
    let fault = profile(&mut world, switch("home", true, false)).unwrap_err();
    assert_eq!(fault.kind, FaultKind::HomeMismatch);
}

#[test]
fn profile_remove_should_clear_the_active_mark() {
    let mut world = World::new();
    profile(&mut world, add("home", "https://example.com/a.yaml", true, true)).expect("add");
    profile(&mut world, add("work", "https://example.com/b.yaml", false, true)).expect("add");
    world.files.insert(path("profiles/home.yaml"), "{}".to_string());
    let remove = |name: &str| ProfileCommand::Remove(ProfileRemoveArgs { name: name.to_string() });
    match profile(&mut world, remove("home")).expect("remove") {
        ProfileReport::Remove { removed, active } => {
            assert_eq!(removed, "home");
            assert_eq!(active, None);
        }
        other => panic!("unexpected report {:?}", other),
    }
    assert!(!world.files.contains_key(&path("profiles/home.yaml")));
    let fault = profile(&mut world, remove("home")).unwrap_err();
    assert_eq!(fault.kind, FaultKind::ProfileMissing);
    let render = ProfileCommand::Render(ProfileRenderArgs {
        name: None,
        output: None,
        no_mixin: false,
        follow_subscription_port: false,
    });
    let fault = profile(&mut world, render).unwrap_err();
    assert_eq!(fault.kind, FaultKind::NoActiveProfile);
    let render = ProfileCommand::Render(ProfileRenderArgs {
        name: Some("work".to_string()),
        output: None,
        no_mixin: false,
        follow_subscription_port: false,
    });
    let fault = profile(&mut world, render).unwrap_err();
    assert_eq!(fault.kind, FaultKind::ProfileFileMissing);
}

#[test]
fn profile_fetch_should_skip_what_is_there() {
    let mut world = World::new();
    world.web.insert("https://example.com/a.yaml".to_string(), SUBSCRIPTION.to_string());
    profile(&mut world, add("home", "https://example.com/a.yaml", false, false)).expect("add");
    world.web.insert("https://example.com/a.yaml".to_string(), "proxies: []\n".to_string());
    let fetch = |force: bool| ProfileCommand::Fetch(ProfileFetchArgs { name: "home".to_string(), force });
    match profile(&mut world, fetch(false)).expect("fetch") {
        ProfileReport::FetchSkipped { name } => assert_eq!(name, "home"),
        other => panic!("unexpected report {:?}", other),
    }
    assert_eq!(world.files[&path("profiles/home.yaml")], SUBSCRIPTION);
    match profile(&mut world, fetch(true)).expect("fetch") {
        ProfileReport::Fetch { profile } => assert!(profile.updated_at.is_some()),
        other => panic!("unexpected report {:?}", other),
    }
    assert_eq!(world.files[&path("profiles/home.yaml")], "proxies: []\n");
}

const RELEASE: &str = r#"{"tag_name":"v1.19.0","assets":[
 {"name":"mihomo-linux-amd64-v1.19.0.gz","browser_download_url":"https://github.com/MetaCubeX/mihomo/releases/download/v1.19.0/mihomo-linux-amd64-v1.19.0.gz"},
 {"name":"mihomo-linux-amd64-compatible-v1.19.0.gz","browser_download_url":"https://github.com/MetaCubeX/mihomo/releases/download/v1.19.0/mihomo-linux-amd64-compatible-v1.19.0.gz"},
 {"name":"mihomo-linux-arm64-v1.19.0.gz","browser_download_url":"https://github.com/MetaCubeX/mihomo/releases/download/v1.19.0/mihomo-linux-arm64-v1.19.0.gz"},
 {"name":"mihomo-linux-amd64-v1.19.0.deb","browser_download_url":"https://github.com/MetaCubeX/mihomo/releases/download/v1.19.0/mihomo-linux-amd64-v1.19.0.deb"}
]}"#;

fn install(version: &str, mirror: MirrorSource, force: bool) -> CoreCommand {
    CoreCommand::Install(CoreInstallArgs {
        version: version.to_string(),
        mirror,
        amd64_variant: Amd64Variant::Auto,
        force,
    })
}

#[test]
fn core_install_should_download_unpack_and_link() {
    let mut world = World::new();
    let asset = "https://github.com/MetaCubeX/mihomo/releases/download/v1.19.0/mihomo-linux-amd64-compatible-v1.19.0.gz";
    world.web.insert(
        "https://api.github.com/repos/MetaCubeX/mihomo/releases/latest".to_string(),
        RELEASE.to_string(),
    );
    world.web.insert(asset.to_string(), "gz:ELF".to_string());
    match kernel(&mut world, &env(), install("latest", MirrorSource::Auto, false)).expect("install") {
        CoreReport::Install { version, asset: name, path: installed, source, reused } => {
            assert_eq!(version, "v1.19.0");
            assert_eq!(name, "mihomo-linux-amd64-compatible-v1.19.0.gz");
            assert_eq!(installed, path("core/versions/v1.19.0/mihomo"));
            assert_eq!(source, asset);
            assert!(!reused);
        }
        other => panic!("unexpected report {:?}", other),
    }
    // The mirror is tried first, then the origin.
    let downloads: Vec<&String> = world.sent.iter().filter(|s| s.starts_with("DOWNLOAD")).collect();
    assert_eq!(downloads.len(), 2);
    assert_eq!(*downloads[0], format!("DOWNLOAD https://ghfast.top/{}", asset));
    assert_eq!(*downloads[1], format!("DOWNLOAD {}", asset));
    assert_eq!(world.files[&path("core/versions/v1.19.0/mihomo")], "ELF");
    assert_eq!(world.links[&path("core/mihomo")], path("core/versions/v1.19.0/mihomo"));
    let meta = &world.files[&path("core/current.meta")];
    assert!(meta.starts_with(&format!(
        "version=v1.19.0\nasset=mihomo-linux-amd64-compatible-v1.19.0.gz\nsource_url={}\ninstalled_at=",
        asset
    )));

    match kernel(&mut world, &env(), CoreCommand::Version).expect("version") {
        CoreReport::Version { version } => assert_eq!(version.as_deref(), Some("v1.19.0")),
        other => panic!("unexpected report {:?}", other),
    }
    match kernel(&mut world, &env(), CoreCommand::Path).expect("path") {
        CoreReport::Path { path: p } => assert_eq!(p, Some(path("core/mihomo"))),
        other => panic!("unexpected report {:?}", other),
    }

    world.sent.clear();
    match kernel(&mut world, &env(), install("latest", MirrorSource::Auto, false)).expect("install") {
        CoreReport::Install { reused, .. } => assert!(reused),
        other => panic!("unexpected report {:?}", other),
    }
    assert!(world.sent.iter().all(|s| !s.starts_with("DOWNLOAD")));
}

#[test]
fn core_install_should_fail_without_a_fitting_asset() {
    let mut world = World::new();
    world.web.insert(
        "https://api.github.com/repos/MetaCubeX/mihomo/releases/tags/v1.19.0".to_string(),
        RELEASE.to_string(),
    );
    let mut riscv = env();
    riscv.arch = "riscv64".to_string();
    let fault = kernel(&mut world, &riscv, install("v1.19.0", MirrorSource::Github, false)).unwrap_err();
    assert_eq!(fault.kind, FaultKind::UnsupportedArch);

    let mut arm = env();
    arm.arch = "aarch64".to_string();
    let fault = kernel(&mut world, &arm, install("v1.19.0", MirrorSource::Github, false)).unwrap_err();
    assert_eq!(fault.kind, FaultKind::DownloadFailed);

    let fault = kernel(&mut world, &env(), install("v0.0.1", MirrorSource::Github, false)).unwrap_err();
    assert_eq!(fault.kind, FaultKind::ReleaseFetch);

    let mut mac = env();
    mac.os = "macos".to_string();
    let fault = kernel(&mut world, &mac, install("v1.19.0", MirrorSource::Github, false)).unwrap_err();
    assert_eq!(fault.kind, FaultKind::UnsupportedPlatform);
}

fn common() -> ApiCommonArgs {
    ApiCommonArgs { controller: None, secret: None, timeout_secs: 5 }
}

#[test]
fn api_mode_should_ask_the_controller_of_the_configuration() {
    let mut world = World::new();
    world.files.insert(
        path("runtime/config.yaml"),
        "external-controller: 0.0.0.0:9191\nsecret: s3\n".to_string(),
    );
    world.web.insert("http://0.0.0.0:9191/configs".to_string(), "{\"mode\":\"rule\"}".to_string());
    let get = ApiCommand::Mode { action: ApiModeCommand::Get, common: common() };
    match api(&mut world, get).expect("mode") {
        ApiReport::ModeGet { response } => {
            let summary = answer_summary(&response).expect("summary");
            assert_eq!(summary.mode.as_deref(), Some("rule"));
            assert_eq!(mode_shown(&summary), "rule");
        }
        other => panic!("unexpected report {:?}", other),
    }
    assert_eq!(world.sent, vec!["GET http://0.0.0.0:9191/configs bearer=s3 body=-".to_string()]);

    world.sent.clear();
    let set = ApiCommand::Mode {
        action: ApiModeCommand::SetTo(ApiModeSetArgs { mode: ApiModeValue::Global }),
        common: ApiCommonArgs {
            controller: Some("localhost:9191/".to_string()),
            secret: Some("other".to_string()),
            timeout_secs: 5,
        },
    };
    world.web.insert("http://localhost:9191/configs".to_string(), "null".to_string());
    match api(&mut world, set).expect("mode set") {
        ApiReport::ModeSet { mode, response } => {
            assert_eq!(mode, ApiModeValue::Global);
            assert_eq!(response, "null");
        }
        other => panic!("unexpected report {:?}", other),
    }
    assert_eq!(
        world.sent,
        vec!["PATCH http://localhost:9191/configs bearer=other body={\"mode\":\"global\"}".to_string()]
    );
}

#[test]
fn api_ui_url_should_not_touch_the_network() {
    let mut world = World::new();
    match api(&mut world, ApiCommand::UiUrl(common())).expect("ui url") {
        ApiReport::UiUrl { controller, dashboard_url, ui, secret_set } => {
            assert_eq!(controller, "http://127.0.0.1:9090");
            assert_eq!(dashboard_url, "http://127.0.0.1:9090/ui");
            assert_eq!(ui.external_ui, None);
            assert!(!secret_set);
        }
        other => panic!("unexpected report {:?}", other),
    }
    assert!(world.sent.is_empty());
    let fault = api(&mut world, ApiCommand::Status(common())).unwrap_err();
    assert_eq!(fault.kind, FaultKind::ApiRequest);
}

#[test]
fn api_status_should_fall_back_to_the_configuration() {
    let mut world = World::new();
    world.web.insert("http://127.0.0.1:9090/configs".to_string(), "{\"mode\":\"direct\"}".to_string());
    match api(&mut world, ApiCommand::Status(common())).expect("status") {
        ApiReport::Status { controller, response } => {
            assert_eq!(controller, "http://127.0.0.1:9090");
            assert_eq!(response, "{\"mode\":\"direct\"}");
        }
        other => panic!("unexpected report {:?}", other),
    }
    assert_eq!(
        world.sent,
        vec![
            "GET http://127.0.0.1:9090/version bearer=- body=-".to_string(),
            "GET http://127.0.0.1:9090/configs bearer=- body=-".to_string(),
        ]
    );
}

#[test]
fn answers_should_be_summarised_for_the_plain_output() {
    let summary = answer_summary(
        "{\"version\":\"v1.19.0\",\"proxies\":{\"a\":{},\"b\":{},\"c\":1},\"connections\":[1,2],\"downloadTotal\":18446744073709551615,\"uploadTotal\":-3}",
    )
    .expect("summary");
    assert_eq!(summary.version.as_deref(), Some("v1.19.0"));
    assert_eq!(summary.mode, None);
    assert_eq!(mode_shown(&summary), "unknown");
    assert_eq!(summary.proxies, 3);
    assert_eq!(summary.connections, 2);
    assert_eq!(summary.download_total, u64::MAX);
    assert_eq!(summary.upload_total, 0);

    let odd = answer_summary("{\"proxies\":[1],\"connections\":{\"a\":1},\"downloadTotal\":1.5,\"mode\":7}").expect("summary");
    assert_eq!(odd.proxies, 0);
    assert_eq!(odd.connections, 0);
    assert_eq!(odd.download_total, 0);
    assert_eq!(odd.mode, None);
    assert!(answer_summary("[1, 2").is_none());
    let list = answer_summary("[1, 2]").expect("summary");
    assert_eq!(list.proxies, 0);
}

fn service(world: &mut World, env: &HostEnv, command: ServiceCommand) -> Result<ServiceReport, Fault> {
    drive(world, |record| clash_cli::service::run(&command, env, record))
}

fn setup(world: &mut World, env: &HostEnv, command: SetupCommand) -> Result<SetupReport, Fault> {
    drive(world, |record| clash_cli::setup::run(&command, env, record))
}

fn target(user: bool) -> ServiceTargetArgs {
    ServiceTargetArgs { name: "clash-mihomo".to_string(), user }
}

fn install_service(force: bool) -> ServiceCommand {
    ServiceCommand::Install(ServiceInstallArgs {
        target: target(false),
        binary: None,
        config: None,
        workdir: None,
        force,
        no_enable: false,
        no_start: false,
    })
}

#[test]
fn unit_content_should_name_the_binary_and_its_files() {
    assert_eq!(
        build_unit_content("/b/mihomo", "/c/config.yaml", "/w", false, "x.service"),
        "[Unit]\nDescription=clash-cli managed x.service\nAfter=network-online.target\nWants=network-online.target\n\n[Service]\nType=simple\nWorkingDirectory=/w\nExecStart=/b/mihomo -d /w -f /c/config.yaml\nRestart=on-failure\nRestartSec=3\nLimitNOFILE=1048576\nAmbientCapabilities=CAP_NET_ADMIN CAP_NET_RAW\nCapabilityBoundingSet=CAP_NET_ADMIN CAP_NET_RAW\nNoNewPrivileges=true\n\n[Install]\nWantedBy=multi-user.target\n"
    );
    assert!(build_unit_content("b", "c", "w", true, "u").ends_with("WantedBy=default.target\n"));
    assert_eq!(
        default_runtime_config(),
        "mixed-port: 7890\nallow-lan: false\nmode: rule\nlog-level: info\nexternal-controller: 127.0.0.1:9090\nsecret: \"\"\ndns:\n  enable: true\n  enhanced-mode: fake-ip\n"
    );
    assert!(parse(default_runtime_config()).is_ok());
}

#[test]
fn service_install_should_write_the_unit_and_a_template() {
    let mut world = World::new();
    let fault = service(&mut world, &env(), install_service(false)).unwrap_err();
    assert_eq!(fault.kind, FaultKind::BinaryMissing);
    assert_eq!(fault.detail, path("core/mihomo"));

    world.links.insert(path("core/mihomo"), path("core/versions/v1/mihomo"));
    match service(&mut world, &env(), install_service(false)).expect("install") {
        ServiceReport::Install {
            unit, unit_path, workdir, config, binary, enabled, started, template_created,
        } => {
            assert_eq!(unit, "clash-mihomo.service");
            assert_eq!(unit_path, "/etc/systemd/system/clash-mihomo.service");
            assert_eq!(workdir, path("runtime"));
            assert_eq!(config, path("runtime/config.yaml"));
            assert_eq!(binary, path("core/mihomo"));
            assert!(enabled);
            assert!(!started);
            assert!(template_created);
        }
        other => panic!("unexpected report {:?}", other),
    }
    assert_eq!(world.files[&path("runtime/config.yaml")], default_runtime_config());
    assert_eq!(
        world.files["/etc/systemd/system/clash-mihomo.service"],
        build_unit_content(
            &path("core/mihomo"),
            &path("runtime/config.yaml"),
            &path("runtime"),
            false,
            "clash-mihomo.service"
        )
    );
    assert_eq!(
        world.ran,
        vec!["systemctl daemon-reload".to_string(), "systemctl enable clash-mihomo.service".to_string()]
    );

    let fault = service(&mut world, &env(), install_service(false)).unwrap_err();
    assert_eq!(fault.kind, FaultKind::UnitExists);
    world.ran.clear();
    match service(&mut world, &env(), install_service(true)).expect("install") {
        ServiceReport::Install { started, template_created, .. } => {
            assert!(started);
            assert!(!template_created);
        }
        other => panic!("unexpected report {:?}", other),
    }
    assert_eq!(world.ran.last().map(String::as_str), Some("systemctl start clash-mihomo.service"));
}

#[test]
fn user_units_should_live_below_the_home_directory() {
    let mut world = World::new();
    world.files.insert("/opt/mihomo".to_string(), "ELF".to_string());
    let install = ServiceCommand::Install(ServiceInstallArgs {
        target: target(true),
        binary: Some("/opt/mihomo".to_string()),
        config: Some("/opt/c.yaml".to_string()),
        workdir: Some("/opt/w".to_string()),
        force: false,
        no_enable: true,
        no_start: true,
    });
    match service(&mut world, &env(), install).expect("install") {
        ServiceReport::Install { unit_path, enabled, started, .. } => {
            assert_eq!(unit_path, "/home/u/.config/systemd/user/clash-mihomo.service");
            assert!(!enabled);
            assert!(!started);
        }
        other => panic!("unexpected report {:?}", other),
    }
    assert_eq!(world.ran, vec!["systemctl --user daemon-reload".to_string()]);
    assert!(world.dirs.contains("/opt/w"));
    assert!(world.files["/home/u/.config/systemd/user/clash-mihomo.service"].contains("WantedBy=default.target"));
}

#[test]
fn unit_files_should_be_found_by_the_kind_of_service() {
    assert_eq!(
        resolve_unit_path(&env(), false, "x.service").expect("path"),
        "/etc/systemd/system/x.service"
    );
    assert_eq!(
        resolve_unit_path(&env(), true, "x.service").expect("path"),
        "/home/u/.config/systemd/user/x.service"
    );
    let mut homeless = env();
    homeless.home_dir = None;
    assert_eq!(
        resolve_unit_path(&homeless, true, "x.service").unwrap_err().kind,
        FaultKind::HomeUnknown
    );
    assert!(resolve_unit_path(&homeless, false, "x.service").is_ok());
}

#[test]
fn service_uninstall_should_go_on_past_failing_steps() {
    let mut world = World::new();
    world.files.insert("/etc/systemd/system/clash-mihomo.service".to_string(), "x".to_string());
    world.files.insert(path("runtime/config.yaml"), "{}".to_string());
    world.make_dirs(&path("runtime"));
    let uninstall = ServiceCommand::Uninstall(ServiceUninstallArgs { target: target(false), purge: true });
    match service(&mut world, &env(), uninstall).expect("uninstall") {
        ServiceReport::Uninstall { unit, unit_deleted, purge_requested, runtime_purged, stopped, .. } => {
            assert_eq!(unit, "clash-mihomo.service");
            assert!(unit_deleted);
            assert!(purge_requested);
            assert!(runtime_purged);
            assert!(stopped);
        }
        other => panic!("unexpected report {:?}", other),
    }
    assert!(world.files.is_empty());
    assert_eq!(
        world.ran,
        vec![
            "systemctl stop clash-mihomo.service".to_string(),
            "systemctl disable clash-mihomo.service".to_string(),
            "systemctl reset-failed clash-mihomo.service".to_string(),
            "systemctl daemon-reload".to_string(),
        ]
    );

    world.systemctl_works = false;
    let uninstall = ServiceCommand::Uninstall(ServiceUninstallArgs { target: target(false), purge: false });
    let fault = service(&mut world, &env(), uninstall).unwrap_err();
    // Stopping and disabling may fail; reloading the daemon may not.
    assert_eq!(fault.kind, FaultKind::SystemctlFailed);
    assert_eq!(world.ran.len(), 8);
}

#[test]
fn service_actions_should_call_systemctl() {
    let mut world = World::new();
    match service(&mut world, &env(), ServiceCommand::Restart(target(true))).expect("restart") {
        ServiceReport::Action { action, unit, user, output } => {
            assert_eq!(action, UnitAction::Restart);
            assert_eq!(unit, "clash-mihomo.service");
            assert!(user);
            assert_eq!(output.stdout, "done\n");
        }
        other => panic!("unexpected report {:?}", other),
    }
    match service(&mut world, &env(), ServiceCommand::Status(target(false))).expect("status") {
        ServiceReport::Status { unit, .. } => assert_eq!(unit, "clash-mihomo.service"),
        other => panic!("unexpected report {:?}", other),
    }
    assert_eq!(
        world.ran,
        vec![
            "systemctl --user restart clash-mihomo.service".to_string(),
            "systemctl status clash-mihomo.service --no-pager".to_string(),
        ]
    );
    world.systemctl_works = false;
    let fault = service(&mut world, &env(), ServiceCommand::Stop(target(false))).unwrap_err();
    assert_eq!(fault.kind, FaultKind::SystemctlFailed);
    let mut mac = env();
    mac.os = "macos".to_string();
    let fault = service(&mut world, &mac, ServiceCommand::Enable(target(false))).unwrap_err();
    assert_eq!(fault.kind, FaultKind::UnsupportedPlatform);
}

#[test]
fn service_log_should_not_follow_in_json_mode() {
    let mut world = World::new();
    let log = |follow: bool| ServiceCommand::Log(ServiceLogArgs { target: target(false), follow, lines: 50 });
    let mut json = env();
    json.json = true;
    let fault = service(&mut world, &json, log(true)).unwrap_err();
    assert_eq!(fault.kind, FaultKind::JsonUnsupported);
    match service(&mut world, &json, log(false)).expect("log") {
        ServiceReport::Log { unit, lines, output, .. } => {
            assert_eq!(unit, "clash-mihomo.service");
            assert_eq!(lines, 50);
            assert_eq!(output.expect("output").stdout, "a line of the journal\n");
        }
        other => panic!("unexpected report {:?}", other),
    }
    match service(&mut world, &env(), log(true)).expect("log") {
        ServiceReport::Log { output, .. } => assert!(output.is_none()),
        other => panic!("unexpected report {:?}", other),
    }
    assert_eq!(
        world.ran,
        vec![
            "journalctl -u clash-mihomo.service -n 50 --no-pager".to_string(),
            "journalctl -u clash-mihomo.service -n 50 --no-pager -f".to_string(),
        ]
    );
}

fn root_env() -> HostEnv {
    let mut env = env();
    env.home_override = None;
    env.home_dir = Some("/root".to_string());
    env.sudo_user = Some("alice".to_string());
    env
}

fn index_text(active: Option<&str>, entries: &[(&str, &str, &str, Option<u64>)]) -> String {
    let index = ProfileIndex {
        active: active.map(str::to_string),
        profiles: entries
            .iter()
            .map(|(name, url, file, updated_at)| ProfileEntry {
                name: name.to_string(),
                url: url.to_string(),
                file: file.to_string(),
                created_at: 1,
                updated_at: *updated_at,
            })
            .collect(),
    };
    let mut scratch = World::new();
    drive_on(&mut scratch, |host| save_index(host, "/i", &index)).expect("save");
    scratch.files["/i"].clone()
}

fn unify_world() -> World {
    let mut world = World::new();
    world.uid = "0".to_string();
    world.passwd.insert("alice".to_string(), "alice:x:1000:1000::/home/alice:/bin/bash".to_string());
    world.make_dirs("/home/alice/.config/clash-cli/profiles");
    world.make_dirs("/root/.config/clash-cli/profiles");
    world.files.insert(
        "/home/alice/.config/clash-cli/profiles/index.json".to_string(),
        index_text(
            Some("a"),
            &[("a", "https://e/a", "old-a.yaml", Some(5)), ("b", "https://e/b", "b.yaml", None)],
        ),
    );
    world.files.insert("/home/alice/.config/clash-cli/profiles/old-a.yaml".to_string(), SUBSCRIPTION.to_string());
    world.files.insert(
        "/root/.config/clash-cli/profiles/index.json".to_string(),
        index_text(None, &[("a", "https://other/a", "a.yaml", None), ("c", "https://e/c", "c.yaml", None)]),
    );
    world.files.insert("/root/.config/clash-cli/profiles/a.yaml".to_string(), "proxies: []\n".to_string());
    world.files.insert("/root/.config/clash-cli/profiles/c.yaml".to_string(), "rules: []\n".to_string());
    world
}

#[test]
fn unify_should_merge_the_profiles_of_every_source() {
    let mut world = unify_world();
    let unify = SetupCommand::Unify(SetupUnifyArgs {
        service_name: "clash-mihomo".to_string(),
        no_apply: false,
        no_link: false,
    });
    let report = match setup(&mut world, &root_env(), unify).expect("unify") {
        SetupReport::Unify(report) => report,
        other => panic!("unexpected report {:?}", other),
    };
    assert_eq!(report.config_dir, "/etc/clash-cli");
    assert_eq!(
        report.source_dirs,
        vec!["/home/alice/.config/clash-cli".to_string(), "/root/.config/clash-cli".to_string()]
    );
    assert_eq!(report.stats.imported, 2);
    assert_eq!(report.stats.existed, 0);
    assert_eq!(report.stats.conflicts, 1);
    assert_eq!(report.stats.missing_files, 1);
    assert_eq!(report.active.as_deref(), Some("a"));
    assert!(report.applied);
    let kinds: Vec<WarningKind> = report.warnings.iter().map(|w| w.kind).collect();
    assert_eq!(kinds, vec![WarningKind::MissingFile, WarningKind::Conflict]);
    assert_eq!(report.warnings[0].subject, "b");
    assert_eq!(report.warnings[1].subject, "a");
    assert!(warning_message(&report.warnings[0]).starts_with("来源 profile 缺少文件，已跳过: b"));
    assert_eq!(action_done(UnitAction::Restart), "已重启");
    let links = report.links.expect("links");
    assert_eq!(links.linked, 2);
    assert_eq!(links.already_linked, 0);
    assert_eq!(links.failed, 0);

    assert_eq!(world.files["/etc/clash-cli/profiles/a.yaml"], SUBSCRIPTION);
    assert_eq!(world.files["/etc/clash-cli/profiles/c.yaml"], "rules: []\n");
    assert_eq!(world.links["/home/alice/.config/clash-cli"], "/etc/clash-cli");
    assert_eq!(world.links["/root/.config/clash-cli"], "/etc/clash-cli");
    assert!(world.files.keys().any(|k| k.starts_with("/home/alice/.config/clash-cli.bak.17000000")
        && k.ends_with("/profiles/old-a.yaml")));
    let merged = drive_on(&mut world, |host| load_index(host, "/etc/clash-cli/profiles/index.json")).expect("index");
    assert_eq!(merged.active.as_deref(), Some("a"));
    assert_eq!(merged.profiles.len(), 2);
    assert_eq!(merged.profiles[0].name, "a");
    assert_eq!(merged.profiles[0].file, "a.yaml");
    assert_eq!(merged.profiles[0].url, "https://e/a");
    assert_eq!(merged.profiles[0].updated_at, Some(5));
    assert_eq!(merged.profiles[1].name, "c");
    let rendered = parse(&world.files["/etc/clash-cli/runtime/config.yaml"]).expect("yaml");
    assert_eq!(u16_field(Some(&rendered), "mixed-port"), Some(7890));
    assert_eq!(world.ran.last().map(String::as_str), Some("systemctl restart clash-mihomo.service"));

    // A second run finds the links in place and nothing to merge.
    let again = SetupCommand::Unify(SetupUnifyArgs {
        service_name: "clash-mihomo".to_string(),
        no_apply: true,
        no_link: false,
    });
    let report = match setup(&mut world, &root_env(), again).expect("unify") {
        SetupReport::Unify(report) => report,
        other => panic!("unexpected report {:?}", other),
    };
    assert!(!report.applied);
    let links = report.links.expect("links");
    assert_eq!(links.linked, 0);
    assert_eq!(links.already_linked, 2);
}

#[test]
fn unify_should_keep_what_the_target_has() {
    let mut world = unify_world();
    world.files.insert(
        "/etc/clash-cli/profiles/index.json".to_string(),
        index_text(Some("c"), &[("a", "https://e/a", "mine.yaml", Some(9)), ("c", "https://e/c", "c.yaml", Some(1))]),
    );
    world.files.insert("/etc/clash-cli/profiles/c.yaml".to_string(), "kept: true\n".to_string());
    let unify = SetupCommand::Unify(SetupUnifyArgs {
        service_name: "clash-mihomo".to_string(),
        no_apply: true,
        no_link: true,
    });
    let report = match setup(&mut world, &root_env(), unify).expect("unify") {
        SetupReport::Unify(report) => report,
        other => panic!("unexpected report {:?}", other),
    };
    assert_eq!(report.stats.imported, 0);
    assert_eq!(report.stats.existed, 2);
    assert_eq!(report.stats.conflicts, 1);
    assert_eq!(report.stats.missing_files, 1);
    assert_eq!(report.active.as_deref(), Some("c"));
    assert!(report.links.is_none());
    assert!(!report.applied);
    // The missing file of a known profile is copied; an existing one stays.
    assert_eq!(world.files["/etc/clash-cli/profiles/mine.yaml"], SUBSCRIPTION);
    assert_eq!(world.files["/etc/clash-cli/profiles/c.yaml"], "kept: true\n");
    assert!(world.links.is_empty());
    let merged = drive_on(&mut world, |host| load_index(host, "/etc/clash-cli/profiles/index.json")).expect("index");
    assert_eq!(merged.profiles[0].updated_at, Some(9));
}

#[test]
fn setup_should_need_root() {
    let mut world = World::new();
    let unify = SetupCommand::Unify(SetupUnifyArgs {
        service_name: "clash-mihomo".to_string(),
        no_apply: true,
        no_link: true,
    });
    let fault = setup(&mut world, &env(), unify).unwrap_err();
    assert_eq!(fault.kind, FaultKind::NotRoot);
    world.uid = "0".to_string();
    let mut json = root_env();
    json.json = true;
    let unify = SetupCommand::Unify(SetupUnifyArgs {
        service_name: "clash-mihomo".to_string(),
        no_apply: true,
        no_link: true,
    });
    let fault = setup(&mut world, &json, unify).unwrap_err();
    assert_eq!(fault.kind, FaultKind::JsonUnsupported);
}

fn init_args(url: &str, no_tun: bool) -> SetupCommand {
    SetupCommand::Init(SetupInitArgs {
        profile_url: url.to_string(),
        profile_name: "default".to_string(),
        core_version: "latest".to_string(),
        mirror: MirrorSource::Github,
        amd64_variant: Amd64Variant::V3,
        force_core: false,
        binary: "/usr/local/bin/mihomo".to_string(),
        workdir: "/var/lib/clash-cli".to_string(),
        service_name: "clash-mihomo".to_string(),
        no_tun,
    })
}

#[test]
fn init_should_install_everything_in_turn() {
    let mut world = World::new();
    world.uid = "0".to_string();
    world.nft = true;
    world.make_dirs("/dev/net/tun");
    let asset = "https://github.com/MetaCubeX/mihomo/releases/download/v1.19.0/mihomo-linux-amd64-compatible-v1.19.0.gz";
    world.web.insert(
        "https://api.github.com/repos/MetaCubeX/mihomo/releases/latest".to_string(),
        RELEASE.to_string(),
    );
    world.web.insert(asset.to_string(), "gz:ELF".to_string());
    world.web.insert("https://example.com/sub".to_string(), SUBSCRIPTION.to_string());

    let fault = setup(&mut world, &root_env(), init_args("  ", true)).unwrap_err();
    assert_eq!(fault.kind, FaultKind::EmptyProfileUrl);
    assert!(world.files.is_empty());

    let report = match setup(&mut world, &root_env(), init_args("https://example.com/sub", false)).expect("init") {
        SetupReport::Init(report) => report,
        other => panic!("unexpected report {:?}", other),
    };
    assert_eq!(report.config_dir, "/etc/clash-cli");
    assert_eq!(report.runtime_config, "/etc/clash-cli/runtime/config.yaml");
    assert_eq!(report.binary, "/usr/local/bin/mihomo");
    assert_eq!(report.workdir, "/var/lib/clash-cli");
    assert!(!report.profile_existed);
    match &report.core {
        CoreReport::Install { version, asset, reused, .. } => {
            assert_eq!(version, "v1.19.0");
            // No build for v3 is offered, so the compatible one is next.
            assert_eq!(asset, "mihomo-linux-amd64-compatible-v1.19.0.gz");
            assert!(!reused);
        }
        other => panic!("unexpected report {:?}", other),
    }
    match &report.service {
        ServiceReport::Install { binary, config, workdir, started, template_created, .. } => {
            assert_eq!(binary, "/usr/local/bin/mihomo");
            assert_eq!(config, "/etc/clash-cli/runtime/config.yaml");
            assert_eq!(workdir, "/var/lib/clash-cli");
            assert!(started);
            assert!(!template_created);
        }
        other => panic!("unexpected report {:?}", other),
    }
    match &report.tun {
        Some(TunReport::On(on)) => {
            assert!(on.rules_applied);
            assert_eq!(on.restart_ok, Some(true));
        }
        other => panic!("unexpected report {:?}", other),
    }
    match &report.api {
        ApiReport::UiUrl { controller, dashboard_url, ui, .. } => {
            assert_eq!(controller, "http://127.0.0.1:9090");
            assert_eq!(dashboard_url, "http://127.0.0.1:9090/ui");
            assert!(ui.external_ui.is_some());
        }
        other => panic!("unexpected report {:?}", other),
    }
    assert_eq!(world.files["/usr/local/bin/mihomo"], "ELF");
    assert_eq!(
        world.copied,
        vec!["/etc/clash-cli/core/mihomo -> /usr/local/bin/mihomo.new".to_string()]
    );
    assert!(!world.files.contains_key("/usr/local/bin/mihomo.new"));
    assert!(world.table);
    let config = parse(&world.files["/etc/clash-cli/runtime/config.yaml"]).expect("yaml");
    assert_eq!(bool_field(key_value(&config, "tun"), "enable"), Some(true));
    assert_eq!(u16_field(Some(&config), "mixed-port"), Some(7890));

    // Once more: the kernel is reused, the profile is fetched anew.
    world.table = false;
    let report = match setup(&mut world, &root_env(), init_args("https://example.com/sub", true)).expect("init") {
        SetupReport::Init(report) => report,
        other => panic!("unexpected report {:?}", other),
    };
    assert!(report.profile_existed);
    assert!(report.tun.is_none());
    assert!(!world.table);
    match &report.core {
        CoreReport::Install { reused, .. } => assert!(reused),
        other => panic!("unexpected report {:?}", other),
    }
}

#[test]
fn setup_should_hand_over_to_sudo_on_a_terminal() {
    let mut world = World::new();
    let mut interactive = env();
    interactive.stdin_terminal = true;
    interactive.stderr_terminal = true;
    // Without sudo the command goes on and fails for want of root.
    let fault = setup(&mut world, &interactive, init_args("https://example.com/sub", true)).unwrap_err();
    assert_eq!(fault.kind, FaultKind::NotRoot);
}

#[test]
fn paths_should_follow_the_environment() {
    let located = |world: &mut World, env: &HostEnv| {
        drive_on(world, |host| clash_cli::paths::app_paths(env, host)).map(|p| p.config_dir)
    };
    let mut world = World::new();
    assert_eq!(located(&mut world, &env()).unwrap(), HOME);
    // With an override nobody is asked who runs the command.
    assert!(world.ran.is_empty());

    let mut plain = env();
    plain.home_override = None;
    assert_eq!(located(&mut world, &plain).unwrap(), "/home/u/.config/clash-cli");
    assert_eq!(world.ran, vec!["id -u".to_string()]);
    plain.xdg_config_home = Some("/xdg".to_string());
    assert_eq!(located(&mut world, &plain).unwrap(), "/xdg/clash-cli");
    plain.xdg_config_home = None;
    plain.home_dir = None;
    assert_eq!(located(&mut world, &plain).unwrap_err().kind, FaultKind::HomeUnknown);
    world.uid = "0".to_string();
    assert_eq!(located(&mut world, &plain).unwrap(), "/etc/clash-cli");
}

#[test]
fn file_failures_should_name_what_was_tried() {
    let mut world = World::new();
    world.files.insert(path("proxy.state"), "host=h\n".to_string());
    world.refuse.push(format!("ReadFile:{}", path("proxy.state")));
    let fault = proxy(&mut world, &env(), ProxyCommand::Status).unwrap_err();
    assert_eq!(fault.kind, FaultKind::ProxyStateRead);
    assert_eq!(fault.detail, "refused");

    world.refuse = vec!["File:Remove".to_string()];
    let stop = StopArgs { auto_off: false, shell: None, print_env: false };
    let fault = proxy(&mut world, &env(), ProxyCommand::Stop(stop)).unwrap_err();
    assert_eq!(fault.kind, FaultKind::FileRemove);

    world.refuse = vec!["File:CreateDir".to_string()];
    let fault = proxy(&mut world, &env(), ProxyCommand::Start(start_args())).unwrap_err();
    assert_eq!(fault.kind, FaultKind::DirCreate);

    world.refuse = vec![format!("WriteFile:{}", path("proxy.env"))];
    let fault = proxy(&mut world, &env(), ProxyCommand::Start(start_args())).unwrap_err();
    assert_eq!(fault.kind, FaultKind::FileWrite);

    let mut world = World::new();
    profile(&mut world, add("home", "https://example.com/a.yaml", true, true)).expect("add");
    world.files.insert(path("profiles/home.yaml"), SUBSCRIPTION.to_string());
    world.refuse.push(format!("ReadFile:{}", path("profiles/home.yaml")));
    let validate = ProfileCommand::Validate(ProfileValidateArgs { name: None });
    let fault = profile(&mut world, validate).unwrap_err();
    assert_eq!(fault.kind, FaultKind::FileRead);
    world.refuse.clear();
    world.files.insert(path("profiles/home.yaml"), "a: [1".to_string());
    let validate = ProfileCommand::Validate(ProfileValidateArgs { name: None });
    assert_eq!(profile(&mut world, validate).unwrap_err().kind, FaultKind::YamlParse);
}

#[test]
fn the_journal_should_be_needed_for_the_log() {
    let mut world = World::new();
    world.refuse.push("Status:journalctl".to_string());
    world.refuse.push("Run:journalctl".to_string());
    let log = |follow: bool| ServiceCommand::Log(ServiceLogArgs { target: target(true), follow, lines: 3 });
    assert_eq!(service(&mut world, &env(), log(true)).unwrap_err().kind, FaultKind::JournalFailed);
    let mut json = env();
    json.json = true;
    assert_eq!(service(&mut world, &json, log(false)).unwrap_err().kind, FaultKind::JournalFailed);
}

#[test]
fn core_install_should_name_the_step_that_failed() {
    let asset = "https://github.com/MetaCubeX/mihomo/releases/download/v1.19.0/mihomo-linux-amd64-compatible-v1.19.0.gz";
    let fresh = || {
        let mut world = World::new();
        world.web.insert(
            "https://api.github.com/repos/MetaCubeX/mihomo/releases/latest".to_string(),
            RELEASE.to_string(),
        );
        world.web.insert(asset.to_string(), "gz:ELF".to_string());
        world
    };
    let mut world = fresh();
    world.web.insert(asset.to_string(), "no archive".to_string());
    let fault = kernel(&mut world, &env(), install("latest", MirrorSource::Github, false)).unwrap_err();
    assert_eq!(fault.kind, FaultKind::UnpackFailed);
    assert!(!world.links.contains_key(&path("core/mihomo")));

    let mut world = fresh();
    world.refuse.push("File:Rename".to_string());
    let fault = kernel(&mut world, &env(), install("latest", MirrorSource::Github, false)).unwrap_err();
    assert_eq!(fault.kind, FaultKind::InstallFailed);

    let mut world = fresh();
    world.files.insert(path("core/current.meta"), "asset=a.gz\n".to_string());
    let fault = kernel(&mut world, &env(), CoreCommand::Version).unwrap_err();
    assert_eq!(fault.kind, FaultKind::MetaNoVersion);
}

#[test]
fn setup_should_name_the_step_that_failed() {
    let mut world = World::new();
    world.refuse.push("Run:id".to_string());
    let unify = |no_apply: bool| {
        SetupCommand::Unify(SetupUnifyArgs {
            service_name: "clash-mihomo".to_string(),
            no_apply,
            no_link: true,
        })
    };
    let fault = setup(&mut world, &root_env(), unify(true)).unwrap_err();
    assert_eq!(fault.kind, FaultKind::UserUnknown);

    // Nothing to merge and nothing there: nothing can be applied.
    let mut world = World::new();
    world.uid = "0".to_string();
    let fault = setup(&mut world, &root_env(), unify(false)).unwrap_err();
    assert_eq!(fault.kind, FaultKind::NothingToApply);

    let mut world = unify_world();
    world.refuse.push("File:Copy".to_string());
    let fault = setup(&mut world, &root_env(), unify(true)).unwrap_err();
    assert_eq!(fault.kind, FaultKind::CopyFailed);

    let mut world = World::new();
    world.uid = "0".to_string();
    world.web.insert(
        "https://api.github.com/repos/MetaCubeX/mihomo/releases/latest".to_string(),
        RELEASE.to_string(),
    );
    world.web.insert(
        "https://github.com/MetaCubeX/mihomo/releases/download/v1.19.0/mihomo-linux-amd64-compatible-v1.19.0.gz".to_string(),
        "gz:ELF".to_string(),
    );
    let init = SetupCommand::Init(SetupInitArgs {
        profile_url: "https://example.com/sub".to_string(),
        profile_name: "default".to_string(),
        core_version: "latest".to_string(),
        mirror: MirrorSource::Github,
        amd64_variant: Amd64Variant::Auto,
        force_core: false,
        binary: "/".to_string(),
        workdir: "/var/lib/clash-cli".to_string(),
        service_name: "clash-mihomo".to_string(),
        no_tun: true,
    });
    let fault = setup(&mut world, &root_env(), init).unwrap_err();
    assert_eq!(fault.kind, FaultKind::InvalidInstallPath);
    assert_eq!(fault.detail, "/");
}
