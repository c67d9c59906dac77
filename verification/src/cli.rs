//! The commands and their arguments, as plain values. Parsing a command
//! line into them is the caller's business.

use vstd::prelude::*;

verus! {

/// The `no_proxy` list used unless one is given.
pub const DEFAULT_NO_PROXY: &'static str = "localhost,127.0.0.1,::1";

/// The service that is managed unless one is named.
pub const DEFAULT_SERVICE_NAME: &'static str = "clash-mihomo";

/// The profile that is used unless one is named.
pub const DEFAULT_PROFILE_NAME: &'static str = "main";

/// A whole command line.
#[derive(Debug)]
pub struct Cli {
    pub json: bool,
    pub command: Commands,
}

#[allow(inconsistent_fields)]
#[derive(Debug)]
pub enum Commands {
    Proxy { command: ProxyCommand },
    Core { command: CoreCommand },
    Service { command: ServiceCommand },
    Tun { command: TunCommand },
    Profile { command: ProfileCommand },
    Api { command: ApiCommand },
    Setup { command: SetupCommand },
}

#[allow(inconsistent_fields)]
#[derive(Debug)]
pub enum ProxyCommand {
    Start(StartArgs),
    Stop(StopArgs),
    Status,
    Env { action: EnvAction },
    Auto { action: AutoAction },
}

#[derive(Debug)]
pub enum CoreCommand {
    Install(CoreInstallArgs),
    Upgrade(CoreUpgradeArgs),
    Version,
    Path,
}

#[derive(Debug)]
pub enum ServiceCommand {
    Install(ServiceInstallArgs),
    Uninstall(ServiceUninstallArgs),
    Enable(ServiceTargetArgs),
    Disable(ServiceTargetArgs),
    Start(ServiceTargetArgs),
    Stop(ServiceTargetArgs),
    Restart(ServiceTargetArgs),
    Status(ServiceTargetArgs),
    Log(ServiceLogArgs),
}

#[derive(Debug)]
pub enum TunCommand {
    Doctor,
    On(TunApplyArgs),
    Off(TunApplyArgs),
    Status(TunStatusArgs),
}

#[derive(Debug)]
pub enum ProfileCommand {
    Add(ProfileAddArgs),
    List,
    Use(ProfileUseArgs),
    Fetch(ProfileFetchArgs),
    Remove(ProfileRemoveArgs),
    Render(ProfileRenderArgs),
    Validate(ProfileValidateArgs),
}

#[derive(Debug)]
pub enum ApiCommand {
    Status(ApiCommonArgs),
    Mode { action: ApiModeCommand, common: ApiCommonArgs },
    Proxies(ApiCommonArgs),
    Connections(ApiCommonArgs),
    UiUrl(ApiCommonArgs),
}

#[derive(Debug)]
pub enum ApiModeCommand {
    Get,
    SetTo(ApiModeSetArgs),
}

#[derive(Debug)]
pub enum SetupCommand {
    Init(SetupInitArgs),
    Unify(SetupUnifyArgs),
}

#[derive(Debug)]
pub struct ProfileAddArgs {
    pub name: String,
    pub url: String,
    pub use_profile: bool,
    pub no_fetch: bool,
}

pub struct ProfileAddArgsView {
    pub name: Seq<char>,
    pub url: Seq<char>,
    pub use_profile: bool,
    pub no_fetch: bool,
}

impl View for ProfileAddArgs {
    type V = ProfileAddArgsView;

    open spec fn view(&self) -> ProfileAddArgsView {
        ProfileAddArgsView {
            name: self.name@,
            url: self.url@,
            use_profile: self.use_profile,
            no_fetch: self.no_fetch,
        }
    }
}

#[derive(Debug)]
pub struct ProfileUseArgs {
    pub name: String,
    pub apply: bool,
    pub fetch: bool,
    pub service_name: String,
    pub no_restart: bool,
}

pub struct ProfileUseArgsView {
    pub name: Seq<char>,
    pub apply: bool,
    pub fetch: bool,
    pub service_name: Seq<char>,
    pub no_restart: bool,
}

impl View for ProfileUseArgs {
    type V = ProfileUseArgsView;

    open spec fn view(&self) -> ProfileUseArgsView {
        ProfileUseArgsView {
            name: self.name@,
            apply: self.apply,
            fetch: self.fetch,
            service_name: self.service_name@,
            no_restart: self.no_restart,
        }
    }
}

#[derive(Debug)]
pub struct ProfileFetchArgs {
    pub name: String,
    pub force: bool,
}

#[derive(Debug)]
pub struct ProfileRemoveArgs {
    pub name: String,
}

#[derive(Debug)]
pub struct ProfileRenderArgs {
    pub name: Option<String>,
    pub output: Option<String>,
    pub no_mixin: bool,
    pub follow_subscription_port: bool,
}

pub struct ProfileRenderArgsView {
    pub name: Option<Seq<char>>,
    pub output: Option<Seq<char>>,
    pub no_mixin: bool,
    pub follow_subscription_port: bool,
}

/// The view of an optional text.
pub open spec fn opt_text(s: Option<String>) -> Option<Seq<char>> {
    match s {
        Some(t) => Some(t@),
        None => None,
    }
}

impl View for ProfileRenderArgs {
    type V = ProfileRenderArgsView;

    open spec fn view(&self) -> ProfileRenderArgsView {
        ProfileRenderArgsView {
            name: opt_text(self.name),
            output: opt_text(self.output),
            no_mixin: self.no_mixin,
            follow_subscription_port: self.follow_subscription_port,
        }
    }
}

pub enum ProfileCommandView {
    Add(ProfileAddArgsView),
    List,
    Use(ProfileUseArgsView),
    Fetch(Seq<char>, bool),
    Remove(Seq<char>),
    Render(ProfileRenderArgsView),
    Validate(Option<Seq<char>>),
}

impl View for ProfileCommand {
    type V = ProfileCommandView;

    open spec fn view(&self) -> ProfileCommandView {
        match self {
            ProfileCommand::Add(a) => ProfileCommandView::Add(a@),
            ProfileCommand::List => ProfileCommandView::List,
            ProfileCommand::Use(a) => ProfileCommandView::Use(a@),
            ProfileCommand::Fetch(a) => ProfileCommandView::Fetch(a.name@, a.force),
            ProfileCommand::Remove(a) => ProfileCommandView::Remove(a.name@),
            ProfileCommand::Render(a) => ProfileCommandView::Render(a@),
            ProfileCommand::Validate(a) => ProfileCommandView::Validate(opt_text(a.name)),
        }
    }
}

#[derive(Debug)]
pub struct ProfileValidateArgs {
    pub name: Option<String>,
}

#[derive(Debug)]
pub struct ApiCommonArgs {
    pub controller: Option<String>,
    pub secret: Option<String>,
    pub timeout_secs: u64,
}

#[derive(Debug)]
pub struct ApiModeSetArgs {
    pub mode: ApiModeValue,
}

/// The modes that the controller can be switched to.
#[derive(Clone, Copy, Debug, PartialEq, Eq, Structural)]
pub enum ApiModeValue {
    Rule,
    Global,
    Direct,
    Script,
}

impl ApiModeValue {
    pub open spec fn name(self) -> Seq<char> {
        match self {
            ApiModeValue::Rule => "rule"@,
            ApiModeValue::Global => "global"@,
            ApiModeValue::Direct => "direct"@,
            ApiModeValue::Script => "script"@,
        }
    }

    /// The mode's name in the controller's API.
    pub fn as_api_str(self) -> (r: &'static str)
        ensures
            r@ == self.name(),
    {
        match self {
            ApiModeValue::Rule => "rule",
            ApiModeValue::Global => "global",
            ApiModeValue::Direct => "direct",
            ApiModeValue::Script => "script",
        }
    }
}

/// The arguments of `tun on` and `tun off`.
#[derive(Debug)]
pub struct TunApplyArgs {
    pub name: String,
    pub user: bool,
    pub no_restart: bool,
}

pub struct TunApplyArgsView {
    pub name: Seq<char>,
    pub user: bool,
    pub no_restart: bool,
}

impl View for TunApplyArgs {
    type V = TunApplyArgsView;

    open spec fn view(&self) -> TunApplyArgsView {
        TunApplyArgsView { name: self.name@, user: self.user, no_restart: self.no_restart }
    }
}

/// The arguments of `tun status`.
#[derive(Debug)]
pub struct TunStatusArgs {
    pub name: String,
    pub user: bool,
}

pub struct TunStatusArgsView {
    pub name: Seq<char>,
    pub user: bool,
}

impl View for TunStatusArgs {
    type V = TunStatusArgsView;

    open spec fn view(&self) -> TunStatusArgsView {
        TunStatusArgsView { name: self.name@, user: self.user }
    }
}

pub enum TunCommandView {
    Doctor,
    On(TunApplyArgsView),
    Off(TunApplyArgsView),
    Status(TunStatusArgsView),
}

impl View for TunCommand {
    type V = TunCommandView;

    open spec fn view(&self) -> TunCommandView {
        match self {
            TunCommand::Doctor => TunCommandView::Doctor,
            TunCommand::On(a) => TunCommandView::On(a@),
            TunCommand::Off(a) => TunCommandView::Off(a@),
            TunCommand::Status(a) => TunCommandView::Status(a@),
        }
    }
}

#[derive(Debug)]
pub struct StartArgs {
    pub host: Option<String>,
    pub http_port: Option<u16>,
    pub socks_port: Option<u16>,
    pub no_proxy: String,
    pub auto: bool,
    pub shell: Option<ShellKind>,
    pub print_env: bool,
}

pub struct StartArgsView {
    pub host: Option<Seq<char>>,
    pub http_port: Option<u16>,
    pub socks_port: Option<u16>,
    pub no_proxy: Seq<char>,
    pub auto: bool,
    pub shell: Option<ShellKind>,
    pub print_env: bool,
}

impl View for StartArgs {
    type V = StartArgsView;

    open spec fn view(&self) -> StartArgsView {
        StartArgsView {
            host: match self.host {
                Some(h) => Some(h@),
                None => None,
            },
            http_port: self.http_port,
            socks_port: self.socks_port,
            no_proxy: self.no_proxy@,
            auto: self.auto,
            shell: self.shell,
            print_env: self.print_env,
        }
    }
}

#[derive(Debug, Clone, Copy)]
pub struct StopArgs {
    pub auto_off: bool,
    pub shell: Option<ShellKind>,
    pub print_env: bool,
}

pub enum ProxyCommandView {
    Start(StartArgsView),
    Stop(StopArgs),
    Status,
    EnvOn,
    EnvOff,
    AutoOn(Option<ShellKind>),
    AutoOff(Option<ShellKind>),
    AutoStatus(Option<ShellKind>),
}

impl View for ProxyCommand {
    type V = ProxyCommandView;

    open spec fn view(&self) -> ProxyCommandView {
        match self {
            ProxyCommand::Start(a) => ProxyCommandView::Start(a@),
            ProxyCommand::Stop(a) => ProxyCommandView::Stop(*a),
            ProxyCommand::Status => ProxyCommandView::Status,
            ProxyCommand::Env { action } => match action {
                EnvAction::On => ProxyCommandView::EnvOn,
                EnvAction::Off => ProxyCommandView::EnvOff,
            },
            ProxyCommand::Auto { action } => match action {
                AutoAction::On { shell } => ProxyCommandView::AutoOn(*shell),
                AutoAction::Off { shell } => ProxyCommandView::AutoOff(*shell),
                AutoAction::Status { shell } => ProxyCommandView::AutoStatus(*shell),
            },
        }
    }
}

#[derive(Debug)]
pub struct CoreInstallArgs {
    pub version: String,
    pub mirror: MirrorSource,
    pub amd64_variant: Amd64Variant,
    pub force: bool,
}

pub struct CoreInstallArgsView {
    pub version: Seq<char>,
    pub mirror: MirrorSource,
    pub amd64_variant: Amd64Variant,
    pub force: bool,
}

impl View for CoreInstallArgs {
    type V = CoreInstallArgsView;

    open spec fn view(&self) -> CoreInstallArgsView {
        CoreInstallArgsView {
            version: self.version@,
            mirror: self.mirror,
            amd64_variant: self.amd64_variant,
            force: self.force,
        }
    }
}

pub enum CoreCommandView {
    Install(CoreInstallArgsView),
    Upgrade(MirrorSource, Amd64Variant, bool),
    Version,
    Path,
}

impl View for CoreCommand {
    type V = CoreCommandView;

    open spec fn view(&self) -> CoreCommandView {
        match self {
            CoreCommand::Install(a) => CoreCommandView::Install(a@),
            CoreCommand::Upgrade(a) => CoreCommandView::Upgrade(a.mirror, a.amd64_variant, a.force),
            CoreCommand::Version => CoreCommandView::Version,
            CoreCommand::Path => CoreCommandView::Path,
        }
    }
}

#[derive(Debug)]
pub struct CoreUpgradeArgs {
    pub mirror: MirrorSource,
    pub amd64_variant: Amd64Variant,
    pub force: bool,
}

#[derive(Debug)]
pub struct SetupInitArgs {
    pub profile_url: String,
    pub profile_name: String,
    pub core_version: String,
    pub mirror: MirrorSource,
    pub amd64_variant: Amd64Variant,
    pub force_core: bool,
    pub binary: String,
    pub workdir: String,
    pub service_name: String,
    pub no_tun: bool,
}

#[derive(Debug)]
pub struct SetupUnifyArgs {
    pub service_name: String,
    pub no_apply: bool,
    pub no_link: bool,
}

pub struct SetupInitArgsView {
    pub profile_url: Seq<char>,
    pub profile_name: Seq<char>,
    pub core_version: Seq<char>,
    pub mirror: MirrorSource,
    pub amd64_variant: Amd64Variant,
    pub force_core: bool,
    pub binary: Seq<char>,
    pub workdir: Seq<char>,
    pub service_name: Seq<char>,
    pub no_tun: bool,
}

impl View for SetupInitArgs {
    type V = SetupInitArgsView;

    open spec fn view(&self) -> SetupInitArgsView {
        SetupInitArgsView {
            profile_url: self.profile_url@,
            profile_name: self.profile_name@,
            core_version: self.core_version@,
            mirror: self.mirror,
            amd64_variant: self.amd64_variant,
            force_core: self.force_core,
            binary: self.binary@,
            workdir: self.workdir@,
            service_name: self.service_name@,
            no_tun: self.no_tun,
        }
    }
}

pub struct SetupUnifyArgsView {
    pub service_name: Seq<char>,
    pub no_apply: bool,
    pub no_link: bool,
}

impl View for SetupUnifyArgs {
    type V = SetupUnifyArgsView;

    open spec fn view(&self) -> SetupUnifyArgsView {
        SetupUnifyArgsView {
            service_name: self.service_name@,
            no_apply: self.no_apply,
            no_link: self.no_link,
        }
    }
}

pub enum SetupCommandView {
    Init(SetupInitArgsView),
    Unify(SetupUnifyArgsView),
}

impl View for SetupCommand {
    type V = SetupCommandView;

    open spec fn view(&self) -> SetupCommandView {
        match self {
            SetupCommand::Init(a) => SetupCommandView::Init(a@),
            SetupCommand::Unify(a) => SetupCommandView::Unify(a@),
        }
    }
}

#[derive(Debug)]
pub struct ServiceTargetArgs {
    pub name: String,
    pub user: bool,
}

pub struct ServiceTargetArgsView {
    pub name: Seq<char>,
    pub user: bool,
}

impl View for ServiceTargetArgs {
    type V = ServiceTargetArgsView;

    open spec fn view(&self) -> ServiceTargetArgsView {
        ServiceTargetArgsView { name: self.name@, user: self.user }
    }
}

pub struct ServiceInstallArgsView {
    pub target: ServiceTargetArgsView,
    pub binary: Option<Seq<char>>,
    pub config: Option<Seq<char>>,
    pub workdir: Option<Seq<char>>,
    pub force: bool,
    pub no_enable: bool,
    pub no_start: bool,
}

impl View for ServiceInstallArgs {
    type V = ServiceInstallArgsView;

    open spec fn view(&self) -> ServiceInstallArgsView {
        ServiceInstallArgsView {
            target: self.target@,
            binary: opt_text(self.binary),
            config: opt_text(self.config),
            workdir: opt_text(self.workdir),
            force: self.force,
            no_enable: self.no_enable,
            no_start: self.no_start,
        }
    }
}

/// What `systemctl` is asked to do with a unit.
#[derive(Clone, Copy, Debug, PartialEq, Eq, Structural)]
pub enum UnitAction {
    Enable,
    Disable,
    Start,
    Stop,
    Restart,
}

pub enum ServiceCommandView {
    Install(ServiceInstallArgsView),
    Uninstall(ServiceTargetArgsView, bool),
    Action(UnitAction, ServiceTargetArgsView),
    Status(ServiceTargetArgsView),
    Log(ServiceTargetArgsView, bool, usize),
}

impl View for ServiceCommand {
    type V = ServiceCommandView;

    open spec fn view(&self) -> ServiceCommandView {
        match self {
            ServiceCommand::Install(a) => ServiceCommandView::Install(a@),
            ServiceCommand::Uninstall(a) => ServiceCommandView::Uninstall(a.target@, a.purge),
            ServiceCommand::Enable(t) => ServiceCommandView::Action(UnitAction::Enable, t@),
            ServiceCommand::Disable(t) => ServiceCommandView::Action(UnitAction::Disable, t@),
            ServiceCommand::Start(t) => ServiceCommandView::Action(UnitAction::Start, t@),
            ServiceCommand::Stop(t) => ServiceCommandView::Action(UnitAction::Stop, t@),
            ServiceCommand::Restart(t) => ServiceCommandView::Action(UnitAction::Restart, t@),
            ServiceCommand::Status(t) => ServiceCommandView::Status(t@),
            ServiceCommand::Log(a) => ServiceCommandView::Log(a.target@, a.follow, a.lines),
        }
    }
}

#[derive(Debug)]
pub struct ServiceInstallArgs {
    pub target: ServiceTargetArgs,
    pub binary: Option<String>,
    pub config: Option<String>,
    pub workdir: Option<String>,
    pub force: bool,
    pub no_enable: bool,
    pub no_start: bool,
}

#[derive(Debug)]
pub struct ServiceUninstallArgs {
    pub target: ServiceTargetArgs,
    pub purge: bool,
}

#[derive(Debug)]
pub struct ServiceLogArgs {
    pub target: ServiceTargetArgs,
    pub follow: bool,
    pub lines: usize,
}

#[derive(Debug)]
pub enum EnvAction {
    On,
    Off,
}

#[derive(Debug)]
pub enum AutoAction {
    On { shell: Option<ShellKind> },
    Off { shell: Option<ShellKind> },
    Status { shell: Option<ShellKind> },
}

impl AutoAction {
    pub open spec fn chosen(self) -> Option<ShellKind> {
        match self {
            AutoAction::On { shell } => shell,
            AutoAction::Off { shell } => shell,
            AutoAction::Status { shell } => shell,
        }
    }

    /// The shell that the action names, if it names one.
    pub fn shell(&self) -> (r: Option<ShellKind>)
        ensures
            r == self.chosen(),
    {
        match self {
            AutoAction::On { shell } => *shell,
            AutoAction::Off { shell } => *shell,
            AutoAction::Status { shell } => *shell,
        }
    }
}

/// The shells whose start-up file can carry the hook.
#[derive(Clone, Copy, Debug, PartialEq, Eq, Structural)]
pub enum ShellKind {
    Bash,
    Zsh,
}

impl ShellKind {
    pub open spec fn name(self) -> Seq<char> {
        match self {
            ShellKind::Bash => "bash"@,
            ShellKind::Zsh => "zsh"@,
        }
    }

    /// The shell's name.
    pub fn as_str(self) -> (r: &'static str)
        ensures
            r@ == self.name(),
    {
        match self {
            ShellKind::Bash => "bash",
            ShellKind::Zsh => "zsh",
        }
    }
}

/// Where a release is downloaded from.
#[derive(Clone, Copy, Debug, PartialEq, Eq, Structural)]
pub enum MirrorSource {
    Auto,
    Ghfast,
    Github,
}

/// Which build for x86_64 is preferred.
#[derive(Clone, Copy, Debug, PartialEq, Eq, Structural)]
pub enum Amd64Variant {
    Auto,
    Compatible,
    V3,
}

} // verus!
