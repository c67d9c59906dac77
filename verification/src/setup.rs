//! One-step deployment: `init` installs kernel, profile, service and TUN
//! mode in a row; `unify` gathers the profiles of older configuration
//! directories in the system's one.

use crate::api::{ApiCommandView, ApiReport, ApiReportView};
use crate::cli::{
    Amd64Variant, ApiCommand, ApiCommonArgs, CoreCommand, CoreCommandView,
    CoreInstallArgs, CoreInstallArgsView, MirrorSource, ProfileAddArgs, ProfileAddArgsView,
    ProfileRenderArgs, ProfileUseArgs, ProfileUseArgsView, ServiceCommand, ServiceCommandView,
    ServiceInstallArgs, ServiceInstallArgsView, ServiceTargetArgs, ServiceTargetArgsView,
    SetupCommand, SetupCommandView, SetupInitArgs, SetupInitArgsView, SetupUnifyArgs,
    SetupUnifyArgsView, TunApplyArgs, TunApplyArgsView, UnitAction,
};
use crate::files::{
    bare_failure, clock, file_done, file_op, is_there, now_unix, path_exists,
};
use crate::host::{
    ask, bind, conclude, done, failed, halted, owned, push_arg, ran, ran_view, record_views,
    text_view, told, Effect, EffectView, Exchange, ExchangeView, Fault, FaultKind, FileOp, Halt,
    HaltView, HostEnv, HostEnvView, Invocation, InvocationView, Program, Ran, Replay, ReplyView,
    Step,
};
use crate::kernel::{CoreReport, CoreReportView};
use crate::paths::{
    app_paths, join_path, joined, located, parent_of, path_parent, path_with_extension,
    with_extension_of, AppPaths, AppPathsView, SYSTEM_CONFIG_DIR,
};
use crate::files::{ran_string};
use crate::paths::{file_name_of, path_file_name};
use crate::profile::index::{
    copy_entry, find_profile, has_profile, profile_index, profile_views, ProfileEntry,
    ProfileEntryView, ProfileIndex, ProfileIndexView,
};
use crate::profile::{
    bare_service_name, index_loaded, index_saved, load_index, path_eq, same_path, save_index,
    trim_service_suffix, use_render_args, ProfileReportView,
};
use crate::text::{
    after, before, concat, concat3, decimal, first_index, lines, push_decimal, push_str, rows,
    split_at_char, split_lines, text_of,
};
use crate::service::{ensure_linux_host, linux, ServiceReport, ServiceReportView};
use crate::text::{chars_of, same, trim, trim_chars, views};
use crate::tun::guard::{
    build_sudo_reexec_command, is_root_user, may_delegate, or_no, reexec_command, root_user,
    PrivilegeCheck,
};
use crate::tun::{TunReport, TunReportView};
use vstd::prelude::*;

verus! {

/// How long the dashboard's address may take to find out, in seconds.
pub const UI_TIMEOUT_SECS: u64 = 15;

impl MirrorSource {
    pub open spec fn name(self) -> Seq<char> {
        match self {
            MirrorSource::Auto => "auto"@,
            MirrorSource::Github => "github"@,
            MirrorSource::Ghfast => "ghfast"@,
        }
    }
}

impl Amd64Variant {
    pub open spec fn name(self) -> Seq<char> {
        match self {
            Amd64Variant::Auto => "auto"@,
            Amd64Variant::Compatible => "compatible"@,
            Amd64Variant::V3 => "v3"@,
        }
    }
}

/// The mirror's name on the command line.
pub fn mirror_source_str(v: MirrorSource) -> (r: &'static str)
    ensures
        r@ == v.name(),
{
    match v {
        MirrorSource::Auto => "auto",
        MirrorSource::Github => "github",
        MirrorSource::Ghfast => "ghfast",
    }
}

/// The variant's name on the command line.
pub fn amd64_variant_str(v: Amd64Variant) -> (r: &'static str)
    ensures
        r@ == v.name(),
{
    match v {
        Amd64Variant::Auto => "auto",
        Amd64Variant::Compatible => "compatible",
        Amd64Variant::V3 => "v3",
    }
}

// ---------------------------------------------------------------------------
// The guard
// ---------------------------------------------------------------------------

/// The arguments that repeat `setup init` with its flags.
pub open spec fn init_flags(args: SetupInitArgsView) -> Seq<Seq<char>> {
    seq![
        "setup"@,
        "init"@,
        "--profile-url"@,
        args.profile_url,
        "--profile-name"@,
        args.profile_name,
        "--core-version"@,
        args.core_version,
        "--mirror"@,
        args.mirror.name(),
        "--amd64-variant"@,
        args.amd64_variant.name(),
    ] + (if args.force_core {
        seq!["--force-core"@]
    } else {
        Seq::empty()
    }) + seq![
        "--binary"@,
        args.binary,
        "--workdir"@,
        args.workdir,
        "--service-name"@,
        args.service_name,
    ] + (if args.no_tun {
        seq!["--no-tun"@]
    } else {
        Seq::empty()
    })
}

/// The arguments that repeat `setup unify` with its flags.
pub open spec fn unify_flags(args: SetupUnifyArgsView) -> Seq<Seq<char>> {
    seq!["setup"@, "unify"@, "--service-name"@, args.service_name] + (if args.no_apply {
        seq!["--no-apply"@]
    } else {
        Seq::empty()
    }) + (if args.no_link {
        seq!["--no-link"@]
    } else {
        Seq::empty()
    })
}

/// The flags of `setup init` for the elevated re-run.
pub fn append_setup_init_args(args: &SetupInitArgs) -> (r: Vec<String>)
    ensures
        views(r@) == init_flags(args@),
{
    let mut out: Vec<String> = Vec::new();
    assert(views(out@) =~= Seq::<Seq<char>>::empty());
    push_arg(&mut out, "setup");
    push_arg(&mut out, "init");
    push_arg(&mut out, "--profile-url");
    push_arg(&mut out, args.profile_url.as_str());
    push_arg(&mut out, "--profile-name");
    push_arg(&mut out, args.profile_name.as_str());
    push_arg(&mut out, "--core-version");
    push_arg(&mut out, args.core_version.as_str());
    push_arg(&mut out, "--mirror");
    push_arg(&mut out, mirror_source_str(args.mirror));
    push_arg(&mut out, "--amd64-variant");
    push_arg(&mut out, amd64_variant_str(args.amd64_variant));
    if args.force_core {
        push_arg(&mut out, "--force-core");
    }
    push_arg(&mut out, "--binary");
    push_arg(&mut out, args.binary.as_str());
    push_arg(&mut out, "--workdir");
    push_arg(&mut out, args.workdir.as_str());
    push_arg(&mut out, "--service-name");
    push_arg(&mut out, args.service_name.as_str());
    if args.no_tun {
        push_arg(&mut out, "--no-tun");
    }
    assert(views(out@) =~= init_flags(args@));
    out
}

/// The flags of `setup unify` for the elevated re-run.
pub fn append_setup_unify_args(args: &SetupUnifyArgs) -> (r: Vec<String>)
    ensures
        views(r@) == unify_flags(args@),
{
    let mut out: Vec<String> = Vec::new();
    assert(views(out@) =~= Seq::<Seq<char>>::empty());
    push_arg(&mut out, "setup");
    push_arg(&mut out, "unify");
    push_arg(&mut out, "--service-name");
    push_arg(&mut out, args.service_name.as_str());
    if args.no_apply {
        push_arg(&mut out, "--no-apply");
    }
    if args.no_link {
        push_arg(&mut out, "--no-link");
    }
    assert(views(out@) =~= unify_flags(args@));
    out
}

/// Whether a program answers to `--version`.
pub open spec fn has_tool(log: Seq<ExchangeView>, at: int, program: Program) -> Ran<bool> {
    bind(ask(log, at, EffectView::Tool(program, true)), |r: ReplyView, at1: int| done(r.ok, at1))
}

/// Whether a program answers to `--version`.
pub fn command_exists(host: &mut Replay, program: Program) -> (r: Result<bool, Halt>)
    ensures
        final(host).seen() == old(host).seen(),
        ran(r, final(host).pos()) == has_tool(old(host).seen(), old(host).pos(), program),
{
    let reply = host.perform(Effect::Tool(program, true))?;
    Ok(reply.ok)
}

/// The guard of `setup`: root goes on; another user is re-run elevated
/// where that is possible, and goes on (to be refused) where it is not.
#[verifier::opaque]
pub open spec fn guarded(env: HostEnvView, log: Seq<ExchangeView>, at: int, flags: Seq<Seq<char>>) -> Ran<
    PrivilegeCheck,
> {
    bind(
        or_no(root_user(log, at)),
        |root: bool, at1: int|
            if root || !may_delegate(env) {
                done(PrivilegeCheck::Granted, at1)
            } else {
                bind(
                    has_tool(log, at1, Program::Sudo),
                    |sudo: bool, at2: int|
                        if !sudo {
                            done(PrivilegeCheck::Granted, at2)
                        } else {
                            match env.current_exe {
                                None => bare_failure(FaultKind::CurrentExeUnknown, at2),
                                Some(exe) => bind(
                                    ask(
                                        log,
                                        at2,
                                        EffectView::Status(reexec_command(env, exe, flags)),
                                    ),
                                    |r: ReplyView, at3: int|
                                        if r.ok {
                                            done(PrivilegeCheck::Delegated, at3)
                                        } else {
                                            failed(FaultKind::ElevationFailed, r.detail, at3)
                                        },
                                ),
                            }
                        },
                )
            },
    )
}

/// Whether `setup` may be handed to an elevated copy.
pub fn should_auto_delegate_to_sudo(env: &HostEnv) -> (r: bool)
    ensures
        r == may_delegate(env@),
{
    if env.json || env.no_auto_sudo {
        return false;
    }
    let marked = match &env.sudo_reexec {
        Some(v) => same(v.as_str(), crate::tun::guard::SUDO_REEXEC_MARK),
        None => false,
    };
    if marked {
        return false;
    }
    env.stdin_terminal && env.stderr_terminal
}

/// Re-runs `setup` elevated.
fn run_setup_with_sudo(env: &HostEnv, host: &mut Replay, exe: &str, flags: Vec<String>) -> (r:
    Result<PrivilegeCheck, Halt>)
    ensures
        final(host).seen() == old(host).seen(),
        ran(r, final(host).pos()) == bind(
            ask(
                old(host).seen(),
                old(host).pos(),
                EffectView::Status(reexec_command(env@, exe@, views(flags@))),
            ),
            |r: ReplyView, at3: int|
                if r.ok {
                    done(PrivilegeCheck::Delegated, at3)
                } else {
                    failed(FaultKind::ElevationFailed, r.detail, at3)
                },
        ),
{
    let mut args = build_sudo_reexec_command(env, exe);
    let ghost prefix = views(args@);
    let mut i: usize = 0;
    while i < flags.len()
        invariant
            i <= flags.len(),
            views(args@) == prefix + views(flags@).subrange(0, i as int),
        decreases flags.len() - i,
    {
        push_arg(&mut args, flags[i].as_str());
        i = i + 1;
        assert(views(args@) =~= prefix + views(flags@).subrange(0, i as int));
    }
    assert(views(flags@).subrange(0, flags.len() as int) =~= views(flags@));
    let reply = host.perform(
        Effect::Status(Invocation { program: owned(Program::Sudo.as_str()), args, stdin: None }),
    )?;
    if reply.ok {
        Ok(PrivilegeCheck::Delegated)
    } else {
        Err(
            Halt::Fail(
                Fault { kind: FaultKind::ElevationFailed, detail: reply.detail, rolled_back: false },
            ),
        )
    }
}

/// The guard of `setup`.
pub fn ensure_setup_privileges_or_delegate(env: &HostEnv, host: &mut Replay, flags: Vec<String>) -> (r:
    Result<PrivilegeCheck, Halt>)
    ensures
        final(host).seen() == old(host).seen(),
        ran(r, final(host).pos()) == guarded(
            env@,
            old(host).seen(),
            old(host).pos(),
            views(flags@),
        ),
{
    proof {
        reveal(guarded);
    }
    let root = match is_root_user(host) {
        Ok(b) => b,
        Err(Halt::Need(e)) => {
            return Err(Halt::Need(e));
        },
        Err(Halt::Fail(_)) => false,
    };
    if root || !should_auto_delegate_to_sudo(env) {
        return Ok(PrivilegeCheck::Granted);
    }
    if !command_exists(host, Program::Sudo)? {
        return Ok(PrivilegeCheck::Granted);
    }
    match &env.current_exe {
        None => Err(
            Halt::Fail(
                Fault {
                    kind: FaultKind::CurrentExeUnknown,
                    detail: String::new(),
                    rolled_back: false,
                },
            ),
        ),
        Some(exe) => run_setup_with_sudo(env, host, exe.as_str(), flags),
    }
}

/// The command needs root.
#[verifier::opaque]
pub open spec fn root_required(log: Seq<ExchangeView>, at: int) -> Ran<()> {
    bind(
        root_user(log, at),
        |root: bool, at1: int|
            if root {
                done((), at1)
            } else {
                bare_failure(FaultKind::NotRoot, at1)
            },
    )
}

/// Fails unless the process runs as root.
pub fn ensure_root_user(host: &mut Replay) -> (r: Result<(), Halt>)
    ensures
        final(host).seen() == old(host).seen(),
        ran(r, final(host).pos()) == root_required(old(host).seen(), old(host).pos()),
{
    proof {
        reveal(root_required);
    }
    if !is_root_user(host)? {
        return Err(
            Halt::Fail(Fault { kind: FaultKind::NotRoot, detail: String::new(), rolled_back: false }),
        );
    }
    Ok(())
}

/// The facts for the rest of `setup`: the system's configuration directory
/// is used unless another is set.
pub open spec fn system_home(env: HostEnvView) -> HostEnvView {
    match env.home_override {
        Some(_) => env,
        None => HostEnvView { home_override: Some(SYSTEM_CONFIG_DIR@), ..env },
    }
}

/// Chooses the system's configuration directory unless another is set.
pub fn ensure_setup_home_for_root(env: &HostEnv) -> (r: HostEnv)
    ensures
        r@ == system_home(env@),
{
    match &env.home_override {
        Some(home) => env.with_home(Some(home.clone())),
        None => env.with_home(Some(owned(SYSTEM_CONFIG_DIR))),
    }
}

/// What `setup` checks before it does anything: the platform, the
/// privileges, root, and that text output is asked for.
#[verifier::opaque]
pub open spec fn entry_checked(env: HostEnvView, log: Seq<ExchangeView>, at: int, flags: Seq<Seq<char>>) -> Ran<
    PrivilegeCheck,
> {
    bind(
        linux(env, at),
        |u: (), at0: int|
            bind(
                guarded(env, log, at0, flags),
                |guard: PrivilegeCheck, at1: int|
                    if guard == PrivilegeCheck::Delegated {
                        done(guard, at1)
                    } else {
                        bind(
                            root_required(log, at1),
                            |u: (), at2: int|
                                if env.json {
                                    bare_failure(FaultKind::JsonUnsupported, at2)
                                } else {
                                    done(PrivilegeCheck::Granted, at2)
                                },
                        )
                    },
            ),
    )
}

/// Checks what `setup` needs before it does anything.
fn check_entry(env: &HostEnv, host: &mut Replay, flags: Vec<String>) -> (r: Result<PrivilegeCheck, Halt>)
    ensures
        final(host).seen() == old(host).seen(),
        ran(r, final(host).pos()) == entry_checked(
            env@,
            old(host).seen(),
            old(host).pos(),
            views(flags@),
        ),
{
    proof {
        reveal(entry_checked);
    }
    ensure_linux_host(env)?;
    match ensure_setup_privileges_or_delegate(env, host, flags)? {
        PrivilegeCheck::Delegated => {
            return Ok(PrivilegeCheck::Delegated);
        },
        PrivilegeCheck::Granted => {},
    }
    ensure_root_user(host)?;
    if env.json {
        return Err(
            Halt::Fail(
                Fault { kind: FaultKind::JsonUnsupported, detail: String::new(), rolled_back: false },
            ),
        );
    }
    Ok(PrivilegeCheck::Granted)
}

// ---------------------------------------------------------------------------
// init
// ---------------------------------------------------------------------------

/// What `setup init` did.
#[derive(Debug)]
pub struct InitReport {
    pub core: CoreReport,
    pub binary: String,
    /// Whether the profile was there already and was fetched anew.
    pub profile_existed: bool,
    pub service: ServiceReport,
    pub tun: Option<TunReport>,
    pub api: ApiReport,
    pub config_dir: String,
    pub runtime_config: String,
    pub service_name: String,
    pub workdir: String,
}

pub struct InitReportView {
    pub core: CoreReportView,
    pub binary: Seq<char>,
    pub profile_existed: bool,
    pub service: ServiceReportView,
    pub tun: Option<TunReportView>,
    pub api: ApiReportView,
    pub config_dir: Seq<char>,
    pub runtime_config: Seq<char>,
    pub service_name: Seq<char>,
    pub workdir: Seq<char>,
}

/// The view of an optional report.
pub open spec fn tun_view(t: Option<TunReport>) -> Option<TunReportView> {
    match t {
        Some(x) => Some(x@),
        None => None,
    }
}

impl View for InitReport {
    type V = InitReportView;

    open spec fn view(&self) -> InitReportView {
        InitReportView {
            core: self.core@,
            binary: self.binary@,
            profile_existed: self.profile_existed,
            service: self.service@,
            tun: tun_view(self.tun),
            api: self.api@,
            config_dir: self.config_dir@,
            runtime_config: self.runtime_config@,
            service_name: self.service_name@,
            workdir: self.workdir@,
        }
    }
}

/// The kernel is copied to where the service runs it from.
#[verifier::opaque]
pub open spec fn binary_installed(log: Seq<ExchangeView>, at: int, source: Seq<char>, target: Seq<char>) -> Ran<
    (),
> {
    match parent_of(target) {
        None => failed(FaultKind::InvalidInstallPath, target, at),
        Some(parent) => bind(
            file_done(log, at, FileOp::CreateDir, parent, Seq::empty(), FaultKind::DirCreate),
            |u: (), at1: int|
                bind(
                    file_done(
                        log,
                        at1,
                        FileOp::Copy,
                        source,
                        with_extension_of(target, "new"@),
                        FaultKind::InstallFailed,
                    ),
                    |u: (), at2: int|
                        bind(
                            file_done(
                                log,
                                at2,
                                FileOp::SetExecutable,
                                with_extension_of(target, "new"@),
                                Seq::empty(),
                                FaultKind::InstallFailed,
                            ),
                            |u: (), at3: int|
                                bind(
                                    file_done(
                                        log,
                                        at3,
                                        FileOp::Rename,
                                        with_extension_of(target, "new"@),
                                        target,
                                        FaultKind::InstallFailed,
                                    ),
                                    |u: (), at4: int| context_restored(log, at4, target),
                                ),
                        ),
                ),
        ),
    }
}

/// `restorecon -v` on a file.
pub open spec fn restorecon_command(target: Seq<char>) -> InvocationView {
    InvocationView { program: Program::Restorecon.name(), args: seq!["-v"@, target], stdin: None }
}

/// Where `restorecon` is installed the file's security context is
/// restored; whether that succeeds does not matter.
pub open spec fn context_restored(log: Seq<ExchangeView>, at: int, target: Seq<char>) -> Ran<()> {
    bind(
        has_tool(log, at, Program::Restorecon),
        |there: bool, at1: int|
            if there {
                bind(
                    ask(log, at1, EffectView::Status(restorecon_command(target))),
                    |r: ReplyView, at2: int| done((), at2),
                )
            } else {
                done((), at1)
            },
    )
}

/// Restores the file's security context where that can be done.
fn restore_context(host: &mut Replay, target: &str) -> (r: Result<(), Halt>)
    ensures
        final(host).seen() == old(host).seen(),
        ran(r, final(host).pos()) == context_restored(old(host).seen(), old(host).pos(), target@),
{
    if command_exists(host, Program::Restorecon)? {
        let mut args: Vec<String> = Vec::new();
        assert(views(args@) =~= Seq::<Seq<char>>::empty());
        push_arg(&mut args, "-v");
        push_arg(&mut args, target);
        assert(views(args@) =~= seq!["-v"@, target@]);
        let _ = host.perform(
            Effect::Status(
                Invocation { program: owned(Program::Restorecon.as_str()), args, stdin: None },
            ),
        )?;
    }
    Ok(())
}

/// Copies the kernel to where the service runs it from.
pub fn install_binary(host: &mut Replay, source: &str, target: &str) -> (r: Result<(), Halt>)
    ensures
        final(host).seen() == old(host).seen(),
        ran(r, final(host).pos()) == binary_installed(
            old(host).seen(),
            old(host).pos(),
            source@,
            target@,
        ),
{
    proof {
        reveal(binary_installed);
    }
    let parent = match path_parent(target) {
        Some(p) => p,
        None => {
            return Err(
                Halt::Fail(
                    Fault {
                        kind: FaultKind::InvalidInstallPath,
                        detail: owned(target),
                        rolled_back: false,
                    },
                ),
            );
        },
    };
    let none = String::new();
    file_op(host, FileOp::CreateDir, parent.as_str(), none.as_str(), FaultKind::DirCreate)?;
    proof {
        reveal_strlit("new");
    }
    let tmp = path_with_extension(target, "new");
    file_op(host, FileOp::Copy, source, tmp.as_str(), FaultKind::InstallFailed)?;
    file_op(host, FileOp::SetExecutable, tmp.as_str(), none.as_str(), FaultKind::InstallFailed)?;
    file_op(host, FileOp::Rename, tmp.as_str(), target, FaultKind::InstallFailed)?;
    restore_context(host, target)
}

/// The arguments with which `setup init` adds the profile.
pub open spec fn init_add_args(name: Seq<char>, url: Seq<char>) -> ProfileAddArgsView {
    ProfileAddArgsView { name, url, use_profile: true, no_fetch: false }
}

/// The arguments with which `setup init` makes an existing profile the
/// active one.
pub open spec fn init_use_args(name: Seq<char>) -> ProfileUseArgsView {
    ProfileUseArgsView {
        name,
        apply: false,
        fetch: false,
        service_name: "clash-mihomo"@,
        no_restart: true,
    }
}

/// The profile is added; where it exists already it is fetched anew and
/// made the active one. The value says whether it existed.
#[verifier::opaque]
pub open spec fn profile_ready(
    env: HostEnvView,
    log: Seq<ExchangeView>,
    at: int,
    name: Seq<char>,
    url: Seq<char>,
) -> Ran<bool> {
    let first = crate::profile::added(env, log, at, init_add_args(name, url));
    match first.out {
        Ok(_) => done(false, first.at),
        Err(HaltView::Need(e)) => halted(HaltView::Need(e), first.at),
        Err(HaltView::Fail(f)) => if f.kind != FaultKind::ProfileExists {
            halted(HaltView::Fail(f), first.at)
        } else {
            bind(
                crate::profile::fetch_run(env, log, first.at, name, true),
                |r: ProfileReportView, at1: int|
                    bind(
                        crate::profile::used(env, log, at1, init_use_args(name)),
                        |r: ProfileReportView, at2: int| done(true, at2),
                    ),
            )
        },
    }
}

/// Adds the profile, or fetches and activates the one that is there.
pub fn ensure_profile_ready(env: &HostEnv, host: &mut Replay, name: &str, url: &str) -> (r: Result<
    bool,
    Halt,
>)
    ensures
        final(host).seen() == old(host).seen(),
        ran(r, final(host).pos()) == profile_ready(
            env@,
            old(host).seen(),
            old(host).pos(),
            name@,
            url@,
        ),
{
    proof {
        reveal(profile_ready);
    }
    let add = ProfileAddArgs {
        name: owned(name),
        url: owned(url),
        use_profile: true,
        no_fetch: false,
    };
    match crate::profile::cmd_add(env, host, &add) {
        Ok(_) => Ok(false),
        Err(Halt::Need(e)) => Err(Halt::Need(e)),
        Err(Halt::Fail(f)) => {
            if f.kind != FaultKind::ProfileExists {
                return Err(Halt::Fail(f));
            }
            let _ = crate::profile::cmd_fetch(env, host, name, true)?;
            let use_args = ProfileUseArgs {
                name: owned(name),
                apply: false,
                fetch: false,
                service_name: owned("clash-mihomo"),
                no_restart: true,
            };
            let _ = crate::profile::cmd_use(env, host, &use_args)?;
            Ok(true)
        },
    }
}

/// What `setup init` installs as kernel.
pub open spec fn init_core_args(args: SetupInitArgsView) -> CoreInstallArgsView {
    CoreInstallArgsView {
        version: args.core_version,
        mirror: args.mirror,
        amd64_variant: args.amd64_variant,
        force: args.force_core,
    }
}

/// The service that `setup init` installs.
pub open spec fn init_service_args(args: SetupInitArgsView, paths: AppPathsView) -> ServiceInstallArgsView {
    ServiceInstallArgsView {
        target: ServiceTargetArgsView { name: args.service_name, user: false },
        binary: Some(args.binary),
        config: Some(paths.runtime_config_file),
        workdir: Some(args.workdir),
        force: true,
        no_enable: false,
        no_start: false,
    }
}

/// The arguments with which `setup init` switches TUN mode on.
pub open spec fn init_tun_args(args: SetupInitArgsView) -> TunApplyArgsView {
    TunApplyArgsView { name: args.service_name, user: false, no_restart: false }
}

/// The arguments with which `setup init` asks for the dashboard.
pub open spec fn init_api_command() -> ApiCommandView {
    ApiCommandView::UiUrl(
        crate::api::ApiCommonArgsView { controller: None, secret: None, timeout_secs: UI_TIMEOUT_SECS },
    )
}

/// The first half of `setup init`: kernel and profile.
#[verifier::opaque]
pub open spec fn init_fetched(
    env: HostEnvView,
    log: Seq<ExchangeView>,
    at: int,
    args: SetupInitArgsView,
) -> Ran<(CoreReportView, AppPathsView, bool)> {
    bind(
        crate::kernel::outcome_at(CoreCommandView::Install(init_core_args(args)), env, log, at),
        |core: CoreReportView, at1: int|
            bind(
                located(env, log, at1),
                |paths: AppPathsView, at2: int|
                    bind(
                        is_there(log, at2, paths.core_current_link),
                        |there: bool, at3: int|
                            if !there {
                                failed(FaultKind::InstallFailed, paths.core_current_link, at3)
                            } else {
                                bind(
                                    binary_installed(
                                        log,
                                        at3,
                                        paths.core_current_link,
                                        args.binary,
                                    ),
                                    |u: (), at4: int|
                                        bind(
                                            profile_ready(
                                                env,
                                                log,
                                                at4,
                                                args.profile_name,
                                                args.profile_url,
                                            ),
                                            |existed: bool, at5: int|
                                                bind(
                                                    crate::profile::rendered(
                                                        env,
                                                        log,
                                                        at5,
                                                        use_render_args(args.profile_name),
                                                    ),
                                                    |r: ProfileReportView, at6: int|
                                                        done((core, paths, existed), at6),
                                                ),
                                        ),
                                )
                            },
                    ),
            ),
    )
}

/// The second half of `setup init`: service, TUN mode and dashboard.
#[verifier::opaque]
pub open spec fn init_deployed(
    env: HostEnvView,
    log: Seq<ExchangeView>,
    at: int,
    args: SetupInitArgsView,
    paths: AppPathsView,
) -> Ran<(ServiceReportView, Option<TunReportView>, ApiReportView)> {
    bind(
        crate::service::outcome_at(
            ServiceCommandView::Install(init_service_args(args, paths)),
            env,
            log,
            at,
        ),
        |service: ServiceReportView, at1: int|
            bind(
                if args.no_tun {
                    done(None, at1)
                } else {
                    bind(
                        crate::tun::on(env, log, at1, init_tun_args(args)),
                        |t: TunReportView, at2: int| done(Some(t), at2),
                    )
                },
                |tun: Option<TunReportView>, at3: int|
                    bind(
                        crate::api::outcome_at(init_api_command(), env, log, at3),
                        |api: ApiReportView, at4: int| done((service, tun, api), at4),
                    ),
            ),
    )
}

/// `setup init` once the process may go on; `env` is the facts with the
/// system's configuration directory.
pub open spec fn initialised(
    env: HostEnvView,
    log: Seq<ExchangeView>,
    at: int,
    args: SetupInitArgsView,
) -> Ran<InitReportView> {
    if trim(args.profile_url).len() == 0 {
        bare_failure(FaultKind::EmptyProfileUrl, at)
    } else {
        bind(
            init_fetched(env, log, at, args),
            |first: (CoreReportView, AppPathsView, bool), at1: int|
                bind(
                    init_deployed(env, log, at1, args, first.1),
                    |second: (ServiceReportView, Option<TunReportView>, ApiReportView), at2: int|
                        done(
                            InitReportView {
                                core: first.0,
                                binary: args.binary,
                                profile_existed: first.2,
                                service: second.0,
                                tun: second.1,
                                api: second.2,
                                config_dir: first.1.config_dir,
                                runtime_config: first.1.runtime_config_file,
                                service_name: bare_service_name(args.service_name) + ".service"@,
                                workdir: args.workdir,
                            },
                            at2,
                        ),
                ),
        )
    }
}

/// The view of a result of the first half of `init`.
pub open spec fn ran_fetched(r: Result<(CoreReport, AppPaths, bool), Halt>, at: int) -> Ran<
    (CoreReportView, AppPathsView, bool),
> {
    Ran {
        out: match r {
            Ok(f) => Ok((f.0@, f.1@, f.2)),
            Err(h) => Err(h@),
        },
        at,
    }
}

/// The view of a result of the second half of `init`.
pub open spec fn ran_deployed(
    r: Result<(ServiceReport, Option<TunReport>, ApiReport), Halt>,
    at: int,
) -> Ran<(ServiceReportView, Option<TunReportView>, ApiReportView)> {
    Ran {
        out: match r {
            Ok(f) => Ok((f.0@, tun_view(f.1), f.2@)),
            Err(h) => Err(h@),
        },
        at,
    }
}

/// Installs kernel and profile.
fn init_fetch(env: &HostEnv, host: &mut Replay, args: &SetupInitArgs) -> (r: Result<
    (CoreReport, AppPaths, bool),
    Halt,
>)
    ensures
        final(host).seen() == old(host).seen(),
        ran_fetched(r, final(host).pos()) == init_fetched(
            env@,
            old(host).seen(),
            old(host).pos(),
            args@,
        ),
{
    proof {
        reveal(init_fetched);
    }
    let install = CoreCommand::Install(
        CoreInstallArgs {
            version: args.core_version.clone(),
            mirror: args.mirror,
            amd64_variant: args.amd64_variant,
            force: args.force_core,
        },
    );
    let core = crate::kernel::run_on(&install, env, host)?;
    let paths = app_paths(env, host)?;
    if !path_exists(host, paths.core_current_link.as_str())? {
        return Err(
            Halt::Fail(
                Fault {
                    kind: FaultKind::InstallFailed,
                    detail: paths.core_current_link,
                    rolled_back: false,
                },
            ),
        );
    }
    install_binary(host, paths.core_current_link.as_str(), args.binary.as_str())?;
    let existed = ensure_profile_ready(
        env,
        host,
        args.profile_name.as_str(),
        args.profile_url.as_str(),
    )?;
    let render = ProfileRenderArgs {
        name: Some(args.profile_name.clone()),
        output: None,
        no_mixin: false,
        follow_subscription_port: false,
    };
    let _ = crate::profile::cmd_render(env, host, &render)?;
    Ok((core, paths, existed))
}

/// Installs the service, switches TUN mode on and asks for the dashboard.
fn init_deploy(env: &HostEnv, host: &mut Replay, args: &SetupInitArgs, paths: &AppPaths) -> (r:
    Result<(ServiceReport, Option<TunReport>, ApiReport), Halt>)
    ensures
        final(host).seen() == old(host).seen(),
        ran_deployed(r, final(host).pos()) == init_deployed(
            env@,
            old(host).seen(),
            old(host).pos(),
            args@,
            paths@,
        ),
{
    proof {
        reveal(init_deployed);
    }
    let install = ServiceCommand::Install(
        ServiceInstallArgs {
            target: ServiceTargetArgs { name: args.service_name.clone(), user: false },
            binary: Some(args.binary.clone()),
            config: Some(paths.runtime_config_file.clone()),
            workdir: Some(args.workdir.clone()),
            force: true,
            no_enable: false,
            no_start: false,
        },
    );
    let service = crate::service::run_on(&install, env, host)?;
    let mut tun: Option<TunReport> = None;
    if !args.no_tun {
        let on = TunApplyArgs { name: args.service_name.clone(), user: false, no_restart: false };
        tun = Some(crate::tun::cmd_on(env, host, &on)?);
    }
    let ui = ApiCommand::UiUrl(
        ApiCommonArgs { controller: None, secret: None, timeout_secs: UI_TIMEOUT_SECS },
    );
    let api = crate::api::run_on(&ui, env, host)?;
    Ok((service, tun, api))
}

/// `setup init` once the process may go on.
pub fn cmd_init(env: &HostEnv, host: &mut Replay, args: &SetupInitArgs) -> (r: Result<
    InitReport,
    Halt,
>)
    ensures
        final(host).seen() == old(host).seen(),
        ran_view(r, final(host).pos()) == initialised(
            env@,
            old(host).seen(),
            old(host).pos(),
            args@,
        ),
{
    if trim_chars(&chars_of(args.profile_url.as_str())).len() == 0 {
        return Err(
            Halt::Fail(
                Fault { kind: FaultKind::EmptyProfileUrl, detail: String::new(), rolled_back: false },
            ),
        );
    }
    let (core, paths, profile_existed) = init_fetch(env, host, args)?;
    let (service, tun, api) = init_deploy(env, host, args, &paths)?;
    let bare = trim_service_suffix(args.service_name.as_str());
    Ok(
        InitReport {
            core,
            binary: args.binary.clone(),
            profile_existed,
            service,
            tun,
            api,
            config_dir: paths.config_dir,
            runtime_config: paths.runtime_config_file,
            service_name: crate::text::concat(bare.as_str(), ".service"),
            workdir: args.workdir.clone(),
        },
    )
}

// ---------------------------------------------------------------------------
// unify
// ---------------------------------------------------------------------------

/// How many profiles a merge imported, found in place, found in conflict,
/// and found without their file.
#[derive(Clone, Copy, Debug, PartialEq, Eq, Structural)]
pub struct UnifyStats {
    pub imported: usize,
    pub existed: usize,
    pub conflicts: usize,
    pub missing_files: usize,
}

/// How many directories were replaced by links, were links already, and
/// could not be replaced.
#[derive(Clone, Copy, Debug, PartialEq, Eq, Structural)]
pub struct LinkStats {
    pub linked: usize,
    pub already_linked: usize,
    pub failed: usize,
}

/// What a warning of `unify` is about.
#[derive(Clone, Copy, Debug, PartialEq, Eq, Structural)]
pub enum WarningKind {
    /// A profile of a source has no file.
    MissingFile,
    /// A profile of a source has the name of another with another URL.
    Conflict,
    /// Where a link points to could not be read.
    ReadLink,
    /// A directory could not be moved aside.
    BackupFailed,
    /// A link could not be made.
    LinkFailed,
}

/// A warning of `unify`: what it is about, the profile or directory, and
/// the machine's text.
#[derive(Debug)]
pub struct Warning {
    pub kind: WarningKind,
    pub subject: String,
    pub detail: String,
}

pub struct WarningView {
    pub kind: WarningKind,
    pub subject: Seq<char>,
    pub detail: Seq<char>,
}

impl View for Warning {
    type V = WarningView;

    open spec fn view(&self) -> WarningView {
        WarningView { kind: self.kind, subject: self.subject@, detail: self.detail@ }
    }
}

/// The views of a list of warnings.
pub open spec fn warning_views(v: Seq<Warning>) -> Seq<WarningView> {
    Seq::new(v.len(), |i: int| v[i]@)
}

/// One more, as far as the counter goes.
pub open spec fn bumped(n: usize) -> usize {
    if n < usize::MAX {
        (n + 1) as usize
    } else {
        n
    }
}

fn bump(n: usize) -> (r: usize)
    ensures
        r == bumped(n),
{
    if n < usize::MAX {
        n + 1
    } else {
        n
    }
}

/// The state of a merge: the index that grows, the counters, the warnings.
#[derive(Debug)]
pub struct MergeState {
    pub index: ProfileIndex,
    pub stats: UnifyStats,
    pub warnings: Vec<Warning>,
}

pub struct MergeStateView {
    pub index: ProfileIndexView,
    pub stats: UnifyStats,
    pub warnings: Seq<WarningView>,
}

impl View for MergeState {
    type V = MergeStateView;

    open spec fn view(&self) -> MergeStateView {
        MergeStateView {
            index: self.index@,
            stats: self.stats,
            warnings: warning_views(self.warnings@),
        }
    }
}

/// A state with one more warning.
pub open spec fn warned(
    state: MergeStateView,
    stats: UnifyStats,
    kind: WarningKind,
    subject: Seq<char>,
    detail: Seq<char>,
) -> MergeStateView {
    MergeStateView {
        stats,
        warnings: state.warnings.push(WarningView { kind, subject, detail }),
        ..state
    }
}

/// The later of two optional times, none counting as the earliest.
pub open spec fn later(a: Option<u64>, b: Option<u64>) -> Option<u64> {
    let x = match a {
        Some(t) => t,
        None => 0,
    };
    let y = match b {
        Some(t) => t,
        None => 0,
    };
    if x < y {
        b
    } else {
        a
    }
}

/// A file is copied unless the target is there.
pub open spec fn copied_unless_there(
    log: Seq<ExchangeView>,
    at: int,
    source: Seq<char>,
    target: Seq<char>,
) -> Ran<()> {
    bind(
        is_there(log, at, target),
        |there: bool, at1: int|
            if there {
                done((), at1)
            } else {
                file_done(log, at1, FileOp::Copy, source, target, FaultKind::CopyFailed)
            },
    )
}

/// One profile of a source is merged into the index. A profile without
/// file is skipped with a warning; one whose name is taken by a profile
/// with another URL is skipped with a warning; one that is in the index is
/// given the later time and its file, where that is missing; a new one is
/// imported under a file name of its own.
#[verifier::opaque]
pub open spec fn entry_merged(
    log: Seq<ExchangeView>,
    at: int,
    state: MergeStateView,
    entry: ProfileEntryView,
    source_dir: Seq<char>,
    target_dir: Seq<char>,
) -> Ran<MergeStateView> {
    let source = joined(source_dir, entry.file);
    bind(
        is_there(log, at, source),
        |there: bool, at1: int|
            if !there {
                done(
                    warned(
                        state,
                        UnifyStats { missing_files: bumped(state.stats.missing_files), ..state.stats },
                        WarningKind::MissingFile,
                        entry.name,
                        source,
                    ),
                    at1,
                )
            } else if has_profile(state.index.profiles, entry.name) {
                let i = profile_index(state.index.profiles, entry.name) as int;
                let existing = state.index.profiles[i];
                if existing.url != entry.url {
                    done(
                        warned(
                            state,
                            UnifyStats { conflicts: bumped(state.stats.conflicts), ..state.stats },
                            WarningKind::Conflict,
                            entry.name,
                            Seq::empty(),
                        ),
                        at1,
                    )
                } else {
                    bind(
                        copied_unless_there(log, at1, source, joined(target_dir, existing.file)),
                        |u: (), at2: int|
                            done(
                                MergeStateView {
                                    index: ProfileIndexView {
                                        profiles: state.index.profiles.update(
                                            i,
                                            ProfileEntryView {
                                                updated_at: later(
                                                    existing.updated_at,
                                                    entry.updated_at,
                                                ),
                                                ..existing
                                            },
                                        ),
                                        ..state.index
                                    },
                                    stats: UnifyStats {
                                        existed: bumped(state.stats.existed),
                                        ..state.stats
                                    },
                                    ..state
                                },
                                at2,
                            ),
                    )
                }
            } else {
                bind(
                    is_there(log, at1, joined(target_dir, entry.name + ".yaml"@)),
                    |taken: bool, at2: int|
                        bind(
                            file_done(
                                log,
                                at2,
                                FileOp::Copy,
                                source,
                                joined(target_dir, import_name(entry.name, taken)),
                                FaultKind::CopyFailed,
                            ),
                            |u: (), at3: int|
                                done(
                                    MergeStateView {
                                        index: ProfileIndexView {
                                            profiles: state.index.profiles.push(
                                                ProfileEntryView {
                                                    file: import_name(entry.name, taken),
                                                    ..entry
                                                },
                                            ),
                                            ..state.index
                                        },
                                        stats: UnifyStats {
                                            imported: bumped(state.stats.imported),
                                            ..state.stats
                                        },
                                        ..state
                                    },
                                    at3,
                                ),
                        ),
                )
            },
    )
}

/// The file name under which a profile is imported.
pub open spec fn import_name(name: Seq<char>, taken: bool) -> Seq<char> {
    if taken {
        name + "-imported.yaml"@
    } else {
        name + ".yaml"@
    }
}

/// Adds a warning.
fn warn(state: &mut MergeState, kind: WarningKind, subject: &str, detail: &str)
    ensures
        final(state)@ == warned(old(state)@, old(state).stats, kind, subject@, detail@),
{
    state.warnings.push(Warning { kind, subject: owned(subject), detail: owned(detail) });
    assert(warning_views(state.warnings@) =~= warning_views(old(state).warnings@).push(
        WarningView { kind, subject: subject@, detail: detail@ },
    ));
}

/// Copies a file unless the target is there.
fn copy_unless_there(host: &mut Replay, source: &str, target: &str) -> (r: Result<(), Halt>)
    ensures
        final(host).seen() == old(host).seen(),
        ran(r, final(host).pos()) == copied_unless_there(
            old(host).seen(),
            old(host).pos(),
            source@,
            target@,
        ),
{
    if path_exists(host, target)? {
        Ok(())
    } else {
        file_op(host, FileOp::Copy, source, target, FaultKind::CopyFailed)
    }
}

/// Merges one profile of a source into the index.
pub fn merge_profile_entry(
    host: &mut Replay,
    state: MergeState,
    entry: &ProfileEntry,
    src_profile_dir: &str,
    dest_profile_dir: &str,
) -> (r: Result<MergeState, Halt>)
    ensures
        final(host).seen() == old(host).seen(),
        ran_view(r, final(host).pos()) == entry_merged(
            old(host).seen(),
            old(host).pos(),
            state@,
            entry@,
            src_profile_dir@,
            dest_profile_dir@,
        ),
{
    proof {
        reveal(entry_merged);
    }
    let mut state = state;
    let ghost before = state@;
    let src_file = join_path(src_profile_dir, entry.file.as_str());
    if !path_exists(host, src_file.as_str())? {
        state.stats.missing_files = bump(state.stats.missing_files);
        warn(&mut state, WarningKind::MissingFile, entry.name.as_str(), src_file.as_str());
        return Ok(state);
    }
    let i = find_profile(&state.index.profiles, entry.name.as_str());
    if i < state.index.profiles.len() {
        if !same(state.index.profiles[i].url.as_str(), entry.url.as_str()) {
            state.stats.conflicts = bump(state.stats.conflicts);
            let none = String::new();
            warn(&mut state, WarningKind::Conflict, entry.name.as_str(), none.as_str());
            assert(none@ =~= Seq::<char>::empty());
            return Ok(state);
        }
        let mut existing = copy_entry(&state.index.profiles[i]);
        let old_time = match existing.updated_at {
            Some(t) => t,
            None => 0,
        };
        let new_time = match entry.updated_at {
            Some(t) => t,
            None => 0,
        };
        if old_time < new_time {
            existing.updated_at = entry.updated_at;
        }
        let dst_file = join_path(dest_profile_dir, existing.file.as_str());
        copy_unless_there(host, src_file.as_str(), dst_file.as_str())?;
        let ghost updated = existing@;
        state.index.profiles.set(i, existing);
        state.stats.existed = bump(state.stats.existed);
        assert(profile_views(state.index.profiles@) =~= before.index.profiles.update(
            i as int,
            updated,
        ));
        return Ok(state);
    }
    let plain = concat(entry.name.as_str(), ".yaml");
    let plain_path = join_path(dest_profile_dir, plain.as_str());
    let taken = path_exists(host, plain_path.as_str())?;
    let file = if taken {
        concat(entry.name.as_str(), "-imported.yaml")
    } else {
        plain
    };
    let dst_file = join_path(dest_profile_dir, file.as_str());
    file_op(host, FileOp::Copy, src_file.as_str(), dst_file.as_str(), FaultKind::CopyFailed)?;
    let mut imported = copy_entry(entry);
    imported.file = file;
    let ghost added = imported@;
    state.index.profiles.push(imported);
    state.stats.imported = bump(state.stats.imported);
    assert(profile_views(state.index.profiles@) =~= before.index.profiles.push(added));
    Ok(state)
}

/// The profiles of a source from `from` on are merged, one after the
/// other.
pub open spec fn entries_merged(
    log: Seq<ExchangeView>,
    at: int,
    state: MergeStateView,
    entries: Seq<ProfileEntryView>,
    from: int,
    source_dir: Seq<char>,
    target_dir: Seq<char>,
) -> Ran<MergeStateView>
    decreases entries.len() - from,
{
    if from < 0 || from >= entries.len() {
        done(state, at)
    } else {
        let one = entry_merged(log, at, state, entries[from], source_dir, target_dir);
        match one.out {
            Ok(next) => entries_merged(
                log,
                one.at,
                next,
                entries,
                from + 1,
                source_dir,
                target_dir,
            ),
            Err(h) => halted(h, one.at),
        }
    }
}

/// Merges the profiles of a source.
#[verifier::loop_isolation(false)]
fn merge_entries(
    host: &mut Replay,
    state: MergeState,
    entries: &Vec<ProfileEntry>,
    src_profile_dir: &str,
    dest_profile_dir: &str,
) -> (r: Result<MergeState, Halt>)
    ensures
        final(host).seen() == old(host).seen(),
        ran_view(r, final(host).pos()) == entries_merged(
            old(host).seen(),
            old(host).pos(),
            state@,
            profile_views(entries@),
            0,
            src_profile_dir@,
            dest_profile_dir@,
        ),
{
    let ghost log = host.seen();
    let ghost start = host.pos();
    let ghost first = state@;
    let mut state = state;
    let mut i: usize = 0;
    while i < entries.len()
        invariant
            i <= entries.len(),
            host.seen() == log,
            entries_merged(
                log,
                host.pos(),
                state@,
                profile_views(entries@),
                i as int,
                src_profile_dir@,
                dest_profile_dir@,
            ) == entries_merged(
                log,
                start,
                first,
                profile_views(entries@),
                0,
                src_profile_dir@,
                dest_profile_dir@,
            ),
        decreases entries.len() - i,
    {
        state = merge_profile_entry(host, state, &entries[i], src_profile_dir, dest_profile_dir)?;
        i = i + 1;
    }
    Ok(state)
}

/// The field with this number in a line of fields that `:` separates.
pub open spec fn colon_field(line: Seq<char>, n: nat) -> Option<Seq<char>>
    decreases n,
{
    if n == 0 {
        Some(before(line, ':'))
    } else if first_index(line, ':') < line.len() {
        colon_field(after(line, ':'), (n - 1) as nat)
    } else {
        None
    }
}

/// The first line of a text, or the empty text.
pub open spec fn first_line(text: Seq<char>) -> Seq<char> {
    if lines(text).len() > 0 {
        lines(text)[0]
    } else {
        Seq::empty()
    }
}

/// The home directory in an entry of the user database: its sixth field.
pub open spec fn home_in_passwd(output: Seq<char>) -> Option<Seq<char>> {
    colon_field(first_line(output), 5)
}

/// The home directory in an entry of the user database.
pub fn passwd_home(output: &str) -> (r: Option<String>)
    ensures
        text_view(r) == home_in_passwd(output@),
{
    let all = split_lines(&chars_of(output));
    let mut line: Vec<char> = if all.len() > 0 {
        crate::text::slice(&all[0], 0, all[0].len())
    } else {
        Vec::new()
    };
    assert(line@ =~= first_line(output@)) by {
        if all.len() > 0 {
            assert(rows(all@)[0] == all@[0]@);
            assert(all@[0]@.subrange(0, all@[0]@.len() as int) =~= all@[0]@);
        }
    }
    let mut n: usize = 5;
    while n > 0
        invariant
            colon_field(line@, n as nat) == home_in_passwd(output@),
        decreases n,
    {
        let at = crate::text::find_char(&line, 0, ':');
        assert(line@.subrange(0, line.len() as int) =~= line@);
        if at >= line.len() {
            return None;
        }
        let (_, rest) = split_at_char(&line, ':');
        line = rest;
        n = n - 1;
    }
    let (head, _) = split_at_char(&line, ':');
    Some(text_of(&head))
}

/// `getent passwd` for a user.
pub open spec fn getent_command(user: Seq<char>) -> InvocationView {
    InvocationView { program: "getent"@, args: seq!["passwd"@, user], stdin: None }
}

/// The home directory of a user, as far as the user database tells.
pub open spec fn user_home(log: Seq<ExchangeView>, at: int, user: Seq<char>) -> Ran<
    Option<Seq<char>>,
> {
    bind(
        ask(log, at, EffectView::Run(getent_command(user))),
        |r: ReplyView, at1: int|
            if r.ok {
                done(home_in_passwd(r.text), at1)
            } else {
                done(None, at1)
            },
    )
}

/// The home directory of a user.
pub fn lookup_home_by_user(host: &mut Replay, user: &str) -> (r: Result<Option<String>, Halt>)
    ensures
        final(host).seen() == old(host).seen(),
        crate::profile::ran_opt_text(r, final(host).pos()) == user_home(
            old(host).seen(),
            old(host).pos(),
            user@,
        ),
{
    let mut args: Vec<String> = Vec::new();
    assert(views(args@) =~= Seq::<Seq<char>>::empty());
    push_arg(&mut args, "passwd");
    push_arg(&mut args, user);
    assert(views(args@) =~= seq!["passwd"@, user@]);
    let reply = host.perform(
        Effect::Run(Invocation { program: owned("getent"), args, stdin: None }),
    )?;
    if !reply.ok {
        return Ok(None);
    }
    Ok(passwd_home(reply.text.as_str()))
}

/// The configuration directory below a home directory.
pub open spec fn config_below(home: Seq<char>) -> Seq<char> {
    joined(joined(home, ".config"@), "clash-cli"@)
}

/// Whether the user that called `sudo` is to be looked at: one is named,
/// and it is not root.
pub open spec fn sudo_user_of(env: HostEnvView) -> Option<Seq<char>> {
    match env.sudo_user {
        Some(user) => if user.len() > 0 && user != "root"@ {
            Some(user)
        } else {
            None
        },
        None => None,
    }
}

/// The directories that may hold older configurations, in the order in
/// which they are looked at: that of the user who called `sudo`, that of
/// the process's own user, and root's.
pub open spec fn source_candidates(env: HostEnvView, sudo_home: Option<Seq<char>>) -> Seq<Seq<char>> {
    (match sudo_user_of(env) {
        Some(user) => seq![
            match sudo_home {
                Some(home) => config_below(home),
                None => "/home/"@ + user + "/.config/clash-cli"@,
            },
        ],
        None => Seq::empty(),
    }) + (match env.home_dir {
        Some(home) => seq![config_below(home)],
        None => Seq::empty(),
    }) + seq!["/root/.config/clash-cli"@]
}

/// The candidates from `from` on that are kept: those that are not the
/// target, exist, and were not kept before.
pub open spec fn kept_sources(
    log: Seq<ExchangeView>,
    at: int,
    candidates: Seq<Seq<char>>,
    from: int,
    target: Seq<char>,
    kept: Seq<Seq<char>>,
) -> Ran<Seq<Seq<char>>>
    decreases candidates.len() - from,
{
    if from < 0 || from >= candidates.len() {
        done(kept, at)
    } else if candidates[from] == target {
        kept_sources(log, at, candidates, from + 1, target, kept)
    } else {
        let there = is_there(log, at, candidates[from]);
        match there.out {
            Err(h) => halted(h, there.at),
            Ok(yes) => kept_sources(
                log,
                there.at,
                candidates,
                from + 1,
                target,
                if yes && !kept.contains(candidates[from]) {
                    kept.push(candidates[from])
                } else {
                    kept
                },
            ),
        }
    }
}

/// The directories with older configurations.
#[verifier::opaque]
pub open spec fn sources_found(env: HostEnvView, log: Seq<ExchangeView>, at: int, target: Seq<char>) -> Ran<
    Seq<Seq<char>>,
> {
    bind(
        match sudo_user_of(env) {
            Some(user) => user_home(log, at, user),
            None => done(None, at),
        },
        |sudo_home: Option<Seq<char>>, at1: int|
            kept_sources(log, at1, source_candidates(env, sudo_home), 0, target, Seq::empty()),
    )
}

/// The view of a result over a list of texts.
pub open spec fn ran_texts(r: Result<Vec<String>, Halt>, at: int) -> Ran<Seq<Seq<char>>> {
    Ran {
        out: match r {
            Ok(v) => Ok(views(v@)),
            Err(h) => Err(h@),
        },
        at,
    }
}

/// Whether a list holds a text.
fn holds(list: &Vec<String>, text: &str) -> (r: bool)
    ensures
        r == views(list@).contains(text@),
{
    let mut i: usize = 0;
    while i < list.len()
        invariant
            i <= list.len(),
            forall|j: int| 0 <= j < i ==> views(list@)[j] != text@,
        decreases list.len() - i,
    {
        if same(list[i].as_str(), text) {
            assert(views(list@)[i as int] == text@);
            return true;
        }
        i = i + 1;
    }
    false
}

/// The configuration directory below a home directory.
fn config_dir_below(home: &str) -> (r: String)
    ensures
        r@ == config_below(home@),
{
    let dot = join_path(home, ".config");
    join_path(dot.as_str(), "clash-cli")
}

/// Finds the directories with older configurations.
#[verifier::loop_isolation(false)]
pub fn discover_source_config_dirs(env: &HostEnv, host: &mut Replay, dest_dir: &str) -> (r: Result<
    Vec<String>,
    Halt,
>)
    ensures
        final(host).seen() == old(host).seen(),
        ran_texts(r, final(host).pos()) == sources_found(
            env@,
            old(host).seen(),
            old(host).pos(),
            dest_dir@,
        ),
{
    proof {
        reveal(sources_found);
    }
    let mut result: Vec<String> = Vec::new();
    assert(views(result@) =~= Seq::<Seq<char>>::empty());
    let user: Option<&String> = match &env.sudo_user {
        Some(u) => {
            if !u.as_str().is_empty() && !same(u.as_str(), "root") {
                Some(u)
            } else {
                None
            }
        },
        None => None,
    };
    let mut sudo_home: Option<String> = None;
    match user {
        Some(u) => {
            sudo_home = lookup_home_by_user(host, u.as_str())?;
            match &sudo_home {
                Some(home) => {
                    let dir = config_dir_below(home.as_str());
                    push_arg(&mut result, dir.as_str());
                },
                None => {
                    let dir = concat3("/home/", u.as_str(), "/.config/clash-cli");
                    push_arg(&mut result, dir.as_str());
                },
            }
        },
        None => {},
    }
    match &env.home_dir {
        Some(home) => {
            let dir = config_dir_below(home.as_str());
            push_arg(&mut result, dir.as_str());
        },
        None => {},
    }
    push_arg(&mut result, "/root/.config/clash-cli");
    assert(views(result@) =~= source_candidates(env@, text_view(sudo_home)));
    let ghost log = host.seen();
    let ghost start = host.pos();
    let mut unique: Vec<String> = Vec::new();
    assert(views(unique@) =~= Seq::<Seq<char>>::empty());
    let mut i: usize = 0;
    while i < result.len()
        invariant
            i <= result.len(),
            host.seen() == log,
            kept_sources(log, host.pos(), views(result@), i as int, dest_dir@, views(unique@))
                == kept_sources(log, start, views(result@), 0, dest_dir@, Seq::empty()),
        decreases result.len() - i,
    {
        if !same(result[i].as_str(), dest_dir) {
            let there = path_exists(host, result[i].as_str())?;
            if there && !holds(&unique, result[i].as_str()) {
                push_arg(&mut unique, result[i].as_str());
            }
        }
        i = i + 1;
    }
    Ok(unique)
}

/// The name of a copy that is moved aside: the name, `.bak.`, the time
/// and, from the second try on, the number of the try.
pub open spec fn backup_name(base: Seq<char>, stamp: u64, try_no: u32) -> Seq<char> {
    if try_no == 0 {
        base + ".bak."@ + decimal(stamp as nat)
    } else {
        base + ".bak."@ + decimal(stamp as nat) + "."@ + decimal(try_no as nat)
    }
}

/// The first name for a copy that is free, from try `try_no` on.
pub open spec fn backup_free(
    log: Seq<ExchangeView>,
    at: int,
    parent: Seq<char>,
    base: Seq<char>,
    stamp: u64,
    try_no: u32,
) -> Ran<Seq<char>>
    decreases u32::MAX - try_no,
{
    let candidate = joined(parent, backup_name(base, stamp, try_no));
    let there = is_there(log, at, candidate);
    match there.out {
        Err(h) => halted(h, there.at),
        Ok(yes) => if !yes || try_no == u32::MAX {
            done(candidate, there.at)
        } else {
            backup_free(log, there.at, parent, base, stamp, (try_no + 1) as u32)
        },
    }
}

/// Where a directory is moved aside to.
#[verifier::opaque]
pub open spec fn backup_path(log: Seq<ExchangeView>, at: int, path: Seq<char>) -> Ran<Seq<char>> {
    bind(
        clock(log, at),
        |stamp: u64, at1: int|
            backup_free(
                log,
                at1,
                match parent_of(path) {
                    Some(p) => p,
                    None => "/"@,
                },
                match file_name_of(path) {
                    Some(n) => n,
                    None => "clash-cli"@,
                },
                stamp,
                0,
            ),
    )
}

/// The name of a copy that is moved aside.
fn backup_file_name(base: &str, stamp: u64, try_no: u32) -> (r: String)
    ensures
        r@ == backup_name(base@, stamp, try_no),
{
    let mut out = chars_of(base);
    push_str(&mut out, ".bak.");
    push_decimal(&mut out, stamp);
    if try_no != 0 {
        push_str(&mut out, ".");
        push_decimal(&mut out, try_no as u64);
    }
    text_of(&out)
}

/// Finds where a directory is moved aside to.
#[verifier::loop_isolation(false)]
pub fn build_backup_path(host: &mut Replay, path: &str) -> (r: Result<String, Halt>)
    ensures
        final(host).seen() == old(host).seen(),
        ran_string(r, final(host).pos()) == backup_path(old(host).seen(), old(host).pos(), path@),
{
    proof {
        reveal(backup_path);
    }
    let parent = match path_parent(path) {
        Some(p) => p,
        None => owned("/"),
    };
    let base_name = match path_file_name(path) {
        Some(n) => n,
        None => owned("clash-cli"),
    };
    let ts = now_unix(host)?;
    let ghost log = host.seen();
    let ghost start = host.pos();
    let mut idx: u32 = 0;
    loop
        invariant
            host.seen() == log,
            backup_free(log, host.pos(), parent@, base_name@, ts, idx) == backup_free(
                log,
                start,
                parent@,
                base_name@,
                ts,
                0,
            ),
        decreases u32::MAX - idx,
    {
        let name = backup_file_name(base_name.as_str(), ts, idx);
        let candidate = join_path(parent.as_str(), name.as_str());
        let there = path_exists(host, candidate.as_str())?;
        if !there || idx == u32::MAX {
            return Ok(candidate);
        }
        idx = idx + 1;
    }
}

/// The profiles of one directory are merged: a directory without index is
/// skipped; the first active profile that any source names is remembered.
#[verifier::opaque]
pub open spec fn dir_merged(
    log: Seq<ExchangeView>,
    at: int,
    state: MergeStateView,
    candidate: Option<Seq<char>>,
    source: Seq<char>,
    target_dir: Seq<char>,
) -> Ran<(MergeStateView, Option<Seq<char>>)> {
    let source_dir = joined(source, "profiles"@);
    let index_file = joined(source_dir, "index.json"@);
    bind(
        is_there(log, at, index_file),
        |there: bool, at1: int|
            if !there {
                done((state, candidate), at1)
            } else {
                bind(
                    index_loaded(log, at1, index_file),
                    |found: ProfileIndexView, at2: int|
                        bind(
                            entries_merged(
                                log,
                                at2,
                                state,
                                found.profiles,
                                0,
                                source_dir,
                                target_dir,
                            ),
                            |next: MergeStateView, at3: int|
                                done(
                                    (
                                        next,
                                        match candidate {
                                            Some(c) => Some(c),
                                            None => found.active,
                                        },
                                    ),
                                    at3,
                                ),
                        ),
                )
            },
    )
}

/// The directories from `from` on are merged, one after the other.
pub open spec fn dirs_merged(
    log: Seq<ExchangeView>,
    at: int,
    state: MergeStateView,
    candidate: Option<Seq<char>>,
    sources: Seq<Seq<char>>,
    from: int,
    target_dir: Seq<char>,
) -> Ran<(MergeStateView, Option<Seq<char>>)>
    decreases sources.len() - from,
{
    if from < 0 || from >= sources.len() {
        done((state, candidate), at)
    } else {
        let one = dir_merged(log, at, state, candidate, sources[from], target_dir);
        match one.out {
            Ok(next) => dirs_merged(log, one.at, next.0, next.1, sources, from + 1, target_dir),
            Err(h) => halted(h, one.at),
        }
    }
}

/// The active profile after a merge: the one that was active; else the
/// remembered one, if the index has it; else the first profile.
pub open spec fn active_after(index: ProfileIndexView, candidate: Option<Seq<char>>) -> Option<
    Seq<char>,
> {
    match index.active {
        Some(a) => Some(a),
        None => match candidate {
            Some(c) => if has_profile(index.profiles, c) {
                Some(c)
            } else if index.profiles.len() > 0 {
                Some(index.profiles[0].name)
            } else {
                None
            },
            None => if index.profiles.len() > 0 {
                Some(index.profiles[0].name)
            } else {
                None
            },
        },
    }
}

/// The view of a merge with the remembered active profile.
pub open spec fn ran_merge(r: Result<(MergeState, Option<String>), Halt>, at: int) -> Ran<
    (MergeStateView, Option<Seq<char>>),
> {
    Ran {
        out: match r {
            Ok(f) => Ok((f.0@, text_view(f.1))),
            Err(h) => Err(h@),
        },
        at,
    }
}

/// Merges the profiles of one directory.
fn merge_dir(
    host: &mut Replay,
    state: MergeState,
    candidate: Option<String>,
    src_dir: &str,
    dest_profile_dir: &str,
) -> (r: Result<(MergeState, Option<String>), Halt>)
    ensures
        final(host).seen() == old(host).seen(),
        ran_merge(r, final(host).pos()) == dir_merged(
            old(host).seen(),
            old(host).pos(),
            state@,
            text_view(candidate),
            src_dir@,
            dest_profile_dir@,
        ),
{
    proof {
        reveal(dir_merged);
    }
    let src_profile_dir = join_path(src_dir, "profiles");
    let src_index_file = join_path(src_profile_dir.as_str(), "index.json");
    if !path_exists(host, src_index_file.as_str())? {
        return Ok((state, candidate));
    }
    let src_index = load_index(host, src_index_file.as_str())?;
    let next = merge_entries(
        host,
        state,
        &src_index.profiles,
        src_profile_dir.as_str(),
        dest_profile_dir,
    )?;
    let candidate = match candidate {
        Some(c) => Some(c),
        None => src_index.active,
    };
    Ok((next, candidate))
}

/// Merges the profiles of all directories.
#[verifier::loop_isolation(false)]
fn merge_dirs(
    host: &mut Replay,
    state: MergeState,
    candidate: Option<String>,
    source_dirs: &Vec<String>,
    dest_profile_dir: &str,
) -> (r: Result<(MergeState, Option<String>), Halt>)
    ensures
        final(host).seen() == old(host).seen(),
        ran_merge(r, final(host).pos()) == dirs_merged(
            old(host).seen(),
            old(host).pos(),
            state@,
            text_view(candidate),
            views(source_dirs@),
            0,
            dest_profile_dir@,
        ),
{
    let ghost log = host.seen();
    let ghost start = host.pos();
    let ghost first = state@;
    let ghost first_candidate = text_view(candidate);
    let mut state = state;
    let mut candidate = candidate;
    let mut i: usize = 0;
    while i < source_dirs.len()
        invariant
            i <= source_dirs.len(),
            host.seen() == log,
            dirs_merged(
                log,
                host.pos(),
                state@,
                text_view(candidate),
                views(source_dirs@),
                i as int,
                dest_profile_dir@,
            ) == dirs_merged(
                log,
                start,
                first,
                first_candidate,
                views(source_dirs@),
                0,
                dest_profile_dir@,
            ),
        decreases source_dirs.len() - i,
    {
        let (s, c) = merge_dir(host, state, candidate, source_dirs[i].as_str(), dest_profile_dir)?;
        state = s;
        candidate = c;
        i = i + 1;
    }
    Ok((state, candidate))
}

/// The active profile after a merge.
fn resolve_active(index: &ProfileIndex, candidate: Option<String>) -> (r: Option<String>)
    ensures
        text_view(r) == active_after(index@, text_view(candidate)),
{
    match &index.active {
        Some(a) => {
            return Some(a.clone());
        },
        None => {},
    }
    match candidate {
        Some(c) => {
            if find_profile(&index.profiles, c.as_str()) < index.profiles.len() {
                return Some(c);
            }
        },
        None => {},
    }
    if index.profiles.len() > 0 {
        Some(index.profiles[0].name.clone())
    } else {
        None
    }
}

/// The state of the linking: the counters and the warnings.
#[derive(Debug)]
pub struct LinkState {
    pub stats: LinkStats,
    pub warnings: Vec<Warning>,
}

pub struct LinkStateView {
    pub stats: LinkStats,
    pub warnings: Seq<WarningView>,
}

impl View for LinkState {
    type V = LinkStateView;

    open spec fn view(&self) -> LinkStateView {
        LinkStateView { stats: self.stats, warnings: warning_views(self.warnings@) }
    }
}

/// A state with one more failure and its warning.
pub open spec fn link_failed(
    state: LinkStateView,
    kind: WarningKind,
    subject: Seq<char>,
    detail: Seq<char>,
) -> LinkStateView {
    LinkStateView {
        stats: LinkStats { failed: bumped(state.stats.failed), ..state.stats },
        warnings: state.warnings.push(WarningView { kind, subject, detail }),
    }
}

/// Whether a directory is a link to the target already; a link that cannot
/// be read is worth a warning and is made anew.
#[verifier::opaque]
pub open spec fn link_checked(
    log: Seq<ExchangeView>,
    at: int,
    state: LinkStateView,
    source: Seq<char>,
    target: Seq<char>,
) -> Ran<(LinkStateView, bool)> {
    bind(
        ask(log, at, EffectView::File(FileOp::ReadLink, source, Seq::empty())),
        |link: ReplyView, at1: int|
            if !link.ok {
                done(
                    (
                        LinkStateView {
                            warnings: state.warnings.push(
                                WarningView {
                                    kind: WarningKind::ReadLink,
                                    subject: source,
                                    detail: link.detail,
                                },
                            ),
                            ..state
                        },
                        false,
                    ),
                    at1,
                )
            } else {
                bind(
                    same_path(log, at1, link.text, target),
                    |same: bool, at2: int|
                        if same {
                            done(
                                (
                                    LinkStateView {
                                        stats: LinkStats {
                                            already_linked: bumped(state.stats.already_linked),
                                            ..state.stats
                                        },
                                        ..state
                                    },
                                    true,
                                ),
                                at2,
                            )
                        } else {
                            done((state, false), at2)
                        },
                )
            },
    )
}

/// A directory is moved aside and a link to the target put in its place;
/// if the link cannot be made, the directory is moved back.
#[verifier::opaque]
pub open spec fn replaced_by_link(
    log: Seq<ExchangeView>,
    at: int,
    state: LinkStateView,
    source: Seq<char>,
    target: Seq<char>,
) -> Ran<LinkStateView> {
    bind(
        backup_path(log, at, source),
        |backup: Seq<char>, at1: int|
            bind(
                ask(log, at1, EffectView::File(FileOp::Rename, source, backup)),
                |moved: ReplyView, at2: int|
                    if !moved.ok {
                        done(
                            link_failed(state, WarningKind::BackupFailed, source, moved.detail),
                            at2,
                        )
                    } else {
                        bind(
                            ask(log, at2, EffectView::File(FileOp::Symlink, target, source)),
                            |linked: ReplyView, at3: int|
                                if linked.ok {
                                    done(
                                        LinkStateView {
                                            stats: LinkStats {
                                                linked: bumped(state.stats.linked),
                                                ..state.stats
                                            },
                                            ..state
                                        },
                                        at3,
                                    )
                                } else {
                                    bind(
                                        ask(
                                            log,
                                            at3,
                                            EffectView::File(FileOp::Rename, backup, source),
                                        ),
                                        |back: ReplyView, at4: int|
                                            done(
                                                link_failed(
                                                    state,
                                                    WarningKind::LinkFailed,
                                                    source,
                                                    linked.detail,
                                                ),
                                                at4,
                                            ),
                                    )
                                },
                        )
                    },
            ),
    )
}

/// One directory is replaced by a link to the target, unless it cannot be
/// looked at or is such a link already.
#[verifier::opaque]
pub open spec fn dir_linked(
    log: Seq<ExchangeView>,
    at: int,
    state: LinkStateView,
    source: Seq<char>,
    target: Seq<char>,
) -> Ran<LinkStateView> {
    bind(
        ask(log, at, EffectView::File(FileOp::IsSymlink, source, Seq::empty())),
        |meta: ReplyView, at1: int|
            if !meta.ok {
                done(state, at1)
            } else {
                bind(
                    if meta.stamp == 1 {
                        link_checked(log, at1, state, source, target)
                    } else {
                        done((state, false), at1)
                    },
                    |checked: (LinkStateView, bool), at2: int|
                        if checked.1 {
                            done(checked.0, at2)
                        } else {
                            replaced_by_link(log, at2, checked.0, source, target)
                        },
                )
            },
    )
}

/// The directories from `from` on are replaced by links, one after the
/// other.
pub open spec fn dirs_linked(
    log: Seq<ExchangeView>,
    at: int,
    state: LinkStateView,
    sources: Seq<Seq<char>>,
    from: int,
    target: Seq<char>,
) -> Ran<LinkStateView>
    decreases sources.len() - from,
{
    if from < 0 || from >= sources.len() {
        done(state, at)
    } else {
        let one = dir_linked(log, at, state, sources[from], target);
        match one.out {
            Ok(next) => dirs_linked(log, one.at, next, sources, from + 1, target),
            Err(h) => halted(h, one.at),
        }
    }
}

/// The view of a check of a link.
pub open spec fn ran_checked(r: Result<(LinkState, bool), Halt>, at: int) -> Ran<
    (LinkStateView, bool),
> {
    Ran {
        out: match r {
            Ok(f) => Ok((f.0@, f.1)),
            Err(h) => Err(h@),
        },
        at,
    }
}

/// Adds a warning of the linking.
fn link_warn(state: &mut LinkState, kind: WarningKind, subject: &str, detail: String)
    ensures
        final(state).stats == old(state).stats,
        warning_views(final(state).warnings@) == warning_views(old(state).warnings@).push(
            WarningView { kind, subject: subject@, detail: detail@ },
        ),
{
    state.warnings.push(Warning { kind, subject: owned(subject), detail });
    assert(warning_views(state.warnings@) =~= warning_views(old(state).warnings@).push(
        WarningView { kind, subject: subject@, detail: detail@ },
    ));
}

/// Looks whether a link points to the target already.
fn check_link(host: &mut Replay, state: LinkState, src_dir: &str, dest_dir: &str) -> (r: Result<
    (LinkState, bool),
    Halt,
>)
    ensures
        final(host).seen() == old(host).seen(),
        ran_checked(r, final(host).pos()) == link_checked(
            old(host).seen(),
            old(host).pos(),
            state@,
            src_dir@,
            dest_dir@,
        ),
{
    proof {
        reveal(link_checked);
    }
    let mut state = state;
    let link = host.perform(Effect::File(FileOp::ReadLink, owned(src_dir), String::new()))?;
    if !link.ok {
        link_warn(&mut state, WarningKind::ReadLink, src_dir, link.detail);
        return Ok((state, false));
    }
    if path_eq(host, link.text.as_str(), dest_dir)? {
        state.stats.already_linked = bump(state.stats.already_linked);
        return Ok((state, true));
    }
    Ok((state, false))
}

/// Moves a directory aside and puts a link in its place.
fn replace_by_link(host: &mut Replay, state: LinkState, src_dir: &str, dest_dir: &str) -> (r:
    Result<LinkState, Halt>)
    ensures
        final(host).seen() == old(host).seen(),
        ran_view(r, final(host).pos()) == replaced_by_link(
            old(host).seen(),
            old(host).pos(),
            state@,
            src_dir@,
            dest_dir@,
        ),
{
    proof {
        reveal(replaced_by_link);
    }
    let mut state = state;
    let backup = build_backup_path(host, src_dir)?;
    let moved = host.perform(Effect::File(FileOp::Rename, owned(src_dir), backup.clone()))?;
    if !moved.ok {
        link_warn(&mut state, WarningKind::BackupFailed, src_dir, moved.detail);
        state.stats.failed = bump(state.stats.failed);
        return Ok(state);
    }
    let linked = host.perform(Effect::File(FileOp::Symlink, owned(dest_dir), owned(src_dir)))?;
    if !linked.ok {
        let _ = host.perform(Effect::File(FileOp::Rename, backup, owned(src_dir)))?;
        link_warn(&mut state, WarningKind::LinkFailed, src_dir, linked.detail);
        state.stats.failed = bump(state.stats.failed);
        return Ok(state);
    }
    state.stats.linked = bump(state.stats.linked);
    Ok(state)
}

/// Replaces one directory by a link to the target.
fn link_dir(host: &mut Replay, state: LinkState, src_dir: &str, dest_dir: &str) -> (r: Result<
    LinkState,
    Halt,
>)
    ensures
        final(host).seen() == old(host).seen(),
        ran_view(r, final(host).pos()) == dir_linked(
            old(host).seen(),
            old(host).pos(),
            state@,
            src_dir@,
            dest_dir@,
        ),
{
    proof {
        reveal(dir_linked);
    }
    let meta = host.perform(Effect::File(FileOp::IsSymlink, owned(src_dir), String::new()))?;
    if !meta.ok {
        return Ok(state);
    }
    let mut state = state;
    if meta.stamp == 1 {
        let (s, already) = check_link(host, state, src_dir, dest_dir)?;
        state = s;
        if already {
            return Ok(state);
        }
    }
    replace_by_link(host, state, src_dir, dest_dir)
}

/// Replaces the directories of older configurations by links to the
/// system's one.
#[verifier::loop_isolation(false)]
pub fn link_source_dirs_to_system(
    host: &mut Replay,
    state: LinkState,
    source_dirs: &Vec<String>,
    dest_dir: &str,
) -> (r: Result<LinkState, Halt>)
    ensures
        final(host).seen() == old(host).seen(),
        ran_view(r, final(host).pos()) == dirs_linked(
            old(host).seen(),
            old(host).pos(),
            state@,
            views(source_dirs@),
            0,
            dest_dir@,
        ),
{
    let ghost log = host.seen();
    let ghost start = host.pos();
    let ghost first = state@;
    let mut state = state;
    let mut i: usize = 0;
    while i < source_dirs.len()
        invariant
            i <= source_dirs.len(),
            host.seen() == log,
            dirs_linked(log, host.pos(), state@, views(source_dirs@), i as int, dest_dir@)
                == dirs_linked(log, start, first, views(source_dirs@), 0, dest_dir@),
        decreases source_dirs.len() - i,
    {
        state = link_dir(host, state, source_dirs[i].as_str(), dest_dir)?;
        i = i + 1;
    }
    Ok(state)
}

/// What `setup unify` did.
#[derive(Debug)]
pub struct UnifyReport {
    pub config_dir: String,
    pub source_dirs: Vec<String>,
    pub stats: UnifyStats,
    pub links: Option<LinkStats>,
    pub active: Option<String>,
    pub warnings: Vec<Warning>,
    pub applied: bool,
    pub service_name: String,
}

pub struct UnifyReportView {
    pub config_dir: Seq<char>,
    pub source_dirs: Seq<Seq<char>>,
    pub stats: UnifyStats,
    pub links: Option<LinkStats>,
    pub active: Option<Seq<char>>,
    pub warnings: Seq<WarningView>,
    pub applied: bool,
    pub service_name: Seq<char>,
}

impl View for UnifyReport {
    type V = UnifyReportView;

    open spec fn view(&self) -> UnifyReportView {
        UnifyReportView {
            config_dir: self.config_dir@,
            source_dirs: views(self.source_dirs@),
            stats: self.stats,
            links: self.links,
            active: text_view(self.active),
            warnings: warning_views(self.warnings@),
            applied: self.applied,
            service_name: self.service_name@,
        }
    }
}

/// No profile counted.
pub open spec fn no_stats() -> UnifyStats {
    UnifyStats { imported: 0, existed: 0, conflicts: 0, missing_files: 0 }
}

/// The first half of `setup unify`: the profiles of the older directories
/// are merged into the system's index, which is saved.
#[verifier::opaque]
pub open spec fn unify_merged(
    env: HostEnvView,
    log: Seq<ExchangeView>,
    at: int,
    paths: AppPathsView,
) -> Ran<(MergeStateView, Seq<Seq<char>>)> {
    bind(
        file_done(
            log,
            at,
            FileOp::CreateDir,
            paths.profile_dir,
            Seq::empty(),
            FaultKind::DirCreate,
        ),
        |u: (), at1: int|
            bind(
                index_loaded(log, at1, paths.profile_index_file),
                |index: ProfileIndexView, at2: int|
                    bind(
                        sources_found(env, log, at2, paths.config_dir),
                        |sources: Seq<Seq<char>>, at3: int|
                            bind(
                                dirs_merged(
                                    log,
                                    at3,
                                    MergeStateView {
                                        index,
                                        stats: no_stats(),
                                        warnings: Seq::empty(),
                                    },
                                    index.active,
                                    sources,
                                    0,
                                    paths.profile_dir,
                                ),
                                |merged: (MergeStateView, Option<Seq<char>>), at4: int|
                                    bind(
                                        index_saved(
                                            log,
                                            at4,
                                            paths.profile_index_file,
                                            ProfileIndexView {
                                                active: active_after(merged.0.index, merged.1),
                                                ..merged.0.index
                                            },
                                        ),
                                        |u: (), at5: int|
                                            done(
                                                (
                                                    MergeStateView {
                                                        index: ProfileIndexView {
                                                            active: active_after(
                                                                merged.0.index,
                                                                merged.1,
                                                            ),
                                                            ..merged.0.index
                                                        },
                                                        ..merged.0
                                                    },
                                                    sources,
                                                ),
                                                at5,
                                            ),
                                    ),
                            ),
                    ),
            ),
    )
}

/// The active profile is rendered and the service restarted.
#[verifier::opaque]
pub open spec fn unify_applied(
    env: HostEnvView,
    log: Seq<ExchangeView>,
    at: int,
    active: Option<Seq<char>>,
    service_name: Seq<char>,
) -> Ran<()> {
    match active {
        None => bare_failure(FaultKind::NothingToApply, at),
        Some(name) => bind(
            crate::profile::rendered(env, log, at, use_render_args(name)),
            |r: ProfileReportView, at1: int|
                bind(
                    crate::service::outcome_at(
                        ServiceCommandView::Action(
                            UnitAction::Restart,
                            ServiceTargetArgsView { name: service_name, user: false },
                        ),
                        env,
                        log,
                        at1,
                    ),
                    |s: ServiceReportView, at2: int| done((), at2),
                ),
        ),
    }
}

/// `setup unify` once the process may go on; `env` is the facts with the
/// system's configuration directory.
pub open spec fn unified(
    env: HostEnvView,
    log: Seq<ExchangeView>,
    at: int,
    args: SetupUnifyArgsView,
) -> Ran<UnifyReportView> {
    bind(
        located(env, log, at),
        |paths: AppPathsView, at1: int|
            bind(
                unify_merged(env, log, at1, paths),
                |merged: (MergeStateView, Seq<Seq<char>>), at2: int|
                    bind(
                        if args.no_link {
                            done(
                                LinkStateView {
                                    stats: LinkStats { linked: 0, already_linked: 0, failed: 0 },
                                    warnings: merged.0.warnings,
                                },
                                at2,
                            )
                        } else {
                            dirs_linked(
                                log,
                                at2,
                                LinkStateView {
                                    stats: LinkStats { linked: 0, already_linked: 0, failed: 0 },
                                    warnings: merged.0.warnings,
                                },
                                merged.1,
                                0,
                                paths.config_dir,
                            )
                        },
                        |links: LinkStateView, at3: int|
                            bind(
                                if args.no_apply {
                                    done((), at3)
                                } else {
                                    unify_applied(
                                        env,
                                        log,
                                        at3,
                                        merged.0.index.active,
                                        args.service_name,
                                    )
                                },
                                |u: (), at4: int|
                                    done(
                                        UnifyReportView {
                                            config_dir: paths.config_dir,
                                            source_dirs: merged.1,
                                            stats: merged.0.stats,
                                            links: if args.no_link {
                                                None
                                            } else {
                                                Some(links.stats)
                                            },
                                            active: merged.0.index.active,
                                            warnings: links.warnings,
                                            applied: !args.no_apply,
                                            service_name: bare_service_name(args.service_name)
                                                + ".service"@,
                                        },
                                        at4,
                                    ),
                            ),
                    ),
            ),
    )
}

/// The view of a merge with its sources.
pub open spec fn ran_unify_merge(r: Result<(MergeState, Vec<String>), Halt>, at: int) -> Ran<
    (MergeStateView, Seq<Seq<char>>),
> {
    Ran {
        out: match r {
            Ok(f) => Ok((f.0@, views(f.1@))),
            Err(h) => Err(h@),
        },
        at,
    }
}

/// Merges the profiles of the older directories into the system's index.
fn unify_merge(env: &HostEnv, host: &mut Replay, paths: &AppPaths) -> (r: Result<
    (MergeState, Vec<String>),
    Halt,
>)
    ensures
        final(host).seen() == old(host).seen(),
        ran_unify_merge(r, final(host).pos()) == unify_merged(
            env@,
            old(host).seen(),
            old(host).pos(),
            paths@,
        ),
{
    proof {
        reveal(unify_merged);
    }
    let none = String::new();
    file_op(host, FileOp::CreateDir, paths.profile_dir.as_str(), none.as_str(), FaultKind::DirCreate)?;
    let index = load_index(host, paths.profile_index_file.as_str())?;
    let source_dirs = discover_source_config_dirs(env, host, paths.config_dir.as_str())?;
    let candidate = crate::host::copy_text(&index.active);
    let warnings: Vec<Warning> = Vec::new();
    assert(warning_views(warnings@) =~= Seq::<WarningView>::empty());
    let state = MergeState {
        index,
        stats: UnifyStats { imported: 0, existed: 0, conflicts: 0, missing_files: 0 },
        warnings,
    };
    let (mut state, candidate) = merge_dirs(
        host,
        state,
        candidate,
        &source_dirs,
        paths.profile_dir.as_str(),
    )?;
    let active = resolve_active(&state.index, candidate);
    state.index.active = active;
    save_index(host, paths.profile_index_file.as_str(), &state.index)?;
    Ok((state, source_dirs))
}

/// Renders the active profile and restarts the service.
fn unify_apply(env: &HostEnv, host: &mut Replay, active: &Option<String>, service_name: &str) -> (r:
    Result<(), Halt>)
    ensures
        final(host).seen() == old(host).seen(),
        ran(r, final(host).pos()) == unify_applied(
            env@,
            old(host).seen(),
            old(host).pos(),
            text_view(*active),
            service_name@,
        ),
{
    proof {
        reveal(unify_applied);
    }
    let name = match active {
        Some(n) => n.clone(),
        None => {
            return Err(
                Halt::Fail(
                    Fault {
                        kind: FaultKind::NothingToApply,
                        detail: String::new(),
                        rolled_back: false,
                    },
                ),
            );
        },
    };
    let render = ProfileRenderArgs {
        name: Some(name),
        output: None,
        no_mixin: false,
        follow_subscription_port: false,
    };
    let _ = crate::profile::cmd_render(env, host, &render)?;
    let restart = ServiceCommand::Restart(
        ServiceTargetArgs { name: owned(service_name), user: false },
    );
    let _ = crate::service::run_on(&restart, env, host)?;
    Ok(())
}

/// `setup unify` once the process may go on.
pub fn cmd_unify(env: &HostEnv, host: &mut Replay, args: &SetupUnifyArgs) -> (r: Result<
    UnifyReport,
    Halt,
>)
    ensures
        final(host).seen() == old(host).seen(),
        ran_view(r, final(host).pos()) == unified(
            env@,
            old(host).seen(),
            old(host).pos(),
            args@,
        ),
{
    let paths = app_paths(env, host)?;
    let (merged, source_dirs) = unify_merge(env, host, &paths)?;
    let mut links = LinkState {
        stats: LinkStats { linked: 0, already_linked: 0, failed: 0 },
        warnings: merged.warnings,
    };
    if !args.no_link {
        links = link_source_dirs_to_system(host, links, &source_dirs, paths.config_dir.as_str())?;
    }
    if !args.no_apply {
        unify_apply(env, host, &merged.index.active, args.service_name.as_str())?;
    }
    let bare = trim_service_suffix(args.service_name.as_str());
    Ok(
        UnifyReport {
            config_dir: paths.config_dir,
            source_dirs,
            stats: merged.stats,
            links: if args.no_link {
                None
            } else {
                Some(links.stats)
            },
            active: merged.index.active,
            warnings: links.warnings,
            applied: !args.no_apply,
            service_name: crate::text::concat(bare.as_str(), ".service"),
        },
    )
}

/// What a `setup` command did. `Delegated` means that an elevated copy of
/// the program did the work.
#[derive(Debug)]
pub enum SetupReport {
    Delegated,
    Init(InitReport),
    Unify(UnifyReport),
}

pub enum SetupReportView {
    Delegated,
    Init(InitReportView),
    Unify(UnifyReportView),
}

impl View for SetupReport {
    type V = SetupReportView;

    open spec fn view(&self) -> SetupReportView {
        match self {
            SetupReport::Delegated => SetupReportView::Delegated,
            SetupReport::Init(r) => SetupReportView::Init(r@),
            SetupReport::Unify(r) => SetupReportView::Unify(r@),
        }
    }
}

/// What a `setup` command comes to over a record.
pub open spec fn outcome(command: SetupCommandView, env: HostEnvView, log: Seq<ExchangeView>) -> Ran<
    SetupReportView,
> {
    match command {
        SetupCommandView::Init(args) => bind(
            entry_checked(env, log, 0, init_flags(args)),
            |guard: PrivilegeCheck, at1: int|
                if guard == PrivilegeCheck::Delegated {
                    done(SetupReportView::Delegated, at1)
                } else {
                    bind(
                        initialised(system_home(env), log, at1, args),
                        |r: InitReportView, at2: int| done(SetupReportView::Init(r), at2),
                    )
                },
        ),
        SetupCommandView::Unify(args) => bind(
            entry_checked(env, log, 0, unify_flags(args)),
            |guard: PrivilegeCheck, at1: int|
                if guard == PrivilegeCheck::Delegated {
                    done(SetupReportView::Delegated, at1)
                } else {
                    bind(
                        unified(system_home(env), log, at1, args),
                        |r: UnifyReportView, at2: int| done(SetupReportView::Unify(r), at2),
                    )
                },
        ),
    }
}

/// Runs a `setup` command from the start of the record.
fn run_on(command: &SetupCommand, env: &HostEnv, host: &mut Replay) -> (r: Result<
    SetupReport,
    Halt,
>)
    requires
        old(host).pos() == 0,
    ensures
        final(host).seen() == old(host).seen(),
        ran_view(r, final(host).pos()) == outcome(command@, env@, old(host).seen()),
{
    match command {
        SetupCommand::Init(args) => {
            match check_entry(env, host, append_setup_init_args(args))? {
                PrivilegeCheck::Delegated => Ok(SetupReport::Delegated),
                PrivilegeCheck::Granted => {
                    let system = ensure_setup_home_for_root(env);
                    Ok(SetupReport::Init(cmd_init(&system, host, args)?))
                },
            }
        },
        SetupCommand::Unify(args) => {
            match check_entry(env, host, append_setup_unify_args(args))? {
                PrivilegeCheck::Delegated => Ok(SetupReport::Delegated),
                PrivilegeCheck::Granted => {
                    let system = ensure_setup_home_for_root(env);
                    Ok(SetupReport::Unify(cmd_unify(&system, host, args)?))
                },
            }
        },
    }
}

/// Runs a `setup` command over the record of what it asked of the machine
/// so far.
pub fn run(command: &SetupCommand, env: &HostEnv, log: &Vec<Exchange>) -> (r: Step<SetupReport>)
    ensures
        r@ == told(outcome(command@, env@, record_views(log@)), log@.len()),
{
    let mut host = Replay::new(log);
    let result = run_on(command, env, &mut host);
    conclude(result, host.at, log.len())
}

} // verus!
