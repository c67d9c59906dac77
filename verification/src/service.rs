//! The systemd service of the proxy daemon: its unit file, and the calls of
//! `systemctl` and `journalctl` that manage it.

use crate::cli::{
    ServiceCommand, ServiceCommandView, ServiceInstallArgs, ServiceInstallArgsView,
    ServiceLogArgs, ServiceTargetArgs, ServiceTargetArgsView, ServiceUninstallArgs, UnitAction,
};
use crate::files::{
    bare_failure, file_done, file_op, file_written, is_there, make_parent, parent_made,
    path_exists, write_file,
};
use crate::host::{
    ask, bind, conclude, done, failed, halted, owned, push_arg, ran, ran_view, record_views, told,
    Effect, EffectView, Exchange, ExchangeView, Fault, FaultKind, FaultView, FileOp, Halt,
    HaltView, HostEnv, HostEnvView, Invocation, InvocationView, Ran, Replay, ReplyView, Step,
};
use crate::paths::{app_paths, join_path, joined, located, AppPaths, AppPathsView};
use crate::text::{decimal, decimal_text, push_str, text_of, views};
use crate::tun::service::{normalize_unit_name, systemctl, systemctl_command, unit_name};
use crate::tun::LINUX;
use vstd::prelude::*;

verus! {

/// Where the units of the system's services are kept.
pub const SYSTEM_UNIT_DIR: &'static str = "/etc/systemd/system";

/// The configuration that a service starts with where none exists.
pub const DEFAULT_RUNTIME_CONFIG: &'static str =
    "mixed-port: 7890\nallow-lan: false\nmode: rule\nlog-level: info\nexternal-controller: 127.0.0.1:9090\nsecret: \"\"\ndns:\n  enable: true\n  enhanced-mode: fake-ip\n";

/// The configuration that a service starts with where none exists.
pub fn default_runtime_config() -> (r: &'static str)
    ensures
        r@ == DEFAULT_RUNTIME_CONFIG@,
{
    DEFAULT_RUNTIME_CONFIG
}

impl UnitAction {
    pub open spec fn name(self) -> Seq<char> {
        match self {
            UnitAction::Enable => "enable"@,
            UnitAction::Disable => "disable"@,
            UnitAction::Start => "start"@,
            UnitAction::Stop => "stop"@,
            UnitAction::Restart => "restart"@,
        }
    }

    /// The action's name for `systemctl`.
    pub fn as_str(self) -> (r: &'static str)
        ensures
            r@ == self.name(),
    {
        match self {
            UnitAction::Enable => "enable",
            UnitAction::Disable => "disable",
            UnitAction::Start => "start",
            UnitAction::Stop => "stop",
            UnitAction::Restart => "restart",
        }
    }
}

/// The text of a unit file.
pub open spec fn unit_content(
    binary: Seq<char>,
    config: Seq<char>,
    workdir: Seq<char>,
    user_service: bool,
    unit: Seq<char>,
) -> Seq<char> {
    "[Unit]\nDescription=clash-cli managed "@ + unit
        + "\nAfter=network-online.target\nWants=network-online.target\n\n[Service]\nType=simple\nWorkingDirectory="@
        + workdir + "\nExecStart="@ + binary + " -d "@ + workdir + " -f "@ + config
        + "\nRestart=on-failure\nRestartSec=3\nLimitNOFILE=1048576\nAmbientCapabilities=CAP_NET_ADMIN CAP_NET_RAW\nCapabilityBoundingSet=CAP_NET_ADMIN CAP_NET_RAW\nNoNewPrivileges=true\n\n[Install]\nWantedBy="@
        + (if user_service {
        "default.target"@
    } else {
        "multi-user.target"@
    }) + "\n"@
}

/// The text of a unit file.
pub fn build_unit_content(
    binary: &str,
    config: &str,
    workdir: &str,
    user_service: bool,
    unit_name: &str,
) -> (r: String)
    ensures
        r@ == unit_content(binary@, config@, workdir@, user_service, unit_name@),
{
    let wanted_by = if user_service {
        "default.target"
    } else {
        "multi-user.target"
    };
    let mut out: Vec<char> = Vec::new();
    assert(out@ =~= Seq::<char>::empty());
    push_str(&mut out, "[Unit]\nDescription=clash-cli managed ");
    assert(out@ =~= "[Unit]\nDescription=clash-cli managed "@);
    push_str(&mut out, unit_name);
    push_str(
        &mut out,
        "\nAfter=network-online.target\nWants=network-online.target\n\n[Service]\nType=simple\nWorkingDirectory=",
    );
    push_str(&mut out, workdir);
    push_str(&mut out, "\nExecStart=");
    push_str(&mut out, binary);
    push_str(&mut out, " -d ");
    push_str(&mut out, workdir);
    push_str(&mut out, " -f ");
    push_str(&mut out, config);
    push_str(
        &mut out,
        "\nRestart=on-failure\nRestartSec=3\nLimitNOFILE=1048576\nAmbientCapabilities=CAP_NET_ADMIN CAP_NET_RAW\nCapabilityBoundingSet=CAP_NET_ADMIN CAP_NET_RAW\nNoNewPrivileges=true\n\n[Install]\nWantedBy=",
    );
    push_str(&mut out, wanted_by);
    push_str(&mut out, "\n");
    text_of(&out)
}

/// Where a unit's file is: below the user's configuration for a user
/// service, which needs a home directory, else with the system's units.
pub open spec fn unit_file(env: HostEnvView, user: bool, unit: Seq<char>) -> Result<
    Seq<char>,
    FaultView,
> {
    if user {
        match env.home_dir {
            Some(home) => Ok(
                joined(joined(joined(joined(home, ".config"@), "systemd"@), "user"@), unit),
            ),
            None => Err(
                FaultView {
                    kind: FaultKind::HomeUnknown,
                    detail: Seq::empty(),
                    rolled_back: false,
                },
            ),
        }
    } else {
        Ok(joined(SYSTEM_UNIT_DIR@, unit))
    }
}

/// Where a unit's file is, as a step of a run.
pub open spec fn unit_path(env: HostEnvView, user: bool, unit: Seq<char>, at: int) -> Ran<
    Seq<char>,
> {
    match unit_file(env, user, unit) {
        Ok(path) => done(path, at),
        Err(fault) => halted(HaltView::Fail(fault), at),
    }
}

/// Where a unit's file is.
pub fn resolve_unit_path(env: &HostEnv, user: bool, unit_name: &str) -> (r: Result<String, Fault>)
    ensures
        match r {
            Ok(path) => unit_file(env@, user, unit_name@) == Ok::<Seq<char>, FaultView>(path@),
            Err(fault) => unit_file(env@, user, unit_name@) == Err::<Seq<char>, FaultView>(
                fault@,
            ),
        },
{
    if user {
        match &env.home_dir {
            Some(home) => {
                let a = join_path(home.as_str(), ".config");
                let b = join_path(a.as_str(), "systemd");
                let c = join_path(b.as_str(), "user");
                Ok(join_path(c.as_str(), unit_name))
            },
            None => Err(
                Fault { kind: FaultKind::HomeUnknown, detail: String::new(), rolled_back: false },
            ),
        }
    } else {
        Ok(join_path(SYSTEM_UNIT_DIR, unit_name))
    }
}

/// What a command printed.
#[derive(Debug)]
pub struct CmdCapturedOutput {
    pub stdout: String,
    pub stderr: String,
}

pub struct CmdCapturedOutputView {
    pub stdout: Seq<char>,
    pub stderr: Seq<char>,
}

impl View for CmdCapturedOutput {
    type V = CmdCapturedOutputView;

    open spec fn view(&self) -> CmdCapturedOutputView {
        CmdCapturedOutputView { stdout: self.stdout@, stderr: self.stderr@ }
    }
}

/// What a `service` command did or found.
#[allow(inconsistent_fields)]
#[derive(Debug)]
pub enum ServiceReport {
    Install {
        unit: String,
        unit_path: String,
        workdir: String,
        config: String,
        binary: String,
        enabled: bool,
        started: bool,
        template_created: bool,
    },
    Uninstall {
        unit: String,
        unit_path: String,
        /// Whether stopping, disabling and resetting the unit succeeded.
        stopped: bool,
        disabled: bool,
        reset: bool,
        unit_deleted: bool,
        purge_requested: bool,
        runtime_purged: bool,
    },
    Action { action: UnitAction, unit: String, user: bool, output: CmdCapturedOutput },
    Status { unit: String, user: bool, output: CmdCapturedOutput },
    Log { unit: String, user: bool, lines: usize, output: Option<CmdCapturedOutput> },
}

#[allow(inconsistent_fields)]
pub enum ServiceReportView {
    Install {
        unit: Seq<char>,
        unit_path: Seq<char>,
        workdir: Seq<char>,
        config: Seq<char>,
        binary: Seq<char>,
        enabled: bool,
        started: bool,
        template_created: bool,
    },
    Uninstall {
        unit: Seq<char>,
        unit_path: Seq<char>,
        stopped: bool,
        disabled: bool,
        reset: bool,
        unit_deleted: bool,
        purge_requested: bool,
        runtime_purged: bool,
    },
    Action { action: UnitAction, unit: Seq<char>, user: bool, output: CmdCapturedOutputView },
    Status { unit: Seq<char>, user: bool, output: CmdCapturedOutputView },
    Log { unit: Seq<char>, user: bool, lines: usize, output: Option<CmdCapturedOutputView> },
}

/// The view of an optional output.
pub open spec fn output_view(o: Option<CmdCapturedOutput>) -> Option<CmdCapturedOutputView> {
    match o {
        Some(x) => Some(x@),
        None => None,
    }
}

impl View for ServiceReport {
    type V = ServiceReportView;

    open spec fn view(&self) -> ServiceReportView {
        match self {
            ServiceReport::Install {
                unit,
                unit_path,
                workdir,
                config,
                binary,
                enabled,
                started,
                template_created,
            } => ServiceReportView::Install {
                unit: unit@,
                unit_path: unit_path@,
                workdir: workdir@,
                config: config@,
                binary: binary@,
                enabled: *enabled,
                started: *started,
                template_created: *template_created,
            },
            ServiceReport::Uninstall {
                unit,
                unit_path,
                stopped,
                disabled,
                reset,
                unit_deleted,
                purge_requested,
                runtime_purged,
            } => ServiceReportView::Uninstall {
                unit: unit@,
                unit_path: unit_path@,
                stopped: *stopped,
                disabled: *disabled,
                reset: *reset,
                unit_deleted: *unit_deleted,
                purge_requested: *purge_requested,
                runtime_purged: *runtime_purged,
            },
            ServiceReport::Action { action, unit, user, output } => ServiceReportView::Action {
                action: *action,
                unit: unit@,
                user: *user,
                output: output@,
            },
            ServiceReport::Status { unit, user, output } => ServiceReportView::Status {
                unit: unit@,
                user: *user,
                output: output@,
            },
            ServiceReport::Log { unit, user, lines, output } => ServiceReportView::Log {
                unit: unit@,
                user: *user,
                lines: *lines,
                output: output_view(*output),
            },
        }
    }
}

// ---------------------------------------------------------------------------
// Outcomes over a record
// ---------------------------------------------------------------------------

/// `systemctl` is called; a call that does not succeed is a failure.
pub open spec fn systemctl_ran(log: Seq<ExchangeView>, at: int, user: bool, words: Seq<Seq<char>>) -> Ran<
    CmdCapturedOutputView,
> {
    bind(
        ask(log, at, EffectView::Run(systemctl_command(user, words))),
        |r: ReplyView, at1: int|
            if r.ok {
                done(CmdCapturedOutputView { stdout: r.text, stderr: r.detail }, at1)
            } else {
                failed(FaultKind::SystemctlFailed, r.detail, at1)
            },
    )
}

/// `systemctl` is asked to do something with a unit.
pub open spec fn unit_action(
    log: Seq<ExchangeView>,
    at: int,
    target: ServiceTargetArgsView,
    action: Seq<char>,
) -> Ran<CmdCapturedOutputView> {
    systemctl_ran(log, at, target.user, seq![action, unit_name(target.name)])
}

/// `systemctl` is asked to do something whose failure does not matter; the
/// value says whether it succeeded.
pub open spec fn unit_action_tried(
    log: Seq<ExchangeView>,
    at: int,
    target: ServiceTargetArgsView,
    action: Seq<char>,
) -> Ran<bool> {
    let r = unit_action(log, at, target, action);
    match r.out {
        Ok(_) => done(true, r.at),
        Err(HaltView::Need(e)) => halted(HaltView::Need(e), r.at),
        Err(HaltView::Fail(_)) => done(false, r.at),
    }
}

/// Fails unless the platform is Linux.
pub open spec fn linux(env: HostEnvView, at: int) -> Ran<()> {
    if env.os == LINUX@ {
        done((), at)
    } else {
        failed(FaultKind::UnsupportedPlatform, env.os, at)
    }
}

/// The text of an optional path, or a default.
pub open spec fn or_path(named: Option<Seq<char>>, default: Seq<char>) -> Seq<char> {
    match named {
        Some(p) => p,
        None => default,
    }
}

/// The configuration is put in place where there is none; the value says
/// whether it was.
#[verifier::opaque]
pub open spec fn template_made(log: Seq<ExchangeView>, at: int, config: Seq<char>) -> Ran<bool> {
    bind(
        is_there(log, at, config),
        |there: bool, at1: int|
            if there {
                done(false, at1)
            } else {
                bind(
                    parent_made(log, at1, config),
                    |u: (), at2: int|
                        bind(
                            file_written(log, at2, config, DEFAULT_RUNTIME_CONFIG@),
                            |u: (), at3: int| done(true, at3),
                        ),
                )
            },
    )
}

/// The unit is enabled and started as the command asks; a service whose
/// configuration was just created from the template is not started.
#[verifier::opaque]
pub open spec fn brought_up(
    log: Seq<ExchangeView>,
    at: int,
    args: ServiceInstallArgsView,
    template_created: bool,
) -> Ran<(bool, bool)> {
    bind(
        if args.no_enable {
            done(false, at)
        } else {
            bind(
                unit_action(log, at, args.target, "enable"@),
                |o: CmdCapturedOutputView, at1: int| done(true, at1),
            )
        },
        |enabled: bool, at2: int|
            if template_created || args.no_start {
                done((enabled, false), at2)
            } else {
                bind(
                    unit_action(log, at2, args.target, "start"@),
                    |o: CmdCapturedOutputView, at3: int| done((enabled, true), at3),
                )
            },
    )
}

/// The first half of `service install`: the unit must be new unless it may
/// be replaced, the binary must exist, the working directory is created
/// and the configuration put in place. The value says whether the
/// configuration was created from the template.
#[verifier::opaque]
pub open spec fn install_prepared(
    log: Seq<ExchangeView>,
    at: int,
    args: ServiceInstallArgsView,
    paths: AppPathsView,
    unit_file: Seq<char>,
) -> Ran<bool> {
    let binary = or_path(args.binary, paths.core_current_link);
    let config = or_path(args.config, paths.runtime_config_file);
    let workdir = or_path(args.workdir, paths.runtime_dir);
    bind(
        is_there(log, at, unit_file),
        |unit_there: bool, at1: int|
            if unit_there && !args.force {
                failed(FaultKind::UnitExists, unit_file, at1)
            } else {
                bind(
                    is_there(log, at1, binary),
                    |binary_there: bool, at2: int|
                        if !binary_there {
                            failed(FaultKind::BinaryMissing, binary, at2)
                        } else {
                            bind(
                                file_done(
                                    log,
                                    at2,
                                    FileOp::CreateDir,
                                    workdir,
                                    Seq::empty(),
                                    FaultKind::DirCreate,
                                ),
                                |u: (), at3: int| template_made(log, at3, config),
                            )
                        },
                )
            },
    )
}

/// The second half of `service install`: the unit file is written,
/// `systemd` reloads its units, and the unit is enabled and started.
#[verifier::opaque]
pub open spec fn install_finished(
    log: Seq<ExchangeView>,
    at: int,
    args: ServiceInstallArgsView,
    paths: AppPathsView,
    unit_file: Seq<char>,
    template_created: bool,
) -> Ran<ServiceReportView> {
    let unit = unit_name(args.target.name);
    let binary = or_path(args.binary, paths.core_current_link);
    let config = or_path(args.config, paths.runtime_config_file);
    let workdir = or_path(args.workdir, paths.runtime_dir);
    bind(
        parent_made(log, at, unit_file),
        |u: (), at5: int|
            bind(
                file_written(
                    log,
                    at5,
                    unit_file,
                    unit_content(binary, config, workdir, args.target.user, unit),
                ),
                |u: (), at6: int|
                    bind(
                        systemctl_ran(log, at6, args.target.user, seq!["daemon-reload"@]),
                        |o: CmdCapturedOutputView, at7: int|
                            bind(
                                brought_up(log, at7, args, template_created),
                                |up: (bool, bool), at8: int|
                                    done(
                                        ServiceReportView::Install {
                                            unit,
                                            unit_path: unit_file,
                                            workdir,
                                            config,
                                            binary,
                                            enabled: up.0,
                                            started: up.1,
                                            template_created,
                                        },
                                        at8,
                                    ),
                            ),
                    ),
            ),
    )
}

/// `service install` once the unit's path is known.
pub open spec fn installed(
    log: Seq<ExchangeView>,
    at: int,
    args: ServiceInstallArgsView,
    paths: AppPathsView,
    unit_file: Seq<char>,
) -> Ran<ServiceReportView> {
    bind(
        install_prepared(log, at, args, paths, unit_file),
        |template_created: bool, at1: int|
            install_finished(log, at1, args, paths, unit_file, template_created),
    )
}

/// Something is removed if it is there; the value says whether it was.
pub open spec fn removed_where_there(
    log: Seq<ExchangeView>,
    at: int,
    op: FileOp,
    path: Seq<char>,
) -> Ran<bool> {
    bind(
        is_there(log, at, path),
        |there: bool, at1: int|
            if there {
                bind(
                    file_done(log, at1, op, path, Seq::empty(), FaultKind::FileRemove),
                    |u: (), at2: int| done(true, at2),
                )
            } else {
                done(false, at1)
            },
    )
}

/// `service uninstall` once the unit's path is known.
#[verifier::opaque]
pub open spec fn uninstalled(
    log: Seq<ExchangeView>,
    at: int,
    target: ServiceTargetArgsView,
    purge: bool,
    paths: AppPathsView,
    unit_file: Seq<char>,
) -> Ran<ServiceReportView> {
    bind(
        unit_action_tried(log, at, target, "stop"@),
        |stopped: bool, at1: int|
            bind(
                unit_action_tried(log, at1, target, "disable"@),
                |disabled: bool, at2: int|
                    bind(
                        unit_action_tried(log, at2, target, "reset-failed"@),
                        |reset: bool, at3: int|
                            bind(
                                removed_where_there(log, at3, FileOp::Remove, unit_file),
                                |unit_deleted: bool, at4: int|
                                    bind(
                                        systemctl_ran(
                                            log,
                                            at4,
                                            target.user,
                                            seq!["daemon-reload"@],
                                        ),
                                        |o: CmdCapturedOutputView, at5: int|
                                            bind(
                                                if purge {
                                                    removed_where_there(
                                                        log,
                                                        at5,
                                                        FileOp::RemoveDirAll,
                                                        paths.runtime_dir,
                                                    )
                                                } else {
                                                    done(false, at5)
                                                },
                                                |runtime_purged: bool, at6: int|
                                                    done(
                                                        ServiceReportView::Uninstall {
                                                            unit: unit_name(target.name),
                                                            unit_path: unit_file,
                                                            stopped,
                                                            disabled,
                                                            reset,
                                                            unit_deleted,
                                                            purge_requested: purge,
                                                            runtime_purged,
                                                        },
                                                        at6,
                                                    ),
                                            ),
                                    ),
                            ),
                    ),
            ),
    )
}

/// The call of `journalctl` that shows a unit's log.
pub open spec fn journal_command(
    target: ServiceTargetArgsView,
    lines: usize,
    follow: bool,
) -> InvocationView {
    InvocationView {
        program: "journalctl"@,
        args: (if target.user {
            seq!["--user"@]
        } else {
            Seq::empty()
        }) + seq!["-u"@, unit_name(target.name), "-n"@, decimal(lines as nat), "--no-pager"@] + (
        if follow {
            seq!["-f"@]
        } else {
            Seq::empty()
        }),
        stdin: None,
    }
}

/// `service log`: with JSON output the log is captured, and following it is
/// not offered; with text output it goes to the terminal.
#[verifier::opaque]
pub open spec fn logged(
    env: HostEnvView,
    log: Seq<ExchangeView>,
    at: int,
    target: ServiceTargetArgsView,
    follow: bool,
    lines: usize,
) -> Ran<ServiceReportView> {
    if env.json {
        if follow {
            bare_failure(FaultKind::JsonUnsupported, at)
        } else {
            bind(
                ask(log, at, EffectView::Run(journal_command(target, lines, false))),
                |r: ReplyView, at1: int|
                    if r.ok {
                        done(
                            ServiceReportView::Log {
                                unit: unit_name(target.name),
                                user: target.user,
                                lines,
                                output: Some(
                                    CmdCapturedOutputView { stdout: r.text, stderr: r.detail },
                                ),
                            },
                            at1,
                        )
                    } else {
                        failed(FaultKind::JournalFailed, r.detail, at1)
                    },
            )
        }
    } else {
        bind(
            ask(log, at, EffectView::Status(journal_command(target, lines, follow))),
            |r: ReplyView, at1: int|
                if r.ok {
                    done(
                        ServiceReportView::Log {
                            unit: unit_name(target.name),
                            user: target.user,
                            lines,
                            output: None,
                        },
                        at1,
                    )
                } else {
                    failed(FaultKind::JournalFailed, r.detail, at1)
                },
        )
    }
}

/// What a `service` command comes to over a record.
pub open spec fn outcome(command: ServiceCommandView, env: HostEnvView, log: Seq<ExchangeView>) -> Ran<
    ServiceReportView,
> {
    outcome_at(command, env, log, 0)
}

/// What a `service` command comes to from a position of a record.
pub open spec fn outcome_at(
    command: ServiceCommandView,
    env: HostEnvView,
    log: Seq<ExchangeView>,
    at: int,
) -> Ran<ServiceReportView> {
    bind(
        linux(env, at),
        |u: (), at0: int|
            match command {
                ServiceCommandView::Install(args) => bind(
                    located(env, log, at0),
                    |paths: AppPathsView, at1: int|
                        bind(
                            unit_path(env, args.target.user, unit_name(args.target.name), at1),
                            |unit_file: Seq<char>, at2: int|
                                installed(log, at2, args, paths, unit_file),
                        ),
                ),
                ServiceCommandView::Uninstall(target, purge) => bind(
                    located(env, log, at0),
                    |paths: AppPathsView, at1: int|
                        bind(
                            unit_path(env, target.user, unit_name(target.name), at1),
                            |unit_file: Seq<char>, at2: int|
                                uninstalled(log, at2, target, purge, paths, unit_file),
                        ),
                ),
                ServiceCommandView::Action(action, target) => bind(
                    unit_action(log, at0, target, action.name()),
                    |output: CmdCapturedOutputView, at1: int|
                        done(
                            ServiceReportView::Action {
                                action,
                                unit: unit_name(target.name),
                                user: target.user,
                                output,
                            },
                            at1,
                        ),
                ),
                ServiceCommandView::Status(target) => bind(
                    systemctl_ran(
                        log,
                        at0,
                        target.user,
                        seq!["status"@, unit_name(target.name), "--no-pager"@],
                    ),
                    |output: CmdCapturedOutputView, at1: int|
                        done(
                            ServiceReportView::Status {
                                unit: unit_name(target.name),
                                user: target.user,
                                output,
                            },
                            at1,
                        ),
                ),
                ServiceCommandView::Log(target, follow, lines) => logged(
                    env,
                    log,
                    at0,
                    target,
                    follow,
                    lines,
                ),
            },
    )
}

/// The view of a result over two flags.
pub open spec fn ran_flags(r: Result<(bool, bool), Halt>, at: int) -> Ran<(bool, bool)> {
    Ran {
        out: match r {
            Ok(f) => Ok(f),
            Err(h) => Err(h@),
        },
        at,
    }
}

// ---------------------------------------------------------------------------
// The commands
// ---------------------------------------------------------------------------

/// Fails unless the platform is Linux.
pub fn ensure_linux_host(env: &HostEnv) -> (r: Result<(), Halt>)
    ensures
        match r {
            Ok(_) => env@.os == LINUX@,
            Err(h) => env@.os != LINUX@ && h@ == HaltView::Fail(
                FaultView { kind: FaultKind::UnsupportedPlatform, detail: env@.os, rolled_back: false },
            ),
        },
{
    if crate::text::same(env.os.as_str(), LINUX) {
        Ok(())
    } else {
        Err(
            Halt::Fail(
                Fault {
                    kind: FaultKind::UnsupportedPlatform,
                    detail: env.os.clone(),
                    rolled_back: false,
                },
            ),
        )
    }
}

/// Calls `systemctl`.
pub fn run_systemctl_raw(host: &mut Replay, user: bool, args: Vec<String>) -> (r: Result<
    CmdCapturedOutput,
    Halt,
>)
    ensures
        final(host).seen() == old(host).seen(),
        ran_view(r, final(host).pos()) == systemctl_ran(
            old(host).seen(),
            old(host).pos(),
            user,
            views(args@),
        ),
{
    let reply = host.perform(Effect::Run(systemctl(user, args)))?;
    if reply.ok {
        Ok(CmdCapturedOutput { stdout: reply.text, stderr: reply.detail })
    } else {
        Err(
            Halt::Fail(
                Fault { kind: FaultKind::SystemctlFailed, detail: reply.detail, rolled_back: false },
            ),
        )
    }
}

/// Asks `systemctl` to do something with a unit.
pub fn run_systemctl_unit_action(host: &mut Replay, target: &ServiceTargetArgs, action: &str) -> (r:
    Result<CmdCapturedOutput, Halt>)
    ensures
        final(host).seen() == old(host).seen(),
        ran_view(r, final(host).pos()) == unit_action(
            old(host).seen(),
            old(host).pos(),
            target@,
            action@,
        ),
{
    let unit = normalize_unit_name(target.name.as_str());
    let mut args: Vec<String> = Vec::new();
    assert(views(args@) =~= Seq::<Seq<char>>::empty());
    push_arg(&mut args, action);
    push_arg(&mut args, unit.as_str());
    assert(views(args@) =~= seq![action@, unit_name(target@.name)]);
    run_systemctl_raw(host, target.user, args)
}

/// Asks `systemctl` to do something whose failure is worth a warning only.
pub fn run_systemctl_unit_action_best_effort(
    host: &mut Replay,
    target: &ServiceTargetArgs,
    action: &str,
) -> (r: Result<bool, Halt>)
    ensures
        final(host).seen() == old(host).seen(),
        ran(r, final(host).pos()) == unit_action_tried(
            old(host).seen(),
            old(host).pos(),
            target@,
            action@,
        ),
{
    match run_systemctl_unit_action(host, target, action) {
        Ok(_) => Ok(true),
        Err(Halt::Need(e)) => Err(Halt::Need(e)),
        Err(Halt::Fail(_)) => Ok(false),
    }
}

/// A list with one word.
fn one_word(word: &str) -> (r: Vec<String>)
    ensures
        views(r@) == seq![word@],
{
    let mut args: Vec<String> = Vec::new();
    assert(views(args@) =~= Seq::<Seq<char>>::empty());
    push_arg(&mut args, word);
    assert(views(args@) =~= seq![word@]);
    args
}

/// Puts the template configuration in place where there is none.
fn make_template(host: &mut Replay, config: &str) -> (r: Result<bool, Halt>)
    ensures
        final(host).seen() == old(host).seen(),
        ran(r, final(host).pos()) == template_made(old(host).seen(), old(host).pos(), config@),
{
    proof {
        reveal(template_made);
    }
    if path_exists(host, config)? {
        return Ok(false);
    }
    make_parent(host, config)?;
    write_file(host, config, owned(default_runtime_config()))?;
    Ok(true)
}

/// Enables and starts the unit as the command asks.
fn bring_up(host: &mut Replay, args: &ServiceInstallArgs, template_created: bool) -> (r: Result<
    (bool, bool),
    Halt,
>)
    ensures
        final(host).seen() == old(host).seen(),
        ran_flags(r, final(host).pos()) == brought_up(
            old(host).seen(),
            old(host).pos(),
            args@,
            template_created,
        ),
{
    proof {
        reveal(brought_up);
    }
    let mut enabled = false;
    if !args.no_enable {
        let _ = run_systemctl_unit_action(host, &args.target, "enable")?;
        enabled = true;
    }
    let mut started = false;
    if !template_created && !args.no_start {
        let _ = run_systemctl_unit_action(host, &args.target, "start")?;
        started = true;
    }
    Ok((enabled, started))
}

/// The first half of `service install`.
fn prepare_install(
    host: &mut Replay,
    args: &ServiceInstallArgs,
    paths: &AppPaths,
    unit_path: &str,
) -> (r: Result<bool, Halt>)
    ensures
        final(host).seen() == old(host).seen(),
        ran(r, final(host).pos()) == install_prepared(
            old(host).seen(),
            old(host).pos(),
            args@,
            paths@,
            unit_path@,
        ),
{
    proof {
        reveal(install_prepared);
    }
    let binary = match &args.binary {
        Some(p) => p.clone(),
        None => paths.core_current_link.clone(),
    };
    let config = match &args.config {
        Some(p) => p.clone(),
        None => paths.runtime_config_file.clone(),
    };
    let workdir = match &args.workdir {
        Some(p) => p.clone(),
        None => paths.runtime_dir.clone(),
    };
    if path_exists(host, unit_path)? && !args.force {
        return Err(
            Halt::Fail(
                Fault { kind: FaultKind::UnitExists, detail: owned(unit_path), rolled_back: false },
            ),
        );
    }
    if !path_exists(host, binary.as_str())? {
        return Err(
            Halt::Fail(Fault { kind: FaultKind::BinaryMissing, detail: binary, rolled_back: false }),
        );
    }
    let none = String::new();
    file_op(host, FileOp::CreateDir, workdir.as_str(), none.as_str(), FaultKind::DirCreate)?;
    make_template(host, config.as_str())
}

/// The second half of `service install`.
fn finish_install(
    host: &mut Replay,
    args: &ServiceInstallArgs,
    paths: &AppPaths,
    unit_path: String,
    created_template: bool,
) -> (r: Result<ServiceReport, Halt>)
    ensures
        final(host).seen() == old(host).seen(),
        ran_view(r, final(host).pos()) == install_finished(
            old(host).seen(),
            old(host).pos(),
            args@,
            paths@,
            unit_path@,
            created_template,
        ),
{
    proof {
        reveal(install_finished);
    }
    let unit_name = normalize_unit_name(args.target.name.as_str());
    let binary = match &args.binary {
        Some(p) => p.clone(),
        None => paths.core_current_link.clone(),
    };
    let config = match &args.config {
        Some(p) => p.clone(),
        None => paths.runtime_config_file.clone(),
    };
    let workdir = match &args.workdir {
        Some(p) => p.clone(),
        None => paths.runtime_dir.clone(),
    };
    make_parent(host, unit_path.as_str())?;
    let unit_content = build_unit_content(
        binary.as_str(),
        config.as_str(),
        workdir.as_str(),
        args.target.user,
        unit_name.as_str(),
    );
    write_file(host, unit_path.as_str(), unit_content)?;
    let _ = run_systemctl_raw(host, args.target.user, one_word("daemon-reload"))?;
    let (enabled, started) = bring_up(host, args, created_template)?;
    Ok(
        ServiceReport::Install {
            unit: unit_name,
            unit_path,
            workdir,
            config,
            binary,
            enabled,
            started,
            template_created: created_template,
        },
    )
}

/// `service install`.
pub fn cmd_install(
    host: &mut Replay,
    args: &ServiceInstallArgs,
    paths: &AppPaths,
    unit_path: String,
) -> (r: Result<ServiceReport, Halt>)
    ensures
        final(host).seen() == old(host).seen(),
        ran_view(r, final(host).pos()) == installed(
            old(host).seen(),
            old(host).pos(),
            args@,
            paths@,
            unit_path@,
        ),
{
    let created_template = prepare_install(host, args, paths, unit_path.as_str())?;
    finish_install(host, args, paths, unit_path, created_template)
}

/// Removes something if it is there.
fn remove_where_there(host: &mut Replay, op: FileOp, path: &str) -> (r: Result<bool, Halt>)
    ensures
        final(host).seen() == old(host).seen(),
        ran(r, final(host).pos()) == removed_where_there(
            old(host).seen(),
            old(host).pos(),
            op,
            path@,
        ),
{
    if path_exists(host, path)? {
        let none = String::new();
        file_op(host, op, path, none.as_str(), FaultKind::FileRemove)?;
        Ok(true)
    } else {
        Ok(false)
    }
}

/// `service uninstall`.
pub fn cmd_uninstall(
    host: &mut Replay,
    args: &ServiceUninstallArgs,
    paths: &AppPaths,
    unit_path: String,
) -> (r: Result<ServiceReport, Halt>)
    ensures
        final(host).seen() == old(host).seen(),
        ran_view(r, final(host).pos()) == uninstalled(
            old(host).seen(),
            old(host).pos(),
            args.target@,
            args.purge,
            paths@,
            unit_path@,
        ),
{
    proof {
        reveal(uninstalled);
    }
    let stopped = run_systemctl_unit_action_best_effort(host, &args.target, "stop")?;
    let disabled = run_systemctl_unit_action_best_effort(host, &args.target, "disable")?;
    let reset = run_systemctl_unit_action_best_effort(host, &args.target, "reset-failed")?;
    let unit_deleted = remove_where_there(host, FileOp::Remove, unit_path.as_str())?;
    let _ = run_systemctl_raw(host, args.target.user, one_word("daemon-reload"))?;
    let mut runtime_purged = false;
    if args.purge {
        runtime_purged = remove_where_there(host, FileOp::RemoveDirAll, paths.runtime_dir.as_str())?;
    }
    Ok(
        ServiceReport::Uninstall {
            unit: normalize_unit_name(args.target.name.as_str()),
            unit_path,
            stopped,
            disabled,
            reset,
            unit_deleted,
            purge_requested: args.purge,
            runtime_purged,
        },
    )
}

/// `service enable`, `disable`, `start`, `stop` and `restart`.
pub fn cmd_simple_action(host: &mut Replay, target: &ServiceTargetArgs, action: UnitAction) -> (r:
    Result<ServiceReport, Halt>)
    ensures
        final(host).seen() == old(host).seen(),
        ran_view(r, final(host).pos()) == bind(
            unit_action(old(host).seen(), old(host).pos(), target@, action.name()),
            |output: CmdCapturedOutputView, at1: int|
                done(
                    ServiceReportView::Action {
                        action,
                        unit: unit_name(target@.name),
                        user: target.user,
                        output,
                    },
                    at1,
                ),
        ),
{
    let output = run_systemctl_unit_action(host, target, action.as_str())?;
    Ok(
        ServiceReport::Action {
            action,
            unit: normalize_unit_name(target.name.as_str()),
            user: target.user,
            output,
        },
    )
}

/// `service status`.
pub fn cmd_status(host: &mut Replay, target: &ServiceTargetArgs) -> (r: Result<
    ServiceReport,
    Halt,
>)
    ensures
        final(host).seen() == old(host).seen(),
        ran_view(r, final(host).pos()) == bind(
            systemctl_ran(
                old(host).seen(),
                old(host).pos(),
                target.user,
                seq!["status"@, unit_name(target@.name), "--no-pager"@],
            ),
            |output: CmdCapturedOutputView, at1: int|
                done(
                    ServiceReportView::Status {
                        unit: unit_name(target@.name),
                        user: target.user,
                        output,
                    },
                    at1,
                ),
        ),
{
    let unit = normalize_unit_name(target.name.as_str());
    let mut args: Vec<String> = Vec::new();
    assert(views(args@) =~= Seq::<Seq<char>>::empty());
    push_arg(&mut args, "status");
    push_arg(&mut args, unit.as_str());
    push_arg(&mut args, "--no-pager");
    assert(views(args@) =~= seq!["status"@, unit_name(target@.name), "--no-pager"@]);
    let output = run_systemctl_raw(host, target.user, args)?;
    Ok(ServiceReport::Status { unit, user: target.user, output })
}

/// The call of `journalctl` that shows a unit's log.
pub fn journalctl(target: &ServiceTargetArgs, lines: usize, follow: bool) -> (r: Invocation)
    ensures
        r@ == journal_command(target@, lines, follow),
{
    let mut args: Vec<String> = Vec::new();
    assert(views(args@) =~= Seq::<Seq<char>>::empty());
    if target.user {
        push_arg(&mut args, "--user");
    }
    let unit = normalize_unit_name(target.name.as_str());
    let count = decimal_text(lines as u64);
    push_arg(&mut args, "-u");
    push_arg(&mut args, unit.as_str());
    push_arg(&mut args, "-n");
    push_arg(&mut args, count.as_str());
    push_arg(&mut args, "--no-pager");
    if follow {
        push_arg(&mut args, "-f");
    }
    assert(views(args@) =~= journal_command(target@, lines, follow).args);
    Invocation { program: owned("journalctl"), args, stdin: None }
}

/// `service log`.
pub fn cmd_log(env: &HostEnv, host: &mut Replay, args: &ServiceLogArgs) -> (r: Result<
    ServiceReport,
    Halt,
>)
    ensures
        final(host).seen() == old(host).seen(),
        ran_view(r, final(host).pos()) == logged(
            env@,
            old(host).seen(),
            old(host).pos(),
            args.target@,
            args.follow,
            args.lines,
        ),
{
    proof {
        reveal(logged);
    }
    let unit = normalize_unit_name(args.target.name.as_str());
    if env.json {
        if args.follow {
            return Err(
                Halt::Fail(
                    Fault {
                        kind: FaultKind::JsonUnsupported,
                        detail: String::new(),
                        rolled_back: false,
                    },
                ),
            );
        }
        let reply = host.perform(Effect::Run(journalctl(&args.target, args.lines, false)))?;
        if !reply.ok {
            return Err(
                Halt::Fail(
                    Fault { kind: FaultKind::JournalFailed, detail: reply.detail, rolled_back: false },
                ),
            );
        }
        return Ok(
            ServiceReport::Log {
                unit,
                user: args.target.user,
                lines: args.lines,
                output: Some(CmdCapturedOutput { stdout: reply.text, stderr: reply.detail }),
            },
        );
    }
    let reply = host.perform(Effect::Status(journalctl(&args.target, args.lines, args.follow)))?;
    if !reply.ok {
        return Err(
            Halt::Fail(
                Fault { kind: FaultKind::JournalFailed, detail: reply.detail, rolled_back: false },
            ),
        );
    }
    Ok(ServiceReport::Log { unit, user: args.target.user, lines: args.lines, output: None })
}

/// Runs a `service` command from a position of the record.
pub fn run_on(command: &ServiceCommand, env: &HostEnv, host: &mut Replay) -> (r: Result<
    ServiceReport,
    Halt,
>)
    ensures
        final(host).seen() == old(host).seen(),
        ran_view(r, final(host).pos()) == outcome_at(
            command@,
            env@,
            old(host).seen(),
            old(host).pos(),
        ),
{
    ensure_linux_host(env)?;
    match command {
        ServiceCommand::Install(args) => {
            let paths = app_paths(env, host)?;
            let unit = normalize_unit_name(args.target.name.as_str());
            let unit_path = match resolve_unit_path(env, args.target.user, unit.as_str()) {
                Ok(path) => path,
                Err(fault) => {
                    return Err(Halt::Fail(fault));
                },
            };
            cmd_install(host, args, &paths, unit_path)
        },
        ServiceCommand::Uninstall(args) => {
            let paths = app_paths(env, host)?;
            let unit = normalize_unit_name(args.target.name.as_str());
            let unit_path = match resolve_unit_path(env, args.target.user, unit.as_str()) {
                Ok(path) => path,
                Err(fault) => {
                    return Err(Halt::Fail(fault));
                },
            };
            cmd_uninstall(host, args, &paths, unit_path)
        },
        ServiceCommand::Enable(target) => cmd_simple_action(host, target, UnitAction::Enable),
        ServiceCommand::Disable(target) => cmd_simple_action(host, target, UnitAction::Disable),
        ServiceCommand::Start(target) => cmd_simple_action(host, target, UnitAction::Start),
        ServiceCommand::Stop(target) => cmd_simple_action(host, target, UnitAction::Stop),
        ServiceCommand::Restart(target) => cmd_simple_action(host, target, UnitAction::Restart),
        ServiceCommand::Status(target) => cmd_status(host, target),
        ServiceCommand::Log(args) => cmd_log(env, host, args),
    }
}

/// Runs a `service` command over the record of what it asked of the
/// machine so far.
pub fn run(command: &ServiceCommand, env: &HostEnv, log: &Vec<Exchange>) -> (r: Step<
    ServiceReport,
>)
    ensures
        r@ == told(outcome(command@, env@, record_views(log@)), log@.len()),
{
    let mut host = Replay::new(log);
    let result = run_on(command, env, &mut host);
    conclude(result, host.at, log.len())
}

} // verus!
