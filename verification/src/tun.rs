//! TUN mode: the switch of the transparent proxy. `on` and `off` change the
//! configuration, apply or remove the redirect rules and record what was
//! done; `status` and `doctor` find out anew what holds, without trusting
//! the record.

pub mod backend;
pub mod checks;
pub mod config;
pub mod guard;
pub mod model;
pub mod rules;
pub mod service;
pub mod state;

use crate::cli::{
    TunApplyArgs, TunApplyArgsView, TunCommand, TunCommandView, TunStatusArgs, TunStatusArgsView,
};
use crate::host::{
    record_views, Exchange, ExchangeView, ask, bind, conclude, done, failed, halted, owned, ran,
    ran_view, text_view, told, Effect, EffectView, Fault, FaultKind, FaultView, Halt, HaltView,
    HostEnv, HostEnvView, Program, Ran, Replay, ReplyView, Step,
};
use crate::files::{clock, now_unix};
use crate::paths::{app_paths, located, AppPaths, AppPathsView};
use crate::text::{concat3, same};
use crate::tun::backend::{
    apply_dataplane_rules, apply_rules, cleanup_all, cleanup_all_quietly,
    cleanup_dataplane_rules, cleanup_dataplane_rules_all,
    cleanup_dataplane_rules_all_best_effort, cleanup_rules, command_exists, detect_active,
    detect_active_rule_backend, select_backend, select_rule_backend, tool_exists,
};
use crate::tun::checks::{
    backend_check, capability_check, check_backend, check_capability, check_config,
    check_rp_filter, check_sysctl_value, check_tun_device, config_check, count_level,
    device_check, item_views, pass, passed, rp_filter_check, summarize_checks, sysctl_check,
    warn, warned, CheckItem, CheckItemView, CheckLevel, ConfigChecksView, IP_FORWARD_PATH,
    TUN_DEVICE_PATH,
};
use crate::tun::config::{
    auto_redirect_of, disable_tun, disabled_config, enable_tun, enabled_config,
    lemma_enable_idempotent, lemma_enabled_is_mapping, lemma_loaded_document, load_existing,
    load_existing_config, load_or_init, load_or_init_config, redir_port_of, redirect_port, save,
    save_config, wants_redirect, write_config, write_config_text, LoadedView,
};
use crate::tun::guard::{
    ensure_tun_doctor_privileges_or_delegate, ensure_tun_privileges_or_delegate, guard_apply,
    guard_doctor, or_no, PrivilegeCheck, TunAction, CAP_NET_ADMIN_BIT, CAP_NET_RAW_BIT,
};
use crate::host::Family;
use crate::tun::model::{
    consistent, lemma_apply_leaves_active, lemma_ask, lemma_detect, lemma_tool_exists, state_at,
    Firewall,
};
use crate::tun::rules::chain_rules;
use crate::tun::service::{
    normalize_unit_name, query_service_active, restart_service_best_effort, restarted,
    service_active, systemctl_command, unit_name,
};
use crate::tun::state::{
    read_tun_state, state_read, state_text, state_view, state_written, write_tun_state,
    RuleBackend, TunState, TunStateView,
};
use crate::yaml::{
    bool_at, bool_field, key_value, mapping_node, no_entries, string_field, text_at, yaml_read,
    yaml_written, Node, NodeView,
};
use vstd::prelude::*;

verus! {

/// The name of the operating system on which the tool works.
pub const LINUX: &'static str = "linux";

// ---------------------------------------------------------------------------
// Reports
// ---------------------------------------------------------------------------

/// What `tun on` did.
#[derive(Debug)]
pub struct OnReport {
    pub config_path: String,
    pub service: String,
    pub user_service: bool,
    pub backend: RuleBackend,
    pub redir_port: u16,
    pub rules_applied: bool,
    /// Where no rules were asked for: whether rules left from before were
    /// removed without an error.
    pub stale_rules_removed: Option<bool>,
    pub restart_attempted: bool,
    pub restart_ok: Option<bool>,
}

pub struct OnReportView {
    pub config_path: Seq<char>,
    pub service: Seq<char>,
    pub user_service: bool,
    pub backend: RuleBackend,
    pub redir_port: u16,
    pub rules_applied: bool,
    pub stale_rules_removed: Option<bool>,
    pub restart_attempted: bool,
    pub restart_ok: Option<bool>,
}

impl View for OnReport {
    type V = OnReportView;

    open spec fn view(&self) -> OnReportView {
        OnReportView {
            config_path: self.config_path@,
            service: self.service@,
            user_service: self.user_service,
            backend: self.backend,
            redir_port: self.redir_port,
            rules_applied: self.rules_applied,
            stale_rules_removed: self.stale_rules_removed,
            restart_attempted: self.restart_attempted,
            restart_ok: self.restart_ok,
        }
    }
}

/// What `tun off` did.
#[derive(Debug)]
pub struct OffReport {
    pub config_path: String,
    pub service: String,
    pub user_service: bool,
    pub redir_port: u16,
    pub restart_attempted: bool,
    pub restart_ok: Option<bool>,
}

pub struct OffReportView {
    pub config_path: Seq<char>,
    pub service: Seq<char>,
    pub user_service: bool,
    pub redir_port: u16,
    pub restart_attempted: bool,
    pub restart_ok: Option<bool>,
}

impl View for OffReport {
    type V = OffReportView;

    open spec fn view(&self) -> OffReportView {
        OffReportView {
            config_path: self.config_path@,
            service: self.service@,
            user_service: self.user_service,
            redir_port: self.redir_port,
            restart_attempted: self.restart_attempted,
            restart_ok: self.restart_ok,
        }
    }
}

/// What `tun status` found: the configuration's fields, the live state of
/// the system, the record of the last operation, and whether TUN mode is
/// actually in effect.
#[derive(Debug)]
pub struct StatusReport {
    pub config_path: String,
    pub config_found: bool,
    pub tun_enable: bool,
    pub redir_port: u16,
    pub tun_auto_route: Option<bool>,
    pub tun_auto_redirect: Option<bool>,
    pub tun_strict_route: Option<bool>,
    pub tun_stack: Option<String>,
    pub dns_enable: Option<bool>,
    pub dns_enhanced_mode: Option<String>,
    pub ipv6: Option<bool>,
    pub dns_ipv6: Option<bool>,
    pub device_ok: bool,
    pub backend_installed: bool,
    pub active_backend: RuleBackend,
    pub rules_active: bool,
    pub service_active: bool,
    pub service: String,
    pub user_service: bool,
    pub last_state: Option<TunState>,
    pub actual_ok: bool,
}

pub struct StatusReportView {
    pub config_path: Seq<char>,
    pub config_found: bool,
    pub tun_enable: bool,
    pub redir_port: u16,
    pub tun_auto_route: Option<bool>,
    pub tun_auto_redirect: Option<bool>,
    pub tun_strict_route: Option<bool>,
    pub tun_stack: Option<Seq<char>>,
    pub dns_enable: Option<bool>,
    pub dns_enhanced_mode: Option<Seq<char>>,
    pub ipv6: Option<bool>,
    pub dns_ipv6: Option<bool>,
    pub device_ok: bool,
    pub backend_installed: bool,
    pub active_backend: RuleBackend,
    pub rules_active: bool,
    pub service_active: bool,
    pub service: Seq<char>,
    pub user_service: bool,
    pub last_state: Option<TunStateView>,
    pub actual_ok: bool,
}

impl View for StatusReport {
    type V = StatusReportView;

    open spec fn view(&self) -> StatusReportView {
        StatusReportView {
            config_path: self.config_path@,
            config_found: self.config_found,
            tun_enable: self.tun_enable,
            redir_port: self.redir_port,
            tun_auto_route: self.tun_auto_route,
            tun_auto_redirect: self.tun_auto_redirect,
            tun_strict_route: self.tun_strict_route,
            tun_stack: text_view(self.tun_stack),
            dns_enable: self.dns_enable,
            dns_enhanced_mode: text_view(self.dns_enhanced_mode),
            ipv6: self.ipv6,
            dns_ipv6: self.dns_ipv6,
            device_ok: self.device_ok,
            backend_installed: self.backend_installed,
            active_backend: self.active_backend,
            rules_active: self.rules_active,
            service_active: self.service_active,
            service: self.service@,
            user_service: self.user_service,
            last_state: state_view(self.last_state),
            actual_ok: self.actual_ok,
        }
    }
}

/// What `tun doctor` found: every check's result, how many passed, warned
/// and failed, and whether none failed.
#[derive(Debug)]
pub struct DoctorReport {
    pub checks: Vec<CheckItem>,
    pub pass_count: usize,
    pub warn_count: usize,
    pub fail_count: usize,
    pub ok: bool,
}

pub struct DoctorReportView {
    pub checks: Seq<CheckItemView>,
    pub pass_count: nat,
    pub warn_count: nat,
    pub fail_count: nat,
    pub ok: bool,
}

impl View for DoctorReport {
    type V = DoctorReportView;

    open spec fn view(&self) -> DoctorReportView {
        DoctorReportView {
            checks: item_views(self.checks@),
            pass_count: self.pass_count as nat,
            warn_count: self.warn_count as nat,
            fail_count: self.fail_count as nat,
            ok: self.ok,
        }
    }
}

/// What a `tun` command did or found. `Delegated` means that an elevated
/// copy of the program did the work.
#[derive(Debug)]
pub enum TunReport {
    Delegated,
    Doctor(DoctorReport),
    On(OnReport),
    Off(OffReport),
    Status(StatusReport),
}

pub enum TunReportView {
    Delegated,
    Doctor(DoctorReportView),
    On(OnReportView),
    Off(OffReportView),
    Status(StatusReportView),
}

impl View for TunReport {
    type V = TunReportView;

    open spec fn view(&self) -> TunReportView {
        match self {
            TunReport::Delegated => TunReportView::Delegated,
            TunReport::Doctor(r) => TunReportView::Doctor(r@),
            TunReport::On(r) => TunReportView::On(r@),
            TunReport::Off(r) => TunReportView::Off(r@),
            TunReport::Status(r) => TunReportView::Status(r@),
        }
    }
}

// ---------------------------------------------------------------------------
// Outcomes over a record
// ---------------------------------------------------------------------------

/// The service is restarted unless the command says not to; the value says
/// whether the restart, if there was one, succeeded.
pub open spec fn restart_unless(log: Seq<ExchangeView>, at: int, args: TunApplyArgsView) -> Ran<
    Option<bool>,
> {
    if args.no_restart {
        done(None, at)
    } else {
        bind(
            restarted(log, at, args.name, args.user),
            |ok: bool, at1: int| done(Some(ok), at1),
        )
    }
}

/// A backend is selected and the rules are applied with it.
#[verifier::opaque]
pub open spec fn rules_applied(log: Seq<ExchangeView>, at: int, redir_port: u16) -> Ran<RuleBackend> {
    bind(
        select_backend(log, at),
        |backend: RuleBackend, at1: int| apply_rules(log, at1, backend, redir_port),
    )
}

/// The end of `on`: the state is recorded with the clock's reading, and the
/// service restarted.
#[verifier::opaque]
pub open spec fn on_recorded(
    log: Seq<ExchangeView>,
    at: int,
    args: TunApplyArgsView,
    paths: AppPathsView,
    backend: RuleBackend,
    redir_port: u16,
    applied: bool,
    stale_rules_removed: Option<bool>,
) -> Ran<OnReportView> {
    bind(
        clock(log, at),
        |now: u64, at1: int|
            bind(
                state_written(
                    log,
                    at1,
                    paths.runtime_tun_state_file,
                    TunStateView {
                        enabled: true,
                        service_name: args.name,
                        user_service: args.user,
                        backend,
                        redir_port,
                        rules_applied: applied,
                        updated_at: now,
                    },
                ),
                |u: (), at2: int|
                    bind(
                        restart_unless(log, at2, args),
                        |restart_ok: Option<bool>, at3: int|
                            done(
                                OnReportView {
                                    config_path: paths.runtime_config_file,
                                    service: unit_name(args.name),
                                    user_service: args.user,
                                    backend,
                                    redir_port,
                                    rules_applied: applied,
                                    stale_rules_removed,
                                    restart_attempted: !args.no_restart,
                                    restart_ok,
                                },
                                at3,
                            ),
                    ),
            ),
    )
}

/// `on` once rule application came to `rules`. Where it failed, the text
/// that the configuration was loaded from is written back and the failure
/// is marked as rolled back.
#[verifier::opaque]
pub open spec fn on_settled(
    log: Seq<ExchangeView>,
    rules: Ran<RuleBackend>,
    args: TunApplyArgsView,
    paths: AppPathsView,
    initial: Seq<char>,
    redir_port: u16,
) -> Ran<OnReportView> {
    match rules.out {
        Ok(backend) => on_recorded(log, rules.at, args, paths, backend, redir_port, true, None),
        Err(HaltView::Need(e)) => halted(HaltView::Need(e), rules.at),
        Err(HaltView::Fail(f)) => bind(
            write_config(log, rules.at, paths.runtime_config_file, initial),
            |u: (), at1: int| halted(HaltView::Fail(FaultView { rolled_back: true, ..f }), at1),
        ),
    }
}

/// `on` once the enabled configuration `root` is saved. Where the
/// configuration asks for redirect rules they are applied, and the
/// configuration is rolled back if that fails. Where it asks for none,
/// rules left from before are removed as far as that goes.
#[verifier::opaque]
pub open spec fn on_reconciled(
    log: Seq<ExchangeView>,
    at: int,
    args: TunApplyArgsView,
    paths: AppPathsView,
    initial: Seq<char>,
    root: NodeView,
) -> Ran<OnReportView> {
    let port = redirect_port(root);
    if wants_redirect(root) {
        on_settled(log, rules_applied(log, at, port), args, paths, initial, port)
    } else {
        bind(
            cleanup_all_quietly(log, at),
            |clean: bool, at1: int|
                on_recorded(log, at1, args, paths, RuleBackend::Absent, port, false, Some(clean)),
        )
    }
}

/// `tun on`.
pub open spec fn on(env: HostEnvView, log: Seq<ExchangeView>, at: int, args: TunApplyArgsView) -> Ran<
    TunReportView,
> {
    if env.os != LINUX@ {
        failed(FaultKind::UnsupportedPlatform, env.os, at)
    } else {
        bind(
            guard_apply(env, log, at, TunAction::On, args),
            |guard: PrivilegeCheck, at1: int|
                if guard == PrivilegeCheck::Delegated {
                    done(TunReportView::Delegated, at1)
                } else {
                    bind(
                        ask(log, at1, EffectView::PathExists(TUN_DEVICE_PATH@)),
                        |device: ReplyView, at2: int|
                            if !device.ok {
                                failed(FaultKind::DeviceMissing, Seq::empty(), at2)
                            } else {
                                bind(
                                    located(env, log, at2),
                                    |paths: AppPathsView, at3: int|
                                        bind(
                                            load_or_init(log, at3, paths.runtime_config_file),
                                            |loaded: LoadedView, at4: int|
                                                bind(
                                                    save(
                                                        log,
                                                        at4,
                                                        paths.runtime_config_file,
                                                        enabled_config(loaded.root),
                                                    ),
                                                    |u: (), at5: int|
                                                        bind(
                                                            on_reconciled(
                                                                log,
                                                                at5,
                                                                args,
                                                                paths,
                                                                loaded.text,
                                                                enabled_config(loaded.root),
                                                            ),
                                                            |report: OnReportView, at6: int|
                                                                done(
                                                                    TunReportView::On(report),
                                                                    at6,
                                                                ),
                                                        ),
                                                ),
                                        ),
                                )
                            },
                    )
                },
        )
    }
}

/// The rules are removed at `off`: those of the recorded backend where the
/// record says that rules were applied, those of every backend otherwise.
/// A failure is one of the cleanup.
#[verifier::opaque]
pub open spec fn off_cleaned(log: Seq<ExchangeView>, at: int, previous: Option<TunStateView>) -> Ran<
    (),
> {
    let cleaned = match previous {
        Some(state) => if state.rules_applied {
            cleanup_rules(log, at, state.backend)
        } else {
            cleanup_all(log, at)
        },
        None => cleanup_all(log, at),
    };
    match cleaned.out {
        Err(HaltView::Fail(f)) => failed(FaultKind::CleanupFailed, f.detail, cleaned.at),
        _ => cleaned,
    }
}

/// `tun off`.
pub open spec fn off(env: HostEnvView, log: Seq<ExchangeView>, at: int, args: TunApplyArgsView) -> Ran<
    TunReportView,
> {
    if env.os != LINUX@ {
        failed(FaultKind::UnsupportedPlatform, env.os, at)
    } else {
        bind(
            guard_apply(env, log, at, TunAction::Off, args),
            |guard: PrivilegeCheck, at1: int|
                if guard == PrivilegeCheck::Delegated {
                    done(TunReportView::Delegated, at1)
                } else {
                    bind(
                        located(env, log, at1),
                        |paths: AppPathsView, at2: int|
                            bind(
                                load_or_init(log, at2, paths.runtime_config_file),
                                |loaded: LoadedView, at3: int|
                                    bind(
                                        state_read(log, at3, paths.runtime_tun_state_file),
                                        |previous: Option<TunStateView>, at4: int|
                                            bind(
                                                save(
                                                    log,
                                                    at4,
                                                    paths.runtime_config_file,
                                                    disabled_config(loaded.root),
                                                ),
                                                |u: (), at5: int|
                                                    bind(
                                                        off_cleaned(log, at5, previous),
                                                        |u: (), at6: int|
                                                            off_recorded(
                                                                log,
                                                                at6,
                                                                args,
                                                                paths,
                                                                redirect_port(loaded.root),
                                                            ),
                                                    ),
                                            ),
                                    ),
                            ),
                    )
                },
        )
    }
}

/// The end of `off`: the state is recorded, and the service restarted.
#[verifier::opaque]
pub open spec fn off_recorded(
    log: Seq<ExchangeView>,
    at: int,
    args: TunApplyArgsView,
    paths: AppPathsView,
    redir_port: u16,
) -> Ran<TunReportView> {
    bind(
        clock(log, at),
        |now: u64, at1: int|
            bind(
                state_written(
                    log,
                    at1,
                    paths.runtime_tun_state_file,
                    TunStateView {
                        enabled: false,
                        service_name: args.name,
                        user_service: args.user,
                        backend: RuleBackend::Absent,
                        redir_port,
                        rules_applied: false,
                        updated_at: now,
                    },
                ),
                |u: (), at2: int|
                    bind(
                        restart_unless(log, at2, args),
                        |restart_ok: Option<bool>, at3: int|
                            done(
                                TunReportView::Off(
                                    OffReportView {
                                        config_path: paths.runtime_config_file,
                                        service: unit_name(args.name),
                                        user_service: args.user,
                                        redir_port,
                                        restart_attempted: !args.no_restart,
                                        restart_ok,
                                    },
                                ),
                                at3,
                            ),
                    ),
            ),
    )
}

/// The configuration for `status`: the loaded one, or the empty mapping
/// where there is no file.
#[verifier::opaque]
pub open spec fn status_config(log: Seq<ExchangeView>, at: int, path: Seq<char>) -> Ran<
    (bool, NodeView),
> {
    bind(
        ask(log, at, EffectView::PathExists(path)),
        |there: ReplyView, at1: int|
            if there.ok {
                bind(
                    load_existing(log, at1, path),
                    |loaded: LoadedView, at2: int| done((true, loaded.root), at2),
                )
            } else {
                done((false, NodeView::Mapping(Seq::empty())), at1)
            },
    )
}

/// Whether a firewall backend is installed.
pub open spec fn backend_installed(log: Seq<ExchangeView>, at: int) -> Ran<bool> {
    bind(
        tool_exists(log, at, Program::Nft),
        |nft: bool, at1: int|
            if nft {
                done(true, at1)
            } else {
                tool_exists(log, at1, Program::Iptables)
            },
    )
}

/// Whether TUN mode is actually in effect: the configuration enables it,
/// the device exists, the rules are live where the configuration asks for
/// them, and the service runs.
pub open spec fn in_effect(
    tun_enable: bool,
    device_ok: bool,
    auto_redirect: bool,
    rules_active: bool,
    service_active: bool,
) -> bool {
    tun_enable && device_ok && (auto_redirect ==> rules_active) && service_active
}

/// The report of `status` from what was found.
pub open spec fn status_report(
    args: TunStatusArgsView,
    paths: AppPathsView,
    found: bool,
    root: NodeView,
    device_ok: bool,
    installed: bool,
    active: RuleBackend,
    running: bool,
    last_state: Option<TunStateView>,
) -> StatusReportView {
    let tun = root.field("tun"@);
    let dns = root.field("dns"@);
    let tun_enable = bool_at(tun, "enable"@) == Some(true);
    let auto_redirect = bool_at(tun, "auto-redirect"@) == Some(true);
    StatusReportView {
        config_path: paths.runtime_config_file,
        config_found: found,
        tun_enable,
        redir_port: redirect_port(root),
        tun_auto_route: bool_at(tun, "auto-route"@),
        tun_auto_redirect: bool_at(tun, "auto-redirect"@),
        tun_strict_route: bool_at(tun, "strict-route"@),
        tun_stack: text_at(tun, "stack"@),
        dns_enable: bool_at(dns, "enable"@),
        dns_enhanced_mode: text_at(dns, "enhanced-mode"@),
        ipv6: bool_at(Some(root), "ipv6"@),
        dns_ipv6: bool_at(dns, "ipv6"@),
        device_ok,
        backend_installed: installed,
        active_backend: active,
        rules_active: active != RuleBackend::Absent,
        service_active: running,
        service: unit_name(args.name),
        user_service: args.user,
        last_state,
        actual_ok: in_effect(
            tun_enable,
            device_ok,
            auto_redirect,
            active != RuleBackend::Absent,
            running,
        ),
    }
}

/// `tun status`: nothing is changed; the live state is found out anew and
/// the record of the last operation is only shown.
pub open spec fn status(env: HostEnvView, log: Seq<ExchangeView>, at: int, args: TunStatusArgsView) -> Ran<
    TunReportView,
> {
    if env.os != LINUX@ {
        failed(FaultKind::UnsupportedPlatform, env.os, at)
    } else {
        bind(
            located(env, log, at),
            |paths: AppPathsView, at1: int|
                bind(
                    status_config(log, at1, paths.runtime_config_file),
                    |config: (bool, NodeView), at2: int|
                        bind(
                            ask(log, at2, EffectView::PathExists(TUN_DEVICE_PATH@)),
                            |device: ReplyView, at3: int|
                                bind(
                                    backend_installed(log, at3),
                                    |installed: bool, at4: int|
                                        bind(
                                            detect_active(log, at4),
                                            |active: RuleBackend, at5: int|
                                                bind(
                                                    or_no(
                                                        service_active(
                                                            log,
                                                            at5,
                                                            args.name,
                                                            args.user,
                                                        ),
                                                    ),
                                                    |running: bool, at6: int|
                                                        bind(
                                                            state_read(
                                                                log,
                                                                at6,
                                                                paths.runtime_tun_state_file,
                                                            ),
                                                            |last: Option<TunStateView>, at7: int|
                                                                done(
                                                                    TunReportView::Status(
                                                                        status_report(
                                                                            args,
                                                                            paths,
                                                                            config.0,
                                                                            config.1,
                                                                            device.ok,
                                                                            installed,
                                                                            active,
                                                                            running,
                                                                            last,
                                                                        ),
                                                                    ),
                                                                    at7,
                                                                ),
                                                        ),
                                                ),
                                        ),
                                ),
                        ),
                ),
        )
    }
}

/// The check of the live rules, made only where the configuration enables
/// TUN mode and asks for redirect rules.
pub open spec fn rules_check(log: Seq<ExchangeView>, at: int, config: ConfigChecksView) -> Ran<
    Seq<CheckItemView>,
> {
    if config.tun_enable && config.auto_redirect {
        bind(
            detect_active(log, at),
            |active: RuleBackend, at1: int|
                if active == RuleBackend::Absent {
                    done(
                        seq![
                            warned(
                                "数据面规则"@,
                                "配置要求 auto-redirect，但当前未检测到本工具管理的规则"@,
                                "可执行 `clash tun on` 重新下发规则"@,
                            ),
                        ],
                        at1,
                    )
                } else {
                    done(
                        seq![
                            passed("数据面规则"@, "检测到 "@ + active.name() + " 规则已存在"@),
                        ],
                        at1,
                    )
                },
        )
    } else {
        done(Seq::empty(), at)
    }
}

/// The report of `doctor` for the results of the checks.
pub open spec fn doctor_report(checks: Seq<CheckItemView>) -> DoctorReportView {
    DoctorReportView {
        checks,
        pass_count: count_level(checks, CheckLevel::Pass),
        warn_count: count_level(checks, CheckLevel::Warn),
        fail_count: count_level(checks, CheckLevel::Fail),
        ok: count_level(checks, CheckLevel::Fail) == 0,
    }
}

/// The checks of the environment, in order: device, both capabilities,
/// backend, forwarding, reverse-path filter.
#[verifier::opaque]
pub open spec fn environment_checks(log: Seq<ExchangeView>, at: int) -> Ran<Seq<CheckItemView>> {
    bind(
        device_check(log, at),
        |device: CheckItemView, at1: int|
            bind(
                capability_check(
                    log,
                    at1,
                    CAP_NET_ADMIN_BIT,
                    "CAP_NET_ADMIN"@,
                    "建议使用 systemd AmbientCapabilities 或 root 运行"@,
                ),
                |admin: CheckItemView, at2: int|
                    bind(
                        capability_check(
                            log,
                            at2,
                            CAP_NET_RAW_BIT,
                            "CAP_NET_RAW"@,
                            "建议补充 CAP_NET_RAW，避免部分流量处理受限"@,
                        ),
                        |raw: CheckItemView, at3: int|
                            bind(
                                backend_check(log, at3),
                                |backend: CheckItemView, at4: int|
                                    bind(
                                        sysctl_check(
                                            log,
                                            at4,
                                            IP_FORWARD_PATH@,
                                            "内核转发(net.ipv4.ip_forward)"@,
                                            "1"@,
                                            "可执行: sudo sysctl -w net.ipv4.ip_forward=1"@,
                                        ),
                                        |forward: CheckItemView, at5: int|
                                            bind(
                                                rp_filter_check(log, at5),
                                                |filter: CheckItemView, at6: int|
                                                    done(
                                                        seq![
                                                            device,
                                                            admin,
                                                            raw,
                                                            backend,
                                                            forward,
                                                            filter,
                                                        ],
                                                        at6,
                                                    ),
                                            ),
                                    ),
                            ),
                    ),
            ),
    )
}

/// `tun doctor`.
pub open spec fn doctor(env: HostEnvView, log: Seq<ExchangeView>, at: int) -> Ran<TunReportView> {
    if env.os != LINUX@ {
        failed(FaultKind::UnsupportedPlatform, env.os, at)
    } else {
        bind(
            guard_doctor(env, log, at),
            |guard: PrivilegeCheck, at1: int|
                if guard == PrivilegeCheck::Delegated {
                    done(TunReportView::Delegated, at1)
                } else {
                    bind(
                        located(env, log, at1),
                        |paths: AppPathsView, at2: int|
                            bind(
                                environment_checks(log, at2),
                                |found: Seq<CheckItemView>, at3: int|
                                    bind(
                                        config_check(log, at3, paths.runtime_config_file),
                                        |config: ConfigChecksView, at4: int|
                                            bind(
                                                rules_check(log, at4, config),
                                                |rules: Seq<CheckItemView>, at5: int|
                                                    done(
                                                        TunReportView::Doctor(
                                                            doctor_report(
                                                                found + config.items + rules,
                                                            ),
                                                        ),
                                                        at5,
                                                    ),
                                            ),
                                    ),
                            ),
                    )
                },
        )
    }
}

/// What a `tun` command comes to over a record of replies.
pub open spec fn outcome(command: TunCommandView, env: HostEnvView, log: Seq<ExchangeView>) -> Ran<
    TunReportView,
> {
    match command {
        TunCommandView::Doctor => doctor(env, log, 0),
        TunCommandView::On(args) => on(env, log, 0, args),
        TunCommandView::Off(args) => off(env, log, 0, args),
        TunCommandView::Status(args) => status(env, log, 0, args),
    }
}

// ---------------------------------------------------------------------------
// The commands
// ---------------------------------------------------------------------------

/// Fails unless the platform is Linux.
pub fn ensure_linux_host(env: &HostEnv) -> (r: Result<(), Halt>)
    ensures
        match r {
            Ok(_) => env@.os == LINUX@,
            Err(h) => env@.os != LINUX@ && h@ == HaltView::Fail(
                FaultView { kind: FaultKind::UnsupportedPlatform, detail: env@.os, rolled_back: false },
            ),
        },
{
    if same(env.os.as_str(), LINUX) {
        Ok(())
    } else {
        Err(
            Halt::Fail(
                Fault {
                    kind: FaultKind::UnsupportedPlatform,
                    detail: env.os.clone(),
                    rolled_back: false,
                },
            ),
        )
    }
}

/// Restarts the service unless the command says not to.
fn restart_if_asked(host: &mut Replay, args: &TunApplyArgs) -> (r: Result<Option<bool>, Halt>)
    ensures
        final(host).seen() == old(host).seen(),
        ran(r, final(host).pos()) == restart_unless(old(host).seen(), old(host).pos(), args@),
{
    if args.no_restart {
        Ok(None)
    } else {
        Ok(Some(restart_service_best_effort(host, args.name.as_str(), args.user)?))
    }
}

/// Records the outcome of `on` and restarts the service.
fn record_on(
    host: &mut Replay,
    args: &TunApplyArgs,
    paths: &AppPaths,
    backend: RuleBackend,
    redir_port: u16,
    applied: bool,
    stale_rules_removed: Option<bool>,
) -> (r: Result<OnReport, Halt>)
    ensures
        final(host).seen() == old(host).seen(),
        ran_view(r, final(host).pos()) == on_recorded(
            old(host).seen(),
            old(host).pos(),
            args@,
            paths@,
            backend,
            redir_port,
            applied,
            stale_rules_removed,
        ),
{
    proof {
        reveal(on_recorded);
    }
    let now = now_unix(host)?;
    let state = TunState {
        enabled: true,
        service_name: args.name.clone(),
        user_service: args.user,
        backend,
        redir_port,
        rules_applied: applied,
        updated_at: now,
    };
    write_tun_state(host, paths.runtime_tun_state_file.as_str(), &state)?;
    let restart_ok = restart_if_asked(host, args)?;
    Ok(
        OnReport {
            config_path: paths.runtime_config_file.clone(),
            service: normalize_unit_name(args.name.as_str()),
            user_service: args.user,
            backend,
            redir_port,
            rules_applied: applied,
            stale_rules_removed,
            restart_attempted: !args.no_restart,
            restart_ok,
        },
    )
}

/// Selects a backend and applies the rules with it.
fn select_and_apply(host: &mut Replay, redir_port: u16) -> (r: Result<RuleBackend, Halt>)
    ensures
        final(host).seen() == old(host).seen(),
        ran(r, final(host).pos()) == rules_applied(old(host).seen(), old(host).pos(), redir_port),
{
    proof {
        reveal(rules_applied);
    }
    let preferred = select_rule_backend(host)?;
    apply_dataplane_rules(host, preferred, redir_port)
}

/// Brings the rules in line with the enabled configuration, rolling the
/// configuration back where that fails.
fn reconcile_on(
    host: &mut Replay,
    args: &TunApplyArgs,
    paths: &AppPaths,
    initial: &str,
    root: &Node,
) -> (r: Result<OnReport, Halt>)
    ensures
        final(host).seen() == old(host).seen(),
        ran_view(r, final(host).pos()) == on_reconciled(
            old(host).seen(),
            old(host).pos(),
            args@,
            paths@,
            initial@,
            root@,
        ),
{
    proof {
        reveal(on_reconciled);
        reveal(on_settled);
    }
    let redir_port = redir_port_of(root);
    if auto_redirect_of(root) {
        let rules = select_and_apply(host, redir_port);
        match rules {
            Ok(backend) => record_on(host, args, paths, backend, redir_port, true, None),
            Err(Halt::Need(e)) => Err(Halt::Need(e)),
            Err(Halt::Fail(f)) => {
                write_config_text(host, paths.runtime_config_file.as_str(), initial)?;
                Err(Halt::Fail(Fault { kind: f.kind, detail: f.detail, rolled_back: true }))
            },
        }
    } else {
        let clean = cleanup_dataplane_rules_all_best_effort(host)?;
        record_on(host, args, paths, RuleBackend::Absent, redir_port, false, Some(clean))
    }
}

/// `tun on`: enables TUN mode in the configuration, applies the redirect
/// rules that it asks for, records the outcome and restarts the service.
pub fn cmd_on(env: &HostEnv, host: &mut Replay, args: &TunApplyArgs) -> (r: Result<TunReport, Halt>)
    ensures
        final(host).seen() == old(host).seen(),
        ran_view(r, final(host).pos()) == on(env@, old(host).seen(), old(host).pos(), args@),
{
    ensure_linux_host(env)?;
    match ensure_tun_privileges_or_delegate(env, host, TunAction::On, args)? {
        PrivilegeCheck::Delegated => {
            return Ok(TunReport::Delegated);
        },
        PrivilegeCheck::Granted => {},
    }
    let device = host.perform(Effect::PathExists(owned(TUN_DEVICE_PATH)))?;
    if !device.ok {
        return Err(
            Halt::Fail(
                Fault { kind: FaultKind::DeviceMissing, detail: String::new(), rolled_back: false },
            ),
        );
    }
    let paths = app_paths(env, host)?;
    let loaded = load_or_init_config(host, paths.runtime_config_file.as_str())?;
    let mut root = loaded.root;
    enable_tun(&mut root);
    save_config(host, paths.runtime_config_file.as_str(), &root)?;
    let report = reconcile_on(host, args, &paths, loaded.text.as_str(), &root)?;
    Ok(TunReport::On(report))
}

/// Removes the rules at `off`.
fn clean_for_off(host: &mut Replay, previous: &Option<TunState>) -> (r: Result<(), Halt>)
    ensures
        final(host).seen() == old(host).seen(),
        ran(r, final(host).pos()) == off_cleaned(
            old(host).seen(),
            old(host).pos(),
            state_view(*previous),
        ),
{
    proof {
        reveal(off_cleaned);
    }
    let cleaned = match previous {
        Some(state) => {
            if state.rules_applied {
                cleanup_dataplane_rules(host, state.backend)
            } else {
                cleanup_dataplane_rules_all(host)
            }
        },
        None => cleanup_dataplane_rules_all(host),
    };
    match cleaned {
        Ok(()) => Ok(()),
        Err(Halt::Need(e)) => Err(Halt::Need(e)),
        Err(Halt::Fail(f)) => Err(
            Halt::Fail(
                Fault { kind: FaultKind::CleanupFailed, detail: f.detail, rolled_back: false },
            ),
        ),
    }
}

/// Records the outcome of `off` and restarts the service.
fn record_off(host: &mut Replay, args: &TunApplyArgs, paths: &AppPaths, redir_port: u16) -> (r:
    Result<TunReport, Halt>)
    ensures
        final(host).seen() == old(host).seen(),
        ran_view(r, final(host).pos()) == off_recorded(
            old(host).seen(),
            old(host).pos(),
            args@,
            paths@,
            redir_port,
        ),
{
    proof {
        reveal(off_recorded);
    }
    let now = now_unix(host)?;
    let state = TunState {
        enabled: false,
        service_name: args.name.clone(),
        user_service: args.user,
        backend: RuleBackend::Absent,
        redir_port,
        rules_applied: false,
        updated_at: now,
    };
    write_tun_state(host, paths.runtime_tun_state_file.as_str(), &state)?;
    let restart_ok = restart_if_asked(host, args)?;
    Ok(
        TunReport::Off(
            OffReport {
                config_path: paths.runtime_config_file.clone(),
                service: normalize_unit_name(args.name.as_str()),
                user_service: args.user,
                redir_port,
                restart_attempted: !args.no_restart,
                restart_ok,
            },
        ),
    )
}

/// `tun off`: disables TUN mode in the configuration, removes the redirect
/// rules, records the outcome and restarts the service.
pub fn cmd_off(env: &HostEnv, host: &mut Replay, args: &TunApplyArgs) -> (r: Result<
    TunReport,
    Halt,
>)
    ensures
        final(host).seen() == old(host).seen(),
        ran_view(r, final(host).pos()) == off(env@, old(host).seen(), old(host).pos(), args@),
{
    ensure_linux_host(env)?;
    match ensure_tun_privileges_or_delegate(env, host, TunAction::Off, args)? {
        PrivilegeCheck::Delegated => {
            return Ok(TunReport::Delegated);
        },
        PrivilegeCheck::Granted => {},
    }
    let paths = app_paths(env, host)?;
    let loaded = load_or_init_config(host, paths.runtime_config_file.as_str())?;
    let previous = read_tun_state(host, paths.runtime_tun_state_file.as_str())?;
    let mut root = loaded.root;
    let redir_port = redir_port_of(&root);
    disable_tun(&mut root);
    save_config(host, paths.runtime_config_file.as_str(), &root)?;
    clean_for_off(host, &previous)?;
    record_off(host, args, &paths, redir_port)
}

/// The configuration for `status`.
fn load_for_status(host: &mut Replay, path: &str) -> (r: Result<(bool, Node), Halt>)
    ensures
        final(host).seen() == old(host).seen(),
        ran_found(r, final(host).pos()) == status_config(old(host).seen(), old(host).pos(), path@),
{
    proof {
        reveal(status_config);
    }
    let there = host.perform(Effect::PathExists(owned(path)))?;
    if there.ok {
        let loaded = load_existing_config(host, path)?;
        Ok((true, loaded.root))
    } else {
        Ok((false, mapping_node(no_entries())))
    }
}

/// The view of a result over a configuration and whether it was found.
pub open spec fn ran_found(r: Result<(bool, Node), Halt>, at: int) -> Ran<(bool, NodeView)> {
    Ran {
        out: match r {
            Ok(c) => Ok((c.0, c.1@)),
            Err(h) => Err(h@),
        },
        at,
    }
}

/// Whether a firewall backend is installed.
fn any_backend_installed(host: &mut Replay) -> (r: Result<bool, Halt>)
    ensures
        final(host).seen() == old(host).seen(),
        ran(r, final(host).pos()) == backend_installed(old(host).seen(), old(host).pos()),
{
    if command_exists(host, Program::Nft)? {
        return Ok(true);
    }
    command_exists(host, Program::Iptables)
}

/// Whether the service runs; a failure to find out counts as "no".
fn service_runs(host: &mut Replay, name: &str, user: bool) -> (r: Result<bool, Halt>)
    ensures
        final(host).seen() == old(host).seen(),
        ran(r, final(host).pos()) == or_no(
            service_active(old(host).seen(), old(host).pos(), name@, user),
        ),
{
    match query_service_active(host, name, user) {
        Ok(b) => Ok(b),
        Err(Halt::Need(e)) => Err(Halt::Need(e)),
        Err(Halt::Fail(_)) => Ok(false),
    }
}

/// The report of `status` from what was found.
pub fn build_status_report(
    args: &TunStatusArgs,
    paths: &AppPaths,
    found: bool,
    root: &Node,
    device_ok: bool,
    installed: bool,
    active: RuleBackend,
    running: bool,
    last_state: Option<TunState>,
) -> (r: StatusReport)
    ensures
        r@ == status_report(
            args@,
            paths@,
            found,
            root@,
            device_ok,
            installed,
            active,
            running,
            state_view(last_state),
        ),
{
    let tun = key_value(root, "tun");
    let dns = key_value(root, "dns");
    let tun_enable = match bool_field(tun, "enable") {
        Some(b) => b,
        None => false,
    };
    let tun_auto_redirect = bool_field(tun, "auto-redirect");
    let auto_redirect = match tun_auto_redirect {
        Some(b) => b,
        None => false,
    };
    let rules_active = match active {
        RuleBackend::Absent => false,
        _ => true,
    };
    let redirect_ready = if auto_redirect {
        rules_active
    } else {
        true
    };
    StatusReport {
        config_path: paths.runtime_config_file.clone(),
        config_found: found,
        tun_enable,
        redir_port: redir_port_of(root),
        tun_auto_route: bool_field(tun, "auto-route"),
        tun_auto_redirect,
        tun_strict_route: bool_field(tun, "strict-route"),
        tun_stack: string_field(tun, "stack"),
        dns_enable: bool_field(dns, "enable"),
        dns_enhanced_mode: string_field(dns, "enhanced-mode"),
        ipv6: bool_field(Some(root), "ipv6"),
        dns_ipv6: bool_field(dns, "ipv6"),
        device_ok,
        backend_installed: installed,
        active_backend: active,
        rules_active,
        service_active: running,
        service: normalize_unit_name(args.name.as_str()),
        user_service: args.user,
        last_state,
        actual_ok: tun_enable && device_ok && redirect_ready && running,
    }
}

/// `tun status`: shows the configuration, finds out the live state of
/// device, rules and service, and says whether TUN mode is in effect.
pub fn cmd_status(env: &HostEnv, host: &mut Replay, args: &TunStatusArgs) -> (r: Result<
    TunReport,
    Halt,
>)
    ensures
        final(host).seen() == old(host).seen(),
        ran_view(r, final(host).pos()) == status(env@, old(host).seen(), old(host).pos(), args@),
{
    ensure_linux_host(env)?;
    let paths = app_paths(env, host)?;
    let (found, root) = load_for_status(host, paths.runtime_config_file.as_str())?;
    let device = host.perform(Effect::PathExists(owned(TUN_DEVICE_PATH)))?;
    let installed = any_backend_installed(host)?;
    let active = detect_active_rule_backend(host)?;
    let running = service_runs(host, args.name.as_str(), args.user)?;
    let last_state = read_tun_state(host, paths.runtime_tun_state_file.as_str())?;
    Ok(
        TunReport::Status(
            build_status_report(
                args,
                &paths,
                found,
                &root,
                device.ok,
                installed,
                active,
                running,
                last_state,
            ),
        ),
    )
}

/// The view of a result over a list of findings.
pub open spec fn ran_items(r: Result<Vec<CheckItem>, Halt>, at: int) -> Ran<Seq<CheckItemView>> {
    Ran {
        out: match r {
            Ok(items) => Ok(item_views(items@)),
            Err(h) => Err(h@),
        },
        at,
    }
}

/// Makes the checks of the environment.
fn check_environment(host: &mut Replay) -> (r: Result<Vec<CheckItem>, Halt>)
    ensures
        final(host).seen() == old(host).seen(),
        ran_items(r, final(host).pos()) == environment_checks(old(host).seen(), old(host).pos()),
{
    proof {
        reveal(environment_checks);
    }
    let mut checks: Vec<CheckItem> = Vec::new();
    checks.push(check_tun_device(host)?);
    checks.push(
        check_capability(
            host,
            CAP_NET_ADMIN_BIT,
            "CAP_NET_ADMIN",
            "建议使用 systemd AmbientCapabilities 或 root 运行",
        )?,
    );
    checks.push(
        check_capability(
            host,
            CAP_NET_RAW_BIT,
            "CAP_NET_RAW",
            "建议补充 CAP_NET_RAW，避免部分流量处理受限",
        )?,
    );
    checks.push(check_backend(host)?);
    checks.push(
        check_sysctl_value(
            host,
            IP_FORWARD_PATH,
            "内核转发(net.ipv4.ip_forward)",
            "1",
            "可执行: sudo sysctl -w net.ipv4.ip_forward=1",
        )?,
    );
    checks.push(check_rp_filter(host)?);
    assert(item_views(checks@) =~= seq![
        checks@[0]@,
        checks@[1]@,
        checks@[2]@,
        checks@[3]@,
        checks@[4]@,
        checks@[5]@,
    ]);
    Ok(checks)
}

/// Checks the live rules where the configuration asks for them.
fn check_rules(host: &mut Replay, tun_enable: bool, auto_redirect: bool) -> (r: Result<
    Vec<CheckItem>,
    Halt,
>)
    ensures
        final(host).seen() == old(host).seen(),
        ran_items(r, final(host).pos()) == rules_check(
            old(host).seen(),
            old(host).pos(),
            ConfigChecksView { items: Seq::empty(), tun_enable, auto_redirect },
        ),
{
    let mut items: Vec<CheckItem> = Vec::new();
    assert(item_views(items@) =~= Seq::<CheckItemView>::empty());
    if tun_enable && auto_redirect {
        let active = detect_active_rule_backend(host)?;
        match active {
            RuleBackend::Absent => {
                items.push(
                    warn(
                        "数据面规则",
                        "配置要求 auto-redirect，但当前未检测到本工具管理的规则",
                        "可执行 `clash tun on` 重新下发规则",
                    ),
                );
            },
            _ => {
                let message = concat3("检测到 ", active.as_str(), " 规则已存在");
                items.push(pass("数据面规则", message.as_str()));
            },
        }
        assert(item_views(items@) =~= seq![items@[0]@]);
    }
    Ok(items)
}

/// Moves the findings of `more` behind those of `checks`.
fn extend_checks(checks: &mut Vec<CheckItem>, more: Vec<CheckItem>)
    ensures
        item_views(final(checks)@) == item_views(old(checks)@) + item_views(more@),
{
    let mut more = more;
    let ghost added = item_views(more@);
    checks.append(&mut more);
    assert(item_views(checks@) =~= item_views(old(checks)@) + added);
}

/// `tun doctor`: makes every check and counts what passed, warned and
/// failed.
pub fn cmd_doctor(env: &HostEnv, host: &mut Replay) -> (r: Result<TunReport, Halt>)
    ensures
        final(host).seen() == old(host).seen(),
        ran_view(r, final(host).pos()) == doctor(env@, old(host).seen(), old(host).pos()),
{
    ensure_linux_host(env)?;
    match ensure_tun_doctor_privileges_or_delegate(env, host)? {
        PrivilegeCheck::Delegated => {
            return Ok(TunReport::Delegated);
        },
        PrivilegeCheck::Granted => {},
    }
    let paths = app_paths(env, host)?;
    let mut checks = check_environment(host)?;
    let config = check_config(host, paths.runtime_config_file.as_str())?;
    let tun_enable = config.tun_enable;
    let auto_redirect = config.auto_redirect;
    extend_checks(&mut checks, config.items);
    let rules = check_rules(host, tun_enable, auto_redirect)?;
    extend_checks(&mut checks, rules);
    let (pass_count, warn_count, fail_count) = summarize_checks(&checks);
    Ok(
        TunReport::Doctor(
            DoctorReport { checks, pass_count, warn_count, fail_count, ok: fail_count == 0 },
        ),
    )
}

/// Runs a `tun` command over the record of what it asked of the machine so
/// far. The result is the command's report or failure, or the effect that
/// the run needs next: the caller carries it out, adds effect and reply to
/// the record and runs the command again.
pub fn run(command: &TunCommand, env: &HostEnv, log: &Vec<Exchange>) -> (r: Step<TunReport>)
    ensures
        r@ == told(outcome(command@, env@, record_views(log@)), log@.len()),
{
    let mut host = Replay::new(log);
    let result = match command {
        TunCommand::Doctor => cmd_doctor(env, &mut host),
        TunCommand::On(args) => cmd_on(env, &mut host, args),
        TunCommand::Off(args) => cmd_off(env, &mut host, args),
        TunCommand::Status(args) => cmd_status(env, &mut host, args),
    };
    conclude(result, host.at, log.len())
}

// ---------------------------------------------------------------------------
// Laws of rollback
// ---------------------------------------------------------------------------

/// Whether a run ended in a failure that is marked as rolled back.
pub open spec fn rolled_back<T>(r: Ran<T>) -> bool {
    r.out is Err && r.out->Err_0 is Fail && r.out->Err_0->Fail_0.rolled_back
}

/// A configuration that was loaded was read: the exchange before the end
/// of the loading reads the configuration's file and gives the loaded text.
pub proof fn lemma_loaded_text_was_read(log: Seq<ExchangeView>, at: int, path: Seq<char>)
    requires
        0 <= at,
        load_or_init(log, at, path).out is Ok,
    ensures
        !rolled_back(load_or_init(log, at, path)),
        at < load_or_init(log, at, path).at <= log.len(),
        log[load_or_init(log, at, path).at - 1].effect == EffectView::ReadFile(path),
        log[load_or_init(log, at, path).at - 1].reply.text == load_or_init(
            log,
            at,
            path,
        ).out->Ok_0.text,
{
    reveal(load_or_init);
}

/// Where rule application fails, `on` does not succeed: it asks to write
/// the loaded text back to the configuration's file, and once that is
/// written it fails with the failure of the rules, marked as rolled back.
pub proof fn lemma_failed_rules_roll_back(
    log: Seq<ExchangeView>,
    rules: Ran<RuleBackend>,
    args: TunApplyArgsView,
    paths: AppPathsView,
    initial: Seq<char>,
    redir_port: u16,
)
    requires
        rules.out is Err,
        rules.out->Err_0 is Fail,
    ensures
        ({
            let cause = rules.out->Err_0->Fail_0;
            let written = ask(
                log,
                rules.at,
                EffectView::WriteFile(paths.runtime_config_file, initial),
            );
            let end = on_settled(log, rules, args, paths, initial, redir_port);
            match written.out {
                Err(h) => end.out == Err::<OnReportView, HaltView>(h),
                Ok(reply) => if reply.ok {
                    end.out == Err::<OnReportView, HaltView>(
                        HaltView::Fail(FaultView { rolled_back: true, ..cause }),
                    )
                } else {
                    end.out is Err && end.out->Err_0 is Fail && end.out->Err_0->Fail_0.kind
                        == FaultKind::ConfigWrite && !end.out->Err_0->Fail_0.rolled_back
                },
            }
        }),
{
    reveal(on_settled);
}

/// A failure that is marked as rolled back has the loaded text on disk
/// again: the last exchange of the run is a write of exactly that text to
/// the configuration's file, and it succeeded.
pub proof fn lemma_settled_rollback(
    log: Seq<ExchangeView>,
    rules: Ran<RuleBackend>,
    args: TunApplyArgsView,
    paths: AppPathsView,
    initial: Seq<char>,
    redir_port: u16,
)
    requires
        0 <= rules.at,
        rolled_back(on_settled(log, rules, args, paths, initial, redir_port)),
    ensures
        rules.out is Err,
        rules.out->Err_0 is Fail,
        on_settled(log, rules, args, paths, initial, redir_port).at == rules.at + 1,
        rules.at < log.len(),
        log[rules.at].effect == EffectView::WriteFile(paths.runtime_config_file, initial),
        log[rules.at].reply.ok,
{
    reveal(on_settled);
    if rules.out is Ok {
        lemma_record_not_rolled_back(
            log,
            rules.at,
            args,
            paths,
            rules.out->Ok_0,
            redir_port,
            true,
            None,
        );
    }
}

/// A failure of `on` that is marked as rolled back has the loaded text on
/// disk again: the last exchange of the run is a write of exactly that
/// text to the configuration's file, and it succeeded.
pub proof fn lemma_rollback_writes_original(
    log: Seq<ExchangeView>,
    at: int,
    args: TunApplyArgsView,
    paths: AppPathsView,
    initial: Seq<char>,
    root: NodeView,
)
    requires
        0 <= at,
        rolled_back(on_reconciled(log, at, args, paths, initial, root)),
    ensures
        at < on_reconciled(log, at, args, paths, initial, root).at <= log.len(),
        log[on_reconciled(log, at, args, paths, initial, root).at - 1].effect
            == EffectView::WriteFile(paths.runtime_config_file, initial),
        log[on_reconciled(log, at, args, paths, initial, root).at - 1].reply.ok,
{
    reveal(on_reconciled);
    let port = redirect_port(root);
    if wants_redirect(root) {
        let rules = rules_applied(log, at, port);
        lemma_rules_position(log, at, port);
        lemma_settled_rollback(log, rules, args, paths, initial, port);
    } else {
        lemma_unwanted_not_rolled_back(log, at, args, paths, port);
    }
}

/// Where no rules are asked for, `on` never fails as rolled back.
proof fn lemma_unwanted_not_rolled_back(
    log: Seq<ExchangeView>,
    at: int,
    args: TunApplyArgsView,
    paths: AppPathsView,
    redir_port: u16,
)
    ensures
        !rolled_back(
            bind(
                cleanup_all_quietly(log, at),
                |clean: bool, at1: int|
                    on_recorded(
                        log,
                        at1,
                        args,
                        paths,
                        RuleBackend::Absent,
                        redir_port,
                        false,
                        Some(clean),
                    ),
            ),
        ),
{
    let tidy = cleanup_all_quietly(log, at);
    if tidy.out is Ok {
        lemma_record_not_rolled_back(
            log,
            tidy.at,
            args,
            paths,
            RuleBackend::Absent,
            redir_port,
            false,
            Some(tidy.out->Ok_0),
        );
    }
}

/// Applying rules never moves backwards in the record.
proof fn lemma_rules_position(log: Seq<ExchangeView>, at: int, redir_port: u16)
    requires
        0 <= at,
    ensures
        rules_applied(log, at, redir_port).at >= at,
{
    reveal(rules_applied);
    let picked = select_backend(log, at);
    if picked.out is Ok {
        crate::tun::backend::lemma_apply_position(log, picked.at, picked.out->Ok_0, redir_port);
    }
}

/// Recording the outcome of `on` never fails as rolled back.
proof fn lemma_record_not_rolled_back(
    log: Seq<ExchangeView>,
    at: int,
    args: TunApplyArgsView,
    paths: AppPathsView,
    backend: RuleBackend,
    redir_port: u16,
    applied: bool,
    stale_rules_removed: Option<bool>,
)
    ensures
        !rolled_back(
            on_recorded(log, at, args, paths, backend, redir_port, applied, stale_rules_removed),
        ),
{
    reveal(on_recorded);
    reveal(state_written);
}

/// The guard never fails as rolled back.
proof fn lemma_guard_not_rolled_back(
    env: HostEnvView,
    log: Seq<ExchangeView>,
    at: int,
    action: TunAction,
    args: TunApplyArgsView,
)
    ensures
        !rolled_back(guard_apply(env, log, at, action, args)),
{
    reveal(guard_apply);
}

/// Finding the paths never fails as rolled back.
proof fn lemma_located_not_rolled_back(env: HostEnvView, log: Seq<ExchangeView>, at: int)
    ensures
        !rolled_back(located(env, log, at)),
{
    reveal(located);
}

/// Loading never fails as rolled back.
proof fn lemma_load_not_rolled_back(log: Seq<ExchangeView>, at: int, path: Seq<char>)
    ensures
        !rolled_back(load_or_init(log, at, path)),
{
    reveal(load_or_init);
}

/// Saving never fails as rolled back, and never moves backwards in the
/// record.
proof fn lemma_save_not_rolled_back(
    log: Seq<ExchangeView>,
    at: int,
    path: Seq<char>,
    root: NodeView,
)
    ensures
        !rolled_back(save(log, at, path, root)),
        save(log, at, path, root).at >= at,
{
    reveal(save);
}

/// Rollback restores the configuration: where `on` fails marked as rolled
/// back, the last exchange of the run is a write to the configuration's
/// file that succeeded, and what it wrote is, character for character, the
/// text that the run had read from that file before it changed anything.
pub proof fn lemma_on_rollback_round_trip(
    env: HostEnvView,
    log: Seq<ExchangeView>,
    at: int,
    args: TunApplyArgsView,
)
    requires
        0 <= at,
        rolled_back(on(env, log, at, args)),
    ensures
        0 < on(env, log, at, args).at <= log.len(),
        log[on(env, log, at, args).at - 1].reply.ok,
        log[on(env, log, at, args).at - 1].effect is WriteFile,
        exists|read: int|
            at <= read < on(env, log, at, args).at - 1 && #[trigger] log[read].effect
                == EffectView::ReadFile(log[on(env, log, at, args).at - 1].effect->WriteFile_0)
                && log[read].reply.text == log[on(env, log, at, args).at
                - 1].effect->WriteFile_1,
{
    lemma_guard_not_rolled_back(env, log, at, TunAction::On, args);
    let guard = guard_apply(env, log, at, TunAction::On, args);
    lemma_guard_position(env, log, at, TunAction::On, args);
    let device = ask(log, guard.at, EffectView::PathExists(TUN_DEVICE_PATH@));
    lemma_located_not_rolled_back(env, log, device.at);
    let paths = located(env, log, device.at);
    lemma_located_position(env, log, device.at);
    let path = paths.out->Ok_0.runtime_config_file;
    lemma_load_not_rolled_back(log, paths.at, path);
    let loaded = load_or_init(log, paths.at, path);
    lemma_loaded_text_was_read(log, paths.at, path);
    let root = enabled_config(loaded.out->Ok_0.root);
    lemma_save_not_rolled_back(log, loaded.at, path, root);
    let saved = save(log, loaded.at, path, root);
    lemma_rollback_writes_original(
        log,
        saved.at,
        args,
        paths.out->Ok_0,
        loaded.out->Ok_0.text,
        root,
    );
    let end = on_reconciled(log, saved.at, args, paths.out->Ok_0, loaded.out->Ok_0.text, root);
    assert(on(env, log, at, args).at == end.at);
    let read = loaded.at - 1;
    assert(at <= read < end.at - 1 && log[read].effect == EffectView::ReadFile(path) && log[end.at
        - 1].effect == EffectView::WriteFile(path, log[read].reply.text));
    assert(log[end.at - 1].effect->WriteFile_0 == path);
}

/// Recording what `on` did and restarting the service do not touch the
/// firewall.
proof fn lemma_recorded_keeps_firewall(
    start: Firewall,
    log: Seq<ExchangeView>,
    base: int,
    at: int,
    args: TunApplyArgsView,
    paths: AppPathsView,
    backend: RuleBackend,
    redir_port: u16,
    applied: bool,
    stale_rules_removed: Option<bool>,
)
    requires
        consistent(start, log, base),
        base <= at,
        on_recorded(log, at, args, paths, backend, redir_port, applied, stale_rules_removed).out
            is Ok,
    ensures
        on_recorded(log, at, args, paths, backend, redir_port, applied, stale_rules_removed).at
            >= at,
        state_at(
            start,
            log,
            base,
            on_recorded(log, at, args, paths, backend, redir_port, applied, stale_rules_removed).at,
        ) == state_at(start, log, base, at),
        on_recorded(
            log,
            at,
            args,
            paths,
            backend,
            redir_port,
            applied,
            stale_rules_removed,
        ).out->Ok_0.rules_applied == applied,
        on_recorded(
            log,
            at,
            args,
            paths,
            backend,
            redir_port,
            applied,
            stale_rules_removed,
        ).out->Ok_0.backend == backend,
        on_recorded(
            log,
            at,
            args,
            paths,
            backend,
            redir_port,
            applied,
            stale_rules_removed,
        ).out->Ok_0.redir_port == redir_port,
{
    reveal(on_recorded);
    reveal(state_written);
    lemma_ask(start, log, base, at, EffectView::Clock);
    let state = TunStateView {
        enabled: true,
        service_name: args.name,
        user_service: args.user,
        backend,
        redir_port,
        rules_applied: applied,
        updated_at: clock(log, at).out->Ok_0,
    };
    let path = paths.runtime_tun_state_file;
    lemma_ask(start, log, base, at + 1, EffectView::CreateParent(path));
    lemma_ask(start, log, base, at + 2, EffectView::WriteFile(path, state_text(state)));
    if !args.no_restart {
        lemma_ask(
            start,
            log,
            base,
            at + 3,
            EffectView::Run(systemctl_command(args.user, seq!["restart"@, unit_name(args.name)])),
        );
    }
}

/// `on` leaves a backend active. On a machine whose firewall behaves like
/// the model, where `on` succeeds and reports that rules were applied, the
/// firewall holds at the end of the run the rules of the backend that the
/// report names: the table for nftables; for iptables the chain with
/// exactly the rules for the reported redirect port, and a jump into it.
/// This holds of every run that succeeds, the first as well as a repeated
/// one.
pub proof fn lemma_on_leaves_active(
    start: Firewall,
    env: HostEnvView,
    log: Seq<ExchangeView>,
    at: int,
    args: TunApplyArgsView,
)
    requires
        0 <= at,
        consistent(start, log, at),
        on(env, log, at, args).out is Ok,
        on(env, log, at, args).out->Ok_0 is On,
        on(env, log, at, args).out->Ok_0->On_0.rules_applied,
    ensures
        on(env, log, at, args).at >= at,
        on(env, log, at, args).out->Ok_0->On_0.backend != RuleBackend::Absent,
        state_at(start, log, at, on(env, log, at, args).at).active() != RuleBackend::Absent,
        on(env, log, at, args).out->Ok_0->On_0.backend == RuleBackend::Nft ==> state_at(
            start,
            log,
            at,
            on(env, log, at, args).at,
        ).active() == RuleBackend::Nft,
        on(env, log, at, args).out->Ok_0->On_0.backend == RuleBackend::Iptables ==> state_at(
            start,
            log,
            at,
            on(env, log, at, args).at,
        ).v4.live() && state_at(start, log, at, on(env, log, at, args).at).v4.rules == chain_rules(
            Family::V4,
            on(env, log, at, args).out->Ok_0->On_0.redir_port,
        ),
{
    let guard = guard_apply(env, log, at, TunAction::On, args);
    lemma_guard_position(env, log, at, TunAction::On, args);
    let device = ask(log, guard.at, EffectView::PathExists(TUN_DEVICE_PATH@));
    let paths = located(env, log, device.at);
    lemma_located_position(env, log, device.at);
    let path = paths.out->Ok_0.runtime_config_file;
    let loaded = load_or_init(log, paths.at, path);
    lemma_loaded_text_was_read(log, paths.at, path);
    let root = enabled_config(loaded.out->Ok_0.root);
    lemma_save_not_rolled_back(log, loaded.at, path, root);
    let saved = save(log, loaded.at, path, root);
    let port = redirect_port(root);
    reveal(on_reconciled);
    reveal(on_settled);
    reveal(rules_applied);
    if wants_redirect(root) {
        lemma_tool_exists(start, log, at, saved.at, Program::Nft);
        let nft = tool_exists(log, saved.at, Program::Nft);
        lemma_tool_exists(start, log, at, nft.at, Program::Iptables);
        let picked = select_backend(log, saved.at);
        let rules = apply_rules(log, picked.at, picked.out->Ok_0, port);
        lemma_apply_leaves_active(start, log, at, picked.at, picked.out->Ok_0, port);
        crate::tun::backend::lemma_apply_position(log, picked.at, picked.out->Ok_0, port);
        lemma_recorded_keeps_firewall(
            start,
            log,
            at,
            rules.at,
            args,
            paths.out->Ok_0,
            rules.out->Ok_0,
            port,
            true,
            None,
        );
    } else {
        let clean = cleanup_all_quietly(log, saved.at);
        lemma_recorded_false(
            log,
            clean.at,
            args,
            paths.out->Ok_0,
            port,
            Some(clean.out->Ok_0),
        );
    }
}

/// `status` reports what is there. On a machine whose firewall behaves like
/// the model, the backend that `status` reports as active is the one whose
/// rules the firewall holds, whatever the state file says and whether it
/// exists; rules count as active exactly where there is such a backend; and
/// `status` leaves the firewall as it found it.
pub proof fn lemma_status_reports_firewall(
    start: Firewall,
    env: HostEnvView,
    log: Seq<ExchangeView>,
    at: int,
    args: TunStatusArgsView,
)
    requires
        0 <= at,
        consistent(start, log, at),
        status(env, log, at, args).out is Ok,
    ensures
        status(env, log, at, args).out->Ok_0 is Status,
        status(env, log, at, args).out->Ok_0->Status_0.active_backend == start.active(),
        status(env, log, at, args).out->Ok_0->Status_0.rules_active == (start.active()
            != RuleBackend::Absent),
        status(env, log, at, args).at >= at,
        state_at(start, log, at, status(env, log, at, args).at) == start,
{
    reveal(located);
    reveal(status_config);
    reveal(state_read);
    lemma_ask(start, log, at, at, EffectView::Run(crate::tun::guard::id_command()));
    let paths = located(env, log, at);
    let path = paths.out->Ok_0.runtime_config_file;
    lemma_ask(start, log, at, paths.at, EffectView::PathExists(path));
    lemma_ask(start, log, at, paths.at + 1, EffectView::ReadFile(path));
    let config = status_config(log, paths.at, path);
    lemma_ask(start, log, at, config.at, EffectView::PathExists(TUN_DEVICE_PATH@));
    lemma_tool_exists(start, log, at, config.at + 1, Program::Nft);
    let nft = tool_exists(log, config.at + 1, Program::Nft);
    lemma_tool_exists(start, log, at, nft.at, Program::Iptables);
    let installed = backend_installed(log, config.at + 1);
    lemma_detect(start, log, at, installed.at);
    let active = detect_active(log, installed.at);
    crate::tun::backend::lemma_detect_position(log, installed.at);
    lemma_ask(start, log, at, active.at, EffectView::Tool(Program::Systemctl, true));
    lemma_ask(start, log, at, active.at + 1, EffectView::Tool(Program::Systemctl, false));
    let systemctl = tool_exists(log, active.at, Program::Systemctl);
    lemma_ask(
        start,
        log,
        at,
        systemctl.at,
        EffectView::Status(
            systemctl_command(args.user, seq!["is-active"@, "--quiet"@, unit_name(args.name)]),
        ),
    );
    let running = or_no(service_active(log, active.at, args.name, args.user));
    let record = paths.out->Ok_0.runtime_tun_state_file;
    lemma_ask(start, log, at, running.at, EffectView::PathExists(record));
    lemma_ask(start, log, at, running.at + 1, EffectView::ReadFile(record));
}

/// After `on`, `status` finds the rules. Let `on` succeed on one record and
/// report that rules were applied, and let `status` run on a record of its
/// own against the firewall that `on` left. Then `status` reports rules as
/// active and names a backend, nftables where `on` named nftables; and TUN
/// mode counts as in effect exactly where the configuration enables it, the
/// device exists and the service runs. This rests on the firewall alone:
/// the state file does not enter, and `on` may have run any number of times
/// before.
pub proof fn lemma_status_after_on(
    start: Firewall,
    env: HostEnvView,
    log: Seq<ExchangeView>,
    args: TunApplyArgsView,
    later_env: HostEnvView,
    later_log: Seq<ExchangeView>,
    later_args: TunStatusArgsView,
)
    requires
        consistent(start, log, 0),
        on(env, log, 0, args).out is Ok,
        on(env, log, 0, args).out->Ok_0 is On,
        on(env, log, 0, args).out->Ok_0->On_0.rules_applied,
        consistent(state_at(start, log, 0, on(env, log, 0, args).at), later_log, 0),
        status(later_env, later_log, 0, later_args).out is Ok,
    ensures
        status(later_env, later_log, 0, later_args).out->Ok_0 is Status,
        status(later_env, later_log, 0, later_args).out->Ok_0->Status_0.rules_active,
        status(later_env, later_log, 0, later_args).out->Ok_0->Status_0.active_backend
            != RuleBackend::Absent,
        on(env, log, 0, args).out->Ok_0->On_0.backend == RuleBackend::Nft ==> status(
            later_env,
            later_log,
            0,
            later_args,
        ).out->Ok_0->Status_0.active_backend == RuleBackend::Nft,
        status(later_env, later_log, 0, later_args).out->Ok_0->Status_0.actual_ok == (status(
            later_env,
            later_log,
            0,
            later_args,
        ).out->Ok_0->Status_0.tun_enable && status(
            later_env,
            later_log,
            0,
            later_args,
        ).out->Ok_0->Status_0.device_ok && status(
            later_env,
            later_log,
            0,
            later_args,
        ).out->Ok_0->Status_0.service_active),
{
    lemma_on_leaves_active(start, env, log, 0, args);
    lemma_status_reports_firewall(
        state_at(start, log, 0, on(env, log, 0, args).at),
        later_env,
        later_log,
        0,
        later_args,
    );
}

/// The configuration that a run of `on` loads, once the guard has let it
/// pass and the device and the paths are found.
pub open spec fn on_loaded(
    env: HostEnvView,
    log: Seq<ExchangeView>,
    at: int,
    args: TunApplyArgsView,
) -> Ran<LoadedView> {
    let guard = guard_apply(env, log, at, TunAction::On, args);
    let device = ask(log, guard.at, EffectView::PathExists(TUN_DEVICE_PATH@));
    let paths = located(env, log, device.at);
    load_or_init(log, paths.at, paths.out->Ok_0.runtime_config_file)
}

/// A repeated `on` leaves the same file. Let the configuration file hold
/// the text that was written for an enabled configuration, and let the
/// reader give back for this text what the writer was given. Then a run of
/// `on` that succeeds reads this text and, right after, writes the very
/// same text to the same file.
pub proof fn lemma_on_again_writes_same_text(
    env: HostEnvView,
    log: Seq<ExchangeView>,
    at: int,
    args: TunApplyArgsView,
    root: NodeView,
)
    requires
        0 <= at,
        on(env, log, at, args).out is Ok,
        on(env, log, at, args).out->Ok_0 is On,
        yaml_written(enabled_config(root)) == Ok::<Seq<char>, Seq<char>>(
            on_loaded(env, log, at, args).out->Ok_0.text,
        ),
        yaml_read(on_loaded(env, log, at, args).out->Ok_0.text) == Ok::<NodeView, Seq<char>>(
            enabled_config(root),
        ),
    ensures
        on_loaded(env, log, at, args).out is Ok,
        0 < on_loaded(env, log, at, args).at < log.len(),
        log[on_loaded(env, log, at, args).at - 1].effect is ReadFile,
        log[on_loaded(env, log, at, args).at - 1].reply.text == on_loaded(
            env,
            log,
            at,
            args,
        ).out->Ok_0.text,
        log[on_loaded(env, log, at, args).at].effect == EffectView::WriteFile(
            log[on_loaded(env, log, at, args).at - 1].effect->ReadFile_0,
            on_loaded(env, log, at, args).out->Ok_0.text,
        ),
        log[on_loaded(env, log, at, args).at].reply.ok,
{
    let guard = guard_apply(env, log, at, TunAction::On, args);
    lemma_guard_position(env, log, at, TunAction::On, args);
    let device = ask(log, guard.at, EffectView::PathExists(TUN_DEVICE_PATH@));
    let paths = located(env, log, device.at);
    lemma_located_position(env, log, device.at);
    let path = paths.out->Ok_0.runtime_config_file;
    let loaded = load_or_init(log, paths.at, path);
    lemma_loaded_text_was_read(log, paths.at, path);
    lemma_loaded_document(log, paths.at, path);
    lemma_enabled_is_mapping(root);
    lemma_enable_idempotent(root);
    assert(loaded.out->Ok_0.root == enabled_config(root));
    reveal(save);
}

/// The state that a report of `on` stands for, with the clock's reading.
pub open spec fn recorded_state(
    args: TunApplyArgsView,
    report: OnReportView,
    now: u64,
) -> TunStateView {
    TunStateView {
        enabled: true,
        service_name: args.name,
        user_service: args.user,
        backend: report.backend,
        redir_port: report.redir_port,
        rules_applied: report.rules_applied,
        updated_at: now,
    }
}

/// Where the state is written in a run of `on` that ended at `end`: it is
/// the last exchange, or the last but one where the service is restarted.
pub open spec fn record_position(args: TunApplyArgsView, end: int) -> int {
    if args.no_restart {
        end - 1
    } else {
        end - 2
    }
}

/// The end of `on` writes the state that its report stands for.
proof fn lemma_recorded_state(
    log: Seq<ExchangeView>,
    at: int,
    args: TunApplyArgsView,
    paths: AppPathsView,
    backend: RuleBackend,
    redir_port: u16,
    applied: bool,
    stale_rules_removed: Option<bool>,
)
    requires
        0 <= at,
        on_recorded(log, at, args, paths, backend, redir_port, applied, stale_rules_removed).out
            is Ok,
    ensures
        ({
            let end = on_recorded(
                log,
                at,
                args,
                paths,
                backend,
                redir_port,
                applied,
                stale_rules_removed,
            );
            let w = record_position(args, end.at);
            &&& at + 2 == w
            &&& w < log.len()
            &&& log[w - 2].effect == EffectView::Clock
            &&& log[w].reply.ok
            &&& log[w].effect == EffectView::WriteFile(
                paths.runtime_tun_state_file,
                state_text(recorded_state(args, end.out->Ok_0, log[w - 2].reply.stamp)),
            )
        }),
{
    reveal(on_recorded);
    reveal(state_written);
}

/// `on` records what it reports. Where `on` succeeds, it has read the clock
/// and then written, to the state file, the state that its report stands
/// for with the clock's reading; nothing but a restart of the service comes
/// after. So two runs that report the same leave state files that differ at
/// most in `updated_at`.
pub proof fn lemma_on_records_its_report(
    env: HostEnvView,
    log: Seq<ExchangeView>,
    at: int,
    args: TunApplyArgsView,
)
    requires
        0 <= at,
        on(env, log, at, args).out is Ok,
        on(env, log, at, args).out->Ok_0 is On,
    ensures
        ({
            let end = on(env, log, at, args);
            let w = record_position(args, end.at);
            &&& at + 2 <= w < log.len()
            &&& log[w - 2].effect == EffectView::Clock
            &&& log[w].reply.ok
            &&& log[w].effect is WriteFile
            &&& log[w].effect->WriteFile_1 == state_text(
                recorded_state(args, end.out->Ok_0->On_0, log[w - 2].reply.stamp),
            )
        }),
{
    let guard = guard_apply(env, log, at, TunAction::On, args);
    lemma_guard_position(env, log, at, TunAction::On, args);
    let device = ask(log, guard.at, EffectView::PathExists(TUN_DEVICE_PATH@));
    let paths = located(env, log, device.at);
    lemma_located_position(env, log, device.at);
    let path = paths.out->Ok_0.runtime_config_file;
    let loaded = load_or_init(log, paths.at, path);
    lemma_loaded_text_was_read(log, paths.at, path);
    let root = enabled_config(loaded.out->Ok_0.root);
    lemma_save_not_rolled_back(log, loaded.at, path, root);
    let saved = save(log, loaded.at, path, root);
    let port = redirect_port(root);
    reveal(on_reconciled);
    reveal(on_settled);
    if wants_redirect(root) {
        lemma_rules_position(log, saved.at, port);
        let rules = rules_applied(log, saved.at, port);
        lemma_recorded_state(
            log,
            rules.at,
            args,
            paths.out->Ok_0,
            rules.out->Ok_0,
            port,
            true,
            None,
        );
    } else {
        let clean = cleanup_all_quietly(log, saved.at);
        lemma_quiet_position(log, saved.at);
        lemma_recorded_state(
            log,
            clean.at,
            args,
            paths.out->Ok_0,
            RuleBackend::Absent,
            port,
            false,
            Some(clean.out->Ok_0),
        );
    }
}

/// The quiet cleanup never moves backwards in the record.
proof fn lemma_quiet_position(log: Seq<ExchangeView>, at: int)
    ensures
        cleanup_all_quietly(log, at).at >= at,
{
    crate::tun::backend::lemma_cleanup_all_position(log, at);
}

/// Where no rules were asked for, the report says that none were applied.
proof fn lemma_recorded_false(
    log: Seq<ExchangeView>,
    at: int,
    args: TunApplyArgsView,
    paths: AppPathsView,
    redir_port: u16,
    stale_rules_removed: Option<bool>,
)
    requires
        on_recorded(
            log,
            at,
            args,
            paths,
            RuleBackend::Absent,
            redir_port,
            false,
            stale_rules_removed,
        ).out is Ok,
    ensures
        !on_recorded(
            log,
            at,
            args,
            paths,
            RuleBackend::Absent,
            redir_port,
            false,
            stale_rules_removed,
        ).out->Ok_0.rules_applied,
{
    reveal(on_recorded);
    reveal(state_written);
}

/// The guard never moves backwards in the record.
proof fn lemma_guard_position(
    env: HostEnvView,
    log: Seq<ExchangeView>,
    at: int,
    action: TunAction,
    args: TunApplyArgsView,
)
    ensures
        guard_apply(env, log, at, action, args).at >= at,
{
    reveal(guard_apply);
}

/// Finding the paths never moves backwards in the record.
proof fn lemma_located_position(env: HostEnvView, log: Seq<ExchangeView>, at: int)
    ensures
        located(env, log, at).at >= at,
{
    reveal(located);
}

} // verus!
