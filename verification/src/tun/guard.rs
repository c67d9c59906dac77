//! The privilege guard: TUN mode needs root, or the two capabilities
//! `CAP_NET_ADMIN` and `CAP_NET_RAW`. Without them the command is handed to
//! an elevated copy of itself where that is possible, and refused where it
//! is not.

use crate::cli::{TunApplyArgs, TunApplyArgsView};
use crate::host::{
    ExchangeView, ask, bind, done, failed, halted, owned, push_arg, ran, Effect, EffectView, Fault,
    FaultKind, Halt, HaltView, HostEnv, HostEnvView, Invocation, InvocationView, Program, Ran,
    Replay, ReplyView,
};
use crate::messages::{lemma_privilege_failure_names_capabilities, message_text};
use crate::text::{
    chars_of, concat, contains, is_word, lines, parse_hex, parse_hex_chars, rows, split_lines,
    starts_with, strip_prefix, trim, trim_chars, views,
};
use crate::tun::backend::{command_exists, tool_exists};
use vstd::prelude::*;

verus! {

/// The bit of `CAP_NET_ADMIN` in a capability mask.
pub const CAP_NET_ADMIN_BIT: u32 = 12;

/// The bit of `CAP_NET_RAW` in a capability mask.
pub const CAP_NET_RAW_BIT: u32 = 13;

/// Where the process's status, with its capability masks, can be read.
pub const PROC_STATUS_PATH: &'static str = "/proc/self/status";

/// The value of `CLASH_CLI_SUDO_REEXEC` that marks an elevated re-run.
pub const SUDO_REEXEC_MARK: &'static str = "1";

/// The subcommands that can be handed to an elevated copy.
#[derive(Clone, Copy, Debug, PartialEq, Eq, Structural)]
pub enum TunAction {
    Doctor,
    On,
    Off,
}

impl TunAction {
    pub open spec fn name(self) -> Seq<char> {
        match self {
            TunAction::Doctor => "doctor"@,
            TunAction::On => "on"@,
            TunAction::Off => "off"@,
        }
    }

    /// The subcommand's name on the command line.
    pub fn as_cli_str(self) -> (r: &'static str)
        ensures
            r@ == self.name(),
    {
        match self {
            TunAction::Doctor => "doctor",
            TunAction::On => "on",
            TunAction::Off => "off",
        }
    }
}

/// How the guard let a command pass: the process may go on itself, or an
/// elevated copy has done the work and nothing is left to do.
#[derive(Clone, Copy, Debug, PartialEq, Eq, Structural)]
pub enum PrivilegeCheck {
    Granted,
    Delegated,
}

// ---------------------------------------------------------------------------
// Outcomes over a record
// ---------------------------------------------------------------------------

/// Whether `mask` has the bit `bit`.
pub open spec fn has_bit(mask: u64, bit: u32) -> bool {
    (mask & (1u64 << bit)) != 0
}

/// The effective capability mask in the lines of a process status: the
/// value of the first `CapEff:` line, a hexadecimal number.
pub open spec fn cap_eff_in(rest: Seq<Seq<char>>) -> Result<u64, FaultKind>
    decreases rest.len(),
{
    if rest.len() == 0 {
        Err(FaultKind::CapMissing)
    } else if starts_with(rest[0], "CapEff:"@) {
        match parse_hex(trim(rest[0].subrange("CapEff:"@.len() as int, rest[0].len() as int))) {
            Some(n) => Ok(n as u64),
            None => Err(FaultKind::CapParse),
        }
    } else {
        cap_eff_in(rest.drop_first())
    }
}

/// `id -u`.
pub open spec fn id_command() -> InvocationView {
    InvocationView { program: "id"@, args: seq!["-u"@], stdin: None }
}

/// Whether the process runs as root: `id -u` prints `0`.
pub open spec fn root_user(log: Seq<ExchangeView>, at: int) -> Ran<bool> {
    bind(
        ask(log, at, EffectView::Run(id_command())),
        |r: ReplyView, at1: int|
            if r.ok {
                done(trim(r.text) == "0"@, at1)
            } else {
                failed(FaultKind::UserUnknown, r.detail, at1)
            },
    )
}

/// The effective capability mask of the process.
pub open spec fn cap_eff(log: Seq<ExchangeView>, at: int) -> Ran<u64> {
    bind(
        ask(log, at, EffectView::ReadFile(PROC_STATUS_PATH@)),
        |r: ReplyView, at1: int|
            if !r.ok {
                failed(FaultKind::CapRead, r.detail, at1)
            } else {
                match cap_eff_in(lines(r.text)) {
                    Ok(mask) => done(mask, at1),
                    Err(kind) => failed(kind, Seq::empty(), at1),
                }
            },
    )
}

/// Whether the process has the capability with this bit.
pub open spec fn capability(log: Seq<ExchangeView>, at: int, bit: u32) -> Ran<bool> {
    bind(cap_eff(log, at), |mask: u64, at1: int| done(has_bit(mask, bit), at1))
}

/// A question whose failure counts as "no".
pub open spec fn or_no(answer: Ran<bool>) -> Ran<bool> {
    match answer.out {
        Err(HaltView::Fail(_)) => done(false, answer.at),
        _ => answer,
    }
}

/// The process may manage TUN mode: it is root, or it has both
/// capabilities. All three are looked at.
pub open spec fn privileged(log: Seq<ExchangeView>, at: int) -> Ran<()> {
    bind(
        or_no(root_user(log, at)),
        |root: bool, at1: int|
            bind(
                or_no(capability(log, at1, CAP_NET_ADMIN_BIT)),
                |admin: bool, at2: int|
                    bind(
                        or_no(capability(log, at2, CAP_NET_RAW_BIT)),
                        |raw: bool, at3: int|
                            if root || (admin && raw) {
                                done((), at3)
                            } else {
                                failed(FaultKind::InsufficientPrivilege, Seq::empty(), at3)
                            },
                    ),
            ),
    )
}

/// Whether the command may be handed to an elevated copy without asking
/// the process itself: text output, no opt-out, not already the elevated
/// copy, standard input and error on a terminal.
pub open spec fn may_delegate(env: HostEnvView) -> bool {
    !env.json && !env.no_auto_sudo && env.sudo_reexec != Some(SUDO_REEXEC_MARK@)
        && env.stdin_terminal && env.stderr_terminal
}

/// Whether the command is handed to an elevated copy: it may be, and the
/// elevation tool can be called.
pub open spec fn delegates(env: HostEnvView, log: Seq<ExchangeView>, at: int) -> Ran<bool> {
    if may_delegate(env) {
        tool_exists(log, at, Program::Sudo)
    } else {
        done(false, at)
    }
}

/// The arguments with which the elevation tool re-runs the program, up to
/// the subcommand: the marker that stops a second elevation, the home
/// directory override if one is set, the program and the output mode.
pub open spec fn reexec_prefix(env: HostEnvView, exe: Seq<char>) -> Seq<Seq<char>> {
    seq!["env"@, "CLASH_CLI_SUDO_REEXEC=1"@] + (match env.home_override {
        Some(home) => seq!["CLASH_CLI_HOME="@ + home],
        None => Seq::empty(),
    }) + seq![exe] + (if env.json {
        seq!["--json"@]
    } else {
        Seq::empty()
    })
}

/// The arguments that repeat `tun on` or `tun off` with its flags.
pub open spec fn apply_flags(action: TunAction, args: TunApplyArgsView) -> Seq<Seq<char>> {
    seq!["tun"@, action.name(), "--name"@, args.name] + (if args.user {
        seq!["--user"@]
    } else {
        Seq::empty()
    }) + (if args.no_restart {
        seq!["--no-restart"@]
    } else {
        Seq::empty()
    })
}

/// The elevated re-run of a command with `flags`.
pub open spec fn reexec_command(
    env: HostEnvView,
    exe: Seq<char>,
    flags: Seq<Seq<char>>,
) -> InvocationView {
    InvocationView {
        program: Program::Sudo.name(),
        args: reexec_prefix(env, exe) + flags,
        stdin: None,
    }
}

/// The command is re-run elevated. It fails where the program's own path is
/// unknown, and where the re-run does not succeed.
pub open spec fn reexec(env: HostEnvView, log: Seq<ExchangeView>, at: int, flags: Seq<Seq<char>>) -> Ran<
    PrivilegeCheck,
> {
    match env.current_exe {
        None => failed(FaultKind::CurrentExeUnknown, Seq::empty(), at),
        Some(exe) => bind(
            ask(log, at, EffectView::Status(reexec_command(env, exe, flags))),
            |r: ReplyView, at1: int|
                if r.ok {
                    done(PrivilegeCheck::Delegated, at1)
                } else {
                    failed(FaultKind::ElevationFailed, r.detail, at1)
                },
        ),
    }
}

/// The guard of `tun on` and `tun off`: a privileged process goes on; an
/// unprivileged one is re-run elevated where that is possible and refused
/// where it is not.
#[verifier::opaque]
pub open spec fn guard_apply(
    env: HostEnvView,
    log: Seq<ExchangeView>,
    at: int,
    action: TunAction,
    args: TunApplyArgsView,
) -> Ran<PrivilegeCheck> {
    let first = privileged(log, at);
    match first.out {
        Ok(_) => done(PrivilegeCheck::Granted, first.at),
        Err(HaltView::Need(e)) => halted(HaltView::Need(e), first.at),
        Err(HaltView::Fail(_)) => bind(
            delegates(env, log, first.at),
            |yes: bool, at1: int|
                if yes {
                    reexec(env, log, at1, apply_flags(action, args))
                } else {
                    bind(privileged(log, at1), |u: (), at2: int| done(PrivilegeCheck::Granted, at2))
                },
        ),
    }
}

/// The guard of `tun doctor`: an unprivileged process is re-run elevated
/// where that is possible, and goes on unprivileged where it is not.
#[verifier::opaque]
pub open spec fn guard_doctor(env: HostEnvView, log: Seq<ExchangeView>, at: int) -> Ran<
    PrivilegeCheck,
> {
    let first = privileged(log, at);
    match first.out {
        Ok(_) => done(PrivilegeCheck::Granted, first.at),
        Err(HaltView::Need(e)) => halted(HaltView::Need(e), first.at),
        Err(HaltView::Fail(_)) => bind(
            delegates(env, log, first.at),
            |yes: bool, at1: int|
                if yes {
                    reexec(env, log, at1, seq!["tun"@, TunAction::Doctor.name()])
                } else {
                    done(PrivilegeCheck::Granted, at1)
                },
        ),
    }
}

// ---------------------------------------------------------------------------
// The guard
// ---------------------------------------------------------------------------

/// Whether `mask` has the bit `bit`.
pub fn mask_has_bit(mask: u64, bit: u32) -> (r: bool)
    requires
        bit < 64,
    ensures
        r == has_bit(mask, bit),
{
    (mask & (1u64 << bit)) != 0
}

/// Whether the process runs as root.
pub fn is_root_user(host: &mut Replay) -> (r: Result<bool, Halt>)
    ensures
        final(host).seen() == old(host).seen(),
        ran(r, final(host).pos()) == root_user(old(host).seen(), old(host).pos()),
{
    let mut args: Vec<String> = Vec::new();
    assert(views(args@) =~= Seq::<Seq<char>>::empty());
    push_arg(&mut args, "-u");
    assert(views(args@) =~= seq!["-u"@]);
    let reply = host.perform(Effect::Run(Invocation { program: owned("id"), args, stdin: None }))?;
    if !reply.ok {
        return Err(Halt::Fail(Fault { kind: FaultKind::UserUnknown, detail: reply.detail, rolled_back: false }));
    }
    let uid = trim_chars(&chars_of(reply.text.as_str()));
    Ok(is_word(&uid, "0"))
}

/// The effective capability mask in the text of a process status.
pub fn cap_eff_of(content: &str) -> (r: Result<u64, FaultKind>)
    ensures
        r == cap_eff_in(lines(content@)),
{
    let chars = chars_of(content);
    let all = split_lines(&chars);
    let mut i: usize = 0;
    assert(rows(all@).skip(0) =~= rows(all@));
    while i < all.len()
        invariant
            i <= all.len(),
            rows(all@) == lines(content@),
            cap_eff_in(rows(all@).skip(i as int)) == cap_eff_in(lines(content@)),
        decreases all.len() - i,
    {
        let ghost rest = rows(all@).skip(i as int);
        assert(rest[0] == all@[i as int]@);
        assert(rest.drop_first() =~= rows(all@).skip(i + 1));
        match strip_prefix(&all[i], "CapEff:") {
            Some(value) => {
                let digits = trim_chars(&value);
                return match parse_hex_chars(&digits) {
                    Some(n) => Ok(n),
                    None => Err(FaultKind::CapParse),
                };
            },
            None => {},
        }
        i = i + 1;
    }
    Err(FaultKind::CapMissing)
}

/// The effective capability mask of the process.
pub fn read_cap_eff(host: &mut Replay) -> (r: Result<u64, Halt>)
    ensures
        final(host).seen() == old(host).seen(),
        ran(r, final(host).pos()) == cap_eff(old(host).seen(), old(host).pos()),
{
    let reply = host.perform(Effect::ReadFile(owned(PROC_STATUS_PATH)))?;
    if !reply.ok {
        return Err(Halt::Fail(Fault { kind: FaultKind::CapRead, detail: reply.detail, rolled_back: false }));
    }
    match cap_eff_of(reply.text.as_str()) {
        Ok(mask) => Ok(mask),
        Err(kind) => Err(Halt::Fail(Fault { kind, detail: String::new(), rolled_back: false })),
    }
}

/// Whether the process has the capability with this bit.
pub fn has_capability_bit(host: &mut Replay, bit: u32) -> (r: Result<bool, Halt>)
    requires
        bit < 64,
    ensures
        final(host).seen() == old(host).seen(),
        ran(r, final(host).pos()) == capability(old(host).seen(), old(host).pos(), bit),
{
    let mask = read_cap_eff(host)?;
    Ok(mask_has_bit(mask, bit))
}

/// A question whose failure counts as "no".
fn unwrap_or_no(answer: Result<bool, Halt>, Ghost(at): Ghost<int>) -> (r: Result<bool, Halt>)
    ensures
        ran(r, at) == or_no(ran(answer, at)),
{
    match answer {
        Ok(b) => Ok(b),
        Err(Halt::Need(e)) => Err(Halt::Need(e)),
        Err(Halt::Fail(_)) => Ok(false),
    }
}

/// Lets a process pass that is root or has both capabilities, and fails
/// with `InsufficientPrivilege` for any other.
pub fn ensure_tun_privileges(host: &mut Replay) -> (r: Result<(), Halt>)
    ensures
        final(host).seen() == old(host).seen(),
        ran(r, final(host).pos()) == privileged(old(host).seen(), old(host).pos()),
{
    let root = is_root_user(host);
    let is_root = unwrap_or_no(root, Ghost(host.pos()))?;
    let admin = has_capability_bit(host, CAP_NET_ADMIN_BIT);
    let has_admin = unwrap_or_no(admin, Ghost(host.pos()))?;
    let raw = has_capability_bit(host, CAP_NET_RAW_BIT);
    let has_raw = unwrap_or_no(raw, Ghost(host.pos()))?;
    if is_root || (has_admin && has_raw) {
        return Ok(());
    }
    Err(Halt::Fail(Fault { kind: FaultKind::InsufficientPrivilege, detail: String::new(), rolled_back: false }))
}

/// Where the privileges do not suffice, the failure's message names both
/// capabilities that are needed.
pub proof fn lemma_denial_names_capabilities(log: Seq<ExchangeView>, at: int)
    requires
        privileged(log, at).out is Err,
        privileged(log, at).out->Err_0 is Fail,
    ensures
        privileged(log, at).out->Err_0->Fail_0.kind == FaultKind::InsufficientPrivilege,
        contains(
            message_text(privileged(log, at).out->Err_0->Fail_0),
            crate::messages::CAP_NET_ADMIN_NAME@,
        ),
        contains(
            message_text(privileged(log, at).out->Err_0->Fail_0),
            crate::messages::CAP_NET_RAW_NAME@,
        ),
{
    lemma_privilege_failure_names_capabilities(privileged(log, at).out->Err_0->Fail_0);
}

/// Whether the command is handed to an elevated copy.
pub fn should_auto_delegate_to_sudo(env: &HostEnv, host: &mut Replay) -> (r: Result<bool, Halt>)
    ensures
        final(host).seen() == old(host).seen(),
        ran(r, final(host).pos()) == delegates(env@, old(host).seen(), old(host).pos()),
{
    if env.json {
        return Ok(false);
    }
    if env.no_auto_sudo {
        return Ok(false);
    }
    let marked = match &env.sudo_reexec {
        Some(v) => crate::text::same(v.as_str(), SUDO_REEXEC_MARK),
        None => false,
    };
    if marked {
        return Ok(false);
    }
    if !env.stdin_terminal || !env.stderr_terminal {
        return Ok(false);
    }
    command_exists(host, Program::Sudo)
}

/// The arguments with which the elevation tool re-runs the program, up to
/// the subcommand.
pub fn build_sudo_reexec_command(env: &HostEnv, exe: &str) -> (r: Vec<String>)
    ensures
        views(r@) == reexec_prefix(env@, exe@),
{
    let mut args: Vec<String> = Vec::new();
    assert(views(args@) =~= Seq::<Seq<char>>::empty());
    push_arg(&mut args, "env");
    push_arg(&mut args, "CLASH_CLI_SUDO_REEXEC=1");
    match &env.home_override {
        Some(home) => {
            let pair = concat("CLASH_CLI_HOME=", home.as_str());
            push_arg(&mut args, pair.as_str());
        },
        None => {},
    }
    push_arg(&mut args, exe);
    if env.json {
        push_arg(&mut args, "--json");
    }
    assert(views(args@) =~= reexec_prefix(env@, exe@));
    args
}

/// Re-runs the command elevated, with `flags` after the program.
fn run_with_sudo(env: &HostEnv, host: &mut Replay, flags: Vec<String>) -> (r: Result<
    PrivilegeCheck,
    Halt,
>)
    ensures
        final(host).seen() == old(host).seen(),
        ran(r, final(host).pos()) == reexec(
            env@,
            old(host).seen(),
            old(host).pos(),
            views(flags@),
        ),
{
    let exe = match &env.current_exe {
        Some(exe) => exe,
        None => {
            return Err(
                Halt::Fail(Fault { kind: FaultKind::CurrentExeUnknown, detail: String::new(), rolled_back: false }),
            );
        },
    };
    let mut args = build_sudo_reexec_command(env, exe.as_str());
    let ghost prefix = views(args@);
    let mut i: usize = 0;
    while i < flags.len()
        invariant
            i <= flags.len(),
            views(args@) == prefix + views(flags@).subrange(0, i as int),
        decreases flags.len() - i,
    {
        push_arg(&mut args, flags[i].as_str());
        i = i + 1;
        assert(views(args@) =~= prefix + views(flags@).subrange(0, i as int));
    }
    assert(views(flags@).subrange(0, flags.len() as int) =~= views(flags@));
    let reply = host.perform(
        Effect::Status(Invocation { program: owned(Program::Sudo.as_str()), args, stdin: None }),
    )?;
    if reply.ok {
        Ok(PrivilegeCheck::Delegated)
    } else {
        Err(Halt::Fail(Fault { kind: FaultKind::ElevationFailed, detail: reply.detail, rolled_back: false }))
    }
}

/// Re-runs `tun on` or `tun off` elevated, with its flags.
pub fn run_tun_apply_with_sudo(
    env: &HostEnv,
    host: &mut Replay,
    action: TunAction,
    args: &TunApplyArgs,
) -> (r: Result<PrivilegeCheck, Halt>)
    ensures
        final(host).seen() == old(host).seen(),
        ran(r, final(host).pos()) == reexec(
            env@,
            old(host).seen(),
            old(host).pos(),
            apply_flags(action, args@),
        ),
{
    let mut flags: Vec<String> = Vec::new();
    assert(views(flags@) =~= Seq::<Seq<char>>::empty());
    push_arg(&mut flags, "tun");
    push_arg(&mut flags, action.as_cli_str());
    push_arg(&mut flags, "--name");
    push_arg(&mut flags, args.name.as_str());
    if args.user {
        push_arg(&mut flags, "--user");
    }
    if args.no_restart {
        push_arg(&mut flags, "--no-restart");
    }
    assert(views(flags@) =~= apply_flags(action, args@));
    run_with_sudo(env, host, flags)
}

/// Re-runs `tun doctor` elevated.
pub fn run_tun_doctor_with_sudo(env: &HostEnv, host: &mut Replay) -> (r: Result<
    PrivilegeCheck,
    Halt,
>)
    ensures
        final(host).seen() == old(host).seen(),
        ran(r, final(host).pos()) == reexec(
            env@,
            old(host).seen(),
            old(host).pos(),
            seq!["tun"@, TunAction::Doctor.name()],
        ),
{
    let mut flags: Vec<String> = Vec::new();
    assert(views(flags@) =~= Seq::<Seq<char>>::empty());
    push_arg(&mut flags, "tun");
    push_arg(&mut flags, TunAction::Doctor.as_cli_str());
    assert(views(flags@) =~= seq!["tun"@, TunAction::Doctor.name()]);
    run_with_sudo(env, host, flags)
}

/// The guard of `tun on` and `tun off`.
pub fn ensure_tun_privileges_or_delegate(
    env: &HostEnv,
    host: &mut Replay,
    action: TunAction,
    args: &TunApplyArgs,
) -> (r: Result<PrivilegeCheck, Halt>)
    ensures
        final(host).seen() == old(host).seen(),
        ran(r, final(host).pos()) == guard_apply(
            env@,
            old(host).seen(),
            old(host).pos(),
            action,
            args@,
        ),
{
    proof {
        reveal(guard_apply);
    }
    match ensure_tun_privileges(host) {
        Ok(()) => {
            return Ok(PrivilegeCheck::Granted);
        },
        Err(Halt::Need(e)) => {
            return Err(Halt::Need(e));
        },
        Err(Halt::Fail(_)) => {},
    }
    if !should_auto_delegate_to_sudo(env, host)? {
        ensure_tun_privileges(host)?;
        return Ok(PrivilegeCheck::Granted);
    }
    run_tun_apply_with_sudo(env, host, action, args)
}

/// The guard of `tun doctor`.
pub fn ensure_tun_doctor_privileges_or_delegate(env: &HostEnv, host: &mut Replay) -> (r: Result<
    PrivilegeCheck,
    Halt,
>)
    ensures
        final(host).seen() == old(host).seen(),
        ran(r, final(host).pos()) == guard_doctor(env@, old(host).seen(), old(host).pos()),
{
    proof {
        reveal(guard_doctor);
    }
    match ensure_tun_privileges(host) {
        Ok(()) => {
            return Ok(PrivilegeCheck::Granted);
        },
        Err(Halt::Need(e)) => {
            return Err(Halt::Need(e));
        },
        Err(Halt::Fail(_)) => {},
    }
    if !should_auto_delegate_to_sudo(env, host)? {
        return Ok(PrivilegeCheck::Granted);
    }
    run_tun_doctor_with_sudo(env, host)
}

} // verus!
