//! The service that runs the proxy daemon: its unit name, and the calls of
//! `systemctl` that restart it and ask whether it runs.

use crate::host::{
    ExchangeView, ask, bind, done, failed, owned, push_arg, ran, Effect, EffectView, Fault,
    FaultKind, Halt, Invocation, InvocationView, Program, Ran, Replay, ReplyView,
};
use crate::text::{chars_of, concat, ends_with, has_suffix, views};
use crate::tun::backend::{command_exists, tool_exists};
use vstd::prelude::*;

verus! {

/// The suffix of a service unit's name.
pub const SERVICE_SUFFIX: &'static str = ".service";

/// The name of the unit of a service: the name itself where it ends in
/// `.service`, else the name with `.service` added.
pub open spec fn unit_name(name: Seq<char>) -> Seq<char> {
    if ends_with(name, SERVICE_SUFFIX@) {
        name
    } else {
        name + SERVICE_SUFFIX@
    }
}

/// A call of `systemctl`, for the user's or the system's services.
pub open spec fn systemctl_command(user: bool, words: Seq<Seq<char>>) -> InvocationView {
    InvocationView {
        program: Program::Systemctl.name(),
        args: (if user {
            seq!["--user"@]
        } else {
            Seq::empty()
        }) + words,
        stdin: None,
    }
}

/// The service is restarted; the value says whether that succeeded.
pub open spec fn restarted(log: Seq<ExchangeView>, at: int, name: Seq<char>, user: bool) -> Ran<bool> {
    bind(
        ask(
            log,
            at,
            EffectView::Run(systemctl_command(user, seq!["restart"@, unit_name(name)])),
        ),
        |r: ReplyView, at1: int| done(r.ok, at1),
    )
}

/// Whether the service runs. Without `systemctl` the question fails.
pub open spec fn service_active(log: Seq<ExchangeView>, at: int, name: Seq<char>, user: bool) -> Ran<
    bool,
> {
    bind(
        tool_exists(log, at, Program::Systemctl),
        |yes: bool, at1: int|
            if !yes {
                failed(FaultKind::NoSystemctl, Seq::empty(), at1)
            } else {
                bind(
                    ask(
                        log,
                        at1,
                        EffectView::Status(
                            systemctl_command(
                                user,
                                seq!["is-active"@, "--quiet"@, unit_name(name)],
                            ),
                        ),
                    ),
                    |r: ReplyView, at2: int| done(r.ok, at2),
                )
            },
    )
}

/// The name of the unit of a service.
pub fn normalize_unit_name(name: &str) -> (r: String)
    ensures
        r@ == unit_name(name@),
{
    let c = chars_of(name);
    let suffix = chars_of(SERVICE_SUFFIX);
    if has_suffix(&c, &suffix) {
        owned(name)
    } else {
        concat(name, SERVICE_SUFFIX)
    }
}

/// A call of `systemctl`.
pub fn systemctl(user: bool, words: Vec<String>) -> (r: Invocation)
    ensures
        r@ == systemctl_command(user, views(words@)),
{
    let mut args: Vec<String> = Vec::new();
    assert(views(args@) =~= Seq::<Seq<char>>::empty());
    if user {
        push_arg(&mut args, "--user");
    }
    let ghost head = views(args@);
    let mut i: usize = 0;
    while i < words.len()
        invariant
            i <= words.len(),
            views(args@) == head + views(words@).subrange(0, i as int),
        decreases words.len() - i,
    {
        push_arg(&mut args, words[i].as_str());
        i = i + 1;
        assert(views(args@) =~= head + views(words@).subrange(0, i as int));
    }
    assert(views(words@).subrange(0, words.len() as int) =~= views(words@));
    assert(views(args@) =~= systemctl_command(user, views(words@)).args);
    Invocation { program: owned(Program::Systemctl.as_str()), args, stdin: None }
}

/// Restarts the service; a failure is worth a warning only. Says whether
/// the restart succeeded.
pub fn restart_service_best_effort(host: &mut Replay, name: &str, user: bool) -> (r: Result<
    bool,
    Halt,
>)
    ensures
        final(host).seen() == old(host).seen(),
        ran(r, final(host).pos()) == restarted(old(host).seen(), old(host).pos(), name@, user),
{
    let mut words: Vec<String> = Vec::new();
    assert(views(words@) =~= Seq::<Seq<char>>::empty());
    push_arg(&mut words, "restart");
    let unit = normalize_unit_name(name);
    push_arg(&mut words, unit.as_str());
    assert(views(words@) =~= seq!["restart"@, unit_name(name@)]);
    let reply = host.perform(Effect::Run(systemctl(user, words)))?;
    Ok(reply.ok)
}

/// Asks whether the service runs.
pub fn query_service_active(host: &mut Replay, name: &str, user: bool) -> (r: Result<bool, Halt>)
    ensures
        final(host).seen() == old(host).seen(),
        ran(r, final(host).pos()) == service_active(
            old(host).seen(),
            old(host).pos(),
            name@,
            user,
        ),
{
    if !command_exists(host, Program::Systemctl)? {
        return Err(Halt::Fail(Fault { kind: FaultKind::NoSystemctl, detail: String::new(), rolled_back: false }));
    }
    let mut words: Vec<String> = Vec::new();
    assert(views(words@) =~= Seq::<Seq<char>>::empty());
    push_arg(&mut words, "is-active");
    push_arg(&mut words, "--quiet");
    let unit = normalize_unit_name(name);
    push_arg(&mut words, unit.as_str());
    assert(views(words@) =~= seq!["is-active"@, "--quiet"@, unit_name(name@)]);
    let reply = host.perform(Effect::Status(systemctl(user, words)))?;
    Ok(reply.ok)
}

} // verus!
