//! The rule backend engine: which backend to use, whether its rules are
//! live, and how they are applied and removed. Every function runs over the
//! record of replies; its contract gives the outcome for every record.

use crate::host::{ExchangeView, 
    ask, bind, done, failed, halted, owned, ran, Effect, EffectView, Family, Fault, FaultKind,
    FaultView, FirewallOp, Halt, HaltView, Hook, Jump, Program, Ran, Replay, Reply, ReplyView,
};
use crate::messages::{fault_message, message_text};
use crate::text::{chars_of, push_str, text_of, trim, trim_chars};
use crate::tun::rules::{chain_rule_list, chain_rules};
use crate::tun::state::RuleBackend;
use vstd::prelude::*;

verus! {

/// How often at most one jump is looked up and deleted in one cleanup:
/// repeated applies may have left copies.
pub const PURGE_ROUNDS: usize = 8;

/// The unconditional jump from `PREROUTING`.
pub open spec fn prerouting_jump() -> Jump {
    Jump { hook: Hook::Prerouting, non_root_only: false }
}

/// The jump from `OUTPUT` for traffic that root does not own, so that the
/// proxy's own connections are not redirected.
pub open spec fn output_jump() -> Jump {
    Jump { hook: Hook::Output, non_root_only: true }
}

/// An unconditional jump from `OUTPUT`: never added, but removed by cleanup.
pub open spec fn plain_output_jump() -> Jump {
    Jump { hook: Hook::Output, non_root_only: false }
}

/// The text of a failed command: what it printed.
pub open spec fn failure_text(r: ReplyView) -> Seq<char> {
    "stdout: "@ + trim(r.text) + "\nstderr: "@ + trim(r.detail)
}

/// The texts of two failures, one after the other.
pub open spec fn both_details(first: FaultView, second: FaultView) -> Seq<char> {
    first.detail + "\n"@ + second.detail
}

/// The text of a cleanup of every backend that failed: each backend by its
/// name with the message of its failure.
pub open spec fn cleanup_failures(nft: FaultView, iptables: FaultView) -> Seq<char> {
    RuleBackend::Nft.name() + ": "@ + message_text(nft) + "; "@ + RuleBackend::Iptables.name()
        + ": "@ + message_text(iptables)
}

// ---------------------------------------------------------------------------
// Outcomes over a record
// ---------------------------------------------------------------------------

/// Whether `program` can be called: `--version` succeeds, or else `-V`.
pub open spec fn tool_exists(log: Seq<ExchangeView>, at: int, program: Program) -> Ran<bool> {
    bind(
        ask(log, at, EffectView::Tool(program, true)),
        |r: ReplyView, at1: int|
            if r.ok {
                done(true, at1)
            } else {
                bind(
                    ask(log, at1, EffectView::Tool(program, false)),
                    |r2: ReplyView, at2: int| done(r2.ok, at2),
                )
            },
    )
}

/// Whether a firewall call succeeds.
pub open spec fn probe(log: Seq<ExchangeView>, at: int, op: FirewallOp) -> Ran<bool> {
    bind(ask(log, at, EffectView::Firewall(op)), |r: ReplyView, at1: int| done(r.ok, at1))
}

/// A firewall call that must succeed.
pub open spec fn must(log: Seq<ExchangeView>, at: int, op: FirewallOp) -> Ran<()> {
    bind(
        ask(log, at, EffectView::Firewall(op)),
        |r: ReplyView, at1: int|
            if r.ok {
                done((), at1)
            } else {
                failed(FaultKind::CommandFailed, failure_text(r), at1)
            },
    )
}

/// A firewall call whose failure does not matter.
pub open spec fn attempt(log: Seq<ExchangeView>, at: int, op: FirewallOp) -> Ran<()> {
    bind(ask(log, at, EffectView::Firewall(op)), |r: ReplyView, at1: int| done((), at1))
}

/// Firewall calls in a row, each of which must succeed.
pub open spec fn must_all(log: Seq<ExchangeView>, at: int, ops: Seq<FirewallOp>) -> Ran<()>
    decreases ops.len(),
{
    if ops.len() == 0 {
        done((), at)
    } else {
        let first = must(log, at, ops[0]);
        if first.out is Ok {
            must_all(log, first.at, ops.drop_first())
        } else {
            first
        }
    }
}

/// Whether the tool's nftables table exists.
pub open spec fn nft_active(log: Seq<ExchangeView>, at: int) -> Ran<bool> {
    bind(
        tool_exists(log, at, Program::Nft),
        |yes: bool, at1: int|
            if yes {
                probe(log, at1, FirewallOp::NftList)
            } else {
                done(false, at1)
            },
    )
}

/// Whether one family has a jump into the tool's chain.
pub open spec fn family_active(log: Seq<ExchangeView>, at: int, family: Family) -> Ran<bool> {
    bind(
        tool_exists(log, at, family.program()),
        |yes: bool, at1: int|
            if !yes {
                done(false, at1)
            } else {
                bind(
                    probe(log, at1, FirewallOp::JumpCheck(family, prerouting_jump())),
                    |hit: bool, at2: int|
                        if hit {
                            done(true, at2)
                        } else {
                            probe(log, at2, FirewallOp::JumpCheck(family, output_jump()))
                        },
                )
            },
    )
}

/// Whether either family has a jump into the tool's chain. Both families
/// are looked at.
pub open spec fn iptables_active(log: Seq<ExchangeView>, at: int) -> Ran<bool> {
    bind(
        family_active(log, at, Family::V4),
        |v4: bool, at1: int|
            bind(family_active(log, at1, Family::V6), |v6: bool, at2: int| done(v4 || v6, at2)),
    )
}

/// The backend whose rules are live: nft if its table exists, else iptables
/// if a jump exists, else none.
#[verifier::opaque]
pub open spec fn detect_active(log: Seq<ExchangeView>, at: int) -> Ran<RuleBackend> {
    bind(
        nft_active(log, at),
        |nft: bool, at1: int|
            if nft {
                done(RuleBackend::Nft, at1)
            } else {
                bind(
                    iptables_active(log, at1),
                    |ipt: bool, at2: int|
                        done(
                            if ipt {
                                RuleBackend::Iptables
                            } else {
                                RuleBackend::Absent
                            },
                            at2,
                        ),
                )
            },
    )
}

/// The backend to apply rules with: nft if it can be called, else iptables,
/// else a failure.
pub open spec fn select_backend(log: Seq<ExchangeView>, at: int) -> Ran<RuleBackend> {
    bind(
        tool_exists(log, at, Program::Nft),
        |nft: bool, at1: int|
            if nft {
                done(RuleBackend::Nft, at1)
            } else {
                bind(
                    tool_exists(log, at1, Program::Iptables),
                    |ipt: bool, at2: int|
                        if ipt {
                            done(RuleBackend::Iptables, at2)
                        } else {
                            failed(FaultKind::NoBackend, Seq::empty(), at2)
                        },
                )
            },
    )
}

/// A jump is looked up and added only where it is missing.
pub open spec fn ensure_jump(log: Seq<ExchangeView>, at: int, family: Family, jump: Jump) -> Ran<()> {
    bind(
        probe(log, at, FirewallOp::JumpCheck(family, jump)),
        |hit: bool, at1: int|
            if hit {
                done((), at1)
            } else {
                must(log, at1, FirewallOp::JumpAppend(family, jump))
            },
    )
}

/// The appends that fill the tool's chain.
pub open spec fn chain_appends(family: Family, redir_port: u16) -> Seq<FirewallOp> {
    chain_rules(family, redir_port).map_values(|r| FirewallOp::ChainAppend(family, r))
}

/// One family's rules are put in place: the chain is created (it may
/// exist), emptied and filled, and both jumps are ensured. A missing binary
/// is a failure unless the family is optional.
pub open spec fn configure_family(
    log: Seq<ExchangeView>,
    at: int,
    family: Family,
    redir_port: u16,
    optional: bool,
) -> Ran<()> {
    bind(
        tool_exists(log, at, family.program()),
        |yes: bool, at1: int|
            if !yes {
                if optional {
                    done((), at1)
                } else {
                    failed(FaultKind::ToolMissing, family.program().name(), at1)
                }
            } else {
                bind(
                    attempt(log, at1, FirewallOp::ChainNew(family)),
                    |u: (), at2: int|
                        bind(
                            must(log, at2, FirewallOp::ChainFlush(family)),
                            |u: (), at3: int|
                                bind(
                                    must_all(log, at3, chain_appends(family, redir_port)),
                                    |u: (), at4: int|
                                        bind(
                                            ensure_jump(log, at4, family, prerouting_jump()),
                                            |u: (), at5: int|
                                                ensure_jump(log, at5, family, output_jump()),
                                        ),
                                ),
                        ),
                )
            },
    )
}

/// The iptables rules are applied: IPv4 required, IPv6 where its binary
/// exists, then the jumps are looked up again.
pub open spec fn apply_iptables(log: Seq<ExchangeView>, at: int, redir_port: u16) -> Ran<()> {
    bind(
        tool_exists(log, at, Program::Iptables),
        |yes: bool, at1: int|
            if !yes {
                failed(FaultKind::ToolMissing, Program::Iptables.name(), at1)
            } else {
                bind(
                    configure_family(log, at1, Family::V4, redir_port, false),
                    |u: (), at2: int|
                        bind(
                            configure_family(log, at2, Family::V6, redir_port, true),
                            |u: (), at3: int|
                                bind(
                                    iptables_active(log, at3),
                                    |live: bool, at4: int|
                                        if live {
                                            done((), at4)
                                        } else {
                                            failed(
                                                FaultKind::RulesNotVerified,
                                                RuleBackend::Iptables.name(),
                                                at4,
                                            )
                                        },
                                ),
                        ),
                )
            },
    )
}

/// The nftables rules are applied: an old table is deleted (there may be
/// none), the script is loaded, then the table is looked up again.
pub open spec fn apply_nft(log: Seq<ExchangeView>, at: int, redir_port: u16) -> Ran<()> {
    bind(
        tool_exists(log, at, Program::Nft),
        |yes: bool, at1: int|
            if !yes {
                failed(FaultKind::ToolMissing, Program::Nft.name(), at1)
            } else {
                bind(
                    attempt(log, at1, FirewallOp::NftDelete),
                    |u: (), at2: int|
                        bind(
                            must(log, at2, FirewallOp::NftLoad(redir_port)),
                            |u: (), at3: int|
                                bind(
                                    nft_active(log, at3),
                                    |live: bool, at4: int|
                                        if live {
                                            done((), at4)
                                        } else {
                                            failed(
                                                FaultKind::RulesNotVerified,
                                                RuleBackend::Nft.name(),
                                                at4,
                                            )
                                        },
                                ),
                        ),
                )
            },
    )
}

/// Rules are applied with `backend`, and the backend that holds them is
/// given. Where nft fails and iptables can be called, iptables is tried;
/// only if that fails too is the whole a failure.
#[verifier::opaque]
pub open spec fn apply_rules(
    log: Seq<ExchangeView>,
    at: int,
    backend: RuleBackend,
    redir_port: u16,
) -> Ran<RuleBackend> {
    match backend {
        RuleBackend::Nft => {
            let first = apply_nft(log, at, redir_port);
            match first.out {
                Ok(_) => done(RuleBackend::Nft, first.at),
                Err(HaltView::Need(e)) => halted(HaltView::Need(e), first.at),
                Err(HaltView::Fail(nft_fault)) => bind(
                    tool_exists(log, first.at, Program::Iptables),
                    |yes: bool, at1: int|
                        if !yes {
                            halted(HaltView::Fail(nft_fault), at1)
                        } else {
                            let second = apply_iptables(log, at1, redir_port);
                            match second.out {
                                Ok(_) => done(RuleBackend::Iptables, second.at),
                                Err(HaltView::Need(e)) => halted(HaltView::Need(e), second.at),
                                Err(HaltView::Fail(ipt_fault)) => failed(
                                    FaultKind::FallbackFailed,
                                    both_details(nft_fault, ipt_fault),
                                    second.at,
                                ),
                            }
                        },
                ),
            }
        },
        RuleBackend::Iptables => bind(
            apply_iptables(log, at, redir_port),
            |u: (), at1: int| done(RuleBackend::Iptables, at1),
        ),
        RuleBackend::Absent => done(RuleBackend::Absent, at),
    }
}

/// Copies of one jump are removed: up to `rounds` times the jump is looked
/// up and, if found, deleted; the first lookup that finds none ends it.
pub open spec fn purge_jump(
    log: Seq<ExchangeView>,
    at: int,
    family: Family,
    jump: Jump,
    rounds: nat,
) -> Ran<()>
    decreases rounds,
{
    if rounds == 0 {
        done((), at)
    } else {
        let found = probe(log, at, FirewallOp::JumpCheck(family, jump));
        match found.out {
            Err(h) => halted(h, found.at),
            Ok(false) => done((), found.at),
            Ok(true) => {
                let gone = must(log, found.at, FirewallOp::JumpDelete(family, jump));
                if gone.out is Ok {
                    purge_jump(log, gone.at, family, jump, (rounds - 1) as nat)
                } else {
                    gone
                }
            },
        }
    }
}

/// One family's rules are removed: the jumps, then the chain (whose flush
/// and delete may fail). A missing binary is a failure unless the family is
/// optional.
pub open spec fn cleanup_family(log: Seq<ExchangeView>, at: int, family: Family, optional: bool) -> Ran<
    (),
> {
    bind(
        tool_exists(log, at, family.program()),
        |yes: bool, at1: int|
            if !yes {
                if optional {
                    done((), at1)
                } else {
                    failed(FaultKind::ToolMissing, family.program().name(), at1)
                }
            } else {
                bind(
                    purge_jump(log, at1, family, prerouting_jump(), PURGE_ROUNDS as nat),
                    |u: (), at2: int|
                        bind(
                            purge_jump(log, at2, family, output_jump(), PURGE_ROUNDS as nat),
                            |u: (), at3: int|
                                bind(
                                    purge_jump(
                                        log,
                                        at3,
                                        family,
                                        plain_output_jump(),
                                        PURGE_ROUNDS as nat,
                                    ),
                                    |u: (), at4: int|
                                        bind(
                                            attempt(log, at4, FirewallOp::ChainFlush(family)),
                                            |u: (), at5: int|
                                                attempt(log, at5, FirewallOp::ChainDelete(family)),
                                        ),
                                ),
                        ),
                )
            },
    )
}

/// The iptables rules of both families are removed.
pub open spec fn cleanup_iptables(log: Seq<ExchangeView>, at: int) -> Ran<()> {
    bind(
        cleanup_family(log, at, Family::V4, false),
        |u: (), at1: int| cleanup_family(log, at1, Family::V6, true),
    )
}

/// The nftables table is deleted if it is there; without nft nothing is
/// done.
pub open spec fn cleanup_nft(log: Seq<ExchangeView>, at: int) -> Ran<()> {
    bind(
        tool_exists(log, at, Program::Nft),
        |yes: bool, at1: int|
            if !yes {
                done((), at1)
            } else {
                bind(
                    nft_active(log, at1),
                    |live: bool, at2: int|
                        if live {
                            must(log, at2, FirewallOp::NftDelete)
                        } else {
                            done((), at2)
                        },
                )
            },
    )
}

/// The rules of one backend are removed.
#[verifier::opaque]
pub open spec fn cleanup_rules(log: Seq<ExchangeView>, at: int, backend: RuleBackend) -> Ran<()> {
    match backend {
        RuleBackend::Nft => cleanup_nft(log, at),
        RuleBackend::Iptables => cleanup_iptables(log, at),
        RuleBackend::Absent => done((), at),
    }
}

/// The rules of every backend are removed. Both are tried whatever the
/// first does; the whole fails only if both fail.
#[verifier::opaque]
pub open spec fn cleanup_all(log: Seq<ExchangeView>, at: int) -> Ran<()> {
    let nft = cleanup_nft(log, at);
    match nft.out {
        Err(HaltView::Need(e)) => halted(HaltView::Need(e), nft.at),
        _ => {
            let ipt = cleanup_iptables(log, nft.at);
            match (nft.out, ipt.out) {
                (_, Err(HaltView::Need(e))) => halted(HaltView::Need(e), ipt.at),
                (Err(HaltView::Fail(a)), Err(HaltView::Fail(b))) => failed(
                    FaultKind::CleanupFailed,
                    cleanup_failures(a, b),
                    ipt.at,
                ),
                _ => done((), ipt.at),
            }
        },
    }
}

/// The rules of every backend are removed and a failure is only reported:
/// the value says whether the cleanup succeeded.
pub open spec fn cleanup_all_quietly(log: Seq<ExchangeView>, at: int) -> Ran<bool> {
    let all = cleanup_all(log, at);
    match all.out {
        Ok(_) => done(true, all.at),
        Err(HaltView::Need(e)) => halted(HaltView::Need(e), all.at),
        Err(HaltView::Fail(_)) => done(false, all.at),
    }
}

// ---------------------------------------------------------------------------
// Positions
// ---------------------------------------------------------------------------

/// Calls in a row never move backwards in the record.
pub proof fn lemma_must_all_position(log: Seq<ExchangeView>, at: int, ops: Seq<FirewallOp>)
    ensures
        must_all(log, at, ops).at >= at,
    decreases ops.len(),
{
    if ops.len() > 0 {
        let first = must(log, at, ops[0]);
        if first.out is Ok {
            lemma_must_all_position(log, first.at, ops.drop_first());
        }
    }
}

/// Putting one family's rules in place never moves backwards in the record.
pub proof fn lemma_configure_position(
    log: Seq<ExchangeView>,
    at: int,
    family: Family,
    redir_port: u16,
    optional: bool,
)
    ensures
        configure_family(log, at, family, redir_port, optional).at >= at,
{
    let t = tool_exists(log, at, family.program());
    if t.out == Ok::<bool, HaltView>(true) {
        let a = attempt(log, t.at, FirewallOp::ChainNew(family));
        if a.out is Ok {
            let b = must(log, a.at, FirewallOp::ChainFlush(family));
            if b.out is Ok {
                lemma_must_all_position(log, b.at, chain_appends(family, redir_port));
            }
        }
    }
}

/// Applying the iptables rules never moves backwards in the record.
pub proof fn lemma_apply_iptables_position(log: Seq<ExchangeView>, at: int, redir_port: u16)
    ensures
        apply_iptables(log, at, redir_port).at >= at,
{
    let t = tool_exists(log, at, Program::Iptables);
    if t.out == Ok::<bool, HaltView>(true) {
        lemma_configure_position(log, t.at, Family::V4, redir_port, false);
        let a = configure_family(log, t.at, Family::V4, redir_port, false);
        if a.out is Ok {
            lemma_configure_position(log, a.at, Family::V6, redir_port, true);
        }
    }
}

/// Looking for a tool never moves backwards in the record.
pub proof fn lemma_tool_position(log: Seq<ExchangeView>, at: int, program: Program)
    ensures
        tool_exists(log, at, program).at >= at,
{
}

/// Detection never moves backwards in the record.
pub proof fn lemma_detect_position(log: Seq<ExchangeView>, at: int)
    ensures
        detect_active(log, at).at >= at,
{
    reveal(detect_active);
    lemma_tool_position(log, at, Program::Nft);
    let n = nft_active(log, at);
    if n.out == Ok::<bool, HaltView>(false) {
        lemma_tool_position(log, n.at, Program::Iptables);
        let a = family_active(log, n.at, Family::V4);
        if a.out is Ok {
            lemma_tool_position(log, a.at, Program::Ip6tables);
        }
    }
}

/// Removing the copies of a jump never moves backwards in the record.
pub proof fn lemma_purge_position(
    log: Seq<ExchangeView>,
    at: int,
    family: Family,
    jump: Jump,
    rounds: nat,
)
    ensures
        purge_jump(log, at, family, jump, rounds).at >= at,
    decreases rounds,
{
    if rounds > 0 {
        let found = probe(log, at, FirewallOp::JumpCheck(family, jump));
        if found.out == Ok::<bool, HaltView>(true) {
            let gone = must(log, found.at, FirewallOp::JumpDelete(family, jump));
            if gone.out is Ok {
                lemma_purge_position(log, gone.at, family, jump, (rounds - 1) as nat);
            }
        }
    }
}

/// The cleanup of one family never moves backwards in the record.
pub proof fn lemma_cleanup_family_position(
    log: Seq<ExchangeView>,
    at: int,
    family: Family,
    optional: bool,
)
    ensures
        cleanup_family(log, at, family, optional).at >= at,
{
    let t = tool_exists(log, at, family.program());
    if t.out == Ok::<bool, HaltView>(true) {
        let rounds = PURGE_ROUNDS as nat;
        lemma_purge_position(log, t.at, family, prerouting_jump(), rounds);
        let a = purge_jump(log, t.at, family, prerouting_jump(), rounds);
        if a.out is Ok {
            lemma_purge_position(log, a.at, family, output_jump(), rounds);
            let b = purge_jump(log, a.at, family, output_jump(), rounds);
            if b.out is Ok {
                lemma_purge_position(log, b.at, family, plain_output_jump(), rounds);
            }
        }
    }
}

/// The cleanup of every backend never moves backwards in the record.
pub proof fn lemma_cleanup_all_position(log: Seq<ExchangeView>, at: int)
    ensures
        cleanup_all(log, at).at >= at,
        cleanup_all_quietly(log, at).at >= at,
{
    reveal(cleanup_all);
    let nft = cleanup_nft(log, at);
    lemma_tool_position(log, at, Program::Nft);
    let t = tool_exists(log, at, Program::Nft);
    lemma_tool_position(log, t.at, Program::Nft);
    lemma_cleanup_family_position(log, nft.at, Family::V4, false);
    let a = cleanup_family(log, nft.at, Family::V4, false);
    if a.out is Ok {
        lemma_cleanup_family_position(log, a.at, Family::V6, true);
    }
}

/// Applying rules never moves backwards in the record.
pub proof fn lemma_apply_position(
    log: Seq<ExchangeView>,
    at: int,
    backend: RuleBackend,
    redir_port: u16,
)
    ensures
        apply_rules(log, at, backend, redir_port).at >= at,
{
    reveal(apply_rules);
    match backend {
        RuleBackend::Nft => {
            let first = apply_nft(log, at, redir_port);
            if first.out is Err && first.out->Err_0 is Fail {
                let t = tool_exists(log, first.at, Program::Iptables);
                if t.out == Ok::<bool, HaltView>(true) {
                    lemma_apply_iptables_position(log, t.at, redir_port);
                }
            }
        },
        RuleBackend::Iptables => {
            lemma_apply_iptables_position(log, at, redir_port);
        },
        RuleBackend::Absent => {},
    }
}

// ---------------------------------------------------------------------------
// The engine
// ---------------------------------------------------------------------------

/// The text of a failed command.
fn failure_detail(r: &Reply) -> (s: String)
    ensures
        s@ == failure_text(r@),
{
    let mut out: Vec<char> = Vec::new();
    push_str(&mut out, "stdout: ");
    let a = trim_chars(&chars_of(r.text.as_str()));
    let b = trim_chars(&chars_of(r.detail.as_str()));
    let a = text_of(&a);
    let b = text_of(&b);
    push_str(&mut out, a.as_str());
    push_str(&mut out, "\nstderr: ");
    push_str(&mut out, b.as_str());
    assert(out@ =~= failure_text(r@));
    text_of(&out)
}

/// A failure of `kind` whose text is both failures' texts.
fn merged(kind: FaultKind, first: &Fault, second: &Fault) -> (h: Halt)
    ensures
        h@ == HaltView::Fail(FaultView { kind, detail: both_details(first@, second@), rolled_back: false }),
{
    let mut out: Vec<char> = Vec::new();
    push_str(&mut out, first.detail.as_str());
    push_str(&mut out, "\n");
    push_str(&mut out, second.detail.as_str());
    assert(out@ =~= both_details(first@, second@));
    Halt::Fail(Fault { kind, detail: text_of(&out), rolled_back: false })
}

/// The failure of a cleanup of every backend: each backend by its name with
/// the message of its failure.
fn cleanup_failure(nft: &Fault, iptables: &Fault) -> (h: Halt)
    ensures
        h@ == HaltView::Fail(
            FaultView {
                kind: FaultKind::CleanupFailed,
                detail: cleanup_failures(nft@, iptables@),
                rolled_back: false,
            },
        ),
{
    let first = fault_message(nft);
    let second = fault_message(iptables);
    let mut out: Vec<char> = Vec::new();
    push_str(&mut out, RuleBackend::Nft.as_str());
    push_str(&mut out, ": ");
    push_str(&mut out, first.as_str());
    push_str(&mut out, "; ");
    push_str(&mut out, RuleBackend::Iptables.as_str());
    push_str(&mut out, ": ");
    push_str(&mut out, second.as_str());
    assert(out@ =~= cleanup_failures(nft@, iptables@));
    Halt::Fail(Fault { kind: FaultKind::CleanupFailed, detail: text_of(&out), rolled_back: false })
}

/// Whether `program` can be called: `--version` succeeds, or else `-V`.
pub fn command_exists(host: &mut Replay, program: Program) -> (r: Result<bool, Halt>)
    ensures
        final(host).seen() == old(host).seen(),
        ran(r, final(host).pos()) == tool_exists(old(host).seen(), old(host).pos(), program),
{
    let long = host.perform(Effect::Tool(program, true))?;
    if long.ok {
        return Ok(true);
    }
    let short = host.perform(Effect::Tool(program, false))?;
    Ok(short.ok)
}

/// Whether a firewall call succeeds.
pub fn check_cmd_success(host: &mut Replay, op: FirewallOp) -> (r: Result<bool, Halt>)
    ensures
        final(host).seen() == old(host).seen(),
        ran(r, final(host).pos()) == probe(old(host).seen(), old(host).pos(), op),
{
    let reply = host.perform(Effect::Firewall(op))?;
    Ok(reply.ok)
}

/// Makes a firewall call that must succeed; a failure carries what the
/// command printed.
pub fn run_cmd(host: &mut Replay, op: FirewallOp) -> (r: Result<(), Halt>)
    ensures
        final(host).seen() == old(host).seen(),
        ran(r, final(host).pos()) == must(old(host).seen(), old(host).pos(), op),
{
    let reply = host.perform(Effect::Firewall(op))?;
    if reply.ok {
        Ok(())
    } else {
        Err(Halt::Fail(Fault { kind: FaultKind::CommandFailed, detail: failure_detail(&reply), rolled_back: false }))
    }
}

/// Makes a firewall call whose failure does not matter.
pub fn try_cmd(host: &mut Replay, op: FirewallOp) -> (r: Result<(), Halt>)
    ensures
        final(host).seen() == old(host).seen(),
        ran(r, final(host).pos()) == attempt(old(host).seen(), old(host).pos(), op),
{
    let _ = host.perform(Effect::Firewall(op))?;
    Ok(())
}

/// Whether the tool's nftables table exists.
pub fn nft_rules_active(host: &mut Replay) -> (r: Result<bool, Halt>)
    ensures
        final(host).seen() == old(host).seen(),
        ran(r, final(host).pos()) == nft_active(old(host).seen(), old(host).pos()),
{
    if command_exists(host, Program::Nft)? {
        check_cmd_success(host, FirewallOp::NftList)
    } else {
        Ok(false)
    }
}

/// Whether one family has a jump into the tool's chain.
fn family_rules_active(host: &mut Replay, family: Family) -> (r: Result<bool, Halt>)
    ensures
        final(host).seen() == old(host).seen(),
        ran(r, final(host).pos()) == family_active(old(host).seen(), old(host).pos(), family),
{
    if !command_exists(host, family.binary())? {
        return Ok(false);
    }
    if check_cmd_success(
        host,
        FirewallOp::JumpCheck(family, Jump { hook: Hook::Prerouting, non_root_only: false }),
    )? {
        return Ok(true);
    }
    check_cmd_success(
        host,
        FirewallOp::JumpCheck(family, Jump { hook: Hook::Output, non_root_only: true }),
    )
}

/// Whether either family has a jump into the tool's chain.
pub fn iptables_rules_active(host: &mut Replay) -> (r: Result<bool, Halt>)
    ensures
        final(host).seen() == old(host).seen(),
        ran(r, final(host).pos()) == iptables_active(old(host).seen(), old(host).pos()),
{
    let ipv4 = family_rules_active(host, Family::V4)?;
    let ipv6 = family_rules_active(host, Family::V6)?;
    Ok(ipv4 || ipv6)
}

/// The backend to apply rules with: nft if it can be called, else iptables;
/// with neither it fails.
pub fn select_rule_backend(host: &mut Replay) -> (r: Result<RuleBackend, Halt>)
    ensures
        final(host).seen() == old(host).seen(),
        ran(r, final(host).pos()) == select_backend(old(host).seen(), old(host).pos()),
{
    if command_exists(host, Program::Nft)? {
        return Ok(RuleBackend::Nft);
    }
    if command_exists(host, Program::Iptables)? {
        return Ok(RuleBackend::Iptables);
    }
    Err(Halt::Fail(Fault { kind: FaultKind::NoBackend, detail: String::new(), rolled_back: false }))
}

/// The backend whose rules are live, found by lookups alone and without
/// regard to any recorded state.
pub fn detect_active_rule_backend(host: &mut Replay) -> (r: Result<RuleBackend, Halt>)
    ensures
        final(host).seen() == old(host).seen(),
        ran(r, final(host).pos()) == detect_active(old(host).seen(), old(host).pos()),
{
    proof {
        reveal(detect_active);
    }
    if nft_rules_active(host)? {
        return Ok(RuleBackend::Nft);
    }
    if iptables_rules_active(host)? {
        return Ok(RuleBackend::Iptables);
    }
    Ok(RuleBackend::Absent)
}

/// Looks a jump up and adds it only where it is missing.
pub fn ensure_iptables_jump(host: &mut Replay, family: Family, jump: Jump) -> (r: Result<(), Halt>)
    ensures
        final(host).seen() == old(host).seen(),
        ran(r, final(host).pos()) == ensure_jump(
            old(host).seen(),
            old(host).pos(),
            family,
            jump,
        ),
{
    if !check_cmd_success(host, FirewallOp::JumpCheck(family, jump))? {
        run_cmd(host, FirewallOp::JumpAppend(family, jump))?;
    }
    Ok(())
}

/// Puts one family's rules in place.
#[verifier::loop_isolation(false)]
pub fn configure_iptables_binary(
    host: &mut Replay,
    family: Family,
    redir_port: u16,
    optional: bool,
) -> (r: Result<(), Halt>)
    ensures
        final(host).seen() == old(host).seen(),
        ran(r, final(host).pos()) == configure_family(
            old(host).seen(),
            old(host).pos(),
            family,
            redir_port,
            optional,
        ),
{
    if !command_exists(host, family.binary())? {
        if optional {
            return Ok(());
        }
        return Err(
            Halt::Fail(
                Fault { kind: FaultKind::ToolMissing, detail: owned(family.binary().as_str()), rolled_back: false },
            ),
        );
    }
    try_cmd(host, FirewallOp::ChainNew(family))?;
    run_cmd(host, FirewallOp::ChainFlush(family))?;
    let rules = chain_rule_list(family, redir_port);
    let ghost log = host.seen();
    let ghost start = host.pos();
    let ghost ops = chain_appends(family, redir_port);
    let mut i: usize = 0;
    assert(ops.skip(0) =~= ops);
    while i < rules.len()
        invariant
            i <= rules.len(),
            rules@ == chain_rules(family, redir_port),
            ops == chain_appends(family, redir_port),
            host.seen() == log,
            must_all(log, start, ops) == must_all(log, host.pos(), ops.skip(i as int)),
        decreases rules.len() - i,
    {
        proof {
            assert(ops.skip(i as int)[0] == FirewallOp::ChainAppend(family, rules@[i as int]));
            assert(ops.skip(i as int).drop_first() =~= ops.skip(i + 1));
        }
        run_cmd(host, FirewallOp::ChainAppend(family, rules[i]))?;
        i = i + 1;
    }
    ensure_iptables_jump(host, family, Jump { hook: Hook::Prerouting, non_root_only: false })?;
    ensure_iptables_jump(host, family, Jump { hook: Hook::Output, non_root_only: true })?;
    Ok(())
}

/// Applies the iptables rules.
pub fn apply_iptables_rules(host: &mut Replay, redir_port: u16) -> (r: Result<(), Halt>)
    ensures
        final(host).seen() == old(host).seen(),
        ran(r, final(host).pos()) == apply_iptables(old(host).seen(), old(host).pos(), redir_port),
{
    if !command_exists(host, Program::Iptables)? {
        return Err(
            Halt::Fail(
                Fault { kind: FaultKind::ToolMissing, detail: owned(Program::Iptables.as_str()), rolled_back: false },
            ),
        );
    }
    configure_iptables_binary(host, Family::V4, redir_port, false)?;
    configure_iptables_binary(host, Family::V6, redir_port, true)?;
    if !iptables_rules_active(host)? {
        return Err(
            Halt::Fail(
                Fault {
                    kind: FaultKind::RulesNotVerified,
                    detail: owned(RuleBackend::Iptables.as_str()),
                    rolled_back: false,
                },
            ),
        );
    }
    Ok(())
}

/// Applies the nftables rules.
pub fn apply_nft_rules(host: &mut Replay, redir_port: u16) -> (r: Result<(), Halt>)
    ensures
        final(host).seen() == old(host).seen(),
        ran(r, final(host).pos()) == apply_nft(old(host).seen(), old(host).pos(), redir_port),
{
    if !command_exists(host, Program::Nft)? {
        return Err(
            Halt::Fail(Fault { kind: FaultKind::ToolMissing, detail: owned(Program::Nft.as_str()), rolled_back: false }),
        );
    }
    try_cmd(host, FirewallOp::NftDelete)?;
    run_cmd(host, FirewallOp::NftLoad(redir_port))?;
    if !nft_rules_active(host)? {
        return Err(
            Halt::Fail(
                Fault { kind: FaultKind::RulesNotVerified, detail: owned(RuleBackend::Nft.as_str()), rolled_back: false },
            ),
        );
    }
    Ok(())
}

/// Applies the redirect rules with `backend` and gives the backend that
/// holds them in the end.
pub fn apply_dataplane_rules(host: &mut Replay, backend: RuleBackend, redir_port: u16) -> (r:
    Result<RuleBackend, Halt>)
    ensures
        final(host).seen() == old(host).seen(),
        ran(r, final(host).pos()) == apply_rules(
            old(host).seen(),
            old(host).pos(),
            backend,
            redir_port,
        ),
{
    proof {
        reveal(apply_rules);
    }
    match backend {
        RuleBackend::Nft => match apply_nft_rules(host, redir_port) {
            Ok(()) => Ok(RuleBackend::Nft),
            Err(Halt::Need(e)) => Err(Halt::Need(e)),
            Err(Halt::Fail(nft_fault)) => {
                if command_exists(host, Program::Iptables)? {
                    match apply_iptables_rules(host, redir_port) {
                        Ok(()) => Ok(RuleBackend::Iptables),
                        Err(Halt::Need(e)) => Err(Halt::Need(e)),
                        Err(Halt::Fail(ipt_fault)) => Err(
                            merged(FaultKind::FallbackFailed, &nft_fault, &ipt_fault),
                        ),
                    }
                } else {
                    Err(Halt::Fail(nft_fault))
                }
            },
        },
        RuleBackend::Iptables => {
            apply_iptables_rules(host, redir_port)?;
            Ok(RuleBackend::Iptables)
        },
        RuleBackend::Absent => Ok(RuleBackend::Absent),
    }
}

/// Removes the copies of one jump.
#[verifier::loop_isolation(false)]
pub fn cleanup_iptables_jump(host: &mut Replay, family: Family, jump: Jump) -> (r: Result<
    (),
    Halt,
>)
    ensures
        final(host).seen() == old(host).seen(),
        ran(r, final(host).pos()) == purge_jump(
            old(host).seen(),
            old(host).pos(),
            family,
            jump,
            PURGE_ROUNDS as nat,
        ),
{
    let ghost log = host.seen();
    let ghost start = host.pos();
    let mut round: usize = 0;
    while round < PURGE_ROUNDS
        invariant
            round <= PURGE_ROUNDS,
            host.seen() == log,
            purge_jump(log, start, family, jump, PURGE_ROUNDS as nat) == purge_jump(
                log,
                host.pos(),
                family,
                jump,
                (PURGE_ROUNDS - round) as nat,
            ),
        decreases PURGE_ROUNDS - round,
    {
        if !check_cmd_success(host, FirewallOp::JumpCheck(family, jump))? {
            return Ok(());
        }
        run_cmd(host, FirewallOp::JumpDelete(family, jump))?;
        round = round + 1;
    }
    Ok(())
}

/// Removes one family's rules.
pub fn cleanup_iptables_binary(host: &mut Replay, family: Family, optional: bool) -> (r: Result<
    (),
    Halt,
>)
    ensures
        final(host).seen() == old(host).seen(),
        ran(r, final(host).pos()) == cleanup_family(
            old(host).seen(),
            old(host).pos(),
            family,
            optional,
        ),
{
    if !command_exists(host, family.binary())? {
        if optional {
            return Ok(());
        }
        return Err(
            Halt::Fail(
                Fault { kind: FaultKind::ToolMissing, detail: owned(family.binary().as_str()), rolled_back: false },
            ),
        );
    }
    cleanup_iptables_jump(host, family, Jump { hook: Hook::Prerouting, non_root_only: false })?;
    cleanup_iptables_jump(host, family, Jump { hook: Hook::Output, non_root_only: true })?;
    cleanup_iptables_jump(host, family, Jump { hook: Hook::Output, non_root_only: false })?;
    try_cmd(host, FirewallOp::ChainFlush(family))?;
    try_cmd(host, FirewallOp::ChainDelete(family))?;
    Ok(())
}

/// Removes the iptables rules of both families.
pub fn cleanup_iptables_rules(host: &mut Replay) -> (r: Result<(), Halt>)
    ensures
        final(host).seen() == old(host).seen(),
        ran(r, final(host).pos()) == cleanup_iptables(old(host).seen(), old(host).pos()),
{
    cleanup_iptables_binary(host, Family::V4, false)?;
    cleanup_iptables_binary(host, Family::V6, true)?;
    Ok(())
}

/// Deletes the nftables table if it is there.
pub fn cleanup_nft_rules(host: &mut Replay) -> (r: Result<(), Halt>)
    ensures
        final(host).seen() == old(host).seen(),
        ran(r, final(host).pos()) == cleanup_nft(old(host).seen(), old(host).pos()),
{
    if !command_exists(host, Program::Nft)? {
        return Ok(());
    }
    if nft_rules_active(host)? {
        run_cmd(host, FirewallOp::NftDelete)?;
    }
    Ok(())
}

/// Removes the rules of one backend.
pub fn cleanup_dataplane_rules(host: &mut Replay, backend: RuleBackend) -> (r: Result<(), Halt>)
    ensures
        final(host).seen() == old(host).seen(),
        ran(r, final(host).pos()) == cleanup_rules(old(host).seen(), old(host).pos(), backend),
{
    proof {
        reveal(cleanup_rules);
    }
    match backend {
        RuleBackend::Nft => cleanup_nft_rules(host),
        RuleBackend::Iptables => cleanup_iptables_rules(host),
        RuleBackend::Absent => Ok(()),
    }
}

/// Removes the rules of every backend, for the case that no backend is on
/// record. Fails only if the cleanup of both backends fails.
pub fn cleanup_dataplane_rules_all(host: &mut Replay) -> (r: Result<(), Halt>)
    ensures
        final(host).seen() == old(host).seen(),
        ran(r, final(host).pos()) == cleanup_all(old(host).seen(), old(host).pos()),
{
    proof {
        reveal(cleanup_all);
    }
    let nft = match cleanup_nft_rules(host) {
        Ok(()) => None,
        Err(Halt::Need(e)) => {
            return Err(Halt::Need(e));
        },
        Err(Halt::Fail(f)) => Some(f),
    };
    let ipt = match cleanup_iptables_rules(host) {
        Ok(()) => None,
        Err(Halt::Need(e)) => {
            return Err(Halt::Need(e));
        },
        Err(Halt::Fail(f)) => Some(f),
    };
    match (nft, ipt) {
        (Some(a), Some(b)) => Err(cleanup_failure(&a, &b)),
        _ => Ok(()),
    }
}

/// Removes the rules of every backend where a failure is only worth a
/// warning; says whether the cleanup succeeded.
pub fn cleanup_dataplane_rules_all_best_effort(host: &mut Replay) -> (r: Result<bool, Halt>)
    ensures
        final(host).seen() == old(host).seen(),
        ran(r, final(host).pos()) == cleanup_all_quietly(old(host).seen(), old(host).pos()),
{
    match cleanup_dataplane_rules_all(host) {
        Ok(()) => Ok(true),
        Err(Halt::Need(e)) => Err(Halt::Need(e)),
        Err(Halt::Fail(_)) => Ok(false),
    }
}

} // verus!
