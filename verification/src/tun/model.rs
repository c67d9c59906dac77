//! A model of the machine's firewall, and what the rule backend engine does
//! on a machine that behaves like the model: cleanup does not fail where
//! the tools are installed, and detection reports what is there.
//!
//! The model knows, for nftables, whether the tool's table exists, and for
//! each iptables family, whether the tool's chain exists, which rules it
//! holds and how many copies of each jump lead into it.

use crate::host::{
    ask, ChainRule, EffectView, ExchangeView, Family, FirewallOp, HaltView, Hook, Jump, Program,
};
use crate::tun::backend::{
    apply_iptables, apply_nft, apply_rules, chain_appends, cleanup_all, cleanup_family, cleanup_nft,
    cleanup_rules, configure_family, detect_active, ensure_jump, family_active, must, must_all,
    nft_active, output_jump, plain_output_jump, prerouting_jump, probe, purge_jump, tool_exists,
    PURGE_ROUNDS,
};
use crate::tun::rules::chain_rules;
use crate::tun::state::RuleBackend;
use vstd::prelude::*;

verus! {

/// The NAT table of one iptables family, as far as the tool is concerned.
pub ghost struct Chains {
    /// Whether the family's binary can be called.
    pub installed: bool,
    /// Whether the tool's chain exists.
    pub chain: bool,
    /// The rules of the tool's chain.
    pub rules: Seq<ChainRule>,
    /// The copies of the jump from `PREROUTING`.
    pub prerouting: nat,
    /// The copies of the jump from `OUTPUT` for traffic that root does not
    /// own.
    pub output_guarded: nat,
    /// The copies of an unconditional jump from `OUTPUT`.
    pub output_plain: nat,
}

/// The firewall of a machine.
pub ghost struct Firewall {
    /// Whether `nft` can be called.
    pub nft: bool,
    /// Whether the tool's nftables table exists.
    pub table: bool,
    pub v4: Chains,
    pub v6: Chains,
}

impl Chains {
    /// The copies of a jump.
    pub open spec fn copies(self, jump: Jump) -> nat {
        match jump.hook {
            Hook::Prerouting => if jump.non_root_only {
                0
            } else {
                self.prerouting
            },
            Hook::Output => if jump.non_root_only {
                self.output_guarded
            } else {
                self.output_plain
            },
        }
    }

    /// The table with `n` copies of a jump.
    pub open spec fn with_copies(self, jump: Jump, n: nat) -> Chains {
        match jump.hook {
            Hook::Prerouting => if jump.non_root_only {
                self
            } else {
                Chains { prerouting: n, ..self }
            },
            Hook::Output => if jump.non_root_only {
                Chains { output_guarded: n, ..self }
            } else {
                Chains { output_plain: n, ..self }
            },
        }
    }

    /// Whether a jump that `apply` adds leads into the tool's chain.
    pub open spec fn live(self) -> bool {
        self.installed && (self.prerouting > 0 || self.output_guarded > 0)
    }
}

impl Firewall {
    pub open spec fn family(self, family: Family) -> Chains {
        match family {
            Family::V4 => self.v4,
            Family::V6 => self.v6,
        }
    }

    pub open spec fn with_family(self, family: Family, chains: Chains) -> Firewall {
        match family {
            Family::V4 => Firewall { v4: chains, ..self },
            Family::V6 => Firewall { v6: chains, ..self },
        }
    }

    /// Whether a firewall tool can be called.
    pub open spec fn has(self, program: Program) -> bool {
        match program {
            Program::Nft => self.nft,
            Program::Iptables => self.v4.installed,
            Program::Ip6tables => self.v6.installed,
            _ => false,
        }
    }

    /// Whether a firewall call succeeds. Loading the nftables script may
    /// succeed or fail where `nft` is installed; every other call is
    /// decided by what is there.
    pub open spec fn succeeds(self, op: FirewallOp, ok: bool) -> bool {
        match op {
            FirewallOp::NftList => ok == (self.nft && self.table),
            FirewallOp::NftDelete => ok == (self.nft && self.table),
            FirewallOp::NftLoad(_) => ok ==> self.nft,
            FirewallOp::ChainNew(f) => ok == (self.family(f).installed && !self.family(f).chain),
            FirewallOp::ChainFlush(f) => ok == (self.family(f).installed && self.family(f).chain),
            FirewallOp::ChainDelete(f) => ok == (self.family(f).installed && self.family(f).chain
                && self.family(f).rules.len() == 0 && self.family(f).prerouting == 0
                && self.family(f).output_guarded == 0 && self.family(f).output_plain == 0),
            FirewallOp::ChainAppend(f, _) => ok == (self.family(f).installed && self.family(
                f,
            ).chain),
            FirewallOp::JumpCheck(f, j) => ok == (self.family(f).installed && self.family(
                f,
            ).copies(j) > 0),
            FirewallOp::JumpAppend(f, _) => ok == (self.family(f).installed && self.family(
                f,
            ).chain),
            FirewallOp::JumpDelete(f, j) => ok == (self.family(f).installed && self.family(
                f,
            ).copies(j) > 0),
        }
    }

    /// Whether a reply is what this firewall answers to an effect. Effects
    /// that do not concern the firewall may be answered in any way.
    pub open spec fn answers(self, effect: EffectView, ok: bool) -> bool {
        match effect {
            EffectView::Tool(program, _) => (program == Program::Nft || program
                == Program::Iptables || program == Program::Ip6tables) ==> ok == self.has(program),
            EffectView::Firewall(op) => self.succeeds(op, ok),
            _ => true,
        }
    }

    /// The firewall after a call that succeeded.
    pub open spec fn changed(self, op: FirewallOp) -> Firewall {
        match op {
            FirewallOp::NftList => self,
            FirewallOp::NftDelete => Firewall { table: false, ..self },
            FirewallOp::NftLoad(_) => Firewall { table: true, ..self },
            FirewallOp::ChainNew(f) => self.with_family(
                f,
                Chains { chain: true, rules: Seq::empty(), ..self.family(f) },
            ),
            FirewallOp::ChainFlush(f) => self.with_family(
                f,
                Chains { rules: Seq::empty(), ..self.family(f) },
            ),
            FirewallOp::ChainDelete(f) => self.with_family(
                f,
                Chains { chain: false, ..self.family(f) },
            ),
            FirewallOp::ChainAppend(f, rule) => self.with_family(
                f,
                Chains { rules: self.family(f).rules.push(rule), ..self.family(f) },
            ),
            FirewallOp::JumpCheck(_, _) => self,
            FirewallOp::JumpAppend(f, j) => self.with_family(
                f,
                self.family(f).with_copies(j, self.family(f).copies(j) + 1),
            ),
            FirewallOp::JumpDelete(f, j) => self.with_family(
                f,
                self.family(f).with_copies(j, (self.family(f).copies(j) - 1) as nat),
            ),
        }
    }

    /// The firewall after an effect with its reply: only a firewall call
    /// that succeeded changes it.
    pub open spec fn after(self, effect: EffectView, ok: bool) -> Firewall {
        match effect {
            EffectView::Firewall(op) => if ok {
                self.changed(op)
            } else {
                self
            },
            _ => self,
        }
    }

    /// The backend whose rules are there.
    pub open spec fn active(self) -> RuleBackend {
        if self.nft && self.table {
            RuleBackend::Nft
        } else if self.v4.live() || self.v6.live() {
            RuleBackend::Iptables
        } else {
            RuleBackend::Absent
        }
    }
}

/// The firewall when the exchange at `k` begins, `start` being the firewall
/// at `base`.
pub open spec fn state_at(start: Firewall, log: Seq<ExchangeView>, base: int, k: int) -> Firewall
    decreases k - base,
{
    if k <= base {
        start
    } else {
        state_at(start, log, base, k - 1).after(log[k - 1].effect, log[k - 1].reply.ok)
    }
}

/// From `base` on, every reply of the record is what the firewall answers
/// when the exchange begins.
pub open spec fn consistent(start: Firewall, log: Seq<ExchangeView>, base: int) -> bool {
    forall|k: int|
        base <= k < log.len() ==> (#[trigger] state_at(start, log, base, k)).answers(
            log[k].effect,
            log[k].reply.ok,
        )
}

/// No exchange installs or removes a tool.
pub proof fn lemma_tools_stay(start: Firewall, log: Seq<ExchangeView>, base: int, k: int)
    ensures
        state_at(start, log, base, k).nft == start.nft,
        state_at(start, log, base, k).v4.installed == start.v4.installed,
        state_at(start, log, base, k).v6.installed == start.v6.installed,
    decreases k - base,
{
    if k > base {
        lemma_tools_stay(start, log, base, k - 1);
    }
}

/// What one effect comes to on a consistent record: a reply that the
/// firewall gives, and the firewall after it.
pub proof fn lemma_ask(
    start: Firewall,
    log: Seq<ExchangeView>,
    base: int,
    at: int,
    effect: EffectView,
)
    requires
        consistent(start, log, base),
        base <= at,
    ensures
        !(ask(log, at, effect).out is Err && ask(log, at, effect).out->Err_0 is Fail),
        ask(log, at, effect).out is Ok ==> ask(log, at, effect).at == at + 1 && state_at(
            start,
            log,
            base,
            at,
        ).answers(effect, ask(log, at, effect).out->Ok_0.ok) && state_at(start, log, base, at + 1)
            == state_at(start, log, base, at).after(effect, ask(log, at, effect).out->Ok_0.ok),
{
    if ask(log, at, effect).out is Ok {
        assert(state_at(start, log, base, at).answers(log[at].effect, log[at].reply.ok));
    }
}

/// On a consistent record a firewall tool is found exactly where it is
/// installed, and looking for it changes nothing.
pub proof fn lemma_tool_exists(
    start: Firewall,
    log: Seq<ExchangeView>,
    base: int,
    at: int,
    program: Program,
)
    requires
        consistent(start, log, base),
        base <= at,
        program == Program::Nft || program == Program::Iptables || program == Program::Ip6tables,
    ensures
        !(tool_exists(log, at, program).out is Err && tool_exists(log, at, program).out->Err_0
            is Fail),
        tool_exists(log, at, program).out is Ok ==> tool_exists(log, at, program).out->Ok_0
            == start.has(program) && tool_exists(log, at, program).at >= at && state_at(
            start,
            log,
            base,
            tool_exists(log, at, program).at,
        ) == state_at(start, log, base, at),
{
    lemma_ask(start, log, base, at, EffectView::Tool(program, true));
    lemma_ask(start, log, base, at + 1, EffectView::Tool(program, false));
    lemma_tools_stay(start, log, base, at);
    lemma_tools_stay(start, log, base, at + 1);
}

/// On a consistent record the copies of a jump are removed without a
/// failure where the family's binary is installed.
pub proof fn lemma_purge(
    start: Firewall,
    log: Seq<ExchangeView>,
    base: int,
    at: int,
    family: Family,
    jump: Jump,
    rounds: nat,
)
    requires
        consistent(start, log, base),
        base <= at,
    ensures
        !(purge_jump(log, at, family, jump, rounds).out is Err && purge_jump(
            log,
            at,
            family,
            jump,
            rounds,
        ).out->Err_0 is Fail),
        purge_jump(log, at, family, jump, rounds).at >= at,
    decreases rounds,
{
    if rounds > 0 {
        lemma_ask(start, log, base, at, EffectView::Firewall(FirewallOp::JumpCheck(family, jump)));
        let found = probe(log, at, FirewallOp::JumpCheck(family, jump));
        if found.out == Ok::<bool, HaltView>(true) {
            lemma_ask(
                start,
                log,
                base,
                at + 1,
                EffectView::Firewall(FirewallOp::JumpDelete(family, jump)),
            );
            let gone = must(log, at + 1, FirewallOp::JumpDelete(family, jump));
            if gone.out is Ok {
                lemma_purge(start, log, base, at + 2, family, jump, (rounds - 1) as nat);
            }
        }
    }
}

/// On a consistent record the cleanup of one family fails only where its
/// binary is missing and the family is required.
pub proof fn lemma_cleanup_family(
    start: Firewall,
    log: Seq<ExchangeView>,
    base: int,
    at: int,
    family: Family,
    optional: bool,
)
    requires
        consistent(start, log, base),
        base <= at,
    ensures
        (optional || start.family(family).installed) ==> !(cleanup_family(
            log,
            at,
            family,
            optional,
        ).out is Err && cleanup_family(log, at, family, optional).out->Err_0 is Fail),
        (cleanup_family(log, at, family, optional).out is Ok && !optional) ==> start.family(
            family,
        ).installed,
        cleanup_family(log, at, family, optional).at >= at,
{
    lemma_tool_exists(start, log, base, at, family.program());
    let t = tool_exists(log, at, family.program());
    if t.out == Ok::<bool, HaltView>(true) {
        let rounds = PURGE_ROUNDS as nat;
        lemma_purge(start, log, base, t.at, family, prerouting_jump(), rounds);
        let a = purge_jump(log, t.at, family, prerouting_jump(), rounds);
        if a.out is Ok {
            lemma_purge(start, log, base, a.at, family, output_jump(), rounds);
            let b = purge_jump(log, a.at, family, output_jump(), rounds);
            if b.out is Ok {
                lemma_purge(start, log, base, b.at, family, plain_output_jump(), rounds);
                let c = purge_jump(log, b.at, family, plain_output_jump(), rounds);
                if c.out is Ok {
                    lemma_ask(
                        start,
                        log,
                        base,
                        c.at,
                        EffectView::Firewall(FirewallOp::ChainFlush(family)),
                    );
                    lemma_ask(
                        start,
                        log,
                        base,
                        c.at + 1,
                        EffectView::Firewall(FirewallOp::ChainDelete(family)),
                    );
                }
            }
        }
    }
}

/// On a consistent record the cleanup of nftables never fails, and where it
/// ends the table is gone if `nft` is installed.
pub proof fn lemma_cleanup_nft(start: Firewall, log: Seq<ExchangeView>, base: int, at: int)
    requires
        consistent(start, log, base),
        base <= at,
    ensures
        !(cleanup_nft(log, at).out is Err && cleanup_nft(log, at).out->Err_0 is Fail),
        cleanup_nft(log, at).at >= at,
        cleanup_nft(log, at).out is Ok && start.nft ==> !state_at(
            start,
            log,
            base,
            cleanup_nft(log, at).at,
        ).table,
{
    lemma_tool_exists(start, log, base, at, Program::Nft);
    let t = tool_exists(log, at, Program::Nft);
    if t.out == Ok::<bool, HaltView>(true) {
        lemma_tool_exists(start, log, base, t.at, Program::Nft);
        let u = tool_exists(log, t.at, Program::Nft);
        if u.out == Ok::<bool, HaltView>(true) {
            lemma_ask(start, log, base, u.at, EffectView::Firewall(FirewallOp::NftList));
            lemma_ask(start, log, base, u.at + 1, EffectView::Firewall(FirewallOp::NftDelete));
            let listed = probe(log, u.at, FirewallOp::NftList);
            if listed.out == Ok::<bool, HaltView>(true) {
                let gone = must(log, u.at + 1, FirewallOp::NftDelete);
                if gone.out is Ok {
                    assert(cleanup_nft(log, at).at == u.at + 2);
                    assert(!state_at(start, log, base, u.at + 2).table);
                }
            } else if listed.out == Ok::<bool, HaltView>(false) {
                assert(cleanup_nft(log, at).at == u.at + 1);
                lemma_tools_stay(start, log, base, u.at);
                assert(!state_at(start, log, base, u.at).table);
                assert(!state_at(start, log, base, u.at + 1).table);
            }
        }
    }
}

/// The copies of a jump that are left when up to `rounds` were deleted.
pub open spec fn left_over(copies: nat, rounds: nat) -> nat {
    if copies <= rounds {
        0
    } else {
        (copies - rounds) as nat
    }
}

/// Whether a jump is one of the three that lead into the tool's chain.
pub open spec fn is_tool_jump(jump: Jump) -> bool {
    jump == prerouting_jump() || jump == output_jump() || jump == plain_output_jump()
}

impl Chains {
    /// Whether nothing of the tool's is there: no jump and no chain.
    pub open spec fn bare(self) -> bool {
        self.prerouting == 0 && self.output_guarded == 0 && self.output_plain == 0 && !self.chain
    }

    /// Whether one cleanup reaches every jump: none has more copies than a
    /// cleanup deletes.
    pub open spec fn within_reach(self) -> bool {
        self.prerouting <= PURGE_ROUNDS && self.output_guarded <= PURGE_ROUNDS
            && self.output_plain <= PURGE_ROUNDS
    }
}

/// Removing the copies of a jump deletes up to `rounds` of them and changes
/// nothing else.
pub proof fn lemma_purge_state(
    start: Firewall,
    log: Seq<ExchangeView>,
    base: int,
    at: int,
    family: Family,
    jump: Jump,
    rounds: nat,
)
    requires
        consistent(start, log, base),
        base <= at,
        is_tool_jump(jump),
        start.family(family).installed,
        purge_jump(log, at, family, jump, rounds).out is Ok,
    ensures
        purge_jump(log, at, family, jump, rounds).at >= at,
        state_at(start, log, base, purge_jump(log, at, family, jump, rounds).at) == state_at(
            start,
            log,
            base,
            at,
        ).with_family(
            family,
            state_at(start, log, base, at).family(family).with_copies(
                jump,
                left_over(state_at(start, log, base, at).family(family).copies(jump), rounds),
            ),
        ),
    decreases rounds,
{
    let before = state_at(start, log, base, at);
    let chains = before.family(family);
    lemma_tools_stay(start, log, base, at);
    assert(before.with_family(family, chains.with_copies(jump, chains.copies(jump))) == before);
    if rounds > 0 {
        lemma_ask(start, log, base, at, EffectView::Firewall(FirewallOp::JumpCheck(family, jump)));
        let found = probe(log, at, FirewallOp::JumpCheck(family, jump));
        assert(state_at(start, log, base, at + 1) == before);
        if found.out == Ok::<bool, HaltView>(true) {
            lemma_ask(
                start,
                log,
                base,
                at + 1,
                EffectView::Firewall(FirewallOp::JumpDelete(family, jump)),
            );
            let next = state_at(start, log, base, at + 2);
            assert(next == before.with_family(
                family,
                chains.with_copies(jump, (chains.copies(jump) - 1) as nat),
            ));
            lemma_purge_state(start, log, base, at + 2, family, jump, (rounds - 1) as nat);
            assert(next.family(family).copies(jump) == chains.copies(jump) - 1);
            assert(next.with_family(
                family,
                next.family(family).with_copies(
                    jump,
                    left_over(next.family(family).copies(jump), (rounds - 1) as nat),
                ),
            ) == before.with_family(
                family,
                chains.with_copies(jump, left_over(chains.copies(jump), rounds)),
            ));
        }
    }
}

/// What the cleanup of one family leaves. Where no jump has more copies
/// than a cleanup deletes, nothing of the tool's is left in the family;
/// where nothing was there, nothing has changed; the other family and the
/// nftables table are as they were.
pub proof fn lemma_cleanup_family_state(
    start: Firewall,
    log: Seq<ExchangeView>,
    base: int,
    at: int,
    family: Family,
    optional: bool,
)
    requires
        consistent(start, log, base),
        base <= at,
        cleanup_family(log, at, family, optional).out is Ok,
    ensures
        cleanup_family(log, at, family, optional).at >= at,
        state_at(start, log, base, cleanup_family(log, at, family, optional).at) == state_at(
            start,
            log,
            base,
            at,
        ).with_family(
            family,
            state_at(start, log, base, cleanup_family(log, at, family, optional).at).family(
                family,
            ),
        ),
        !start.family(family).installed || state_at(start, log, base, at).family(family).bare()
            ==> state_at(start, log, base, cleanup_family(log, at, family, optional).at)
            == state_at(start, log, base, at),
        start.family(family).installed && state_at(start, log, base, at).family(
            family,
        ).within_reach() ==> state_at(
            start,
            log,
            base,
            cleanup_family(log, at, family, optional).at,
        ).family(family).bare(),
{
    let before = state_at(start, log, base, at);
    lemma_tool_exists(start, log, base, at, family.program());
    lemma_tools_stay(start, log, base, at);
    let t = tool_exists(log, at, family.program());
    assert(before.with_family(family, before.family(family)) == before);
    if t.out == Ok::<bool, HaltView>(true) {
        let rounds = PURGE_ROUNDS as nat;
        lemma_purge_state(start, log, base, t.at, family, prerouting_jump(), rounds);
        let a = purge_jump(log, t.at, family, prerouting_jump(), rounds);
        let sa = state_at(start, log, base, a.at);
        lemma_purge_state(start, log, base, a.at, family, output_jump(), rounds);
        let b = purge_jump(log, a.at, family, output_jump(), rounds);
        let sb = state_at(start, log, base, b.at);
        lemma_purge_state(start, log, base, b.at, family, plain_output_jump(), rounds);
        let c = purge_jump(log, b.at, family, plain_output_jump(), rounds);
        let sc = state_at(start, log, base, c.at);
        assert(sa == before.with_family(family, sa.family(family)));
        assert(sb == before.with_family(family, sb.family(family)));
        assert(sc == before.with_family(family, sc.family(family)));
        lemma_ask(start, log, base, c.at, EffectView::Firewall(FirewallOp::ChainFlush(family)));
        let sd = state_at(start, log, base, c.at + 1);
        assert(sd == before.with_family(family, sd.family(family)));
        lemma_ask(start, log, base, c.at + 1, EffectView::Firewall(FirewallOp::ChainDelete(family)));
        let se = state_at(start, log, base, c.at + 2);
        assert(se == before.with_family(family, se.family(family)));
        if before.family(family).bare() {
            assert(sc == before);
            assert(sd == before);
            assert(se == before);
        }
        if before.family(family).within_reach() {
            assert(sc.family(family).prerouting == 0);
            assert(sc.family(family).output_guarded == 0);
            assert(sc.family(family).output_plain == 0);
            if sc.family(family).chain {
                assert(sd.family(family).rules =~= Seq::<ChainRule>::empty());
            }
        }
    }
}

/// A cleanup of nftables that finds no table changes nothing.
pub proof fn lemma_cleanup_nft_nothing(
    start: Firewall,
    log: Seq<ExchangeView>,
    base: int,
    at: int,
)
    requires
        consistent(start, log, base),
        base <= at,
        cleanup_nft(log, at).out is Ok,
        !(start.nft && state_at(start, log, base, at).table),
    ensures
        state_at(start, log, base, cleanup_nft(log, at).at) == state_at(start, log, base, at),
{
    lemma_tools_stay(start, log, base, at);
    lemma_tool_exists(start, log, base, at, Program::Nft);
    let t = tool_exists(log, at, Program::Nft);
    if t.out == Ok::<bool, HaltView>(true) {
        lemma_tool_exists(start, log, base, t.at, Program::Nft);
        let u = tool_exists(log, t.at, Program::Nft);
        lemma_ask(start, log, base, u.at, EffectView::Firewall(FirewallOp::NftList));
    }
}

/// A repeated cleanup changes nothing. Where the cleanup of a backend
/// succeeded and is made once more, the firewall after the second is the
/// firewall after the first, so detection finds the same before and after
/// it. For iptables this holds where the first cleanup could reach every
/// jump: a cleanup deletes up to eight copies of each, and copies beyond
/// that are left for the next.
pub proof fn lemma_cleanup_again_changes_nothing(
    start: Firewall,
    log: Seq<ExchangeView>,
    base: int,
    at: int,
    backend: RuleBackend,
)
    requires
        consistent(start, log, base),
        base <= at,
        cleanup_rules(log, at, backend).out is Ok,
        cleanup_rules(log, cleanup_rules(log, at, backend).at, backend).out is Ok,
        backend == RuleBackend::Iptables ==> state_at(start, log, base, at).v4.within_reach()
            && state_at(start, log, base, at).v6.within_reach(),
    ensures
        state_at(
            start,
            log,
            base,
            cleanup_rules(log, cleanup_rules(log, at, backend).at, backend).at,
        ) == state_at(start, log, base, cleanup_rules(log, at, backend).at),
        state_at(
            start,
            log,
            base,
            cleanup_rules(log, cleanup_rules(log, at, backend).at, backend).at,
        ).active() == state_at(start, log, base, cleanup_rules(log, at, backend).at).active(),
{
    reveal(cleanup_rules);
    match backend {
        RuleBackend::Nft => {
            lemma_cleanup_nft(start, log, base, at);
            let first = cleanup_nft(log, at);
            lemma_cleanup_nft_nothing(start, log, base, first.at);
        },
        RuleBackend::Iptables => {
            lemma_cleanup_family_state(start, log, base, at, Family::V4, false);
            let a = cleanup_family(log, at, Family::V4, false);
            lemma_cleanup_family_state(start, log, base, a.at, Family::V6, true);
            let b = cleanup_family(log, a.at, Family::V6, true);
            lemma_cleanup_family_state(start, log, base, b.at, Family::V4, false);
            let c = cleanup_family(log, b.at, Family::V4, false);
            lemma_cleanup_family_state(start, log, base, c.at, Family::V6, true);
        },
        RuleBackend::Absent => {},
    }
}

/// On a consistent record the cleanup of a backend fails only where that
/// backend is iptables and `iptables` is not installed.
pub proof fn lemma_cleanup_rules(
    start: Firewall,
    log: Seq<ExchangeView>,
    base: int,
    at: int,
    backend: RuleBackend,
)
    requires
        consistent(start, log, base),
        base <= at,
    ensures
        (backend == RuleBackend::Iptables ==> start.v4.installed) ==> !(cleanup_rules(
            log,
            at,
            backend,
        ).out is Err && cleanup_rules(log, at, backend).out->Err_0 is Fail),
        (cleanup_rules(log, at, backend).out is Ok && backend == RuleBackend::Iptables)
            ==> start.v4.installed,
        cleanup_rules(log, at, backend).at >= at,
{
    reveal(cleanup_rules);
    match backend {
        RuleBackend::Nft => {
            lemma_cleanup_nft(start, log, base, at);
        },
        RuleBackend::Iptables => {
            lemma_cleanup_family(start, log, base, at, Family::V4, false);
            let a = cleanup_family(log, at, Family::V4, false);
            if a.out is Ok {
                lemma_cleanup_family(start, log, base, a.at, Family::V6, true);
            }
        },
        RuleBackend::Absent => {},
    }
}

/// Cleanup can be repeated: on a machine that behaves like the model, a
/// cleanup that follows a cleanup of the same backend that succeeded does
/// not fail.
pub proof fn lemma_cleanup_twice(
    start: Firewall,
    log: Seq<ExchangeView>,
    base: int,
    at: int,
    backend: RuleBackend,
)
    requires
        consistent(start, log, base),
        base <= at,
        cleanup_rules(log, at, backend).out is Ok,
    ensures
        !(cleanup_rules(log, cleanup_rules(log, at, backend).at, backend).out is Err
            && cleanup_rules(log, cleanup_rules(log, at, backend).at, backend).out->Err_0
            is Fail),
{
    reveal(cleanup_rules);
    lemma_cleanup_rules(start, log, base, at, backend);
    lemma_cleanup_rules(start, log, base, cleanup_rules(log, at, backend).at, backend);
}

/// The cleanup of every backend never fails on a machine that behaves like
/// the model: the nftables part cannot fail, and one part that succeeds is
/// enough.
pub proof fn lemma_cleanup_all(start: Firewall, log: Seq<ExchangeView>, base: int, at: int)
    requires
        consistent(start, log, base),
        base <= at,
    ensures
        !(cleanup_all(log, at).out is Err && cleanup_all(log, at).out->Err_0 is Fail),
{
    reveal(cleanup_all);
    lemma_cleanup_nft(start, log, base, at);
}

/// On a consistent record, whether one family's jumps are found is whether
/// they are there, and looking changes nothing.
pub proof fn lemma_family_active(
    start: Firewall,
    log: Seq<ExchangeView>,
    base: int,
    at: int,
    family: Family,
)
    requires
        consistent(start, log, base),
        base <= at,
    ensures
        !(family_active(log, at, family).out is Err && family_active(log, at, family).out->Err_0
            is Fail),
        family_active(log, at, family).out is Ok ==> family_active(log, at, family).out->Ok_0
            == state_at(start, log, base, at).family(family).live() && family_active(
            log,
            at,
            family,
        ).at >= at && state_at(start, log, base, family_active(log, at, family).at) == state_at(
            start,
            log,
            base,
            at,
        ),
{
    lemma_tool_exists(start, log, base, at, family.program());
    lemma_tools_stay(start, log, base, at);
    let t = tool_exists(log, at, family.program());
    if t.out == Ok::<bool, HaltView>(true) {
        lemma_ask(
            start,
            log,
            base,
            t.at,
            EffectView::Firewall(FirewallOp::JumpCheck(family, prerouting_jump())),
        );
        lemma_ask(
            start,
            log,
            base,
            t.at + 1,
            EffectView::Firewall(FirewallOp::JumpCheck(family, output_jump())),
        );
    }
}

/// Detection reports what is there: on a machine that behaves like the
/// model, the backend that detection finds is the one whose rules exist,
/// whatever was recorded about earlier operations, and detection changes
/// nothing.
pub proof fn lemma_detect(start: Firewall, log: Seq<ExchangeView>, base: int, at: int)
    requires
        consistent(start, log, base),
        base <= at,
    ensures
        !(detect_active(log, at).out is Err && detect_active(log, at).out->Err_0 is Fail),
        detect_active(log, at).out is Ok ==> detect_active(log, at).out->Ok_0 == state_at(
            start,
            log,
            base,
            at,
        ).active() && state_at(start, log, base, detect_active(log, at).at) == state_at(
            start,
            log,
            base,
            at,
        ),
{
    reveal(detect_active);
    lemma_tools_stay(start, log, base, at);
    lemma_tool_exists(start, log, base, at, Program::Nft);
    let t = tool_exists(log, at, Program::Nft);
    if t.out is Ok {
        if t.out->Ok_0 {
            lemma_ask(start, log, base, t.at, EffectView::Firewall(FirewallOp::NftList));
        }
        let n = nft_active(log, at);
        if n.out == Ok::<bool, HaltView>(false) {
            lemma_family_active(start, log, base, n.at, Family::V4);
            let a = family_active(log, n.at, Family::V4);
            if a.out is Ok {
                lemma_family_active(start, log, base, a.at, Family::V6);
            }
        }
    }
}

/// Where applying the nftables rules succeeds, the table is there.
pub proof fn lemma_apply_nft(
    start: Firewall,
    log: Seq<ExchangeView>,
    base: int,
    at: int,
    redir_port: u16,
)
    requires
        consistent(start, log, base),
        base <= at,
        apply_nft(log, at, redir_port).out is Ok,
    ensures
        apply_nft(log, at, redir_port).at >= at,
        state_at(start, log, base, apply_nft(log, at, redir_port).at).nft,
        state_at(start, log, base, apply_nft(log, at, redir_port).at).table,
{
    lemma_tool_exists(start, log, base, at, Program::Nft);
    let t = tool_exists(log, at, Program::Nft);
    lemma_ask(start, log, base, t.at, EffectView::Firewall(FirewallOp::NftDelete));
    lemma_ask(start, log, base, t.at + 1, EffectView::Firewall(FirewallOp::NftLoad(redir_port)));
    lemma_tool_exists(start, log, base, t.at + 2, Program::Nft);
    let u = tool_exists(log, t.at + 2, Program::Nft);
    lemma_ask(start, log, base, u.at, EffectView::Firewall(FirewallOp::NftList));
    lemma_tools_stay(start, log, base, u.at + 1);
}

/// Where appends in a row succeed, the chain holds what it held followed
/// by the appended rules, and nothing else has changed.
pub proof fn lemma_fill(
    start: Firewall,
    log: Seq<ExchangeView>,
    base: int,
    at: int,
    family: Family,
    rules: Seq<ChainRule>,
    ops: Seq<FirewallOp>,
)
    requires
        consistent(start, log, base),
        base <= at,
        ops.len() == rules.len(),
        forall|i: int| 0 <= i < ops.len() ==> ops[i] == FirewallOp::ChainAppend(family, rules[i]),
        must_all(log, at, ops).out is Ok,
    ensures
        must_all(log, at, ops).at >= at,
        state_at(start, log, base, must_all(log, at, ops).at) == state_at(
            start,
            log,
            base,
            at,
        ).with_family(
            family,
            Chains {
                rules: state_at(start, log, base, at).family(family).rules + rules,
                ..state_at(start, log, base, at).family(family)
            },
        ),
    decreases ops.len(),
{
    let before = state_at(start, log, base, at);
    if ops.len() == 0 {
        assert(before.family(family).rules + rules =~= before.family(family).rules);
        assert(before.with_family(family, before.family(family)) == before);
    } else {
        lemma_ask(start, log, base, at, EffectView::Firewall(ops[0]));
        let next = state_at(start, log, base, at + 1);
        assert(next == before.changed(ops[0]));
        let rest = rules.drop_first();
        let more = ops.drop_first();
        assert forall|i: int| 0 <= i < more.len() implies more[i] == FirewallOp::ChainAppend(
            family,
            rest[i],
        ) by {
            assert(more[i] == ops[i + 1]);
            assert(rest[i] == rules[i + 1]);
        }
        lemma_fill(start, log, base, at + 1, family, rest, more);
        assert(before.family(family).rules.push(rules[0]) + rest =~= before.family(family).rules
            + rules);
        assert(next.family(family).rules == before.family(family).rules.push(rules[0]));
    }
}

/// Where a jump is ensured, at least one copy of it is there afterwards,
/// and only the number of its copies may have changed.
pub proof fn lemma_ensure_jump(
    start: Firewall,
    log: Seq<ExchangeView>,
    base: int,
    at: int,
    family: Family,
    jump: Jump,
)
    requires
        consistent(start, log, base),
        base <= at,
        jump == prerouting_jump() || jump == output_jump(),
        ensure_jump(log, at, family, jump).out is Ok,
    ensures
        ensure_jump(log, at, family, jump).at >= at,
        state_at(start, log, base, ensure_jump(log, at, family, jump).at).family(family).copies(
            jump,
        ) > 0,
        state_at(start, log, base, ensure_jump(log, at, family, jump).at) == state_at(
            start,
            log,
            base,
            at,
        ).with_family(
            family,
            state_at(start, log, base, at).family(family).with_copies(
                jump,
                state_at(start, log, base, ensure_jump(log, at, family, jump).at).family(
                    family,
                ).copies(jump),
            ),
        ),
{
    let before = state_at(start, log, base, at);
    lemma_ask(start, log, base, at, EffectView::Firewall(FirewallOp::JumpCheck(family, jump)));
    let found = probe(log, at, FirewallOp::JumpCheck(family, jump));
    assert(state_at(start, log, base, at + 1) == before);
    if found.out == Ok::<bool, HaltView>(true) {
        assert(before.with_family(
            family,
            before.family(family).with_copies(jump, before.family(family).copies(jump)),
        ) == before);
    } else {
        lemma_ask(
            start,
            log,
            base,
            at + 1,
            EffectView::Firewall(FirewallOp::JumpAppend(family, jump)),
        );
    }
}

/// Where one family's rules are put in place and the family's binary is
/// installed, the tool's chain exists and holds exactly the rules that were
/// asked for, both jumps lead into it, and nothing else has changed. Where
/// the binary is missing (the family being optional), nothing has changed.
pub proof fn lemma_configure_family(
    start: Firewall,
    log: Seq<ExchangeView>,
    base: int,
    at: int,
    family: Family,
    redir_port: u16,
    optional: bool,
)
    requires
        consistent(start, log, base),
        base <= at,
        configure_family(log, at, family, redir_port, optional).out is Ok,
    ensures
        configure_family(log, at, family, redir_port, optional).at >= at,
        !optional ==> start.family(family).installed,
        start.family(family).installed ==> state_at(
            start,
            log,
            base,
            configure_family(log, at, family, redir_port, optional).at,
        ) == state_at(start, log, base, at).with_family(
            family,
            state_at(
                start,
                log,
                base,
                configure_family(log, at, family, redir_port, optional).at,
            ).family(family),
        ) && state_at(
            start,
            log,
            base,
            configure_family(log, at, family, redir_port, optional).at,
        ).family(family).chain && state_at(
            start,
            log,
            base,
            configure_family(log, at, family, redir_port, optional).at,
        ).family(family).rules == chain_rules(family, redir_port) && state_at(
            start,
            log,
            base,
            configure_family(log, at, family, redir_port, optional).at,
        ).family(family).live(),
        !start.family(family).installed ==> state_at(
            start,
            log,
            base,
            configure_family(log, at, family, redir_port, optional).at,
        ) == state_at(start, log, base, at),
{
    let before = state_at(start, log, base, at);
    lemma_tool_exists(start, log, base, at, family.program());
    lemma_tools_stay(start, log, base, at);
    let t = tool_exists(log, at, family.program());
    if t.out == Ok::<bool, HaltView>(true) {
        lemma_ask(start, log, base, t.at, EffectView::Firewall(FirewallOp::ChainNew(family)));
        lemma_ask(start, log, base, t.at + 1, EffectView::Firewall(FirewallOp::ChainFlush(family)));
        let flushed = state_at(start, log, base, t.at + 2);
        assert(flushed.family(family).rules =~= Seq::<ChainRule>::empty());
        assert(flushed == before.with_family(family, flushed.family(family)));
        let rules = chain_rules(family, redir_port);
        let ops = chain_appends(family, redir_port);
        lemma_fill(start, log, base, t.at + 2, family, rules, ops);
        let filled_at = must_all(log, t.at + 2, ops).at;
        let filled = state_at(start, log, base, filled_at);
        assert(flushed.family(family).rules + rules =~= rules);
        assert(filled.family(family).rules == rules);
        assert(filled == before.with_family(family, filled.family(family)));
        lemma_ensure_jump(start, log, base, filled_at, family, prerouting_jump());
        let first_at = ensure_jump(log, filled_at, family, prerouting_jump()).at;
        let first = state_at(start, log, base, first_at);
        assert(first == before.with_family(family, first.family(family)));
        lemma_ensure_jump(start, log, base, first_at, family, output_jump());
        let second_at = ensure_jump(log, first_at, family, output_jump()).at;
        let second = state_at(start, log, base, second_at);
        assert(second == before.with_family(family, second.family(family)));
        assert(second.family(family).prerouting > 0);
        lemma_tools_stay(start, log, base, second_at);
    }
}

/// After the iptables rules were applied, the chain of IPv4 holds exactly
/// the rules for the redirect port and a jump leads into it; so does the
/// chain of IPv6 where `ip6tables` is installed; the nftables table is as
/// it was.
pub proof fn lemma_apply_iptables(
    start: Firewall,
    log: Seq<ExchangeView>,
    base: int,
    at: int,
    redir_port: u16,
)
    requires
        consistent(start, log, base),
        base <= at,
        apply_iptables(log, at, redir_port).out is Ok,
    ensures
        apply_iptables(log, at, redir_port).at >= at,
        state_at(start, log, base, apply_iptables(log, at, redir_port).at).v4.live(),
        state_at(start, log, base, apply_iptables(log, at, redir_port).at).v4.rules == chain_rules(
            Family::V4,
            redir_port,
        ),
        start.v6.installed ==> state_at(
            start,
            log,
            base,
            apply_iptables(log, at, redir_port).at,
        ).v6.live() && state_at(start, log, base, apply_iptables(log, at, redir_port).at).v6.rules
            == chain_rules(Family::V6, redir_port),
        state_at(start, log, base, apply_iptables(log, at, redir_port).at).table == state_at(
            start,
            log,
            base,
            at,
        ).table,
{
    lemma_tool_exists(start, log, base, at, Program::Iptables);
    let t = tool_exists(log, at, Program::Iptables);
    lemma_configure_family(start, log, base, t.at, Family::V4, redir_port, false);
    let a = configure_family(log, t.at, Family::V4, redir_port, false);
    lemma_configure_family(start, log, base, a.at, Family::V6, redir_port, true);
    let b = configure_family(log, a.at, Family::V6, redir_port, true);
    lemma_family_active(start, log, base, b.at, Family::V4);
    let c = family_active(log, b.at, Family::V4);
    lemma_family_active(start, log, base, c.at, Family::V6);
}

/// Applying rules leaves a backend active: where rules were applied with
/// nftables or iptables, the firewall holds them, and detection, asked
/// next, finds a backend. This holds of every application that succeeds,
/// the first as well as a repeated one.
pub proof fn lemma_apply_leaves_active(
    start: Firewall,
    log: Seq<ExchangeView>,
    base: int,
    at: int,
    backend: RuleBackend,
    redir_port: u16,
)
    requires
        consistent(start, log, base),
        base <= at,
        backend != RuleBackend::Absent,
        apply_rules(log, at, backend, redir_port).out is Ok,
    ensures
        apply_rules(log, at, backend, redir_port).out->Ok_0 != RuleBackend::Absent,
        apply_rules(log, at, backend, redir_port).out->Ok_0 == RuleBackend::Nft ==> state_at(
            start,
            log,
            base,
            apply_rules(log, at, backend, redir_port).at,
        ).active() == RuleBackend::Nft,
        apply_rules(log, at, backend, redir_port).out->Ok_0 == RuleBackend::Iptables ==> state_at(
            start,
            log,
            base,
            apply_rules(log, at, backend, redir_port).at,
        ).v4.live() && state_at(
            start,
            log,
            base,
            apply_rules(log, at, backend, redir_port).at,
        ).v4.rules == chain_rules(Family::V4, redir_port),
        detect_active(log, apply_rules(log, at, backend, redir_port).at).out is Ok
            ==> detect_active(log, apply_rules(log, at, backend, redir_port).at).out->Ok_0
            != RuleBackend::Absent,
{
    reveal(apply_rules);
    crate::tun::backend::lemma_apply_position(log, at, backend, redir_port);
    let end = apply_rules(log, at, backend, redir_port).at;
    match backend {
        RuleBackend::Nft => {
            let first = apply_nft(log, at, redir_port);
            if first.out is Ok {
                lemma_apply_nft(start, log, base, at, redir_port);
            } else {
                lemma_apply_nft_position(log, at, redir_port);
                lemma_tool_exists(start, log, base, first.at, Program::Iptables);
                let t = tool_exists(log, first.at, Program::Iptables);
                lemma_apply_iptables(start, log, base, t.at, redir_port);
            }
        },
        RuleBackend::Iptables => {
            lemma_apply_iptables(start, log, base, at, redir_port);
        },
        RuleBackend::Absent => {},
    }
    lemma_detect(start, log, base, end);
}

/// Applying the nftables rules never moves backwards in the record.
proof fn lemma_apply_nft_position(log: Seq<ExchangeView>, at: int, redir_port: u16)
    ensures
        apply_nft(log, at, redir_port).at >= at,
{
}

/// After rules were applied with nftables, detection finds nftables: the
/// answer comes from the table, not from any record of the operation.
pub proof fn lemma_detect_after_apply(
    start: Firewall,
    log: Seq<ExchangeView>,
    base: int,
    at: int,
    redir_port: u16,
)
    requires
        consistent(start, log, base),
        base <= at,
        apply_rules(log, at, RuleBackend::Nft, redir_port).out == Ok::<RuleBackend, HaltView>(
            RuleBackend::Nft,
        ),
    ensures
        detect_active(log, apply_rules(log, at, RuleBackend::Nft, redir_port).at).out is Ok
            ==> detect_active(log, apply_rules(log, at, RuleBackend::Nft, redir_port).at).out
            == Ok::<RuleBackend, HaltView>(RuleBackend::Nft),
{
    reveal(apply_rules);
    let applied = apply_nft(log, at, redir_port);
    assert(applied.out is Ok);
    lemma_apply_nft(start, log, base, at, redir_port);
    lemma_detect(start, log, base, applied.at);
}

/// Once the table and the jumps are gone, by whatever means, detection
/// finds no backend.
pub proof fn lemma_detect_nothing(start: Firewall, log: Seq<ExchangeView>, base: int, at: int)
    requires
        consistent(start, log, base),
        base <= at,
        !state_at(start, log, base, at).table,
        !state_at(start, log, base, at).v4.live(),
        !state_at(start, log, base, at).v6.live(),
    ensures
        detect_active(log, at).out is Ok ==> detect_active(log, at).out == Ok::<
            RuleBackend,
            HaltView,
        >(RuleBackend::Absent),
{
    reveal(detect_active);
    lemma_detect(start, log, base, at);
}

} // verus!
