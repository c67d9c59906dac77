//! The redirect rules: one fixed template for nftables and one for
//! iptables, the names that mark them as this tool's own, and the command
//! line of every firewall call.

use crate::host::{
    owned, push_arg, ChainRule, Family, FirewallOp, Hook, Invocation, InvocationView, Jump, Net,
    Program,
};
use crate::text::{decimal, decimal_text, ends_with, push_decimal, push_str, text_of, views};
use vstd::prelude::*;

verus! {

/// The nftables table that holds this tool's rules.
pub const NFT_TABLE_NAME: &'static str = "clash_cli_tun";

/// The iptables chain that holds this tool's rules.
pub const IPT_CHAIN_NAME: &'static str = "CLASH_CLI_TUN";

/// The ports of the proxy's own listeners (mixed, SOCKS, controller), which
/// are never redirected.
pub const MIXED_PORT: u16 = 7890;

pub const SOCKS_PORT: u16 = 7891;

pub const CONTROLLER_PORT: u16 = 9090;

impl Program {
    pub open spec fn name(self) -> Seq<char> {
        match self {
            Program::Nft => "nft"@,
            Program::Iptables => "iptables"@,
            Program::Ip6tables => "ip6tables"@,
            Program::Systemctl => "systemctl"@,
            Program::Sudo => "sudo"@,
            Program::Restorecon => "restorecon"@,
        }
    }

    /// The name under which the program is called.
    pub fn as_str(self) -> (r: &'static str)
        ensures
            r@ == self.name(),
    {
        match self {
            Program::Nft => "nft",
            Program::Iptables => "iptables",
            Program::Ip6tables => "ip6tables",
            Program::Systemctl => "systemctl",
            Program::Sudo => "sudo",
            Program::Restorecon => "restorecon",
        }
    }
}

impl Family {
    /// The iptables binary of the family.
    pub open spec fn program(self) -> Program {
        match self {
            Family::V4 => Program::Iptables,
            Family::V6 => Program::Ip6tables,
        }
    }

    pub fn binary(self) -> (r: Program)
        ensures
            r == self.program(),
    {
        match self {
            Family::V4 => Program::Iptables,
            Family::V6 => Program::Ip6tables,
        }
    }

    /// The ranges of the family that are never redirected, in the order of
    /// their rules.
    pub open spec fn nets(self) -> Seq<Net> {
        match self {
            Family::V4 => seq![
                Net::Loopback4,
                Net::Private10,
                Net::Private172,
                Net::Private192,
                Net::Benchmark4,
                Net::Multicast4,
                Net::Reserved4,
            ],
            Family::V6 => seq![Net::Loopback6, Net::UniqueLocal6, Net::LinkLocal6, Net::Multicast6],
        }
    }
}

impl Net {
    pub open spec fn cidr(self) -> Seq<char> {
        match self {
            Net::Loopback4 => "127.0.0.0/8"@,
            Net::Private10 => "10.0.0.0/8"@,
            Net::Private172 => "172.16.0.0/12"@,
            Net::Private192 => "192.168.0.0/16"@,
            Net::Benchmark4 => "198.18.0.0/15"@,
            Net::Multicast4 => "224.0.0.0/4"@,
            Net::Reserved4 => "240.0.0.0/4"@,
            Net::Loopback6 => "::1/128"@,
            Net::UniqueLocal6 => "fc00::/7"@,
            Net::LinkLocal6 => "fe80::/10"@,
            Net::Multicast6 => "ff00::/8"@,
        }
    }

    /// The range in CIDR notation.
    pub fn as_str(self) -> (r: &'static str)
        ensures
            r@ == self.cidr(),
    {
        match self {
            Net::Loopback4 => "127.0.0.0/8",
            Net::Private10 => "10.0.0.0/8",
            Net::Private172 => "172.16.0.0/12",
            Net::Private192 => "192.168.0.0/16",
            Net::Benchmark4 => "198.18.0.0/15",
            Net::Multicast4 => "224.0.0.0/4",
            Net::Reserved4 => "240.0.0.0/4",
            Net::Loopback6 => "::1/128",
            Net::UniqueLocal6 => "fc00::/7",
            Net::LinkLocal6 => "fe80::/10",
            Net::Multicast6 => "ff00::/8",
        }
    }
}

impl Hook {
    pub open spec fn name(self) -> Seq<char> {
        match self {
            Hook::Prerouting => "PREROUTING"@,
            Hook::Output => "OUTPUT"@,
        }
    }

    /// The name of the built-in chain.
    pub fn as_str(self) -> (r: &'static str)
        ensures
            r@ == self.name(),
    {
        match self {
            Hook::Prerouting => "PREROUTING",
            Hook::Output => "OUTPUT",
        }
    }
}

// ---------------------------------------------------------------------------
// The bypass ports and the chain's rules
// ---------------------------------------------------------------------------

/// The ports that are never redirected, ascending and without repetition:
/// the proxy's own listeners and the redirect port itself.
pub open spec fn bypass_ports(redir_port: u16) -> Seq<u16> {
    if redir_port < MIXED_PORT {
        seq![redir_port, MIXED_PORT, SOCKS_PORT, CONTROLLER_PORT]
    } else if redir_port == MIXED_PORT || redir_port == SOCKS_PORT || redir_port
        == CONTROLLER_PORT {
        seq![MIXED_PORT, SOCKS_PORT, CONTROLLER_PORT]
    } else if redir_port < CONTROLLER_PORT {
        seq![MIXED_PORT, SOCKS_PORT, redir_port, CONTROLLER_PORT]
    } else {
        seq![MIXED_PORT, SOCKS_PORT, CONTROLLER_PORT, redir_port]
    }
}

/// Whether `port` is one of the ports that must not be redirected.
pub open spec fn is_bypass_port(port: u16, redir_port: u16) -> bool {
    port == MIXED_PORT || port == SOCKS_PORT || port == CONTROLLER_PORT || port == redir_port
}

/// The rules of the tool's chain, in order: a return for each reserved
/// range of the family, a return for each bypass port, then the redirect.
pub open spec fn chain_rules(family: Family, redir_port: u16) -> Seq<ChainRule> {
    family.nets().map_values(|n: Net| ChainRule::ReturnNet(n)) + bypass_ports(
        redir_port,
    ).map_values(|p: u16| ChainRule::ReturnPort(p)) + seq![ChainRule::Redirect(redir_port)]
}

pub fn bypass_port_list(redir_port: u16) -> (r: Vec<u16>)
    ensures
        r@ == bypass_ports(redir_port),
{
    let mut out: Vec<u16> = Vec::new();
    if redir_port < MIXED_PORT {
        out.push(redir_port);
    }
    out.push(MIXED_PORT);
    out.push(SOCKS_PORT);
    if SOCKS_PORT < redir_port && redir_port < CONTROLLER_PORT {
        out.push(redir_port);
    }
    out.push(CONTROLLER_PORT);
    if redir_port > CONTROLLER_PORT {
        out.push(redir_port);
    }
    assert(out@ =~= bypass_ports(redir_port));
    out
}

/// The reserved ranges of a family.
pub fn family_nets(family: Family) -> (r: Vec<Net>)
    ensures
        r@ == family.nets(),
{
    let mut out: Vec<Net> = Vec::new();
    match family {
        Family::V4 => {
            out.push(Net::Loopback4);
            out.push(Net::Private10);
            out.push(Net::Private172);
            out.push(Net::Private192);
            out.push(Net::Benchmark4);
            out.push(Net::Multicast4);
            out.push(Net::Reserved4);
        },
        Family::V6 => {
            out.push(Net::Loopback6);
            out.push(Net::UniqueLocal6);
            out.push(Net::LinkLocal6);
            out.push(Net::Multicast6);
        },
    }
    assert(out@ =~= family.nets());
    out
}

/// The rules of the tool's chain for a family and a redirect port.
pub fn chain_rule_list(family: Family, redir_port: u16) -> (r: Vec<ChainRule>)
    ensures
        r@ == chain_rules(family, redir_port),
{
    let nets = family_nets(family);
    let ports = bypass_port_list(redir_port);
    let mut out: Vec<ChainRule> = Vec::new();
    let mut i: usize = 0;
    while i < nets.len()
        invariant
            i <= nets.len(),
            out@ == nets@.subrange(0, i as int).map_values(|n: Net| ChainRule::ReturnNet(n)),
        decreases nets.len() - i,
    {
        out.push(ChainRule::ReturnNet(nets[i]));
        i = i + 1;
        assert(out@ =~= nets@.subrange(0, i as int).map_values(|n: Net| ChainRule::ReturnNet(n)));
    }
    assert(nets@.subrange(0, nets.len() as int) =~= nets@);
    let ghost head = out@;
    let mut k: usize = 0;
    while k < ports.len()
        invariant
            k <= ports.len(),
            out@ == head + ports@.subrange(0, k as int).map_values(
                |p: u16| ChainRule::ReturnPort(p),
            ),
        decreases ports.len() - k,
    {
        out.push(ChainRule::ReturnPort(ports[k]));
        k = k + 1;
        assert(out@ =~= head + ports@.subrange(0, k as int).map_values(
            |p: u16| ChainRule::ReturnPort(p),
        ));
    }
    assert(ports@.subrange(0, ports.len() as int) =~= ports@);
    out.push(ChainRule::Redirect(redir_port));
    out
}

/// The bypass ports are exactly the three listener ports and the redirect
/// port, each once, ascending.
pub proof fn lemma_bypass_ports(redir_port: u16)
    ensures
        forall|p: u16| bypass_ports(redir_port).contains(p) <==> is_bypass_port(p, redir_port),
        forall|i: int, j: int|
            0 <= i < j < bypass_ports(redir_port).len() ==> bypass_ports(redir_port)[i]
                < bypass_ports(redir_port)[j],
{
    let b = bypass_ports(redir_port);
    assert forall|p: u16| b.contains(p) <==> is_bypass_port(p, redir_port) by {
        if is_bypass_port(p, redir_port) {
            if redir_port < MIXED_PORT {
                assert(b[0] == redir_port && b[1] == MIXED_PORT && b[2] == SOCKS_PORT && b[3]
                    == CONTROLLER_PORT);
            } else if redir_port == MIXED_PORT || redir_port == SOCKS_PORT || redir_port
                == CONTROLLER_PORT {
                assert(b[0] == MIXED_PORT && b[1] == SOCKS_PORT && b[2] == CONTROLLER_PORT);
            } else if redir_port < CONTROLLER_PORT {
                assert(b[0] == MIXED_PORT && b[1] == SOCKS_PORT && b[2] == redir_port && b[3]
                    == CONTROLLER_PORT);
            } else {
                assert(b[0] == MIXED_PORT && b[1] == SOCKS_PORT && b[2] == CONTROLLER_PORT && b[3]
                    == redir_port);
            }
        }
    }
}

/// No bypass port is redirected by the chain: for the three listener ports
/// and the redirect port itself, a return rule for the port stands before
/// the redirect, which is the chain's last rule and its only redirect.
pub proof fn lemma_chain_returns_before_redirect(family: Family, redir_port: u16, port: u16)
    requires
        is_bypass_port(port, redir_port),
    ensures
        chain_rules(family, redir_port).len() > 0,
        chain_rules(family, redir_port).last() == ChainRule::Redirect(redir_port),
        forall|i: int|
            0 <= i < chain_rules(family, redir_port).len() - 1 ==> !(chain_rules(
                family,
                redir_port,
            )[i] is Redirect),
        exists|i: int|
            0 <= i < chain_rules(family, redir_port).len() - 1 && chain_rules(
                family,
                redir_port,
            )[i] == ChainRule::ReturnPort(port),
{
    let nets = family.nets().map_values(|n: Net| ChainRule::ReturnNet(n));
    let ports = bypass_ports(redir_port).map_values(|p: u16| ChainRule::ReturnPort(p));
    let rules = chain_rules(family, redir_port);
    lemma_bypass_ports(redir_port);
    assert(bypass_ports(redir_port).contains(port));
    let k = choose|k: int|
        0 <= k < bypass_ports(redir_port).len() && bypass_ports(redir_port)[k] == port;
    assert(rules[nets.len() + k] == ports[k]);
    assert forall|i: int| 0 <= i < rules.len() - 1 implies !(rules[i] is Redirect) by {
        if i < nets.len() {
            assert(rules[i] == nets[i]);
        } else {
            assert(rules[i] == ports[i - nets.len()]);
        }
    }
}

// ---------------------------------------------------------------------------
// The nftables script
// ---------------------------------------------------------------------------

/// The line of a chain that returns early for the bypass ports.
pub open spec fn nft_bypass_line(redir_port: u16) -> Seq<char> {
    "    tcp dport { 7890, 7891, 9090, "@ + decimal(redir_port as nat) + " } return\n"@
}

/// The line of a chain that redirects what is left.
pub open spec fn nft_redirect_line(redir_port: u16) -> Seq<char> {
    "    meta l4proto tcp redirect to :"@ + decimal(redir_port as nat) + "\n"@
}

/// The rules that both chains share, in order: returns for the reserved
/// IPv4 and IPv6 ranges, the return for the bypass ports and, last, the
/// redirect.
pub open spec fn nft_chain_rules(redir_port: u16) -> Seq<char> {
    "    ip daddr { 127.0.0.0/8, 10.0.0.0/8, 172.16.0.0/12, 192.168.0.0/16, 198.18.0.0/15, 224.0.0.0/4, 240.0.0.0/4 } return\n"@
        + "    ip6 daddr { ::1/128, fc00::/7, fe80::/10, ff00::/8 } return\n"@ + nft_bypass_line(
        redir_port,
    ) + nft_redirect_line(redir_port)
}

/// The script that `nft -f -` reads: the tool's table with a `prerouting`
/// and an `output` chain; the `output` chain first lets root's own traffic
/// pass.
pub open spec fn nft_script(redir_port: u16) -> Seq<char> {
    "table inet clash_cli_tun {\n  chain prerouting {\n    type nat hook prerouting priority dstnat; policy accept;\n"@
        + nft_chain_rules(redir_port)
        + "  }\n  chain output {\n    type nat hook output priority -100; policy accept;\n    meta skuid 0 return\n"@
        + nft_chain_rules(redir_port) + "  }\n}"@
}

/// In the nftables script no bypass port is redirected either: the rules
/// of each chain end with the line that returns for the three listener
/// ports and the redirect port, and after it the redirect, the last line.
pub proof fn lemma_nft_returns_before_redirect(redir_port: u16)
    ensures
        ends_with(
            nft_chain_rules(redir_port),
            nft_bypass_line(redir_port) + nft_redirect_line(redir_port),
        ),
        ends_with(nft_chain_rules(redir_port), nft_redirect_line(redir_port)),
{
    let rules = nft_chain_rules(redir_port);
    let both = nft_bypass_line(redir_port) + nft_redirect_line(redir_port);
    let last = nft_redirect_line(redir_port);
    assert(rules.subrange(rules.len() - both.len(), rules.len() as int) =~= both);
    assert(rules.subrange(rules.len() - last.len(), rules.len() as int) =~= last);
}

/// Appends the lines that both chains share.
fn push_nft_chain_rules(out: &mut Vec<char>, redir_port: u16)
    ensures
        final(out)@ == old(out)@ + nft_chain_rules(redir_port),
{
    push_str(
        out,
        "    ip daddr { 127.0.0.0/8, 10.0.0.0/8, 172.16.0.0/12, 192.168.0.0/16, 198.18.0.0/15, 224.0.0.0/4, 240.0.0.0/4 } return\n",
    );
    push_str(out, "    ip6 daddr { ::1/128, fc00::/7, fe80::/10, ff00::/8 } return\n");
    push_str(out, "    tcp dport { 7890, 7891, 9090, ");
    push_decimal(out, redir_port as u64);
    push_str(out, " } return\n");
    push_str(out, "    meta l4proto tcp redirect to :");
    push_decimal(out, redir_port as u64);
    push_str(out, "\n");
    assert(out@ =~= old(out)@ + nft_chain_rules(redir_port));
}

/// The rule script for a redirect port.
pub fn nft_script_text(redir_port: u16) -> (r: String)
    ensures
        r@ == nft_script(redir_port),
{
    let mut out: Vec<char> = Vec::new();
    push_str(
        &mut out,
        "table inet clash_cli_tun {\n  chain prerouting {\n    type nat hook prerouting priority dstnat; policy accept;\n",
    );
    push_nft_chain_rules(&mut out, redir_port);
    push_str(
        &mut out,
        "  }\n  chain output {\n    type nat hook output priority -100; policy accept;\n    meta skuid 0 return\n",
    );
    push_nft_chain_rules(&mut out, redir_port);
    push_str(&mut out, "  }\n}");
    assert(out@ =~= nft_script(redir_port));
    text_of(&out)
}

// ---------------------------------------------------------------------------
// Command lines
// ---------------------------------------------------------------------------

/// The arguments that name a jump: the built-in chain, the match, and the
/// tool's chain as target.
pub open spec fn jump_args(jump: Jump) -> Seq<Seq<char>> {
    if jump.non_root_only {
        seq![
            jump.hook.name(),
            "-p"@,
            "tcp"@,
            "-m"@,
            "owner"@,
            "!"@,
            "--uid-owner"@,
            "0"@,
            "-j"@,
            IPT_CHAIN_NAME@,
        ]
    } else {
        seq![jump.hook.name(), "-p"@, "tcp"@, "-j"@, IPT_CHAIN_NAME@]
    }
}

/// The arguments that state a rule of the tool's chain.
pub open spec fn rule_args(rule: ChainRule) -> Seq<Seq<char>> {
    match rule {
        ChainRule::ReturnNet(n) => seq!["-d"@, n.cidr(), "-j"@, "RETURN"@],
        ChainRule::ReturnPort(p) => seq![
            "-p"@,
            "tcp"@,
            "--dport"@,
            decimal(p as nat),
            "-j"@,
            "RETURN"@,
        ],
        ChainRule::Redirect(p) => seq![
            "-p"@,
            "tcp"@,
            "-j"@,
            "REDIRECT"@,
            "--to-ports"@,
            decimal(p as nat),
        ],
    }
}

impl FirewallOp {
    /// The program that carries the call out.
    pub open spec fn program(self) -> Program {
        match self {
            FirewallOp::NftList | FirewallOp::NftDelete | FirewallOp::NftLoad(_) => Program::Nft,
            FirewallOp::ChainNew(f) | FirewallOp::ChainFlush(f) | FirewallOp::ChainDelete(f) =>
                f.program(),
            FirewallOp::ChainAppend(f, _) => f.program(),
            FirewallOp::JumpCheck(f, _) | FirewallOp::JumpAppend(f, _) | FirewallOp::JumpDelete(
                f,
                _,
            ) => f.program(),
        }
    }

    /// The arguments of the call.
    pub open spec fn args(self) -> Seq<Seq<char>> {
        match self {
            FirewallOp::NftList => seq!["list"@, "table"@, "inet"@, NFT_TABLE_NAME@],
            FirewallOp::NftDelete => seq!["delete"@, "table"@, "inet"@, NFT_TABLE_NAME@],
            FirewallOp::NftLoad(_) => seq!["-f"@, "-"@],
            FirewallOp::ChainNew(_) => seq!["-t"@, "nat"@, "-N"@, IPT_CHAIN_NAME@],
            FirewallOp::ChainFlush(_) => seq!["-t"@, "nat"@, "-F"@, IPT_CHAIN_NAME@],
            FirewallOp::ChainDelete(_) => seq!["-t"@, "nat"@, "-X"@, IPT_CHAIN_NAME@],
            FirewallOp::ChainAppend(_, rule) => seq!["-t"@, "nat"@, "-A"@, IPT_CHAIN_NAME@]
                + rule_args(rule),
            FirewallOp::JumpCheck(_, jump) => seq!["-t"@, "nat"@, "-C"@] + jump_args(jump),
            FirewallOp::JumpAppend(_, jump) => seq!["-t"@, "nat"@, "-A"@] + jump_args(jump),
            FirewallOp::JumpDelete(_, jump) => seq!["-t"@, "nat"@, "-D"@] + jump_args(jump),
        }
    }

    /// What the call reads from its standard input.
    pub open spec fn stdin(self) -> Option<Seq<char>> {
        match self {
            FirewallOp::NftLoad(port) => Some(nft_script(port)),
            _ => None,
        }
    }

    /// The call as a command line.
    pub open spec fn command(self) -> InvocationView {
        InvocationView { program: self.program().name(), args: self.args(), stdin: self.stdin() }
    }

    /// Whether the call only asks and changes nothing: the lookups by which
    /// rules are detected.
    pub open spec fn is_lookup(self) -> bool {
        self is NftList || self is JumpCheck
    }

    /// Whether the call only asks; the caller then discards what it prints
    /// and takes the exit status as the answer.
    pub fn is_probe(self) -> (r: bool)
        ensures
            r == self.is_lookup(),
    {
        match self {
            FirewallOp::NftList => true,
            FirewallOp::JumpCheck(_, _) => true,
            _ => false,
        }
    }

    /// The program, arguments and input that carry the call out.
    pub fn invocation(self) -> (r: Invocation)
        ensures
            r@ == self.command(),
    {
        let mut args: Vec<String> = Vec::new();
        assert(views(args@) =~= Seq::<Seq<char>>::empty());
        let mut stdin: Option<String> = None;
        let program: Program;
        match self {
            FirewallOp::NftList => {
                program = Program::Nft;
                push_arg(&mut args, "list");
                push_arg(&mut args, "table");
                push_arg(&mut args, "inet");
                push_arg(&mut args, NFT_TABLE_NAME);
            },
            FirewallOp::NftDelete => {
                program = Program::Nft;
                push_arg(&mut args, "delete");
                push_arg(&mut args, "table");
                push_arg(&mut args, "inet");
                push_arg(&mut args, NFT_TABLE_NAME);
            },
            FirewallOp::NftLoad(port) => {
                program = Program::Nft;
                push_arg(&mut args, "-f");
                push_arg(&mut args, "-");
                stdin = Some(nft_script_text(port));
            },
            FirewallOp::ChainNew(f) => {
                program = f.binary();
                push_table(&mut args, "-N");
                push_arg(&mut args, IPT_CHAIN_NAME);
            },
            FirewallOp::ChainFlush(f) => {
                program = f.binary();
                push_table(&mut args, "-F");
                push_arg(&mut args, IPT_CHAIN_NAME);
            },
            FirewallOp::ChainDelete(f) => {
                program = f.binary();
                push_table(&mut args, "-X");
                push_arg(&mut args, IPT_CHAIN_NAME);
            },
            FirewallOp::ChainAppend(f, rule) => {
                program = f.binary();
                push_table(&mut args, "-A");
                push_arg(&mut args, IPT_CHAIN_NAME);
                push_rule(&mut args, rule);
            },
            FirewallOp::JumpCheck(f, jump) => {
                program = f.binary();
                push_table(&mut args, "-C");
                push_jump(&mut args, jump);
            },
            FirewallOp::JumpAppend(f, jump) => {
                program = f.binary();
                push_table(&mut args, "-A");
                push_jump(&mut args, jump);
            },
            FirewallOp::JumpDelete(f, jump) => {
                program = f.binary();
                push_table(&mut args, "-D");
                push_jump(&mut args, jump);
            },
        }
        assert(views(args@) =~= self.args());
        Invocation { program: owned(program.as_str()), args, stdin }
    }
}

/// Appends `-t nat` and the action.
fn push_table(args: &mut Vec<String>, action: &str)
    ensures
        views(final(args)@) == views(old(args)@) + seq!["-t"@, "nat"@, action@],
{
    push_arg(args, "-t");
    push_arg(args, "nat");
    push_arg(args, action);
    assert(views(args@) =~= views(old(args)@) + seq!["-t"@, "nat"@, action@]);
}

/// Appends the arguments that name a jump.
fn push_jump(args: &mut Vec<String>, jump: Jump)
    ensures
        views(final(args)@) == views(old(args)@) + jump_args(jump),
{
    push_arg(args, jump.hook.as_str());
    push_arg(args, "-p");
    push_arg(args, "tcp");
    if jump.non_root_only {
        push_arg(args, "-m");
        push_arg(args, "owner");
        push_arg(args, "!");
        push_arg(args, "--uid-owner");
        push_arg(args, "0");
    }
    push_arg(args, "-j");
    push_arg(args, IPT_CHAIN_NAME);
    assert(views(args@) =~= views(old(args)@) + jump_args(jump));
}

/// Appends the arguments that state a rule.
fn push_rule(args: &mut Vec<String>, rule: ChainRule)
    ensures
        views(final(args)@) == views(old(args)@) + rule_args(rule),
{
    match rule {
        ChainRule::ReturnNet(n) => {
            push_arg(args, "-d");
            push_arg(args, n.as_str());
            push_arg(args, "-j");
            push_arg(args, "RETURN");
        },
        ChainRule::ReturnPort(p) => {
            push_arg(args, "-p");
            push_arg(args, "tcp");
            push_arg(args, "--dport");
            let port = decimal_text(p as u64);
            push_arg(args, port.as_str());
            push_arg(args, "-j");
            push_arg(args, "RETURN");
        },
        ChainRule::Redirect(p) => {
            push_arg(args, "-p");
            push_arg(args, "tcp");
            push_arg(args, "-j");
            push_arg(args, "REDIRECT");
            push_arg(args, "--to-ports");
            let port = decimal_text(p as u64);
            push_arg(args, port.as_str());
        },
    }
    assert(views(args@) =~= views(old(args)@) + rule_args(rule));
}

} // verus!
