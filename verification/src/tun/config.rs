//! The runtime configuration: how it is loaded, initialised and saved, and
//! the fields that enabling and disabling TUN mode set.

use crate::host::{
    ExchangeView, ask, bind, done, failed, owned, ran, Effect, EffectView, Fault, FaultKind, Halt,
    Ran, Replay, ReplyView,
};
use crate::text::decimal;
use crate::tun::state::DEFAULT_REDIR_PORT;
use crate::yaml::{
    apart, assigned_entries, bool_at, bool_field, ensured_entries, is_mapping, key_value,
    lemma_assigned_found, lemma_with_entries,
    lemma_assigned_same, lemma_default_keeps,
    lemma_assigned_frame, lemma_assigned_well_formed, lemma_defaulted_frame,
    lemma_defaulted_get, lemma_defaulted_well_formed, mapping_node, no_entries, port_at,
    read_yaml, set_bool_field,
    set_default_bool_field, set_default_string_field, set_default_u16_field, u16_field, write_yaml,
    yaml_read, yaml_written, Node, NodeView,
};
use vstd::prelude::*;

verus! {

/// What a new configuration file holds: the empty mapping.
pub const EMPTY_CONFIG: &'static str = "{}\n";

/// A configuration as it was loaded: the document, and the text it was read
/// from.
#[derive(Debug)]
pub struct Loaded {
    pub root: Node,
    pub text: String,
}

pub struct LoadedView {
    pub root: NodeView,
    pub text: Seq<char>,
}

impl View for Loaded {
    type V = LoadedView;

    open spec fn view(&self) -> LoadedView {
        LoadedView { root: self.root@, text: self.text@ }
    }
}

/// The document that a configuration text stands for: the parsed value, or
/// the empty mapping where the value is no mapping.
pub open spec fn document_of(parsed: NodeView) -> NodeView {
    if parsed.is_mapping() {
        parsed
    } else {
        NodeView::Mapping(Seq::empty())
    }
}

/// An existing configuration is loaded: read, parsed, and a value that is no
/// mapping replaced by the empty mapping.
pub open spec fn load_existing(log: Seq<ExchangeView>, at: int, path: Seq<char>) -> Ran<LoadedView> {
    bind(
        ask(log, at, EffectView::ReadFile(path)),
        |r: ReplyView, at1: int|
            if !r.ok {
                failed(FaultKind::ConfigRead, r.detail, at1)
            } else {
                match yaml_read(r.text) {
                    Ok(parsed) => done(LoadedView { root: document_of(parsed), text: r.text }, at1),
                    Err(message) => failed(FaultKind::ConfigParse, message, at1),
                }
            },
    )
}

/// A configuration is loaded; where the file does not exist, its directory
/// and the file, holding the empty mapping, are created first.
#[verifier::opaque]
pub open spec fn load_or_init(log: Seq<ExchangeView>, at: int, path: Seq<char>) -> Ran<LoadedView> {
    bind(
        ask(log, at, EffectView::PathExists(path)),
        |there: ReplyView, at1: int|
            if there.ok {
                load_existing(log, at1, path)
            } else {
                bind(
                    ask(log, at1, EffectView::CreateParent(path)),
                    |made: ReplyView, at2: int|
                        if !made.ok {
                            failed(FaultKind::ConfigDirCreate, made.detail, at2)
                        } else {
                            bind(
                                ask(log, at2, EffectView::WriteFile(path, EMPTY_CONFIG@)),
                                |written: ReplyView, at3: int|
                                    if !written.ok {
                                        failed(FaultKind::ConfigInit, written.detail, at3)
                                    } else {
                                        load_existing(log, at3, path)
                                    },
                            )
                        },
                )
            },
    )
}

/// A text replaces the configuration file.
pub open spec fn write_config(log: Seq<ExchangeView>, at: int, path: Seq<char>, text: Seq<char>) -> Ran<
    (),
> {
    bind(
        ask(log, at, EffectView::WriteFile(path, text)),
        |r: ReplyView, at1: int|
            if r.ok {
                done((), at1)
            } else {
                failed(FaultKind::ConfigWrite, r.detail, at1)
            },
    )
}

/// A document is serialised and replaces the configuration file.
#[verifier::opaque]
pub open spec fn save(log: Seq<ExchangeView>, at: int, path: Seq<char>, root: NodeView) -> Ran<()> {
    match yaml_written(root) {
        Ok(text) => write_config(log, at, path, text),
        Err(message) => failed(FaultKind::ConfigRender, message, at),
    }
}

/// The view of a loading result.
pub open spec fn ran_loaded(r: Result<Loaded, Halt>, at: int) -> Ran<LoadedView> {
    Ran {
        out: match r {
            Ok(l) => Ok(l@),
            Err(h) => Err(h@),
        },
        at,
    }
}

/// Loads an existing configuration.
pub fn load_existing_config(host: &mut Replay, path: &str) -> (r: Result<Loaded, Halt>)
    ensures
        final(host).seen() == old(host).seen(),
        ran_loaded(r, final(host).pos()) == load_existing(
            old(host).seen(),
            old(host).pos(),
            path@,
        ),
        r matches Ok(l) ==> l.root@.well_formed() && l.root@.is_mapping(),
{
    let reply = host.perform(Effect::ReadFile(owned(path)))?;
    if !reply.ok {
        return Err(Halt::Fail(Fault { kind: FaultKind::ConfigRead, detail: reply.detail, rolled_back: false }));
    }
    match read_yaml(reply.text.as_str()) {
        Ok(parsed) => {
            let root = if is_mapping(&parsed) {
                parsed
            } else {
                mapping_node(no_entries())
            };
            Ok(Loaded { root, text: reply.text })
        },
        Err(message) => Err(Halt::Fail(Fault { kind: FaultKind::ConfigParse, detail: message, rolled_back: false })),
    }
}

/// Loads the configuration, creating an empty one where none exists.
pub fn load_or_init_config(host: &mut Replay, path: &str) -> (r: Result<Loaded, Halt>)
    ensures
        final(host).seen() == old(host).seen(),
        ran_loaded(r, final(host).pos()) == load_or_init(old(host).seen(), old(host).pos(), path@),
        r matches Ok(l) ==> l.root@.well_formed() && l.root@.is_mapping(),
{
    proof {
        reveal(load_or_init);
    }
    let there = host.perform(Effect::PathExists(owned(path)))?;
    if !there.ok {
        let made = host.perform(Effect::CreateParent(owned(path)))?;
        if !made.ok {
            return Err(Halt::Fail(Fault { kind: FaultKind::ConfigDirCreate, detail: made.detail, rolled_back: false }));
        }
        let written = host.perform(Effect::WriteFile(owned(path), owned(EMPTY_CONFIG)))?;
        if !written.ok {
            return Err(Halt::Fail(Fault { kind: FaultKind::ConfigInit, detail: written.detail, rolled_back: false }));
        }
    }
    load_existing_config(host, path)
}

/// Replaces the configuration file by `text`.
pub fn write_config_text(host: &mut Replay, path: &str, text: &str) -> (r: Result<(), Halt>)
    ensures
        final(host).seen() == old(host).seen(),
        ran(r, final(host).pos()) == write_config(old(host).seen(), old(host).pos(), path@, text@),
{
    let reply = host.perform(Effect::WriteFile(owned(path), owned(text)))?;
    if reply.ok {
        Ok(())
    } else {
        Err(Halt::Fail(Fault { kind: FaultKind::ConfigWrite, detail: reply.detail, rolled_back: false }))
    }
}

/// Serialises the document and replaces the configuration file by it.
pub fn save_config(host: &mut Replay, path: &str, root: &Node) -> (r: Result<(), Halt>)
    requires
        root@.well_formed(),
    ensures
        final(host).seen() == old(host).seen(),
        ran(r, final(host).pos()) == save(old(host).seen(), old(host).pos(), path@, root@),
{
    proof {
        reveal(save);
    }
    match write_yaml(root) {
        Ok(text) => write_config_text(host, path, text.as_str()),
        Err(message) => Err(Halt::Fail(Fault { kind: FaultKind::ConfigRender, detail: message, rolled_back: false })),
    }
}

// ---------------------------------------------------------------------------
// The fields of TUN mode
// ---------------------------------------------------------------------------

/// The path of the `tun` section.
pub open spec fn tun_path() -> Seq<Seq<char>> {
    seq!["tun"@]
}

/// The path of the `dns` section.
pub open spec fn dns_path() -> Seq<Seq<char>> {
    seq!["dns"@]
}

/// The path of the document's root.
pub open spec fn root_path() -> Seq<Seq<char>> {
    Seq::empty()
}

/// The configuration with TUN mode enabled. `tun.enable` is forced on and
/// both IPv6 switches are forced off; the other fields are set only where
/// the configuration does not have them.
pub open spec fn enabled_config(root: NodeView) -> NodeView {
    root.assigned(tun_path(), "enable"@, NodeView::Bool(true)).defaulted(
        tun_path(),
        "auto-route"@,
        NodeView::Bool(true),
    ).defaulted(tun_path(), "auto-detect-interface"@, NodeView::Bool(true)).defaulted(
        tun_path(),
        "auto-redirect"@,
        NodeView::Bool(true),
    ).defaulted(tun_path(), "strict-route"@, NodeView::Bool(false)).defaulted(
        tun_path(),
        "stack"@,
        NodeView::Text("mixed"@),
    ).defaulted(dns_path(), "enable"@, NodeView::Bool(true)).assigned(
        root_path(),
        "ipv6"@,
        NodeView::Bool(false),
    ).assigned(dns_path(), "ipv6"@, NodeView::Bool(false)).defaulted(
        dns_path(),
        "enhanced-mode"@,
        NodeView::Text("fake-ip"@),
    ).defaulted(
        root_path(),
        "redir-port"@,
        NodeView::Number(decimal(DEFAULT_REDIR_PORT as nat)),
    )
}

/// The configuration with TUN mode disabled: `tun.enable` is forced off.
pub open spec fn disabled_config(root: NodeView) -> NodeView {
    root.assigned(tun_path(), "enable"@, NodeView::Bool(false))
}

/// Whether the configuration asks for redirect rules.
pub open spec fn wants_redirect(root: NodeView) -> bool {
    bool_at(root.field("tun"@), "auto-redirect"@) == Some(true)
}

/// The redirect port of the configuration.
pub open spec fn redirect_port(root: NodeView) -> u16 {
    match port_at(Some(root), "redir-port"@) {
        Some(p) => p,
        None => DEFAULT_REDIR_PORT,
    }
}

/// Sets the fields that enable TUN mode.
pub fn enable_tun(root: &mut Node)
    requires
        old(root)@.well_formed(),
    ensures
        final(root)@ == enabled_config(old(root)@),
        final(root)@.well_formed(),
{
    let tun: [&str; 1] = ["tun"];
    let dns: [&str; 1] = ["dns"];
    let top: [&str; 0] = [];
    assert(crate::yaml::path_views(tun@) =~= tun_path());
    assert(crate::yaml::path_views(dns@) =~= dns_path());
    assert(crate::yaml::path_views(top@) =~= root_path());
    let ghost n0 = root@;
    set_bool_field(root, &tun, "enable", true);
    let ghost n1 = root@;
    set_default_bool_field(root, &tun, "auto-route", true);
    let ghost n2 = root@;
    set_default_bool_field(root, &tun, "auto-detect-interface", true);
    let ghost n3 = root@;
    set_default_bool_field(root, &tun, "auto-redirect", true);
    let ghost n4 = root@;
    set_default_bool_field(root, &tun, "strict-route", false);
    let ghost n5 = root@;
    set_default_string_field(root, &tun, "stack", "mixed");
    let ghost n6 = root@;
    set_default_bool_field(root, &dns, "enable", true);
    let ghost n7 = root@;
    set_bool_field(root, &top, "ipv6", false);
    let ghost n8 = root@;
    set_bool_field(root, &dns, "ipv6", false);
    let ghost n9 = root@;
    set_default_string_field(root, &dns, "enhanced-mode", "fake-ip");
    let ghost n10 = root@;
    set_default_u16_field(root, &top, "redir-port", DEFAULT_REDIR_PORT);
    proof {
        lemma_assigned_well_formed(n0, tun_path(), "enable"@, NodeView::Bool(true));
        lemma_defaulted_well_formed(n1, tun_path(), "auto-route"@, NodeView::Bool(true));
        lemma_defaulted_well_formed(n2, tun_path(), "auto-detect-interface"@, NodeView::Bool(true));
        lemma_defaulted_well_formed(n3, tun_path(), "auto-redirect"@, NodeView::Bool(true));
        lemma_defaulted_well_formed(n4, tun_path(), "strict-route"@, NodeView::Bool(false));
        lemma_defaulted_well_formed(n5, tun_path(), "stack"@, NodeView::Text("mixed"@));
        lemma_defaulted_well_formed(n6, dns_path(), "enable"@, NodeView::Bool(true));
        lemma_assigned_well_formed(n7, root_path(), "ipv6"@, NodeView::Bool(false));
        lemma_assigned_well_formed(n8, dns_path(), "ipv6"@, NodeView::Bool(false));
        lemma_defaulted_well_formed(n9, dns_path(), "enhanced-mode"@, NodeView::Text("fake-ip"@));
        lemma_defaulted_well_formed(
            n10,
            root_path(),
            "redir-port"@,
            NodeView::Number(decimal(DEFAULT_REDIR_PORT as nat)),
        );
    }
}

/// Sets the field that disables TUN mode.
pub fn disable_tun(root: &mut Node)
    requires
        old(root)@.well_formed(),
    ensures
        final(root)@ == disabled_config(old(root)@),
        final(root)@.well_formed(),
{
    let tun: [&str; 1] = ["tun"];
    assert(crate::yaml::path_views(tun@) =~= tun_path());
    proof {
        lemma_assigned_well_formed(root@, tun_path(), "enable"@, NodeView::Bool(false));
    }
    set_bool_field(root, &tun, "enable", false);
}

/// Whether the configuration asks for redirect rules: `tun.auto-redirect`
/// is `true`.
pub fn auto_redirect_of(root: &Node) -> (r: bool)
    ensures
        r == wants_redirect(root@),
{
    match bool_field(key_value(root, "tun"), "auto-redirect") {
        Some(b) => b,
        None => false,
    }
}

/// The redirect port of the configuration: `redir-port`, or the default
/// where it is missing or no port number.
pub fn redir_port_of(root: &Node) -> (r: u16)
    ensures
        r == redirect_port(root@),
{
    match u16_field(Some(root), "redir-port") {
        Some(p) => p,
        None => DEFAULT_REDIR_PORT,
    }
}

// ---------------------------------------------------------------------------
// Laws of enabling
// ---------------------------------------------------------------------------

/// The places that enabling touches, each as its path with its key.
pub open spec fn enable_places() -> Seq<Seq<Seq<char>>> {
    seq![
        tun_path().push("enable"@),
        tun_path().push("auto-route"@),
        tun_path().push("auto-detect-interface"@),
        tun_path().push("auto-redirect"@),
        tun_path().push("strict-route"@),
        tun_path().push("stack"@),
        dns_path().push("enable"@),
        root_path().push("ipv6"@),
        dns_path().push("ipv6"@),
        dns_path().push("enhanced-mode"@),
        root_path().push("redir-port"@),
    ]
}

/// The places that enabling touches are pairwise apart.
pub proof fn lemma_enable_places_apart()
    ensures
        forall|i: int, j: int|
            0 <= i < enable_places().len() && 0 <= j < enable_places().len() && i != j ==> apart(
                #[trigger] enable_places()[i],
                #[trigger] enable_places()[j],
            ),
{
    reveal_strlit("tun");
    reveal_strlit("dns");
    reveal_strlit("enable");
    reveal_strlit("auto-route");
    reveal_strlit("auto-detect-interface");
    reveal_strlit("auto-redirect");
    reveal_strlit("strict-route");
    reveal_strlit("stack");
    reveal_strlit("ipv6");
    reveal_strlit("enhanced-mode");
    reveal_strlit("redir-port");
    let p = enable_places();
    assert("tun"@.len() == 3 && "dns"@.len() == 3 && "enable"@.len() == 6 && "auto-route"@.len()
        == 10 && "auto-detect-interface"@.len() == 21 && "auto-redirect"@.len() == 13
        && "strict-route"@.len() == 12 && "stack"@.len() == 5 && "ipv6"@.len() == 4
        && "enhanced-mode"@.len() == 13 && "redir-port"@.len() == 10);
    assert("tun"@[0] == 't' && "dns"@[0] == 'd');
    assert("auto-route"@[0] == 'a' && "redir-port"@[0] == 'r');
    assert("auto-redirect"@[0] == 'a' && "enhanced-mode"@[0] == 'e');
    assert forall|i: int, j: int| 0 <= i < p.len() && 0 <= j < p.len() && i != j implies apart(
        #[trigger] p[i],
        #[trigger] p[j],
    ) by {
        let a = p[i];
        let b = p[j];
        if a[0] != b[0] {
            assert(0 <= 0 < a.len() && 0 <= 0 < b.len() && a[0] != b[0]);
        } else {
            assert(a.len() == 2 && b.len() == 2);
            assert(a[1] != b[1]);
            assert(0 <= 1 < a.len() && 0 <= 1 < b.len() && a[1] != b[1]);
        }
    }
}

/// The documents that the steps of enabling go through, the first being
/// the document as loaded and the last the enabled one.
pub open spec fn enable_steps(root: NodeView) -> Seq<NodeView> {
    let n1 = root.assigned(tun_path(), "enable"@, NodeView::Bool(true));
    let n2 = n1.defaulted(tun_path(), "auto-route"@, NodeView::Bool(true));
    let n3 = n2.defaulted(tun_path(), "auto-detect-interface"@, NodeView::Bool(true));
    let n4 = n3.defaulted(tun_path(), "auto-redirect"@, NodeView::Bool(true));
    let n5 = n4.defaulted(tun_path(), "strict-route"@, NodeView::Bool(false));
    let n6 = n5.defaulted(tun_path(), "stack"@, NodeView::Text("mixed"@));
    let n7 = n6.defaulted(dns_path(), "enable"@, NodeView::Bool(true));
    let n8 = n7.assigned(root_path(), "ipv6"@, NodeView::Bool(false));
    let n9 = n8.assigned(dns_path(), "ipv6"@, NodeView::Bool(false));
    let n10 = n9.defaulted(dns_path(), "enhanced-mode"@, NodeView::Text("fake-ip"@));
    let n11 = n10.defaulted(
        root_path(),
        "redir-port"@,
        NodeView::Number(decimal(DEFAULT_REDIR_PORT as nat)),
    );
    seq![root, n1, n2, n3, n4, n5, n6, n7, n8, n9, n10, n11]
}

/// The value that step `k` of enabling writes.
pub open spec fn enable_value(k: int) -> NodeView {
    if k == 4 {
        NodeView::Bool(false)
    } else if k == 5 {
        NodeView::Text("mixed"@)
    } else if k == 7 || k == 8 {
        NodeView::Bool(false)
    } else if k == 9 {
        NodeView::Text("fake-ip"@)
    } else if k == 10 {
        NodeView::Number(decimal(DEFAULT_REDIR_PORT as nat))
    } else {
        NodeView::Bool(true)
    }
}

/// Whether step `k` of enabling writes whatever is there (and not only
/// where nothing is).
pub open spec fn enable_forces(k: int) -> bool {
    k == 0 || k == 7 || k == 8
}

/// What a place holds after all steps of enabling, from what it held after
/// step `k`: the steps that follow touch other places only.
proof fn lemma_enable_later_steps(root: NodeView, k: int, place: int)
    requires
        0 <= place < 11,
        place < k <= 11,
    ensures
        enable_steps(root)[11].get(
            enable_places()[place].drop_last(),
            enable_places()[place].last(),
        ) == enable_steps(root)[k].get(
            enable_places()[place].drop_last(),
            enable_places()[place].last(),
        ),
    decreases 11 - k,
{
    if k < 11 {
        lemma_enable_later_steps(root, k + 1, place);
        lemma_enable_step_frame(root, k, place);
    }
}

/// Step `k` of enabling leaves every place but its own as it was.
proof fn lemma_enable_step_frame(root: NodeView, k: int, place: int)
    requires
        0 <= place < 11,
        0 <= k < 11,
        k != place,
    ensures
        enable_steps(root)[k + 1].get(
            enable_places()[place].drop_last(),
            enable_places()[place].last(),
        ) == enable_steps(root)[k].get(
            enable_places()[place].drop_last(),
            enable_places()[place].last(),
        ),
{
    lemma_enable_places_apart();
    let steps = enable_steps(root);
    let own = enable_places()[k];
    let other = enable_places()[place];
    assert(apart(own, other));
    assert(own.drop_last().push(own.last()) =~= own);
    assert(other.drop_last().push(other.last()) =~= other);
    let before = steps[k];
    if enable_forces(k) {
        lemma_assigned_frame(
            before,
            own.drop_last(),
            own.last(),
            enable_value(k),
            other.drop_last(),
            other.last(),
        );
        assert(steps[k + 1] == before.assigned(own.drop_last(), own.last(), enable_value(k))) by {
            lemma_enable_step_shape(root, k);
        }
    } else {
        lemma_defaulted_frame(
            before,
            own.drop_last(),
            own.last(),
            enable_value(k),
            other.drop_last(),
            other.last(),
        );
        assert(steps[k + 1] == before.defaulted(own.drop_last(), own.last(), enable_value(k))) by {
            lemma_enable_step_shape(root, k);
        }
    }
}

/// Step `k` of enabling stores its value at its place, by force or as a
/// default.
proof fn lemma_enable_step_shape(root: NodeView, k: int)
    requires
        0 <= k < 11,
    ensures
        enable_forces(k) ==> enable_steps(root)[k + 1] == enable_steps(root)[k].assigned(
            enable_places()[k].drop_last(),
            enable_places()[k].last(),
            enable_value(k),
        ),
        !enable_forces(k) ==> enable_steps(root)[k + 1] == enable_steps(root)[k].defaulted(
            enable_places()[k].drop_last(),
            enable_places()[k].last(),
            enable_value(k),
        ),
        enable_steps(root)[0] == root,
        enable_steps(root)[11] == enabled_config(root),
{
    assert(tun_path().push("enable"@).drop_last() =~= tun_path());
    assert(tun_path().push("auto-route"@).drop_last() =~= tun_path());
    assert(tun_path().push("auto-detect-interface"@).drop_last() =~= tun_path());
    assert(tun_path().push("auto-redirect"@).drop_last() =~= tun_path());
    assert(tun_path().push("strict-route"@).drop_last() =~= tun_path());
    assert(tun_path().push("stack"@).drop_last() =~= tun_path());
    assert(dns_path().push("enable"@).drop_last() =~= dns_path());
    assert(root_path().push("ipv6"@).drop_last() =~= root_path());
    assert(dns_path().push("ipv6"@).drop_last() =~= dns_path());
    assert(dns_path().push("enhanced-mode"@).drop_last() =~= dns_path());
    assert(root_path().push("redir-port"@).drop_last() =~= root_path());
}

/// What a place holds after step `k` of enabling, from what it held in the
/// document as loaded, where `k` is not past the place's own step.
proof fn lemma_enable_earlier_steps(root: NodeView, k: int, place: int)
    requires
        0 <= place < 11,
        0 <= k <= place,
    ensures
        enable_steps(root)[k].get(
            enable_places()[place].drop_last(),
            enable_places()[place].last(),
        ) == root.get(enable_places()[place].drop_last(), enable_places()[place].last()),
    decreases k,
{
    if k > 0 {
        lemma_enable_earlier_steps(root, k - 1, place);
        lemma_enable_step_frame(root, k - 1, place);
    }
}

/// Enabling forces `tun.enable` on and both IPv6 switches off, whatever
/// the configuration held.
pub proof fn lemma_enable_forces(root: NodeView)
    ensures
        enabled_config(root).get(tun_path(), "enable"@) == Some(NodeView::Bool(true)),
        enabled_config(root).get(root_path(), "ipv6"@) == Some(NodeView::Bool(false)),
        enabled_config(root).get(dns_path(), "ipv6"@) == Some(NodeView::Bool(false)),
{
    let steps = enable_steps(root);
    lemma_enable_step_shape(root, 0);
    lemma_enable_step_shape(root, 7);
    lemma_enable_step_shape(root, 8);
    lemma_assigned_found(steps[0], tun_path(), "enable"@, NodeView::Bool(true));
    lemma_assigned_found(steps[7], root_path(), "ipv6"@, NodeView::Bool(false));
    lemma_assigned_found(steps[8], dns_path(), "ipv6"@, NodeView::Bool(false));
    lemma_enable_later_steps(root, 1, 0);
    lemma_enable_later_steps(root, 8, 7);
    lemma_enable_later_steps(root, 9, 8);
    assert(enable_places()[0].last() == "enable"@);
    assert(enable_places()[7].last() == "ipv6"@);
    assert(enable_places()[8].last() == "ipv6"@);
    assert(enable_places()[0].drop_last() =~= tun_path());
    assert(enable_places()[7].drop_last() =~= root_path());
    assert(enable_places()[8].drop_last() =~= dns_path());
}

/// Enabling never replaces what a default's place holds: where the
/// configuration has an entry at the place of step `k`, a default, the
/// enabled configuration has the same entry, whatever its value; where it
/// has none, the enabled configuration has the default.
pub proof fn lemma_enable_keeps(root: NodeView, k: int)
    requires
        0 <= k < 11,
        !enable_forces(k),
    ensures
        root.get(enable_places()[k].drop_last(), enable_places()[k].last()) is Some
            ==> enabled_config(root).get(
            enable_places()[k].drop_last(),
            enable_places()[k].last(),
        ) == root.get(enable_places()[k].drop_last(), enable_places()[k].last()),
        root.get(enable_places()[k].drop_last(), enable_places()[k].last()) is None
            ==> enabled_config(root).get(
            enable_places()[k].drop_last(),
            enable_places()[k].last(),
        ) == Some(enable_value(k)),
{
    let steps = enable_steps(root);
    let place = enable_places()[k];
    lemma_enable_step_shape(root, k);
    lemma_enable_earlier_steps(root, k, k);
    lemma_defaulted_get(steps[k], place.drop_last(), place.last(), enable_value(k));
    lemma_enable_later_steps(root, k + 1, k);
}

/// A `false` at `tun.auto-route` survives enabling.
pub proof fn lemma_enable_keeps_auto_route_off(root: NodeView)
    requires
        root.get(tun_path(), "auto-route"@) == Some(NodeView::Bool(false)),
    ensures
        enabled_config(root).get(tun_path(), "auto-route"@) == Some(NodeView::Bool(false)),
{
    lemma_enable_keeps(root, 1);
    assert(enable_places()[1].drop_last() =~= tun_path());
    assert(enable_places()[1].last() == "auto-route"@);
}

/// What every place holds in an enabled configuration: an entry.
proof fn lemma_enabled_has(root: NodeView, place: int)
    requires
        0 <= place < 11,
    ensures
        enabled_config(root).get(
            enable_places()[place].drop_last(),
            enable_places()[place].last(),
        ) is Some,
        enable_forces(place) ==> enabled_config(root).get(
            enable_places()[place].drop_last(),
            enable_places()[place].last(),
        ) == Some(enable_value(place)),
{
    if enable_forces(place) {
        let steps = enable_steps(root);
        let own = enable_places()[place];
        lemma_enable_step_shape(root, place);
        lemma_assigned_found(steps[place], own.drop_last(), own.last(), enable_value(place));
        lemma_enable_later_steps(root, place + 1, place);
    } else {
        lemma_enable_keeps(root, place);
    }
}

/// Step `k` of enabling changes nothing in a configuration that is
/// already enabled.
proof fn lemma_enable_again_step(root: NodeView, k: int)
    requires
        0 <= k <= 11,
    ensures
        enable_steps(enabled_config(root))[k] == enabled_config(root),
    decreases k,
{
    let done = enabled_config(root);
    if k > 0 {
        lemma_enable_again_step(root, k - 1);
        lemma_enable_step_shape(done, k - 1);
        lemma_enabled_has(root, k - 1);
        let own = enable_places()[k - 1];
        if enable_forces(k - 1) {
            lemma_assigned_same(done, own.drop_last(), own.last(), enable_value(k - 1));
        } else {
            lemma_default_keeps(done, own.drop_last(), own.last(), enable_value(k - 1));
        }
    } else {
        lemma_enable_step_shape(done, 0);
    }
}

/// A configuration that was loaded is the document that its text stands
/// for.
pub proof fn lemma_loaded_document(log: Seq<ExchangeView>, at: int, path: Seq<char>)
    requires
        load_or_init(log, at, path).out is Ok,
    ensures
        yaml_read(load_or_init(log, at, path).out->Ok_0.text) is Ok,
        load_or_init(log, at, path).out->Ok_0.root == document_of(
            yaml_read(load_or_init(log, at, path).out->Ok_0.text)->Ok_0,
        ),
{
    reveal(load_or_init);
}

/// An enabled configuration is a mapping.
pub proof fn lemma_enabled_is_mapping(root: NodeView)
    ensures
        enabled_config(root).is_mapping(),
{
    let e = enabled_config(root);
    assert forall|n: NodeView, path: Seq<Seq<char>>| (#[trigger] n.ensured(path)).is_mapping() by {
        lemma_with_entries(n, ensured_entries(n.entries(), path));
    }
    assert forall|n: NodeView, path: Seq<Seq<char>>, key: Seq<char>, value: NodeView| (
    #[trigger] n.assigned(path, key, value)).is_mapping() by {
        lemma_with_entries(n, assigned_entries(n.entries(), path, key, value));
    }
}

/// Enabling twice is enabling once: a configuration that `on` has written
/// is left as it is by the next `on`.
pub proof fn lemma_enable_idempotent(root: NodeView)
    ensures
        enabled_config(enabled_config(root)) == enabled_config(root),
{
    lemma_enable_again_step(root, 11);
    lemma_enable_step_shape(enabled_config(root), 0);
}

} // verus!
