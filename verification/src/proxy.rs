//! The terminal proxy: the address that shells are pointed at, the scripts
//! that set and unset the proxy variables, and the hook in a shell's
//! start-up file that sets them in every new terminal.

use crate::cli::{
    AutoAction, EnvAction, ProxyCommand, ProxyCommandView, ShellKind, StartArgs, StartArgsView,
    StopArgs,
};
use crate::files::{
    bare_failure, file_done, file_op, file_read, file_written, is_there, path_exists, read_file,
    remove_if_there, removed_if_there, write_file,
};
use crate::host::{
    ask, bind, conclude, done, failed, halted, owned, ran, ran_view, record_views, text_view,
    told, Effect, EffectView, Exchange, ExchangeView, Fault, FaultKind, FaultView, FileOp, Halt,
    HaltView, HostEnv, HostEnvView, Ran, Replay, ReplyView, Step,
};
use crate::paths::{app_paths, join_path, joined, located, AppPaths, AppPathsView};
use crate::text::{
    after, before, chars_of, contains, decimal, ends_with, has_part, has_suffix, is_word, lines,
    parse_unsigned, parse_unsigned_chars, push_decimal, push_str, rows, split_at_char,
    split_lines, text_of, trim, trim_chars,
};
use crate::yaml::{key_value, port_of, read_yaml, untagged, yaml_read, Node, NodeView};
use vstd::prelude::*;

verus! {

/// The line that opens the hook in a shell's start-up file.
pub const HOOK_START: &'static str = "# >>> clash-cli proxy >>>";

/// The line that closes the hook.
pub const HOOK_END: &'static str = "# <<< clash-cli proxy <<<";

pub const DEFAULT_PROXY_HOST: &'static str = "127.0.0.1";

pub const DEFAULT_HTTP_PORT: u16 = 7890;

pub const DEFAULT_SOCKS_PORT: u16 = 7891;

/// What the hook does: it sources the environment file where there is one.
pub const SHELL_HOOK_BODY: &'static str =
    "if [ -n \"$CLASH_CLI_HOME\" ] && [ -f \"$CLASH_CLI_HOME/proxy.env\" ]; then\n  . \"$CLASH_CLI_HOME/proxy.env\"\nelif [ -n \"$XDG_CONFIG_HOME\" ] && [ -f \"$XDG_CONFIG_HOME/clash-cli/proxy.env\" ]; then\n  . \"$XDG_CONFIG_HOME/clash-cli/proxy.env\"\nelif [ -f \"$HOME/.config/clash-cli/proxy.env\" ]; then\n  . \"$HOME/.config/clash-cli/proxy.env\"\nfi";

/// The script that unsets the proxy variables.
pub const UNSET_SCRIPT: &'static str =
    "unset http_proxy\nunset https_proxy\nunset HTTP_PROXY\nunset HTTPS_PROXY\nunset all_proxy\nunset ALL_PROXY\nunset no_proxy\nunset NO_PROXY\n";

/// The proxy that shells are pointed at.
#[derive(Debug)]
pub struct ProxyState {
    pub host: String,
    pub http_port: u16,
    pub socks_port: u16,
    pub no_proxy: String,
}

pub struct ProxyStateView {
    pub host: Seq<char>,
    pub http_port: u16,
    pub socks_port: u16,
    pub no_proxy: Seq<char>,
}

impl View for ProxyState {
    type V = ProxyStateView;

    open spec fn view(&self) -> ProxyStateView {
        ProxyStateView {
            host: self.host@,
            http_port: self.http_port,
            socks_port: self.socks_port,
            no_proxy: self.no_proxy@,
        }
    }
}

/// What the runtime configuration says about the proxy's listeners.
#[derive(Debug)]
pub struct RuntimeProxyDefaults {
    pub host: Option<String>,
    pub mixed_port: Option<u16>,
    pub http_port: Option<u16>,
    pub socks_port: Option<u16>,
}

pub struct RuntimeProxyDefaultsView {
    pub host: Option<Seq<char>>,
    pub mixed_port: Option<u16>,
    pub http_port: Option<u16>,
    pub socks_port: Option<u16>,
}

impl View for RuntimeProxyDefaults {
    type V = RuntimeProxyDefaultsView;

    open spec fn view(&self) -> RuntimeProxyDefaultsView {
        RuntimeProxyDefaultsView {
            host: text_view(self.host),
            mixed_port: self.mixed_port,
            http_port: self.http_port,
            socks_port: self.socks_port,
        }
    }
}

/// What loading the listeners' defaults came to: the defaults, and the
/// failure where the runtime configuration could not be loaded (the
/// defaults are then empty).
#[derive(Debug)]
pub struct LoadedDefaults {
    pub defaults: RuntimeProxyDefaults,
    pub fault: Option<Fault>,
}

pub struct LoadedDefaultsView {
    pub defaults: RuntimeProxyDefaultsView,
    pub fault: Option<FaultView>,
}

/// The view of an optional failure.
pub open spec fn fault_view(f: Option<Fault>) -> Option<FaultView> {
    match f {
        Some(x) => Some(x@),
        None => None,
    }
}

impl View for LoadedDefaults {
    type V = LoadedDefaultsView;

    open spec fn view(&self) -> LoadedDefaultsView {
        LoadedDefaultsView { defaults: self.defaults@, fault: fault_view(self.fault) }
    }
}

/// Nothing known from the runtime configuration.
pub open spec fn no_defaults() -> RuntimeProxyDefaultsView {
    RuntimeProxyDefaultsView { host: None, mixed_port: None, http_port: None, socks_port: None }
}

// ---------------------------------------------------------------------------
// The state file and the scripts
// ---------------------------------------------------------------------------

/// The text of the proxy state file.
pub open spec fn proxy_state_text(s: ProxyStateView) -> Seq<char> {
    "host="@ + s.host + "\nhttp_port="@ + decimal(s.http_port as nat) + "\nsocks_port="@
        + decimal(s.socks_port as nat) + "\nno_proxy="@ + s.no_proxy + "\n"@
}

/// The HTTP endpoint of the proxy.
pub open spec fn http_endpoint(s: ProxyStateView) -> Seq<char> {
    "http://"@ + s.host + ":"@ + decimal(s.http_port as nat)
}

/// The SOCKS endpoint of the proxy.
pub open spec fn socks_endpoint(s: ProxyStateView) -> Seq<char> {
    "socks5://"@ + s.host + ":"@ + decimal(s.socks_port as nat)
}

/// The script that sets the proxy variables.
pub open spec fn export_text(s: ProxyStateView) -> Seq<char> {
    "export http_proxy="@ + http_endpoint(s) + "\nexport https_proxy="@ + http_endpoint(s)
        + "\nexport HTTP_PROXY="@ + http_endpoint(s) + "\nexport HTTPS_PROXY="@ + http_endpoint(
        s,
    ) + "\nexport all_proxy="@ + socks_endpoint(s) + "\nexport ALL_PROXY="@ + socks_endpoint(s)
        + "\nexport no_proxy="@ + s.no_proxy + "\nexport NO_PROXY="@ + s.no_proxy + "\n"@
}

/// The fields read so far from a proxy state file.
#[derive(Debug)]
pub struct ProxyFields {
    pub host: Option<Vec<char>>,
    pub http_port: Option<u16>,
    pub socks_port: Option<u16>,
    pub no_proxy: Option<Vec<char>>,
}

pub struct ProxyFieldsView {
    pub host: Option<Seq<char>>,
    pub http_port: Option<u16>,
    pub socks_port: Option<u16>,
    pub no_proxy: Option<Seq<char>>,
}

impl View for ProxyFields {
    type V = ProxyFieldsView;

    open spec fn view(&self) -> ProxyFieldsView {
        ProxyFieldsView {
            host: match self.host {
                Some(h) => Some(h@),
                None => None,
            },
            http_port: self.http_port,
            socks_port: self.socks_port,
            no_proxy: match self.no_proxy {
                Some(h) => Some(h@),
                None => None,
            },
        }
    }
}

/// A fault of the proxy state file, with the name of the field.
pub open spec fn field_fault(kind: FaultKind, field: Seq<char>) -> FaultView {
    FaultView { kind, detail: field, rolled_back: false }
}

/// The fields once `line` is read.
pub open spec fn proxy_absorb(f: ProxyFieldsView, line: Seq<char>) -> Result<
    ProxyFieldsView,
    FaultView,
> {
    let key = trim(before(line, '='));
    let value = trim(after(line, '='));
    if key == "host"@ {
        Ok(ProxyFieldsView { host: Some(value), ..f })
    } else if key == "http_port"@ {
        match parse_unsigned(value, 0xffff) {
            Some(n) => Ok(ProxyFieldsView { http_port: Some(n as u16), ..f }),
            None => Err(field_fault(FaultKind::ProxyStatePort, "http_port"@)),
        }
    } else if key == "socks_port"@ {
        match parse_unsigned(value, 0xffff) {
            Some(n) => Ok(ProxyFieldsView { socks_port: Some(n as u16), ..f }),
            None => Err(field_fault(FaultKind::ProxyStatePort, "socks_port"@)),
        }
    } else if key == "no_proxy"@ {
        Ok(ProxyFieldsView { no_proxy: Some(value), ..f })
    } else {
        Ok(f)
    }
}

/// The fields once all `rest` is read.
pub open spec fn proxy_scan(rest: Seq<Seq<char>>, f: ProxyFieldsView) -> Result<
    ProxyFieldsView,
    FaultView,
>
    decreases rest.len(),
{
    if rest.len() == 0 {
        Ok(f)
    } else {
        match proxy_absorb(f, rest[0]) {
            Ok(g) => proxy_scan(rest.drop_first(), g),
            Err(e) => Err(e),
        }
    }
}

/// The state that the fields make: all four are required.
pub open spec fn proxy_complete(f: ProxyFieldsView) -> Result<ProxyStateView, FaultView> {
    if f.host is None {
        Err(field_fault(FaultKind::ProxyStateField, "host"@))
    } else if f.http_port is None {
        Err(field_fault(FaultKind::ProxyStateField, "http_port"@))
    } else if f.socks_port is None {
        Err(field_fault(FaultKind::ProxyStateField, "socks_port"@))
    } else if f.no_proxy is None {
        Err(field_fault(FaultKind::ProxyStateField, "no_proxy"@))
    } else {
        Ok(
            ProxyStateView {
                host: f.host->0,
                http_port: f.http_port->0,
                socks_port: f.socks_port->0,
                no_proxy: f.no_proxy->0,
            },
        )
    }
}

/// No field read yet.
pub open spec fn no_proxy_fields() -> ProxyFieldsView {
    ProxyFieldsView { host: None, http_port: None, socks_port: None, no_proxy: None }
}

/// The state that a proxy state file's text holds.
pub open spec fn parse_proxy_state(content: Seq<char>) -> Result<ProxyStateView, FaultView> {
    match proxy_scan(lines(content), no_proxy_fields()) {
        Ok(f) => proxy_complete(f),
        Err(e) => Err(e),
    }
}

/// The view of a result with a fault.
pub open spec fn result_view<T: View>(r: Result<T, Fault>) -> Result<T::V, FaultView> {
    match r {
        Ok(v) => Ok(v@),
        Err(e) => Err(e@),
    }
}

/// A fault with the name of a field.
fn field_error(kind: FaultKind, field: &str) -> (f: Fault)
    ensures
        f@ == field_fault(kind, field@),
{
    Fault { kind, detail: owned(field), rolled_back: false }
}

/// Reads one line into the fields.
fn absorb_proxy_line(f: ProxyFields, line: &Vec<char>) -> (r: Result<ProxyFields, Fault>)
    ensures
        result_view(r) == proxy_absorb(f@, line@),
{
    let (k, v) = split_at_char(line, '=');
    let key = trim_chars(&k);
    let value = trim_chars(&v);
    let mut f = f;
    if is_word(&key, "host") {
        f.host = Some(value);
        Ok(f)
    } else if is_word(&key, "http_port") {
        match parse_unsigned_chars(&value, 0xffff) {
            Some(n) => {
                f.http_port = Some(n as u16);
                Ok(f)
            },
            None => Err(field_error(FaultKind::ProxyStatePort, "http_port")),
        }
    } else if is_word(&key, "socks_port") {
        match parse_unsigned_chars(&value, 0xffff) {
            Some(n) => {
                f.socks_port = Some(n as u16);
                Ok(f)
            },
            None => Err(field_error(FaultKind::ProxyStatePort, "socks_port")),
        }
    } else if is_word(&key, "no_proxy") {
        f.no_proxy = Some(value);
        Ok(f)
    } else {
        Ok(f)
    }
}

impl ProxyState {
    /// The state as the text of the state file.
    pub fn to_state_file(&self) -> (r: String)
        ensures
            r@ == proxy_state_text(self@),
    {
        let mut out: Vec<char> = Vec::new();
        assert(out@ =~= Seq::<char>::empty());
        push_str(&mut out, "host=");
        assert(out@ =~= "host="@);
        push_str(&mut out, self.host.as_str());
        push_str(&mut out, "\nhttp_port=");
        push_decimal(&mut out, self.http_port as u64);
        push_str(&mut out, "\nsocks_port=");
        push_decimal(&mut out, self.socks_port as u64);
        push_str(&mut out, "\nno_proxy=");
        push_str(&mut out, self.no_proxy.as_str());
        push_str(&mut out, "\n");
        text_of(&out)
    }

    /// The state that the text of a state file holds.
    pub fn from_state_file(content: &str) -> (r: Result<ProxyState, Fault>)
        ensures
            result_view(r) == parse_proxy_state(content@),
    {
        let chars = chars_of(content);
        let all = split_lines(&chars);
        let mut f = ProxyFields { host: None, http_port: None, socks_port: None, no_proxy: None };
        let mut i: usize = 0;
        assert(rows(all@).skip(0) =~= rows(all@));
        while i < all.len()
            invariant
                i <= all.len(),
                rows(all@) == lines(content@),
                proxy_scan(rows(all@).skip(i as int), f@) == proxy_scan(
                    lines(content@),
                    no_proxy_fields(),
                ),
            decreases all.len() - i,
        {
            let ghost rest = rows(all@).skip(i as int);
            assert(rest[0] == all@[i as int]@);
            assert(rest.drop_first() =~= rows(all@).skip(i + 1));
            match absorb_proxy_line(f, &all[i]) {
                Ok(g) => {
                    f = g;
                },
                Err(e) => {
                    return Err(e);
                },
            }
            i = i + 1;
        }
        if f.host.is_none() {
            return Err(field_error(FaultKind::ProxyStateField, "host"));
        }
        if f.http_port.is_none() {
            return Err(field_error(FaultKind::ProxyStateField, "http_port"));
        }
        if f.socks_port.is_none() {
            return Err(field_error(FaultKind::ProxyStateField, "socks_port"));
        }
        if f.no_proxy.is_none() {
            return Err(field_error(FaultKind::ProxyStateField, "no_proxy"));
        }
        let host = f.host.unwrap();
        let no_proxy = f.no_proxy.unwrap();
        Ok(
            ProxyState {
                host: text_of(&host),
                http_port: f.http_port.unwrap(),
                socks_port: f.socks_port.unwrap(),
                no_proxy: text_of(&no_proxy),
            },
        )
    }

    /// The script that sets the proxy variables.
    pub fn export_script(&self) -> (r: String)
        ensures
            r@ == export_text(self@),
    {
        let mut http: Vec<char> = Vec::new();
        assert(http@ =~= Seq::<char>::empty());
        push_str(&mut http, "http://");
        assert(http@ =~= "http://"@);
        push_str(&mut http, self.host.as_str());
        push_str(&mut http, ":");
        push_decimal(&mut http, self.http_port as u64);
        let http = text_of(&http);
        let mut socks: Vec<char> = Vec::new();
        assert(socks@ =~= Seq::<char>::empty());
        push_str(&mut socks, "socks5://");
        assert(socks@ =~= "socks5://"@);
        push_str(&mut socks, self.host.as_str());
        push_str(&mut socks, ":");
        push_decimal(&mut socks, self.socks_port as u64);
        let socks = text_of(&socks);
        let mut out: Vec<char> = Vec::new();
        assert(out@ =~= Seq::<char>::empty());
        push_str(&mut out, "export http_proxy=");
        assert(out@ =~= "export http_proxy="@);
        push_str(&mut out, http.as_str());
        push_str(&mut out, "\nexport https_proxy=");
        push_str(&mut out, http.as_str());
        push_str(&mut out, "\nexport HTTP_PROXY=");
        push_str(&mut out, http.as_str());
        push_str(&mut out, "\nexport HTTPS_PROXY=");
        push_str(&mut out, http.as_str());
        push_str(&mut out, "\nexport all_proxy=");
        push_str(&mut out, socks.as_str());
        push_str(&mut out, "\nexport ALL_PROXY=");
        push_str(&mut out, socks.as_str());
        push_str(&mut out, "\nexport no_proxy=");
        push_str(&mut out, self.no_proxy.as_str());
        push_str(&mut out, "\nexport NO_PROXY=");
        push_str(&mut out, self.no_proxy.as_str());
        push_str(&mut out, "\n");
        text_of(&out)
    }
}

/// The script that unsets the proxy variables.
pub fn unset_script() -> (r: String)
    ensures
        r@ == UNSET_SCRIPT@,
{
    owned(UNSET_SCRIPT)
}

// ---------------------------------------------------------------------------
// The address to use
// ---------------------------------------------------------------------------

/// The first of the optional ports that is there.
pub open spec fn first_port(a: Option<u16>, b: Option<u16>, c: Option<u16>, fallback: u16) -> u16 {
    match a {
        Some(p) => p,
        None => match b {
            Some(p) => p,
            None => match c {
                Some(p) => p,
                None => fallback,
            },
        },
    }
}

/// The proxy to point shells at: what the command says, else what the
/// runtime configuration says (the mixed port serving both protocols), else
/// the defaults.
pub open spec fn resolved(args: StartArgsView, runtime: RuntimeProxyDefaultsView) -> ProxyStateView {
    ProxyStateView {
        host: match args.host {
            Some(h) => h,
            None => match runtime.host {
                Some(h) => h,
                None => DEFAULT_PROXY_HOST@,
            },
        },
        http_port: first_port(
            args.http_port,
            runtime.mixed_port,
            runtime.http_port,
            DEFAULT_HTTP_PORT,
        ),
        socks_port: first_port(
            args.socks_port,
            runtime.socks_port,
            runtime.mixed_port,
            DEFAULT_SOCKS_PORT,
        ),
        no_proxy: args.no_proxy,
    }
}

pub fn resolve_start_proxy_state(args: &StartArgs, runtime: RuntimeProxyDefaults) -> (r:
    ProxyState)
    ensures
        r@ == resolved(args@, runtime@),
{
    let host = match &args.host {
        Some(h) => h.clone(),
        None => match runtime.host {
            Some(h) => h,
            None => owned(DEFAULT_PROXY_HOST),
        },
    };
    let http_port = match args.http_port {
        Some(p) => p,
        None => match runtime.mixed_port {
            Some(p) => p,
            None => match runtime.http_port {
                Some(p) => p,
                None => DEFAULT_HTTP_PORT,
            },
        },
    };
    let socks_port = match args.socks_port {
        Some(p) => p,
        None => match runtime.socks_port {
            Some(p) => p,
            None => match runtime.mixed_port {
                Some(p) => p,
                None => DEFAULT_SOCKS_PORT,
            },
        },
    };
    ProxyState { host, http_port, socks_port, no_proxy: args.no_proxy.clone() }
}

/// The host to reach a listener at: the bind address without surrounding
/// whitespace, with the local address in place of an address that binds
/// every interface; none for an empty one.
pub open spec fn runtime_host(value: Seq<char>) -> Option<Seq<char>> {
    let host = trim(value);
    if host.len() == 0 {
        None
    } else if host == "0.0.0.0"@ || host == "::"@ || host == "*"@ {
        Some(DEFAULT_PROXY_HOST@)
    } else {
        Some(host)
    }
}

pub fn normalize_runtime_host(value: &str) -> (r: Option<String>)
    ensures
        text_view(r) == runtime_host(value@),
{
    let host = trim_chars(&chars_of(value));
    if host.len() == 0 {
        return None;
    }
    if is_word(&host, "0.0.0.0") || is_word(&host, "::") || is_word(&host, "*") {
        return Some(owned(DEFAULT_PROXY_HOST));
    }
    Some(text_of(&host))
}

/// The text at `key` of the root, without surrounding whitespace.
pub open spec fn root_string(root: NodeView, key: Seq<char>) -> Option<Seq<char>> {
    match root.field(key) {
        Some(v) => match v.as_text() {
            Some(s) => Some(trim(s)),
            None => None,
        },
        None => None,
    }
}

/// The port at `key` of the root: an integer in range, or a text that,
/// without surrounding whitespace, writes one.
pub open spec fn root_port(root: NodeView, key: Seq<char>) -> Option<u16> {
    match root.field(key) {
        Some(v) => match v.as_int() {
            Some(i) => if 0 <= i <= 0xffff {
                Some(i as u16)
            } else {
                None
            },
            None => match v.as_text() {
                Some(s) => match parse_unsigned(trim(s), 0xffff) {
                    Some(n) => Some(n as u16),
                    None => None,
                },
                None => None,
            },
        },
        None => None,
    }
}

pub fn yaml_root_string(root: &Node, key: &str) -> (r: Option<String>)
    ensures
        text_view(r) == root_string(root@, key@),
{
    match key_value(root, key) {
        Some(v) => match untagged(v) {
            Node::Text(s) => {
                let t = trim_chars(&chars_of(s.as_str()));
                Some(text_of(&t))
            },
            _ => None,
        },
        None => None,
    }
}

pub fn yaml_root_u16(root: &Node, key: &str) -> (r: Option<u16>)
    ensures
        r == root_port(root@, key@),
{
    match key_value(root, key) {
        Some(v) => match untagged(v) {
            Node::Number(_) => port_of(v),
            Node::Text(s) => {
                let t = trim_chars(&chars_of(s.as_str()));
                match parse_unsigned_chars(&t, 0xffff) {
                    Some(n) => Some(n as u16),
                    None => None,
                }
            },
            _ => None,
        },
        None => None,
    }
}

/// What a runtime configuration says about the proxy's listeners.
pub open spec fn defaults_of(root: NodeView) -> RuntimeProxyDefaultsView {
    RuntimeProxyDefaultsView {
        host: match root_string(root, "bind-address"@) {
            Some(h) => runtime_host(h),
            None => None,
        },
        mixed_port: root_port(root, "mixed-port"@),
        http_port: root_port(root, "port"@),
        socks_port: root_port(root, "socks-port"@),
    }
}

/// Reads the listeners off a runtime configuration.
pub fn runtime_defaults_of(root: &Node) -> (r: RuntimeProxyDefaults)
    ensures
        r@ == defaults_of(root@),
{
    let host = match yaml_root_string(root, "bind-address") {
        Some(h) => normalize_runtime_host(h.as_str()),
        None => None,
    };
    RuntimeProxyDefaults {
        host,
        mixed_port: yaml_root_u16(root, "mixed-port"),
        http_port: yaml_root_u16(root, "port"),
        socks_port: yaml_root_u16(root, "socks-port"),
    }
}

// ---------------------------------------------------------------------------
// The hook
// ---------------------------------------------------------------------------

/// The hook as it stands in a start-up file.
pub open spec fn hook_block() -> Seq<char> {
    HOOK_START@ + "\n"@ + SHELL_HOOK_BODY@ + "\n"@ + HOOK_END@ + "\n"@
}

pub fn shell_hook_block() -> (r: String)
    ensures
        r@ == hook_block(),
{
    let mut out: Vec<char> = Vec::new();
    assert(out@ =~= Seq::<char>::empty());
    push_str(&mut out, HOOK_START);
    assert(out@ =~= HOOK_START@);
    push_str(&mut out, "\n");
    push_str(&mut out, SHELL_HOOK_BODY);
    push_str(&mut out, "\n");
    push_str(&mut out, HOOK_END);
    push_str(&mut out, "\n");
    text_of(&out)
}

/// Whether a text holds both lines of the hook.
pub open spec fn has_hook(content: Seq<char>) -> bool {
    contains(content, HOOK_START@) && contains(content, HOOK_END@)
}

/// A start-up file with the hook added at its end, after a line break
/// where the file does not end in one.
pub open spec fn with_hook(existing: Seq<char>) -> Seq<char> {
    if existing.len() > 0 && existing.last() != '\n' {
        existing + "\n"@ + hook_block()
    } else {
        existing + hook_block()
    }
}

/// The lines that stay when the hook is removed: the lines of the hook,
/// from the opening to the closing line, are dropped.
pub open spec fn kept_lines(rest: Seq<Seq<char>>, inside: bool) -> Seq<Seq<char>>
    decreases rest.len(),
{
    if rest.len() == 0 {
        Seq::empty()
    } else if trim(rest[0]) == HOOK_START@ {
        kept_lines(rest.drop_first(), true)
    } else if trim(rest[0]) == HOOK_END@ {
        kept_lines(rest.drop_first(), false)
    } else if inside {
        kept_lines(rest.drop_first(), inside)
    } else {
        seq![rest[0]] + kept_lines(rest.drop_first(), inside)
    }
}

/// Lines as a text, each one ended by a line break.
pub open spec fn ended_lines(ls: Seq<Seq<char>>) -> Seq<char>
    decreases ls.len(),
{
    if ls.len() == 0 {
        Seq::empty()
    } else {
        ls[0] + "\n"@ + ended_lines(ls.drop_first())
    }
}

/// A start-up file without the hook.
pub open spec fn without_hook(content: Seq<char>) -> Seq<char> {
    ended_lines(kept_lines(lines(content), false))
}

pub fn remove_hook_block(content: &str) -> (r: String)
    ensures
        r@ == without_hook(content@),
{
    let chars = chars_of(content);
    let all = split_lines(&chars);
    let mut out: Vec<char> = Vec::new();
    let mut inside_block = false;
    let mut i: usize = 0;
    assert(rows(all@).skip(0) =~= rows(all@));
    assert(out@ =~= Seq::<char>::empty());
    assert(Seq::<char>::empty() + without_hook(content@) =~= without_hook(content@));
    while i < all.len()
        invariant
            i <= all.len(),
            rows(all@) == lines(content@),
            out@ + ended_lines(kept_lines(rows(all@).skip(i as int), inside_block))
                == without_hook(content@),
        decreases all.len() - i,
    {
        let ghost rest = rows(all@).skip(i as int);
        let ghost before_line = out@;
        assert(rest[0] == all@[i as int]@);
        assert(rest.drop_first() =~= rows(all@).skip(i + 1));
        let t = trim_chars(&all[i]);
        if is_word(&t, HOOK_START) {
            inside_block = true;
        } else if is_word(&t, HOOK_END) {
            inside_block = false;
        } else if !inside_block {
            let line = text_of(&all[i]);
            push_str(&mut out, line.as_str());
            push_str(&mut out, "\n");
            proof {
                let tail = kept_lines(rest.drop_first(), false);
                let kept = seq![rest[0]] + tail;
                assert(kept.drop_first() =~= tail);
                assert(kept[0] == rest[0]);
                assert(out@ + ended_lines(tail) =~= before_line + ended_lines(kept));
            }
        }
        i = i + 1;
    }
    assert(out@ + Seq::<char>::empty() =~= out@);
    text_of(&out)
}

/// The shell that `SHELL` names.
pub open spec fn shell_of(shell: Option<Seq<char>>) -> Option<ShellKind> {
    let name = match shell {
        Some(s) => s,
        None => Seq::empty(),
    };
    if ends_with(name, "zsh"@) {
        Some(ShellKind::Zsh)
    } else if ends_with(name, "bash"@) {
        Some(ShellKind::Bash)
    } else {
        None
    }
}

/// The shell of the user, from `SHELL`.
pub fn detect_shell(env: &HostEnv) -> (r: Result<ShellKind, Halt>)
    ensures
        match r {
            Ok(shell) => shell_of(env@.shell) == Some(shell),
            Err(h) => shell_of(env@.shell) is None && h@ == HaltView::Fail(
                FaultView { kind: FaultKind::ShellUnknown, detail: Seq::empty(), rolled_back: false },
            ),
        },
{
    let name = match &env.shell {
        Some(s) => chars_of(s.as_str()),
        None => Vec::new(),
    };
    assert(env@.shell is None ==> name@ =~= Seq::<char>::empty());
    if has_suffix(&name, &chars_of("zsh")) {
        return Ok(ShellKind::Zsh);
    }
    if has_suffix(&name, &chars_of("bash")) {
        return Ok(ShellKind::Bash);
    }
    Err(
        Halt::Fail(
            Fault { kind: FaultKind::ShellUnknown, detail: String::new(), rolled_back: false },
        ),
    )
}

/// The name of a shell's start-up file.
pub open spec fn rc_name(shell: ShellKind) -> Seq<char> {
    match shell {
        ShellKind::Bash => ".bashrc"@,
        ShellKind::Zsh => ".zshrc"@,
    }
}

/// The start-up file of a shell, in the home directory.
pub fn shell_rc_path(env: &HostEnv, shell: ShellKind) -> (r: Result<String, Halt>)
    ensures
        match r {
            Ok(path) => env@.home_dir is Some && path@ == joined(env@.home_dir->0, rc_name(shell)),
            Err(h) => env@.home_dir is None && h@ == HaltView::Fail(
                FaultView { kind: FaultKind::HomeUnknown, detail: Seq::empty(), rolled_back: false },
            ),
        },
{
    match &env.home_dir {
        Some(home) => {
            let file = match shell {
                ShellKind::Bash => ".bashrc",
                ShellKind::Zsh => ".zshrc",
            };
            Ok(join_path(home.as_str(), file))
        },
        None => Err(
            Halt::Fail(
                Fault { kind: FaultKind::HomeUnknown, detail: String::new(), rolled_back: false },
            ),
        ),
    }
}

// ---------------------------------------------------------------------------
// Reports
// ---------------------------------------------------------------------------

/// What a `proxy` command did or found.
#[derive(Debug)]
pub enum ProxyReport {
    Start {
        state: ProxyState,
        auto: bool,
        auto_shell: Option<ShellKind>,
        script: String,
        print_env: bool,
        /// The shell to name in the hint on how to enable the hook.
        hint_shell: Option<ShellKind>,
        /// Why the runtime configuration could not be loaded, where it
        /// could not: the ports are then the fixed defaults.
        defaults_fault: Option<Fault>,
    },
    Stop { auto_off: bool, auto_shell: Option<ShellKind>, script: String, print_env: bool },
    NotConfigured,
    Status { state: ProxyState, zsh_auto: bool, bash_auto: bool },
    EnvOn { script: String },
    EnvOff { script: String },
    AutoOn { shell: ShellKind },
    AutoOff { shell: ShellKind },
    AutoStatus { zsh: Option<bool>, bash: Option<bool> },
}

pub enum ProxyReportView {
    Start {
        state: ProxyStateView,
        auto: bool,
        auto_shell: Option<ShellKind>,
        script: Seq<char>,
        print_env: bool,
        hint_shell: Option<ShellKind>,
        defaults_fault: Option<FaultView>,
    },
    Stop { auto_off: bool, auto_shell: Option<ShellKind>, script: Seq<char>, print_env: bool },
    NotConfigured,
    Status { state: ProxyStateView, zsh_auto: bool, bash_auto: bool },
    EnvOn { script: Seq<char> },
    EnvOff { script: Seq<char> },
    AutoOn { shell: ShellKind },
    AutoOff { shell: ShellKind },
    AutoStatus { zsh: Option<bool>, bash: Option<bool> },
}

impl View for ProxyReport {
    type V = ProxyReportView;

    open spec fn view(&self) -> ProxyReportView {
        match self {
            ProxyReport::Start {
                state,
                auto,
                auto_shell,
                script,
                print_env,
                hint_shell,
                defaults_fault,
            } =>
                ProxyReportView::Start {
                    state: state@,
                    auto: *auto,
                    auto_shell: *auto_shell,
                    script: script@,
                    print_env: *print_env,
                    hint_shell: *hint_shell,
                    defaults_fault: fault_view(*defaults_fault),
                },
            ProxyReport::Stop { auto_off, auto_shell, script, print_env } => ProxyReportView::Stop {
                auto_off: *auto_off,
                auto_shell: *auto_shell,
                script: script@,
                print_env: *print_env,
            },
            ProxyReport::NotConfigured => ProxyReportView::NotConfigured,
            ProxyReport::Status { state, zsh_auto, bash_auto } => ProxyReportView::Status {
                state: state@,
                zsh_auto: *zsh_auto,
                bash_auto: *bash_auto,
            },
            ProxyReport::EnvOn { script } => ProxyReportView::EnvOn { script: script@ },
            ProxyReport::EnvOff { script } => ProxyReportView::EnvOff { script: script@ },
            ProxyReport::AutoOn { shell } => ProxyReportView::AutoOn { shell: *shell },
            ProxyReport::AutoOff { shell } => ProxyReportView::AutoOff { shell: *shell },
            ProxyReport::AutoStatus { zsh, bash } => ProxyReportView::AutoStatus {
                zsh: *zsh,
                bash: *bash,
            },
        }
    }
}

// ---------------------------------------------------------------------------
// Outcomes over a record
// ---------------------------------------------------------------------------

/// The shell of the user, or a failure.
pub open spec fn shell_found(env: HostEnvView, at: int) -> Ran<ShellKind> {
    match shell_of(env.shell) {
        Some(shell) => done(shell, at),
        None => bare_failure(FaultKind::ShellUnknown, at),
    }
}

/// The start-up file of a shell, or a failure.
pub open spec fn rc_found(env: HostEnvView, shell: ShellKind, at: int) -> Ran<Seq<char>> {
    match env.home_dir {
        Some(home) => done(joined(home, rc_name(shell)), at),
        None => bare_failure(FaultKind::HomeUnknown, at),
    }
}

/// What the runtime configuration says about the listeners: nothing where
/// there is no configuration, a failure where it cannot be read or is no
/// YAML.
pub open spec fn defaults_tried(log: Seq<ExchangeView>, at: int, path: Seq<char>) -> Ran<
    RuntimeProxyDefaultsView,
> {
    bind(
        is_there(log, at, path),
        |there: bool, at1: int|
            if !there {
                done(no_defaults(), at1)
            } else {
                bind(
                    file_read(log, at1, path, FaultKind::FileRead),
                    |content: Seq<char>, at2: int|
                        match yaml_read(content) {
                            Ok(root) => done(defaults_of(root), at2),
                            Err(message) => failed(FaultKind::YamlParse, message, at2),
                        },
                )
            },
    )
}

/// What the runtime configuration says about the listeners; where it
/// cannot be loaded, nothing, together with the failure.
#[verifier::opaque]
pub open spec fn runtime_defaults(log: Seq<ExchangeView>, at: int, path: Seq<char>) -> Ran<
    LoadedDefaultsView,
> {
    let tried = defaults_tried(log, at, path);
    match tried.out {
        Ok(defaults) => done(LoadedDefaultsView { defaults, fault: None }, tried.at),
        Err(HaltView::Need(e)) => halted(HaltView::Need(e), tried.at),
        Err(HaltView::Fail(fault)) => done(
            LoadedDefaultsView { defaults: no_defaults(), fault: Some(fault) },
            tried.at,
        ),
    }
}

/// The hook is put into a shell's start-up file unless it is there.
#[verifier::opaque]
pub open spec fn hook_installed(
    env: HostEnvView,
    log: Seq<ExchangeView>,
    at: int,
    shell: ShellKind,
) -> Ran<()> {
    bind(
        rc_found(env, shell, at),
        |rc: Seq<char>, at0: int|
            bind(
                ask(log, at0, EffectView::PathExists(rc)),
                |there: ReplyView, at1: int|
                    bind(
                        if there.ok {
                            file_read(log, at1, rc, FaultKind::FileRead)
                        } else {
                            done(Seq::empty(), at1)
                        },
                        |existing: Seq<char>, at2: int|
                            if has_hook(existing) {
                                done((), at2)
                            } else {
                                file_written(log, at2, rc, with_hook(existing))
                            },
                    ),
            ),
    )
}

/// The hook is taken out of a shell's start-up file, if there is a file.
#[verifier::opaque]
pub open spec fn hook_removed(
    env: HostEnvView,
    log: Seq<ExchangeView>,
    at: int,
    shell: ShellKind,
) -> Ran<()> {
    bind(
        rc_found(env, shell, at),
        |rc: Seq<char>, at0: int|
            bind(
                ask(log, at0, EffectView::PathExists(rc)),
                |there: ReplyView, at1: int|
                    if !there.ok {
                        done((), at1)
                    } else {
                        bind(
                            file_read(log, at1, rc, FaultKind::FileRead),
                            |content: Seq<char>, at2: int|
                                file_written(log, at2, rc, without_hook(content)),
                        )
                    },
            ),
    )
}

/// Whether a shell's start-up file holds the hook.
#[verifier::opaque]
pub open spec fn hook_present(
    env: HostEnvView,
    log: Seq<ExchangeView>,
    at: int,
    shell: ShellKind,
) -> Ran<bool> {
    bind(
        rc_found(env, shell, at),
        |rc: Seq<char>, at0: int|
            bind(
                ask(log, at0, EffectView::PathExists(rc)),
                |there: ReplyView, at1: int|
                    if !there.ok {
                        done(false, at1)
                    } else {
                        bind(
                            file_read(log, at1, rc, FaultKind::FileRead),
                            |content: Seq<char>, at2: int| done(has_hook(content), at2),
                        )
                    },
            ),
    )
}

/// The proxy state is loaded.
#[verifier::opaque]
pub open spec fn state_loaded(log: Seq<ExchangeView>, at: int, path: Seq<char>) -> Ran<
    ProxyStateView,
> {
    bind(
        ask(log, at, EffectView::PathExists(path)),
        |there: ReplyView, at1: int|
            if !there.ok {
                bare_failure(FaultKind::ProxyStateMissing, at1)
            } else {
                bind(
                    file_read(log, at1, path, FaultKind::ProxyStateRead),
                    |content: Seq<char>, at2: int|
                        match parse_proxy_state(content) {
                            Ok(state) => done(state, at2),
                            Err(f) => halted(HaltView::Fail(f), at2),
                        },
                )
            },
    )
}

/// `proxy start` once the paths are known.
#[verifier::opaque]
pub open spec fn started(
    env: HostEnvView,
    log: Seq<ExchangeView>,
    at: int,
    args: StartArgsView,
    paths: AppPathsView,
) -> Ran<ProxyReportView> {
    bind(
        runtime_defaults(log, at, paths.runtime_config_file),
        |loaded: LoadedDefaultsView, at1: int|
            bind(
                file_done(
                    log,
                    at1,
                    FileOp::CreateDir,
                    paths.config_dir,
                    Seq::empty(),
                    FaultKind::DirCreate,
                ),
                |u: (), at2: int|
                    bind(
                        file_written(
                            log,
                            at2,
                            paths.state_file,
                            proxy_state_text(resolved(args, loaded.defaults)),
                        ),
                        |u: (), at3: int|
                            bind(
                                file_written(
                                    log,
                                    at3,
                                    paths.env_file,
                                    export_text(resolved(args, loaded.defaults)),
                                ),
                                |u: (), at4: int|
                                    bind(
                                        start_hook(env, log, at4, args),
                                        |auto_shell: Option<ShellKind>, at5: int|
                                            bind(
                                                start_hint(env, at5, args),
                                                |hint_shell: Option<ShellKind>, at6: int|
                                                    done(
                                                        ProxyReportView::Start {
                                                            state: resolved(args, loaded.defaults),
                                                            auto: args.auto,
                                                            auto_shell,
                                                            script: export_text(
                                                                resolved(args, loaded.defaults),
                                                            ),
                                                            print_env: args.print_env,
                                                            hint_shell,
                                                            defaults_fault: loaded.fault,
                                                        },
                                                        at6,
                                                    ),
                                            ),
                                    ),
                            ),
                    ),
            ),
    )
}

/// The shell that an option names, once the user's own shell is found out:
/// the user's shell must be known even where the option names one.
pub open spec fn chosen_shell(env: HostEnvView, at: int, named: Option<ShellKind>) -> Ran<
    ShellKind,
> {
    bind(
        shell_found(env, at),
        |own: ShellKind, at1: int|
            done(
                match named {
                    Some(shell) => shell,
                    None => own,
                },
                at1,
            ),
    )
}

/// The hook is installed at `proxy start` where the command asks for it.
pub open spec fn start_hook(env: HostEnvView, log: Seq<ExchangeView>, at: int, args: StartArgsView) -> Ran<
    Option<ShellKind>,
> {
    if args.auto {
        bind(
            chosen_shell(env, at, args.shell),
            |shell: ShellKind, at1: int|
                bind(
                    hook_installed(env, log, at1, shell),
                    |u: (), at2: int| done(Some(shell), at2),
                ),
        )
    } else {
        done(None, at)
    }
}

/// The shell to name in the hint of `proxy start`: none where the script
/// is printed, or the hook was installed.
pub open spec fn start_hint(env: HostEnvView, at: int, args: StartArgsView) -> Ran<
    Option<ShellKind>,
> {
    if env.json || args.print_env || !env.stdout_terminal || args.auto {
        done(None, at)
    } else {
        bind(shell_found(env, at), |shell: ShellKind, at1: int| done(Some(shell), at1))
    }
}

/// `proxy stop` once the paths are known.
#[verifier::opaque]
pub open spec fn stopped(
    env: HostEnvView,
    log: Seq<ExchangeView>,
    at: int,
    args: StopArgs,
    paths: AppPathsView,
) -> Ran<ProxyReportView> {
    bind(
        removed_if_there(log, at, paths.state_file),
        |u: (), at1: int|
            bind(
                removed_if_there(log, at1, paths.env_file),
                |u: (), at2: int|
                    bind(
                        if args.auto_off {
                            bind(
                                chosen_shell(env, at2, args.shell),
                                |shell: ShellKind, at3: int|
                                    bind(
                                        hook_removed(env, log, at3, shell),
                                        |u: (), at4: int| done(Some(shell), at4),
                                    ),
                            )
                        } else {
                            done(None, at2)
                        },
                        |auto_shell: Option<ShellKind>, at5: int|
                            done(
                                ProxyReportView::Stop {
                                    auto_off: args.auto_off,
                                    auto_shell,
                                    script: UNSET_SCRIPT@,
                                    print_env: args.print_env,
                                },
                                at5,
                            ),
                    ),
            ),
    )
}

/// `proxy status` once the paths are known.
#[verifier::opaque]
pub open spec fn status(env: HostEnvView, log: Seq<ExchangeView>, at: int, paths: AppPathsView) -> Ran<
    ProxyReportView,
> {
    bind(
        ask(log, at, EffectView::PathExists(paths.state_file)),
        |there: ReplyView, at1: int|
            if !there.ok {
                done(ProxyReportView::NotConfigured, at1)
            } else {
                bind(
                    state_loaded(log, at1, paths.state_file),
                    |state: ProxyStateView, at2: int|
                        bind(
                            hook_present(env, log, at2, ShellKind::Zsh),
                            |zsh_auto: bool, at3: int|
                                bind(
                                    hook_present(env, log, at3, ShellKind::Bash),
                                    |bash_auto: bool, at4: int|
                                        done(
                                            ProxyReportView::Status { state, zsh_auto, bash_auto },
                                            at4,
                                        ),
                                ),
                        ),
                )
            },
    )
}

/// `proxy auto status`.
#[verifier::opaque]
pub open spec fn auto_status(
    env: HostEnvView,
    log: Seq<ExchangeView>,
    at: int,
    named: Option<ShellKind>,
) -> Ran<ProxyReportView> {
    match named {
        Some(ShellKind::Zsh) => bind(
            hook_present(env, log, at, ShellKind::Zsh),
            |on: bool, at1: int|
                done(ProxyReportView::AutoStatus { zsh: Some(on), bash: None }, at1),
        ),
        Some(ShellKind::Bash) => bind(
            hook_present(env, log, at, ShellKind::Bash),
            |on: bool, at1: int|
                done(ProxyReportView::AutoStatus { zsh: None, bash: Some(on) }, at1),
        ),
        None => bind(
            hook_present(env, log, at, ShellKind::Zsh),
            |zsh: bool, at1: int|
                bind(
                    hook_present(env, log, at1, ShellKind::Bash),
                    |bash: bool, at2: int|
                        done(
                            ProxyReportView::AutoStatus { zsh: Some(zsh), bash: Some(bash) },
                            at2,
                        ),
                ),
        ),
    }
}

/// What a `proxy` command comes to from a position of a record.
pub open spec fn outcome_at(
    command: ProxyCommandView,
    env: HostEnvView,
    log: Seq<ExchangeView>,
    at: int,
) -> Ran<ProxyReportView> {
    match command {
        ProxyCommandView::Start(args) => bind(
            located(env, log, at),
            |paths: AppPathsView, at1: int| started(env, log, at1, args, paths),
        ),
        ProxyCommandView::Stop(args) => bind(
            located(env, log, at),
            |paths: AppPathsView, at1: int| stopped(env, log, at1, args, paths),
        ),
        ProxyCommandView::Status => bind(
            located(env, log, at),
            |paths: AppPathsView, at1: int| status(env, log, at1, paths),
        ),
        ProxyCommandView::EnvOn => bind(
            located(env, log, at),
            |paths: AppPathsView, at1: int|
                bind(
                    state_loaded(log, at1, paths.state_file),
                    |state: ProxyStateView, at2: int|
                        done(ProxyReportView::EnvOn { script: export_text(state) }, at2),
                ),
        ),
        ProxyCommandView::EnvOff => done(ProxyReportView::EnvOff { script: UNSET_SCRIPT@ }, at),
        ProxyCommandView::AutoOn(named) => bind(
            chosen_shell(env, at, named),
            |shell: ShellKind, at1: int|
                bind(
                    hook_installed(env, log, at1, shell),
                    |u: (), at2: int| done(ProxyReportView::AutoOn { shell }, at2),
                ),
        ),
        ProxyCommandView::AutoOff(named) => bind(
            chosen_shell(env, at, named),
            |shell: ShellKind, at1: int|
                bind(
                    hook_removed(env, log, at1, shell),
                    |u: (), at2: int| done(ProxyReportView::AutoOff { shell }, at2),
                ),
        ),
        ProxyCommandView::AutoStatus(named) => auto_status(env, log, at, named),
    }
}

/// What a `proxy` command comes to over a record.
pub open spec fn outcome(command: ProxyCommandView, env: HostEnvView, log: Seq<ExchangeView>) -> Ran<
    ProxyReportView,
> {
    outcome_at(command, env, log, 0)
}

// ---------------------------------------------------------------------------
// The commands
// ---------------------------------------------------------------------------

/// Nothing known from the runtime configuration.
pub fn empty_defaults() -> (r: RuntimeProxyDefaults)
    ensures
        r@ == no_defaults(),
{
    RuntimeProxyDefaults { host: None, mixed_port: None, http_port: None, socks_port: None }
}

/// Loads what the runtime configuration says about the listeners.
pub fn try_load_runtime_proxy_defaults(host: &mut Replay, path: &str) -> (r: Result<
    RuntimeProxyDefaults,
    Halt,
>)
    ensures
        final(host).seen() == old(host).seen(),
        ran_view(r, final(host).pos()) == defaults_tried(old(host).seen(), old(host).pos(), path@),
{
    if !path_exists(host, path)? {
        return Ok(empty_defaults());
    }
    let content = read_file(host, path, FaultKind::FileRead)?;
    match read_yaml(content.as_str()) {
        Ok(root) => Ok(runtime_defaults_of(&root)),
        Err(message) => Err(
            Halt::Fail(Fault { kind: FaultKind::YamlParse, detail: message, rolled_back: false }),
        ),
    }
}

/// What the runtime configuration says about the listeners; a failure to
/// load it leaves the defaults empty and is handed on as a finding.
pub fn load_runtime_proxy_defaults(host: &mut Replay, path: &str) -> (r: Result<
    LoadedDefaults,
    Halt,
>)
    ensures
        final(host).seen() == old(host).seen(),
        ran_view(r, final(host).pos()) == runtime_defaults(
            old(host).seen(),
            old(host).pos(),
            path@,
        ),
{
    proof {
        reveal(runtime_defaults);
    }
    match try_load_runtime_proxy_defaults(host, path) {
        Ok(defaults) => Ok(LoadedDefaults { defaults, fault: None }),
        Err(Halt::Need(e)) => Err(Halt::Need(e)),
        Err(Halt::Fail(fault)) => Ok(
            LoadedDefaults { defaults: empty_defaults(), fault: Some(fault) },
        ),
    }
}

/// Whether a text holds both lines of the hook.
fn holds_hook(content: &str) -> (r: bool)
    ensures
        r == has_hook(content@),
{
    let c = chars_of(content);
    has_part(&c, &chars_of(HOOK_START)) && has_part(&c, &chars_of(HOOK_END))
}

/// Puts the hook into a shell's start-up file unless it is there.
pub fn install_shell_hook(env: &HostEnv, host: &mut Replay, shell: ShellKind) -> (r: Result<
    (),
    Halt,
>)
    ensures
        final(host).seen() == old(host).seen(),
        ran(r, final(host).pos()) == hook_installed(
            env@,
            old(host).seen(),
            old(host).pos(),
            shell,
        ),
{
    proof {
        reveal(hook_installed);
    }
    let rc_path = shell_rc_path(env, shell)?;
    let there = host.perform(Effect::PathExists(rc_path.clone()))?;
    let existing = if there.ok {
        read_file(host, rc_path.as_str(), FaultKind::FileRead)?
    } else {
        String::new()
    };
    if holds_hook(existing.as_str()) {
        return Ok(());
    }
    let mut updated = chars_of(existing.as_str());
    if updated.len() > 0 && updated[updated.len() - 1] != '\n' {
        push_str(&mut updated, "\n");
    }
    let block = shell_hook_block();
    push_str(&mut updated, block.as_str());
    write_file(host, rc_path.as_str(), text_of(&updated))
}

/// Takes the hook out of a shell's start-up file.
pub fn uninstall_shell_hook(env: &HostEnv, host: &mut Replay, shell: ShellKind) -> (r: Result<
    (),
    Halt,
>)
    ensures
        final(host).seen() == old(host).seen(),
        ran(r, final(host).pos()) == hook_removed(
            env@,
            old(host).seen(),
            old(host).pos(),
            shell,
        ),
{
    proof {
        reveal(hook_removed);
    }
    let rc_path = shell_rc_path(env, shell)?;
    let there = host.perform(Effect::PathExists(rc_path.clone()))?;
    if !there.ok {
        return Ok(());
    }
    let content = read_file(host, rc_path.as_str(), FaultKind::FileRead)?;
    let updated = remove_hook_block(content.as_str());
    write_file(host, rc_path.as_str(), updated)
}

/// Whether a shell's start-up file holds the hook.
pub fn shell_hook_installed(env: &HostEnv, host: &mut Replay, shell: ShellKind) -> (r: Result<
    bool,
    Halt,
>)
    ensures
        final(host).seen() == old(host).seen(),
        ran(r, final(host).pos()) == hook_present(
            env@,
            old(host).seen(),
            old(host).pos(),
            shell,
        ),
{
    proof {
        reveal(hook_present);
    }
    let rc_path = shell_rc_path(env, shell)?;
    let there = host.perform(Effect::PathExists(rc_path.clone()))?;
    if !there.ok {
        return Ok(false);
    }
    let content = read_file(host, rc_path.as_str(), FaultKind::FileRead)?;
    Ok(holds_hook(content.as_str()))
}

/// Loads the proxy state.
pub fn load_state(host: &mut Replay, path: &str) -> (r: Result<ProxyState, Halt>)
    ensures
        final(host).seen() == old(host).seen(),
        ran_view(r, final(host).pos()) == state_loaded(old(host).seen(), old(host).pos(), path@),
{
    proof {
        reveal(state_loaded);
    }
    let there = host.perform(Effect::PathExists(owned(path)))?;
    if !there.ok {
        return Err(
            Halt::Fail(
                Fault {
                    kind: FaultKind::ProxyStateMissing,
                    detail: String::new(),
                    rolled_back: false,
                },
            ),
        );
    }
    let content = read_file(host, path, FaultKind::ProxyStateRead)?;
    match ProxyState::from_state_file(content.as_str()) {
        Ok(state) => Ok(state),
        Err(f) => Err(Halt::Fail(f)),
    }
}

/// The shell that an option names, once the user's own shell is found out.
fn choose_shell(env: &HostEnv, named: Option<ShellKind>, Ghost(at): Ghost<int>) -> (r: Result<
    ShellKind,
    Halt,
>)
    ensures
        ran(r, at) == chosen_shell(env@, at, named),
{
    let own = detect_shell(env)?;
    Ok(
        match named {
            Some(shell) => shell,
            None => own,
        },
    )
}

/// `proxy start`.
pub fn cmd_start(env: &HostEnv, host: &mut Replay, args: &StartArgs, paths: &AppPaths) -> (r:
    Result<ProxyReport, Halt>)
    ensures
        final(host).seen() == old(host).seen(),
        ran_view(r, final(host).pos()) == started(
            env@,
            old(host).seen(),
            old(host).pos(),
            args@,
            paths@,
        ),
{
    proof {
        reveal(started);
    }
    let loaded = load_runtime_proxy_defaults(host, paths.runtime_config_file.as_str())?;
    let state = resolve_start_proxy_state(args, loaded.defaults);
    let none = String::new();
    file_op(host, FileOp::CreateDir, paths.config_dir.as_str(), none.as_str(), FaultKind::DirCreate)?;
    write_file(host, paths.state_file.as_str(), state.to_state_file())?;
    write_file(host, paths.env_file.as_str(), state.export_script())?;
    let mut auto_shell: Option<ShellKind> = None;
    if args.auto {
        let shell = choose_shell(env, args.shell, Ghost(host.pos()))?;
        install_shell_hook(env, host, shell)?;
        auto_shell = Some(shell);
    }
    let hint_shell = if env.json || args.print_env || !env.stdout_terminal || args.auto {
        None
    } else {
        Some(detect_shell(env)?)
    };
    let script = state.export_script();
    Ok(
        ProxyReport::Start {
            state,
            auto: args.auto,
            auto_shell,
            script,
            print_env: args.print_env,
            hint_shell,
            defaults_fault: loaded.fault,
        },
    )
}

/// `proxy stop`.
pub fn cmd_stop(env: &HostEnv, host: &mut Replay, args: &StopArgs, paths: &AppPaths) -> (r:
    Result<ProxyReport, Halt>)
    ensures
        final(host).seen() == old(host).seen(),
        ran_view(r, final(host).pos()) == stopped(
            env@,
            old(host).seen(),
            old(host).pos(),
            *args,
            paths@,
        ),
{
    proof {
        reveal(stopped);
    }
    remove_if_there(host, paths.state_file.as_str())?;
    remove_if_there(host, paths.env_file.as_str())?;
    let mut auto_shell: Option<ShellKind> = None;
    if args.auto_off {
        let shell = choose_shell(env, args.shell, Ghost(host.pos()))?;
        uninstall_shell_hook(env, host, shell)?;
        auto_shell = Some(shell);
    }
    Ok(
        ProxyReport::Stop {
            auto_off: args.auto_off,
            auto_shell,
            script: unset_script(),
            print_env: args.print_env,
        },
    )
}

/// `proxy status`.
pub fn cmd_status(env: &HostEnv, host: &mut Replay, paths: &AppPaths) -> (r: Result<
    ProxyReport,
    Halt,
>)
    ensures
        final(host).seen() == old(host).seen(),
        ran_view(r, final(host).pos()) == status(env@, old(host).seen(), old(host).pos(), paths@),
{
    proof {
        reveal(status);
    }
    let there = host.perform(Effect::PathExists(paths.state_file.clone()))?;
    if !there.ok {
        return Ok(ProxyReport::NotConfigured);
    }
    let state = load_state(host, paths.state_file.as_str())?;
    let zsh_auto = shell_hook_installed(env, host, ShellKind::Zsh)?;
    let bash_auto = shell_hook_installed(env, host, ShellKind::Bash)?;
    Ok(ProxyReport::Status { state, zsh_auto, bash_auto })
}

/// `proxy env on` and `proxy env off`.
pub fn cmd_env(env: &HostEnv, host: &mut Replay, action: &EnvAction) -> (r: Result<
    ProxyReport,
    Halt,
>)
    ensures
        final(host).seen() == old(host).seen(),
        ran_view(r, final(host).pos()) == outcome_at(
            match action {
                EnvAction::On => ProxyCommandView::EnvOn,
                EnvAction::Off => ProxyCommandView::EnvOff,
            },
            env@,
            old(host).seen(),
            old(host).pos(),
        ),
{
    match action {
        EnvAction::On => {
            let paths = app_paths(env, host)?;
            let state = load_state(host, paths.state_file.as_str())?;
            Ok(ProxyReport::EnvOn { script: state.export_script() })
        },
        EnvAction::Off => Ok(ProxyReport::EnvOff { script: unset_script() }),
    }
}

/// `proxy auto status`.
fn cmd_auto_status(env: &HostEnv, host: &mut Replay, named: Option<ShellKind>) -> (r: Result<
    ProxyReport,
    Halt,
>)
    ensures
        final(host).seen() == old(host).seen(),
        ran_view(r, final(host).pos()) == auto_status(
            env@,
            old(host).seen(),
            old(host).pos(),
            named,
        ),
{
    proof {
        reveal(auto_status);
    }
    match named {
        Some(ShellKind::Zsh) => {
            let on = shell_hook_installed(env, host, ShellKind::Zsh)?;
            Ok(ProxyReport::AutoStatus { zsh: Some(on), bash: None })
        },
        Some(ShellKind::Bash) => {
            let on = shell_hook_installed(env, host, ShellKind::Bash)?;
            Ok(ProxyReport::AutoStatus { zsh: None, bash: Some(on) })
        },
        None => {
            let zsh = shell_hook_installed(env, host, ShellKind::Zsh)?;
            let bash = shell_hook_installed(env, host, ShellKind::Bash)?;
            Ok(ProxyReport::AutoStatus { zsh: Some(zsh), bash: Some(bash) })
        },
    }
}

/// `proxy auto on`, `proxy auto off` and `proxy auto status`.
pub fn cmd_auto(env: &HostEnv, host: &mut Replay, action: &AutoAction) -> (r: Result<
    ProxyReport,
    Halt,
>)
    ensures
        final(host).seen() == old(host).seen(),
        ran_view(r, final(host).pos()) == outcome_at(
            match action {
                AutoAction::On { shell } => ProxyCommandView::AutoOn(*shell),
                AutoAction::Off { shell } => ProxyCommandView::AutoOff(*shell),
                AutoAction::Status { shell } => ProxyCommandView::AutoStatus(*shell),
            },
            env@,
            old(host).seen(),
            old(host).pos(),
        ),
{
    match action {
        AutoAction::On { .. } => {
            let shell = choose_shell(env, action.shell(), Ghost(host.pos()))?;
            install_shell_hook(env, host, shell)?;
            Ok(ProxyReport::AutoOn { shell })
        },
        AutoAction::Off { .. } => {
            let shell = choose_shell(env, action.shell(), Ghost(host.pos()))?;
            uninstall_shell_hook(env, host, shell)?;
            Ok(ProxyReport::AutoOff { shell })
        },
        AutoAction::Status { .. } => cmd_auto_status(env, host, action.shell()),
    }
}

/// Runs a `proxy` command from a position of the record.
pub fn run_on(command: &ProxyCommand, env: &HostEnv, host: &mut Replay) -> (r: Result<
    ProxyReport,
    Halt,
>)
    ensures
        final(host).seen() == old(host).seen(),
        ran_view(r, final(host).pos()) == outcome_at(
            command@,
            env@,
            old(host).seen(),
            old(host).pos(),
        ),
{
    match command {
        ProxyCommand::Start(args) => {
            let paths = app_paths(env, host)?;
            cmd_start(env, host, args, &paths)
        },
        ProxyCommand::Stop(args) => {
            let paths = app_paths(env, host)?;
            cmd_stop(env, host, args, &paths)
        },
        ProxyCommand::Status => {
            let paths = app_paths(env, host)?;
            cmd_status(env, host, &paths)
        },
        ProxyCommand::Env { action } => cmd_env(env, host, action),
        ProxyCommand::Auto { action } => cmd_auto(env, host, action),
    }
}

/// Runs a `proxy` command over the record of what it asked of the machine
/// so far.
pub fn run(command: &ProxyCommand, env: &HostEnv, log: &Vec<Exchange>) -> (r: Step<ProxyReport>)
    ensures
        r@ == told(outcome(command@, env@, record_views(log@)), log@.len()),
{
    let mut host = Replay::new(log);
    let result = run_on(command, env, &mut host);
    conclude(result, host.at, log.len())
}

} // verus!
