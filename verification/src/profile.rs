//! Subscription profiles: the index, fetching, and rendering a profile into
//! the runtime configuration.

pub mod index;

use crate::cli::{
    ProfileAddArgs, ProfileAddArgsView, ProfileCommand, ProfileCommandView, ProfileRenderArgs,
    ProfileRenderArgsView, ProfileUseArgs, ProfileUseArgsView,
};
use crate::files::{
    bare_failure, clock, file_done, file_op, file_read, file_written, is_there, make_parent,
    now_unix, parent_made, path_exists, read_file, write_file,
};
use crate::host::{
    ask, bind, conclude, done, failed, halted, owned, push_arg, ran, ran_view, record_views,
    text_view, told, Effect, EffectView, Exchange, ExchangeView, Fault, FaultKind, FileOp, Halt,
    HaltView, HostEnv, HostEnvView, HttpMethod, HttpRequest, HttpRequestView, Ran, Replay,
    ReplyView, Step,
};
use crate::json::{json_read, json_written, plain_json};
use crate::paths::{
    app_paths, file_name_of, join_path, joined, located, parent_of, path_file_name, path_parent,
    AppPaths, AppPathsView,
};
use crate::profile::index::{
    copy_entry, empty_index, find_profile, has_profile, index_doc, index_in, name_fault,
    parse_index, profile_index, profile_views, render_index, select_profile, selected,
    validate_profile_name, ProfileEntry, ProfileEntryView, ProfileIndex, ProfileIndexView,
};
use crate::text::{
    chars_of, concat, ends_with, is_word, rows, same, split_words, strip_suffix, text_of, trim,
    trim_chars, trim_end_char, trim_end_char_chars, unquote, unquote_chars, views, words,
};
use crate::tun::service::{normalize_unit_name, systemctl, systemctl_command, unit_name};
use crate::yaml::{
    deep_merge, key_value, merged, parse, read_yaml, render, set_field, yaml_read,
    yaml_written, Node, NodeView,
};
use vstd::prelude::*;

verus! {

pub const DEFAULT_LOCAL_MIXED_PORT: u16 = 7890;

pub const DEFAULT_LOCAL_SOCKS_PORT: u16 = 7891;

pub const DEFAULT_LOCAL_BIND_ADDRESS: &'static str = "127.0.0.1";

pub const DEFAULT_LOCAL_CONTROLLER: &'static str = "127.0.0.1:9090";

pub const DEFAULT_LOCAL_EXTERNAL_UI: &'static str = "ui";

pub const DEFAULT_LOCAL_EXTERNAL_UI_NAME: &'static str = "metacubexd";

pub const DEFAULT_LOCAL_EXTERNAL_UI_URL: &'static str =
    "https://ghfast.top/https://github.com/MetaCubeX/metacubexd/archive/refs/heads/gh-pages.zip";

/// The service whose configuration `profile list` compares with its own.
pub const DEFAULT_SYSTEM_SERVICE_NAME: &'static str = "clash-mihomo.service";

/// For how many seconds a fetched profile counts as fresh.
pub const FRESH_SECS: u64 = 60;

// ---------------------------------------------------------------------------
// Rendering
// ---------------------------------------------------------------------------

/// The empty path: the document's root.
pub open spec fn top() -> Seq<Seq<char>> {
    Seq::empty()
}

/// A subscription's document with the local listeners in place of its own:
/// ports, bind address, controller and dashboard are set, whatever the
/// subscription says.
pub open spec fn with_local_listeners(root: NodeView) -> NodeView {
    root.assigned(
        top(),
        "mixed-port"@,
        NodeView::Number(crate::text::decimal(DEFAULT_LOCAL_MIXED_PORT as nat)),
    ).assigned(
        top(),
        "socks-port"@,
        NodeView::Number(crate::text::decimal(DEFAULT_LOCAL_SOCKS_PORT as nat)),
    ).assigned(top(), "allow-lan"@, NodeView::Bool(false)).assigned(
        top(),
        "bind-address"@,
        NodeView::Text(DEFAULT_LOCAL_BIND_ADDRESS@),
    ).assigned(top(), "external-controller"@, NodeView::Text(DEFAULT_LOCAL_CONTROLLER@)).assigned(
        top(),
        "external-ui"@,
        NodeView::Text(DEFAULT_LOCAL_EXTERNAL_UI@),
    ).assigned(top(), "external-ui-name"@, NodeView::Text(DEFAULT_LOCAL_EXTERNAL_UI_NAME@)).assigned(
        top(),
        "external-ui-url"@,
        NodeView::Text(DEFAULT_LOCAL_EXTERNAL_UI_URL@),
    )
}

/// Stores a number at a key of the root.
pub fn set_root_u16(root: &mut Node, key: &str, value: u16)
    ensures
        final(root)@ == old(root)@.assigned(
            top(),
            key@,
            NodeView::Number(crate::text::decimal(value as nat)),
        ),
{
    let none: [&str; 0] = [];
    assert(crate::yaml::path_views(none@) =~= top());
    set_field(root, &none, key, Node::Number(crate::text::decimal_text(value as u64)));
}

/// Stores a boolean at a key of the root.
pub fn set_root_bool(root: &mut Node, key: &str, value: bool)
    ensures
        final(root)@ == old(root)@.assigned(top(), key@, NodeView::Bool(value)),
{
    let none: [&str; 0] = [];
    assert(crate::yaml::path_views(none@) =~= top());
    set_field(root, &none, key, Node::Bool(value));
}

/// Stores a text at a key of the root.
pub fn set_root_string(root: &mut Node, key: &str, value: &str)
    ensures
        final(root)@ == old(root)@.assigned(top(), key@, NodeView::Text(value@)),
{
    let none: [&str; 0] = [];
    assert(crate::yaml::path_views(none@) =~= top());
    set_field(root, &none, key, Node::Text(owned(value)));
}

/// Puts the local listeners in place of the subscription's.
pub fn apply_local_listener_defaults(root: &mut Node)
    ensures
        final(root)@ == with_local_listeners(old(root)@),
{
    set_root_u16(root, "mixed-port", DEFAULT_LOCAL_MIXED_PORT);
    set_root_u16(root, "socks-port", DEFAULT_LOCAL_SOCKS_PORT);
    set_root_bool(root, "allow-lan", false);
    set_root_string(root, "bind-address", DEFAULT_LOCAL_BIND_ADDRESS);
    set_root_string(root, "external-controller", DEFAULT_LOCAL_CONTROLLER);
    set_root_string(root, "external-ui", DEFAULT_LOCAL_EXTERNAL_UI);
    set_root_string(root, "external-ui-name", DEFAULT_LOCAL_EXTERNAL_UI_NAME);
    set_root_string(root, "external-ui-url", DEFAULT_LOCAL_EXTERNAL_UI_URL);
}

/// Whether the root has an entry at `key`.
pub fn key_exists(root: &Node, key: &str) -> (r: bool)
    ensures
        r == (root@.field(key@) is Some),
{
    key_value(root, key).is_some()
}

/// The document that is rendered: the subscription's, with the local
/// listeners unless the subscription's are to be followed, and with the
/// mixin merged into it where there is one.
pub open spec fn render_of(
    source: NodeView,
    follow_subscription_port: bool,
    mixin: Option<NodeView>,
) -> NodeView {
    let local = if follow_subscription_port {
        source
    } else {
        with_local_listeners(source)
    };
    match mixin {
        Some(m) => merged(local, m),
        None => local,
    }
}

// ---------------------------------------------------------------------------
// The service's configuration
// ---------------------------------------------------------------------------

/// A word of a command line without quotation marks around it and without
/// `;` and `,` behind it.
pub open spec fn cleaned(token: Seq<char>) -> Seq<char> {
    trim_end_char(trim_end_char(unquote(token), ';'), ',')
}

/// The word that follows `-f` among the words of a command line.
pub open spec fn flag_value(tokens: Seq<Seq<char>>, after_flag: bool) -> Option<Seq<char>>
    decreases tokens.len(),
{
    if tokens.len() == 0 {
        None
    } else if cleaned(tokens[0]).len() == 0 {
        flag_value(tokens.drop_first(), after_flag)
    } else if after_flag {
        Some(cleaned(tokens[0]))
    } else {
        flag_value(tokens.drop_first(), cleaned(tokens[0]) == "-f"@)
    }
}

/// The configuration that a service's start command names with `-f`.
pub open spec fn config_in_exec_start(exec_start: Seq<char>) -> Option<Seq<char>> {
    flag_value(words(trim(exec_start)), false)
}

/// The configuration that a service's start command names.
pub fn runtime_config_in(exec_start: &str) -> (r: Option<String>)
    ensures
        text_view(r) == config_in_exec_start(exec_start@),
{
    let line = trim_chars(&chars_of(exec_start));
    let tokens = split_words(&line);
    let mut prev_is_f = false;
    let mut i: usize = 0;
    assert(rows(tokens@).skip(0) =~= rows(tokens@));
    while i < tokens.len()
        invariant
            i <= tokens.len(),
            rows(tokens@) == words(trim(exec_start@)),
            flag_value(rows(tokens@).skip(i as int), prev_is_f) == config_in_exec_start(
                exec_start@,
            ),
        decreases tokens.len() - i,
    {
        let ghost rest = rows(tokens@).skip(i as int);
        assert(rest[0] == tokens@[i as int]@);
        assert(rest.drop_first() =~= rows(tokens@).skip(i + 1));
        let a = unquote_chars(&tokens[i]);
        let b = trim_end_char_chars(&a, ';');
        let c = trim_end_char_chars(&b, ',');
        if c.len() > 0 {
            if prev_is_f {
                return Some(text_of(&c));
            }
            prev_is_f = is_word(&c, "-f");
        }
        i = i + 1;
    }
    None
}

/// The home that a runtime configuration belongs to: the directory above
/// `runtime/config.yaml`.
pub open spec fn home_of(path: Seq<char>) -> Option<Seq<char>> {
    if file_name_of(path) != Some("config.yaml"@) {
        None
    } else {
        match parent_of(path) {
            None => None,
            Some(runtime_dir) => if file_name_of(runtime_dir) != Some("runtime"@) {
                None
            } else {
                parent_of(runtime_dir)
            },
        }
    }
}

pub fn infer_home_from_runtime_config(path: &str) -> (r: Option<String>)
    ensures
        text_view(r) == home_of(path@),
{
    match path_file_name(path) {
        Some(name) => {
            if !same(name.as_str(), "config.yaml") {
                return None;
            }
        },
        None => {
            return None;
        },
    }
    let runtime_dir = match path_parent(path) {
        Some(d) => d,
        None => {
            return None;
        },
    };
    match path_file_name(runtime_dir.as_str()) {
        Some(name) => {
            if !same(name.as_str(), "runtime") {
                return None;
            }
        },
        None => {
            return None;
        },
    }
    path_parent(runtime_dir.as_str())
}

/// A service's name without `.service` at its end.
pub open spec fn bare_service_name(name: Seq<char>) -> Seq<char> {
    if ends_with(name, ".service"@) {
        name.subrange(0, name.len() - ".service"@.len())
    } else {
        name
    }
}

pub fn trim_service_suffix(name: &str) -> (r: String)
    ensures
        r@ == bare_service_name(name@),
{
    let c = chars_of(name);
    match strip_suffix(&c, ".service") {
        Some(rest) => text_of(&rest),
        None => owned(name),
    }
}

// ---------------------------------------------------------------------------
// Reports
// ---------------------------------------------------------------------------

/// What `profile list` shows besides the index where the system service
/// uses another configuration than this command.
#[derive(Debug)]
pub struct ServiceHint {
    pub service_config: String,
    pub service_home: Option<String>,
}

pub struct ServiceHintView {
    pub service_config: Seq<char>,
    pub service_home: Option<Seq<char>>,
}

impl View for ServiceHint {
    type V = ServiceHintView;

    open spec fn view(&self) -> ServiceHintView {
        ServiceHintView {
            service_config: self.service_config@,
            service_home: text_view(self.service_home),
        }
    }
}

/// What a `profile` command did or found.
#[allow(inconsistent_fields)]
#[derive(Debug)]
pub enum ProfileReport {
    Add { profile: ProfileEntry, active: Option<String>, fetched: bool, used: bool },
    List { index: ProfileIndex, config_dir: String, hint: Option<ServiceHint> },
    Use {
        active: String,
        applied: bool,
        fetched: bool,
        restarted: bool,
        service: String,
    },
    FetchSkipped { name: String },
    Fetch { profile: ProfileEntry },
    Remove { removed: String, active: Option<String> },
    Render { profile: String, output: String, follow_subscription_port: bool },
    Validate { profile: String, has_proxies: bool, has_rules: bool },
}

#[allow(inconsistent_fields)]
pub enum ProfileReportView {
    Add { profile: ProfileEntryView, active: Option<Seq<char>>, fetched: bool, used: bool },
    List { index: ProfileIndexView, config_dir: Seq<char>, hint: Option<ServiceHintView> },
    Use {
        active: Seq<char>,
        applied: bool,
        fetched: bool,
        restarted: bool,
        service: Seq<char>,
    },
    FetchSkipped { name: Seq<char> },
    Fetch { profile: ProfileEntryView },
    Remove { removed: Seq<char>, active: Option<Seq<char>> },
    Render { profile: Seq<char>, output: Seq<char>, follow_subscription_port: bool },
    Validate { profile: Seq<char>, has_proxies: bool, has_rules: bool },
}

/// The view of an optional hint.
pub open spec fn hint_view(h: Option<ServiceHint>) -> Option<ServiceHintView> {
    match h {
        Some(x) => Some(x@),
        None => None,
    }
}

impl View for ProfileReport {
    type V = ProfileReportView;

    open spec fn view(&self) -> ProfileReportView {
        match self {
            ProfileReport::Add { profile, active, fetched, used } => ProfileReportView::Add {
                profile: profile@,
                active: text_view(*active),
                fetched: *fetched,
                used: *used,
            },
            ProfileReport::List { index, config_dir, hint } => ProfileReportView::List {
                index: index@,
                config_dir: config_dir@,
                hint: hint_view(*hint),
            },
            ProfileReport::Use { active, applied, fetched, restarted, service } =>
                ProfileReportView::Use {
                    active: active@,
                    applied: *applied,
                    fetched: *fetched,
                    restarted: *restarted,
                    service: service@,
                },
            ProfileReport::FetchSkipped { name } => ProfileReportView::FetchSkipped { name: name@ },
            ProfileReport::Fetch { profile } => ProfileReportView::Fetch { profile: profile@ },
            ProfileReport::Remove { removed, active } => ProfileReportView::Remove {
                removed: removed@,
                active: text_view(*active),
            },
            ProfileReport::Render { profile, output, follow_subscription_port } =>
                ProfileReportView::Render {
                    profile: profile@,
                    output: output@,
                    follow_subscription_port: *follow_subscription_port,
                },
            ProfileReport::Validate { profile, has_proxies, has_rules } =>
                ProfileReportView::Validate {
                    profile: profile@,
                    has_proxies: *has_proxies,
                    has_rules: *has_rules,
                },
        }
    }
}

// ---------------------------------------------------------------------------
// Outcomes over a record
// ---------------------------------------------------------------------------

/// The index is loaded; no file means an index without subscriptions.
#[verifier::opaque]
pub open spec fn index_loaded(log: Seq<ExchangeView>, at: int, path: Seq<char>) -> Ran<
    ProfileIndexView,
> {
    bind(
        is_there(log, at, path),
        |there: bool, at1: int|
            if !there {
                done(empty_index(), at1)
            } else {
                bind(
                    file_read(log, at1, path, FaultKind::FileRead),
                    |content: Seq<char>, at2: int|
                        match json_read(content) {
                            Err(message) => failed(FaultKind::IndexParse, message, at2),
                            Ok(doc) => match index_in(doc) {
                                Some(index) => done(index, at2),
                                None => bare_failure(FaultKind::IndexParse, at2),
                            },
                        },
                )
            },
    )
}

/// The index is saved.
#[verifier::opaque]
pub open spec fn index_saved(
    log: Seq<ExchangeView>,
    at: int,
    path: Seq<char>,
    index: ProfileIndexView,
) -> Ran<()> {
    bind(
        parent_made(log, at, path),
        |u: (), at1: int|
            match json_written(plain_json(index_doc(index))) {
                Ok(text) => file_written(log, at1, path, text),
                Err(message) => failed(FaultKind::IndexRender, message, at1),
            },
    )
}

/// A YAML file is loaded.
#[verifier::opaque]
pub open spec fn yaml_loaded(log: Seq<ExchangeView>, at: int, path: Seq<char>) -> Ran<NodeView> {
    bind(
        file_read(log, at, path, FaultKind::FileRead),
        |content: Seq<char>, at1: int|
            match yaml_read(content) {
                Ok(root) => done(root, at1),
                Err(message) => failed(FaultKind::YamlParse, message, at1),
            },
    )
}

/// The request that fetches a subscription.
pub open spec fn subscription_request(url: Seq<char>) -> HttpRequestView {
    HttpRequestView {
        method: HttpMethod::Get,
        url,
        bearer: None,
        body: None,
        json: false,
        agent: None,
        timeout_secs: 30,
        connect_timeout_secs: 10,
    }
}

/// A subscription is fetched: its text must be YAML, is written to the
/// profile's file, and the time is noted.
#[verifier::opaque]
pub open spec fn fetched(
    log: Seq<ExchangeView>,
    at: int,
    entry: ProfileEntryView,
    profile_dir: Seq<char>,
) -> Ran<ProfileEntryView> {
    bind(
        file_done(log, at, FileOp::CreateDir, profile_dir, Seq::empty(), FaultKind::DirCreate),
        |u: (), at1: int|
            bind(
                ask(log, at1, EffectView::Http(subscription_request(entry.url))),
                |r: ReplyView, at2: int|
                    if !r.ok {
                        failed(FaultKind::FetchFailed, r.detail, at2)
                    } else {
                        match yaml_read(r.text) {
                            Err(message) => failed(FaultKind::FetchNotYaml, message, at2),
                            Ok(_) => bind(
                                file_written(log, at2, joined(profile_dir, entry.file), r.text),
                                |u: (), at3: int|
                                    bind(
                                        clock(log, at3),
                                        |now: u64, at4: int|
                                            done(
                                                ProfileEntryView {
                                                    updated_at: Some(now),
                                                    ..entry
                                                },
                                                at4,
                                            ),
                                    ),
                            ),
                        }
                    },
            ),
    )
}

/// The configuration that a service runs with, as far as `systemctl` tells.
#[verifier::opaque]
pub open spec fn service_config(log: Seq<ExchangeView>, at: int, unit: Seq<char>) -> Ran<
    Option<Seq<char>>,
> {
    bind(
        ask(
            log,
            at,
            EffectView::Run(
                systemctl_command(
                    false,
                    seq!["show"@, "-p"@, "ExecStart"@, "--value"@, unit],
                ),
            ),
        ),
        |r: ReplyView, at1: int|
            if !r.ok {
                done(None, at1)
            } else {
                done(config_in_exec_start(r.text), at1)
            },
    )
}

/// Whether two paths name the same file: they are the same text, or both
/// can be resolved and resolve to the same.
#[verifier::opaque]
pub open spec fn same_path(log: Seq<ExchangeView>, at: int, a: Seq<char>, b: Seq<char>) -> Ran<
    bool,
> {
    if a == b {
        done(true, at)
    } else {
        bind(
            ask(log, at, EffectView::File(FileOp::Canonical, a, Seq::empty())),
            |left: ReplyView, at1: int|
                bind(
                    ask(log, at1, EffectView::File(FileOp::Canonical, b, Seq::empty())),
                    |right: ReplyView, at2: int|
                        done(left.ok && right.ok && left.text == right.text, at2),
                ),
        )
    }
}

/// The service must run with the configuration that this command writes;
/// where `systemctl` names another one, the command is refused.
#[verifier::opaque]
pub open spec fn home_matches(
    log: Seq<ExchangeView>,
    at: int,
    service_name: Seq<char>,
    current: Seq<char>,
) -> Ran<()> {
    bind(
        service_config(log, at, unit_name(service_name)),
        |found: Option<Seq<char>>, at1: int|
            match found {
                None => done((), at1),
                Some(config) => bind(
                    same_path(log, at1, config, current),
                    |same: bool, at2: int|
                        if same {
                            done((), at2)
                        } else {
                            failed(FaultKind::HomeMismatch, config, at2)
                        },
                ),
            },
    )
}

/// The system service is restarted.
pub open spec fn service_restarted(log: Seq<ExchangeView>, at: int, name: Seq<char>) -> Ran<()> {
    bind(
        ask(
            log,
            at,
            EffectView::Run(systemctl_command(false, seq!["restart"@, unit_name(name)])),
        ),
        |r: ReplyView, at1: int|
            if r.ok {
                done((), at1)
            } else {
                failed(FaultKind::SystemctlFailed, r.detail, at1)
            },
    )
}

/// The index with a subscription at its end.
pub open spec fn with_profile(index: ProfileIndexView, entry: ProfileEntryView, activate: bool) -> ProfileIndexView {
    ProfileIndexView {
        active: if activate {
            Some(entry.name)
        } else {
            index.active
        },
        profiles: index.profiles.push(entry),
    }
}

/// `profile add`.
#[verifier::opaque]
pub open spec fn added(env: HostEnvView, log: Seq<ExchangeView>, at: int, args: ProfileAddArgsView) -> Ran<
    ProfileReportView,
> {
    match name_fault(args.name) {
        Some(kind) => failed(kind, args.name, at),
        None => bind(
            located(env, log, at),
            |paths: AppPathsView, at1: int|
                bind(
                    index_loaded(log, at1, paths.profile_index_file),
                    |index: ProfileIndexView, at2: int|
                        if has_profile(index.profiles, args.name) {
                            failed(FaultKind::ProfileExists, args.name, at2)
                        } else {
                            bind(
                                clock(log, at2),
                                |now: u64, at3: int|
                                    bind(
                                        if args.no_fetch {
                                            done(new_entry(args, now), at3)
                                        } else {
                                            fetched(log, at3, new_entry(args, now), paths.profile_dir)
                                        },
                                        |entry: ProfileEntryView, at4: int|
                                            bind(
                                                index_saved(
                                                    log,
                                                    at4,
                                                    paths.profile_index_file,
                                                    with_profile(index, entry, args.use_profile),
                                                ),
                                                |u: (), at5: int|
                                                    done(
                                                        ProfileReportView::Add {
                                                            profile: entry,
                                                            active: with_profile(
                                                                index,
                                                                entry,
                                                                args.use_profile,
                                                            ).active,
                                                            fetched: !args.no_fetch,
                                                            used: args.use_profile,
                                                        },
                                                        at5,
                                                    ),
                                            ),
                                    ),
                            )
                        },
                ),
        ),
    }
}

/// A subscription as `profile add` makes it.
pub open spec fn new_entry(args: ProfileAddArgsView, now: u64) -> ProfileEntryView {
    ProfileEntryView {
        name: args.name,
        url: args.url,
        file: args.name + ".yaml"@,
        created_at: now,
        updated_at: None,
    }
}

/// What `profile list` shows about the system service, in text output: its
/// configuration where that is another than this command's.
#[verifier::opaque]
pub open spec fn hinted(env: HostEnvView, log: Seq<ExchangeView>, at: int, paths: AppPathsView) -> Ran<
    Option<ServiceHintView>,
> {
    if env.json {
        done(None, at)
    } else {
        let found = service_config(log, at, DEFAULT_SYSTEM_SERVICE_NAME@);
        match found.out {
            Err(HaltView::Need(e)) => halted(HaltView::Need(e), found.at),
            Ok(Some(config)) => bind(
                same_path(log, found.at, config, paths.runtime_config_file),
                |same: bool, at1: int|
                    if same {
                        done(None, at1)
                    } else {
                        done(
                            Some(
                                ServiceHintView {
                                    service_config: config,
                                    service_home: home_of(config),
                                },
                            ),
                            at1,
                        )
                    },
            ),
            _ => done(None, found.at),
        }
    }
}

/// `profile list`.
#[verifier::opaque]
pub open spec fn listed(env: HostEnvView, log: Seq<ExchangeView>, at: int) -> Ran<
    ProfileReportView,
> {
    bind(
        located(env, log, at),
        |paths: AppPathsView, at1: int|
            bind(
                index_loaded(log, at1, paths.profile_index_file),
                |index: ProfileIndexView, at2: int|
                    bind(
                        hinted(env, log, at2, paths),
                        |hint: Option<ServiceHintView>, at3: int|
                            done(
                                ProfileReportView::List {
                                    index,
                                    config_dir: paths.config_dir,
                                    hint,
                                },
                                at3,
                            ),
                    ),
            ),
    )
}

/// The index with the subscription at `i` replaced.
pub open spec fn with_entry(index: ProfileIndexView, i: int, entry: ProfileEntryView) -> ProfileIndexView {
    ProfileIndexView { profiles: index.profiles.update(i, entry), ..index }
}

/// Whether a fetch is skipped: the profile was fetched less than a minute
/// ago and its file is there.
#[verifier::opaque]
pub open spec fn fetch_skipped(
    log: Seq<ExchangeView>,
    at: int,
    entry: ProfileEntryView,
    path: Seq<char>,
    force: bool,
) -> Ran<bool> {
    if force || entry.updated_at is None {
        done(false, at)
    } else {
        bind(
            is_there(log, at, path),
            |there: bool, at1: int|
                if !there {
                    done(false, at1)
                } else {
                    bind(
                        clock(log, at1),
                        |now: u64, at2: int|
                            done(
                                (if now >= entry.updated_at->0 {
                                    now - entry.updated_at->0
                                } else {
                                    0
                                }) < FRESH_SECS,
                                at2,
                            ),
                    )
                },
        )
    }
}

/// `profile fetch`.
#[verifier::opaque]
pub open spec fn fetch_run(
    env: HostEnvView,
    log: Seq<ExchangeView>,
    at: int,
    name: Seq<char>,
    force: bool,
) -> Ran<ProfileReportView> {
    bind(
        located(env, log, at),
        |paths: AppPathsView, at1: int|
            bind(
                index_loaded(log, at1, paths.profile_index_file),
                |index: ProfileIndexView, at2: int|
                    if !has_profile(index.profiles, name) {
                        failed(FaultKind::ProfileMissing, name, at2)
                    } else {
                        let i = profile_index(index.profiles, name) as int;
                        bind(
                            fetch_skipped(
                                log,
                                at2,
                                index.profiles[i],
                                joined(paths.profile_dir, index.profiles[i].file),
                                force,
                            ),
                            |skip: bool, at3: int|
                                if skip {
                                    done(ProfileReportView::FetchSkipped { name }, at3)
                                } else {
                                    bind(
                                        fetched(log, at3, index.profiles[i], paths.profile_dir),
                                        |entry: ProfileEntryView, at4: int|
                                            bind(
                                                index_saved(
                                                    log,
                                                    at4,
                                                    paths.profile_index_file,
                                                    with_entry(index, i, entry),
                                                ),
                                                |u: (), at5: int|
                                                    done(
                                                        ProfileReportView::Fetch { profile: entry },
                                                        at5,
                                                    ),
                                            ),
                                    )
                                },
                        )
                    },
            ),
    )
}

/// The index without the subscription at `i`; if that was the active one,
/// none is active.
pub open spec fn without_profile(index: ProfileIndexView, i: int) -> ProfileIndexView {
    ProfileIndexView {
        active: if index.active == Some(index.profiles[i].name) {
            None
        } else {
            index.active
        },
        profiles: index.profiles.remove(i),
    }
}

/// `profile remove`.
#[verifier::opaque]
pub open spec fn removed(env: HostEnvView, log: Seq<ExchangeView>, at: int, name: Seq<char>) -> Ran<
    ProfileReportView,
> {
    bind(
        located(env, log, at),
        |paths: AppPathsView, at1: int|
            bind(
                index_loaded(log, at1, paths.profile_index_file),
                |index: ProfileIndexView, at2: int|
                    if !has_profile(index.profiles, name) {
                        failed(FaultKind::ProfileMissing, name, at2)
                    } else {
                        let i = profile_index(index.profiles, name) as int;
                        bind(
                            index_saved(
                                log,
                                at2,
                                paths.profile_index_file,
                                without_profile(index, i),
                            ),
                            |u: (), at3: int|
                                bind(
                                    crate::files::removed_if_there(
                                        log,
                                        at3,
                                        joined(paths.profile_dir, index.profiles[i].file),
                                    ),
                                    |u: (), at4: int|
                                        done(
                                            ProfileReportView::Remove {
                                                removed: name,
                                                active: without_profile(index, i).active,
                                            },
                                            at4,
                                        ),
                                ),
                        )
                    },
            ),
    )
}

/// The mixin, where mixins are wanted and there is one.
#[verifier::opaque]
pub open spec fn mixin_loaded(log: Seq<ExchangeView>, at: int, path: Seq<char>, wanted: bool) -> Ran<
    Option<NodeView>,
> {
    if !wanted {
        done(None, at)
    } else {
        bind(
            is_there(log, at, path),
            |there: bool, at1: int|
                if !there {
                    done(None, at1)
                } else {
                    bind(yaml_loaded(log, at1, path), |m: NodeView, at2: int| done(Some(m), at2))
                },
        )
    }
}

/// A document is written as YAML to a file whose directory is created.
#[verifier::opaque]
pub open spec fn yaml_saved(log: Seq<ExchangeView>, at: int, path: Seq<char>, root: NodeView) -> Ran<
    (),
> {
    bind(
        parent_made(log, at, path),
        |u: (), at1: int|
            if !root.well_formed() {
                bare_failure(FaultKind::YamlRender, at1)
            } else {
                match yaml_written(root) {
                    Ok(text) => file_written(log, at1, path, text),
                    Err(message) => failed(FaultKind::YamlRender, message, at1),
                }
            },
    )
}

/// The subscription that a command means, with its file, which must exist.
#[verifier::opaque]
pub open spec fn source_found(
    env: HostEnvView,
    log: Seq<ExchangeView>,
    at: int,
    name: Option<Seq<char>>,
) -> Ran<(AppPathsView, ProfileEntryView)> {
    bind(
        located(env, log, at),
        |paths: AppPathsView, at1: int|
            bind(
                index_loaded(log, at1, paths.profile_index_file),
                |index: ProfileIndexView, at2: int|
                    match selected(index, name) {
                        Err(f) => halted(HaltView::Fail(f), at2),
                        Ok(entry) => bind(
                            is_there(log, at2, joined(paths.profile_dir, entry.file)),
                            |there: bool, at3: int|
                                if there {
                                    done((paths, entry), at3)
                                } else {
                                    failed(
                                        FaultKind::ProfileFileMissing,
                                        joined(paths.profile_dir, entry.file),
                                        at3,
                                    )
                                },
                        ),
                    },
            ),
    )
}

/// `profile render`.
#[verifier::opaque]
pub open spec fn rendered(
    env: HostEnvView,
    log: Seq<ExchangeView>,
    at: int,
    args: ProfileRenderArgsView,
) -> Ran<ProfileReportView> {
    bind(
        source_found(env, log, at, args.name),
        |found: (AppPathsView, ProfileEntryView), at1: int|
            bind(
                yaml_loaded(log, at1, joined(found.0.profile_dir, found.1.file)),
                |source: NodeView, at2: int|
                    bind(
                        mixin_loaded(log, at2, found.0.profile_mixin_file, !args.no_mixin),
                        |mixin: Option<NodeView>, at3: int|
                            bind(
                                yaml_saved(
                                    log,
                                    at3,
                                    output_of(args, found.0),
                                    render_of(source, args.follow_subscription_port, mixin),
                                ),
                                |u: (), at4: int|
                                    done(
                                        ProfileReportView::Render {
                                            profile: found.1.name,
                                            output: output_of(args, found.0),
                                            follow_subscription_port: args.follow_subscription_port,
                                        },
                                        at4,
                                    ),
                            ),
                    ),
            ),
    )
}

/// Where a profile is rendered to: the named file, or the runtime
/// configuration.
pub open spec fn output_of(args: ProfileRenderArgsView, paths: AppPathsView) -> Seq<char> {
    match args.output {
        Some(o) => o,
        None => paths.runtime_config_file,
    }
}

/// `profile validate`.
#[verifier::opaque]
pub open spec fn validated(
    env: HostEnvView,
    log: Seq<ExchangeView>,
    at: int,
    name: Option<Seq<char>>,
) -> Ran<ProfileReportView> {
    bind(
        source_found(env, log, at, name),
        |found: (AppPathsView, ProfileEntryView), at1: int|
            bind(
                yaml_loaded(log, at1, joined(found.0.profile_dir, found.1.file)),
                |root: NodeView, at2: int|
                    done(
                        ProfileReportView::Validate {
                            profile: found.1.name,
                            has_proxies: root.field("proxies"@) is Some || root.field(
                                "proxy-providers"@,
                            ) is Some,
                            has_rules: root.field("rules"@) is Some,
                        },
                        at2,
                    ),
            ),
    )
}

/// The arguments with which `profile use` renders.
pub open spec fn use_render_args(name: Seq<char>) -> ProfileRenderArgsView {
    ProfileRenderArgsView {
        name: Some(name),
        output: None,
        no_mixin: false,
        follow_subscription_port: false,
    }
}

/// `profile use`.
#[verifier::opaque]
pub open spec fn used(env: HostEnvView, log: Seq<ExchangeView>, at: int, args: ProfileUseArgsView) -> Ran<
    ProfileReportView,
> {
    let apply = args.apply || args.fetch;
    bind(
        located(env, log, at),
        |paths: AppPathsView, at1: int|
            bind(
                if apply && !args.no_restart {
                    home_matches(log, at1, args.service_name, paths.runtime_config_file)
                } else {
                    done((), at1)
                },
                |u: (), at2: int|
                    bind(
                        index_loaded(log, at2, paths.profile_index_file),
                        |index: ProfileIndexView, at3: int|
                            if !has_profile(index.profiles, args.name) {
                                failed(FaultKind::ProfileMissing, args.name, at3)
                            } else {
                                bind(
                                    index_saved(
                                        log,
                                        at3,
                                        paths.profile_index_file,
                                        ProfileIndexView { active: Some(args.name), ..index },
                                    ),
                                    |u: (), at4: int| use_applied(env, log, at4, args),
                                )
                            },
                    ),
            ),
    )
}

/// What `profile use` does once the active profile is saved: it fetches,
/// renders and restarts as the command asks.
#[verifier::opaque]
pub open spec fn use_applied(
    env: HostEnvView,
    log: Seq<ExchangeView>,
    at: int,
    args: ProfileUseArgsView,
) -> Ran<ProfileReportView> {
    let apply = args.apply || args.fetch;
    bind(
        if args.fetch {
            bind(
                fetch_run(env, log, at, args.name, true),
                |r: ProfileReportView, at1: int| done((), at1),
            )
        } else {
            done((), at)
        },
        |u: (), at2: int|
            bind(
                if apply {
                    bind(
                        rendered(env, log, at2, use_render_args(args.name)),
                        |r: ProfileReportView, at3: int|
                            if args.no_restart {
                                done((), at3)
                            } else {
                                service_restarted(log, at3, args.service_name)
                            },
                    )
                } else {
                    done((), at2)
                },
                |u: (), at4: int|
                    done(
                        ProfileReportView::Use {
                            active: args.name,
                            applied: apply,
                            fetched: args.fetch,
                            restarted: apply && !args.no_restart,
                            service: unit_name(args.service_name),
                        },
                        at4,
                    ),
            ),
    )
}

/// What a `profile` command comes to over a record.
pub open spec fn outcome(command: ProfileCommandView, env: HostEnvView, log: Seq<ExchangeView>) -> Ran<
    ProfileReportView,
> {
    match command {
        ProfileCommandView::Add(args) => added(env, log, 0, args),
        ProfileCommandView::List => listed(env, log, 0),
        ProfileCommandView::Use(args) => used(env, log, 0, args),
        ProfileCommandView::Fetch(name, force) => fetch_run(env, log, 0, name, force),
        ProfileCommandView::Remove(name) => removed(env, log, 0, name),
        ProfileCommandView::Render(args) => rendered(env, log, 0, args),
        ProfileCommandView::Validate(name) => validated(env, log, 0, name),
    }
}

/// The view of a result over an optional text.
pub open spec fn ran_opt_text(r: Result<Option<String>, Halt>, at: int) -> Ran<Option<Seq<char>>> {
    Ran {
        out: match r {
            Ok(s) => Ok(text_view(s)),
            Err(h) => Err(h@),
        },
        at,
    }
}

/// The view of a result over an optional document.
pub open spec fn ran_opt_node(r: Result<Option<Node>, Halt>, at: int) -> Ran<Option<NodeView>> {
    Ran {
        out: match r {
            Ok(n) => Ok(crate::yaml::node_view(n)),
            Err(h) => Err(h@),
        },
        at,
    }
}

/// The view of a result over an optional hint.
pub open spec fn ran_hint(r: Result<Option<ServiceHint>, Halt>, at: int) -> Ran<
    Option<ServiceHintView>,
> {
    Ran {
        out: match r {
            Ok(h) => Ok(hint_view(h)),
            Err(h) => Err(h@),
        },
        at,
    }
}

/// The view of a result over paths and a subscription.
pub open spec fn ran_source(r: Result<(AppPaths, ProfileEntry), Halt>, at: int) -> Ran<
    (AppPathsView, ProfileEntryView),
> {
    Ran {
        out: match r {
            Ok(f) => Ok((f.0@, f.1@)),
            Err(h) => Err(h@),
        },
        at,
    }
}

// ---------------------------------------------------------------------------
// The commands
// ---------------------------------------------------------------------------

/// Loads the index.
pub fn load_index(host: &mut Replay, path: &str) -> (r: Result<ProfileIndex, Halt>)
    ensures
        final(host).seen() == old(host).seen(),
        ran_view(r, final(host).pos()) == index_loaded(old(host).seen(), old(host).pos(), path@),
{
    proof {
        reveal(index_loaded);
    }
    if !path_exists(host, path)? {
        return Ok(ProfileIndex::new());
    }
    let content = read_file(host, path, FaultKind::FileRead)?;
    match parse_index(content.as_str()) {
        Ok(index) => Ok(index),
        Err(fault) => Err(Halt::Fail(fault)),
    }
}

/// Saves the index.
pub fn save_index(host: &mut Replay, path: &str, index: &ProfileIndex) -> (r: Result<(), Halt>)
    ensures
        final(host).seen() == old(host).seen(),
        ran(r, final(host).pos()) == index_saved(
            old(host).seen(),
            old(host).pos(),
            path@,
            index@,
        ),
{
    proof {
        reveal(index_saved);
    }
    make_parent(host, path)?;
    match render_index(index) {
        Ok(text) => write_file(host, path, text),
        Err(fault) => Err(Halt::Fail(fault)),
    }
}

/// Loads a YAML file.
pub fn load_yaml(host: &mut Replay, path: &str) -> (r: Result<Node, Halt>)
    ensures
        final(host).seen() == old(host).seen(),
        ran_view(r, final(host).pos()) == yaml_loaded(old(host).seen(), old(host).pos(), path@),
{
    proof {
        reveal(yaml_loaded);
    }
    let content = read_file(host, path, FaultKind::FileRead)?;
    match parse(content.as_str()) {
        Ok(root) => Ok(root),
        Err(fault) => Err(Halt::Fail(fault)),
    }
}

/// Fetches a subscription into the profile's file.
pub fn fetch_profile_entry(host: &mut Replay, entry: ProfileEntry, profile_dir: &str) -> (r:
    Result<ProfileEntry, Halt>)
    ensures
        final(host).seen() == old(host).seen(),
        ran_view(r, final(host).pos()) == fetched(
            old(host).seen(),
            old(host).pos(),
            entry@,
            profile_dir@,
        ),
{
    proof {
        reveal(fetched);
    }
    let none = String::new();
    file_op(host, FileOp::CreateDir, profile_dir, none.as_str(), FaultKind::DirCreate)?;
    let request = HttpRequest {
        method: HttpMethod::Get,
        url: entry.url.clone(),
        bearer: None,
        body: None,
        json: false,
        agent: None,
        timeout_secs: 30,
        connect_timeout_secs: 10,
    };
    let reply = host.perform(Effect::Http(request))?;
    if !reply.ok {
        return Err(
            Halt::Fail(
                Fault { kind: FaultKind::FetchFailed, detail: reply.detail, rolled_back: false },
            ),
        );
    }
    match read_yaml(reply.text.as_str()) {
        Err(message) => {
            return Err(
                Halt::Fail(
                    Fault { kind: FaultKind::FetchNotYaml, detail: message, rolled_back: false },
                ),
            );
        },
        Ok(_) => {},
    }
    let path = join_path(profile_dir, entry.file.as_str());
    write_file(host, path.as_str(), reply.text)?;
    let now = now_unix(host)?;
    let mut entry = entry;
    entry.updated_at = Some(now);
    Ok(entry)
}

/// The configuration that a service runs with.
pub fn detect_service_runtime_config_path(host: &mut Replay, unit: &str) -> (r: Result<
    Option<String>,
    Halt,
>)
    ensures
        final(host).seen() == old(host).seen(),
        ran_opt_text(r, final(host).pos()) == service_config(
            old(host).seen(),
            old(host).pos(),
            unit@,
        ),
{
    proof {
        reveal(service_config);
    }
    let mut words: Vec<String> = Vec::new();
    assert(views(words@) =~= Seq::<Seq<char>>::empty());
    push_arg(&mut words, "show");
    push_arg(&mut words, "-p");
    push_arg(&mut words, "ExecStart");
    push_arg(&mut words, "--value");
    push_arg(&mut words, unit);
    assert(views(words@) =~= seq!["show"@, "-p"@, "ExecStart"@, "--value"@, unit@]);
    let reply = host.perform(Effect::Run(systemctl(false, words)))?;
    if !reply.ok {
        return Ok(None);
    }
    Ok(runtime_config_in(reply.text.as_str()))
}

/// Whether two paths name the same file.
pub fn path_eq(host: &mut Replay, a: &str, b: &str) -> (r: Result<bool, Halt>)
    ensures
        final(host).seen() == old(host).seen(),
        ran(r, final(host).pos()) == same_path(old(host).seen(), old(host).pos(), a@, b@),
{
    proof {
        reveal(same_path);
    }
    if same(a, b) {
        return Ok(true);
    }
    let left = host.perform(Effect::File(FileOp::Canonical, owned(a), String::new()))?;
    let right = host.perform(Effect::File(FileOp::Canonical, owned(b), String::new()))?;
    Ok(left.ok && right.ok && same(left.text.as_str(), right.text.as_str()))
}

/// Refuses to go on where the service runs with another configuration than
/// the one that this command writes.
pub fn ensure_service_runtime_home_matches_current(
    host: &mut Replay,
    service_name: &str,
    current_runtime_config: &str,
) -> (r: Result<(), Halt>)
    ensures
        final(host).seen() == old(host).seen(),
        ran(r, final(host).pos()) == home_matches(
            old(host).seen(),
            old(host).pos(),
            service_name@,
            current_runtime_config@,
        ),
{
    proof {
        reveal(home_matches);
    }
    let unit = normalize_unit_name(service_name);
    let config = match detect_service_runtime_config_path(host, unit.as_str())? {
        Some(c) => c,
        None => {
            return Ok(());
        },
    };
    if path_eq(host, config.as_str(), current_runtime_config)? {
        return Ok(());
    }
    Err(Halt::Fail(Fault { kind: FaultKind::HomeMismatch, detail: config, rolled_back: false }))
}

/// Restarts the system service.
pub fn restart_system_service(host: &mut Replay, name: &str) -> (r: Result<(), Halt>)
    ensures
        final(host).seen() == old(host).seen(),
        ran(r, final(host).pos()) == service_restarted(old(host).seen(), old(host).pos(), name@),
{
    let mut words: Vec<String> = Vec::new();
    assert(views(words@) =~= Seq::<Seq<char>>::empty());
    push_arg(&mut words, "restart");
    let unit = normalize_unit_name(name);
    push_arg(&mut words, unit.as_str());
    assert(views(words@) =~= seq!["restart"@, unit_name(name@)]);
    let reply = host.perform(Effect::Run(systemctl(false, words)))?;
    if reply.ok {
        Ok(())
    } else {
        Err(
            Halt::Fail(
                Fault { kind: FaultKind::SystemctlFailed, detail: reply.detail, rolled_back: false },
            ),
        )
    }
}

/// `profile add`.
pub fn cmd_add(env: &HostEnv, host: &mut Replay, args: &ProfileAddArgs) -> (r: Result<
    ProfileReport,
    Halt,
>)
    ensures
        final(host).seen() == old(host).seen(),
        ran_view(r, final(host).pos()) == added(env@, old(host).seen(), old(host).pos(), args@),
{
    proof {
        reveal(added);
    }
    match validate_profile_name(args.name.as_str()) {
        Ok(()) => {},
        Err(f) => {
            return Err(Halt::Fail(f));
        },
    }
    let paths = app_paths(env, host)?;
    let mut index = load_index(host, paths.profile_index_file.as_str())?;
    let ghost before = index@;
    if find_profile(&index.profiles, args.name.as_str()) < index.profiles.len() {
        return Err(
            Halt::Fail(
                Fault {
                    kind: FaultKind::ProfileExists,
                    detail: args.name.clone(),
                    rolled_back: false,
                },
            ),
        );
    }
    let now = now_unix(host)?;
    let mut entry = ProfileEntry {
        name: args.name.clone(),
        url: args.url.clone(),
        file: concat(args.name.as_str(), ".yaml"),
        created_at: now,
        updated_at: None,
    };
    if !args.no_fetch {
        entry = fetch_profile_entry(host, entry, paths.profile_dir.as_str())?;
    }
    if args.use_profile {
        index.active = Some(entry.name.clone());
    }
    index.profiles.push(copy_entry(&entry));
    assert(index@ =~= with_profile(before, entry@, args.use_profile)) by {
        assert(profile_views(index.profiles@) =~= before.profiles.push(entry@));
    }
    save_index(host, paths.profile_index_file.as_str(), &index)?;
    Ok(
        ProfileReport::Add {
            profile: entry,
            active: index.active,
            fetched: !args.no_fetch,
            used: args.use_profile,
        },
    )
}

/// What `profile list` shows about the system service.
pub fn print_profile_home_hint(env: &HostEnv, host: &mut Replay, paths: &AppPaths) -> (r: Result<
    Option<ServiceHint>,
    Halt,
>)
    ensures
        final(host).seen() == old(host).seen(),
        ran_hint(r, final(host).pos()) == hinted(
            env@,
            old(host).seen(),
            old(host).pos(),
            paths@,
        ),
{
    proof {
        reveal(hinted);
    }
    if env.json {
        return Ok(None);
    }
    let config = match detect_service_runtime_config_path(host, DEFAULT_SYSTEM_SERVICE_NAME) {
        Ok(Some(c)) => c,
        Ok(None) => {
            return Ok(None);
        },
        Err(Halt::Need(e)) => {
            return Err(Halt::Need(e));
        },
        Err(Halt::Fail(_)) => {
            return Ok(None);
        },
    };
    if path_eq(host, config.as_str(), paths.runtime_config_file.as_str())? {
        return Ok(None);
    }
    let service_home = infer_home_from_runtime_config(config.as_str());
    Ok(Some(ServiceHint { service_config: config, service_home }))
}

/// `profile list`.
pub fn cmd_list(env: &HostEnv, host: &mut Replay) -> (r: Result<ProfileReport, Halt>)
    ensures
        final(host).seen() == old(host).seen(),
        ran_view(r, final(host).pos()) == listed(env@, old(host).seen(), old(host).pos()),
{
    proof {
        reveal(listed);
    }
    let paths = app_paths(env, host)?;
    let index = load_index(host, paths.profile_index_file.as_str())?;
    let hint = print_profile_home_hint(env, host, &paths)?;
    Ok(ProfileReport::List { index, config_dir: paths.config_dir, hint })
}

/// Whether a fetch is skipped.
fn skip_fetch(host: &mut Replay, entry: &ProfileEntry, path: &str, force: bool) -> (r: Result<
    bool,
    Halt,
>)
    ensures
        final(host).seen() == old(host).seen(),
        ran(r, final(host).pos()) == fetch_skipped(
            old(host).seen(),
            old(host).pos(),
            entry@,
            path@,
            force,
        ),
{
    proof {
        reveal(fetch_skipped);
    }
    let updated = match entry.updated_at {
        Some(t) => t,
        None => {
            return Ok(false);
        },
    };
    if force {
        return Ok(false);
    }
    if !path_exists(host, path)? {
        return Ok(false);
    }
    let now = now_unix(host)?;
    let age = if now >= updated {
        now - updated
    } else {
        0
    };
    Ok(age < FRESH_SECS)
}

/// `profile fetch`.
pub fn cmd_fetch(env: &HostEnv, host: &mut Replay, name: &str, force: bool) -> (r: Result<
    ProfileReport,
    Halt,
>)
    ensures
        final(host).seen() == old(host).seen(),
        ran_view(r, final(host).pos()) == fetch_run(
            env@,
            old(host).seen(),
            old(host).pos(),
            name@,
            force,
        ),
{
    proof {
        reveal(fetch_run);
    }
    let paths = app_paths(env, host)?;
    let mut index = load_index(host, paths.profile_index_file.as_str())?;
    let ghost before = index@;
    let i = find_profile(&index.profiles, name);
    if i >= index.profiles.len() {
        return Err(
            Halt::Fail(
                Fault { kind: FaultKind::ProfileMissing, detail: owned(name), rolled_back: false },
            ),
        );
    }
    let profile_path = join_path(paths.profile_dir.as_str(), index.profiles[i].file.as_str());
    if skip_fetch(host, &index.profiles[i], profile_path.as_str(), force)? {
        return Ok(ProfileReport::FetchSkipped { name: owned(name) });
    }
    let entry = fetch_profile_entry(host, copy_entry(&index.profiles[i]), paths.profile_dir.as_str())?;
    index.profiles.set(i, copy_entry(&entry));
    assert(index@ =~= with_entry(before, i as int, entry@)) by {
        assert(profile_views(index.profiles@) =~= before.profiles.update(i as int, entry@));
    }
    save_index(host, paths.profile_index_file.as_str(), &index)?;
    Ok(ProfileReport::Fetch { profile: entry })
}

/// `profile remove`.
pub fn cmd_remove(env: &HostEnv, host: &mut Replay, name: &str) -> (r: Result<
    ProfileReport,
    Halt,
>)
    ensures
        final(host).seen() == old(host).seen(),
        ran_view(r, final(host).pos()) == removed(env@, old(host).seen(), old(host).pos(), name@),
{
    proof {
        reveal(removed);
    }
    let paths = app_paths(env, host)?;
    let mut index = load_index(host, paths.profile_index_file.as_str())?;
    let ghost before = index@;
    let i = find_profile(&index.profiles, name);
    if i >= index.profiles.len() {
        return Err(
            Halt::Fail(
                Fault { kind: FaultKind::ProfileMissing, detail: owned(name), rolled_back: false },
            ),
        );
    }
    let gone = index.profiles.remove(i);
    let was_active = match &index.active {
        Some(a) => same(a.as_str(), gone.name.as_str()),
        None => false,
    };
    if was_active {
        index.active = None;
    }
    assert(index@ =~= without_profile(before, i as int)) by {
        assert(profile_views(index.profiles@) =~= before.profiles.remove(i as int));
    }
    save_index(host, paths.profile_index_file.as_str(), &index)?;
    let profile_path = join_path(paths.profile_dir.as_str(), gone.file.as_str());
    crate::files::remove_if_there(host, profile_path.as_str())?;
    Ok(ProfileReport::Remove { removed: owned(name), active: index.active })
}

/// Finds the subscription that a command means, and its file.
fn find_source(env: &HostEnv, host: &mut Replay, name: &Option<String>) -> (r: Result<
    (AppPaths, ProfileEntry),
    Halt,
>)
    ensures
        final(host).seen() == old(host).seen(),
        ran_source(r, final(host).pos()) == source_found(
            env@,
            old(host).seen(),
            old(host).pos(),
            text_view(*name),
        ),
{
    proof {
        reveal(source_found);
    }
    let paths = app_paths(env, host)?;
    let index = load_index(host, paths.profile_index_file.as_str())?;
    let name_ref: Option<&str> = match name {
        Some(n) => Some(n.as_str()),
        None => None,
    };
    let entry = match select_profile(&index, name_ref) {
        Ok(e) => copy_entry(e),
        Err(f) => {
            return Err(Halt::Fail(f));
        },
    };
    let source_path = join_path(paths.profile_dir.as_str(), entry.file.as_str());
    if !path_exists(host, source_path.as_str())? {
        return Err(
            Halt::Fail(
                Fault { kind: FaultKind::ProfileFileMissing, detail: source_path, rolled_back: false },
            ),
        );
    }
    Ok((paths, entry))
}

/// Loads the mixin where mixins are wanted and there is one.
fn load_mixin(host: &mut Replay, path: &str, wanted: bool) -> (r: Result<Option<Node>, Halt>)
    ensures
        final(host).seen() == old(host).seen(),
        ran_opt_node(r, final(host).pos()) == mixin_loaded(
            old(host).seen(),
            old(host).pos(),
            path@,
            wanted,
        ),
{
    proof {
        reveal(mixin_loaded);
    }
    if !wanted {
        return Ok(None);
    }
    if !path_exists(host, path)? {
        return Ok(None);
    }
    Ok(Some(load_yaml(host, path)?))
}

/// Writes a document as YAML.
pub fn save_yaml(host: &mut Replay, path: &str, root: &Node) -> (r: Result<(), Halt>)
    ensures
        final(host).seen() == old(host).seen(),
        ran(r, final(host).pos()) == yaml_saved(old(host).seen(), old(host).pos(), path@, root@),
{
    proof {
        reveal(yaml_saved);
    }
    make_parent(host, path)?;
    match render(root) {
        Ok(text) => write_file(host, path, text),
        Err(fault) => Err(Halt::Fail(fault)),
    }
}

/// `profile render`.
pub fn cmd_render(env: &HostEnv, host: &mut Replay, args: &ProfileRenderArgs) -> (r: Result<
    ProfileReport,
    Halt,
>)
    ensures
        final(host).seen() == old(host).seen(),
        ran_view(r, final(host).pos()) == rendered(
            env@,
            old(host).seen(),
            old(host).pos(),
            args@,
        ),
{
    proof {
        reveal(rendered);
    }
    let (paths, selected) = find_source(env, host, &args.name)?;
    let source_path = join_path(paths.profile_dir.as_str(), selected.file.as_str());
    let mut root = load_yaml(host, source_path.as_str())?;
    let mixin = load_mixin(host, paths.profile_mixin_file.as_str(), !args.no_mixin)?;
    if !args.follow_subscription_port {
        apply_local_listener_defaults(&mut root);
    }
    match &mixin {
        Some(m) => {
            deep_merge(&mut root, m);
        },
        None => {},
    }
    let output = match &args.output {
        Some(o) => o.clone(),
        None => paths.runtime_config_file.clone(),
    };
    save_yaml(host, output.as_str(), &root)?;
    Ok(
        ProfileReport::Render {
            profile: selected.name,
            output,
            follow_subscription_port: args.follow_subscription_port,
        },
    )
}

/// `profile validate`.
pub fn cmd_validate(env: &HostEnv, host: &mut Replay, name: &Option<String>) -> (r: Result<
    ProfileReport,
    Halt,
>)
    ensures
        final(host).seen() == old(host).seen(),
        ran_view(r, final(host).pos()) == validated(
            env@,
            old(host).seen(),
            old(host).pos(),
            text_view(*name),
        ),
{
    proof {
        reveal(validated);
    }
    let (paths, selected) = find_source(env, host, name)?;
    let source_path = join_path(paths.profile_dir.as_str(), selected.file.as_str());
    let root = load_yaml(host, source_path.as_str())?;
    let has_proxies = key_exists(&root, "proxies") || key_exists(&root, "proxy-providers");
    let has_rules = key_exists(&root, "rules");
    Ok(ProfileReport::Validate { profile: selected.name, has_proxies, has_rules })
}

/// What `profile use` does once the active profile is saved.
fn apply_use(env: &HostEnv, host: &mut Replay, args: &ProfileUseArgs) -> (r: Result<
    ProfileReport,
    Halt,
>)
    ensures
        final(host).seen() == old(host).seen(),
        ran_view(r, final(host).pos()) == use_applied(
            env@,
            old(host).seen(),
            old(host).pos(),
            args@,
        ),
{
    proof {
        reveal(use_applied);
    }
    let apply = args.apply || args.fetch;
    if args.fetch {
        let _ = cmd_fetch(env, host, args.name.as_str(), true)?;
    }
    if apply {
        let render_args = ProfileRenderArgs {
            name: Some(args.name.clone()),
            output: None,
            no_mixin: false,
            follow_subscription_port: false,
        };
        let _ = cmd_render(env, host, &render_args)?;
        if !args.no_restart {
            restart_system_service(host, args.service_name.as_str())?;
        }
    }
    Ok(
        ProfileReport::Use {
            active: args.name.clone(),
            applied: apply,
            fetched: args.fetch,
            restarted: apply && !args.no_restart,
            service: normalize_unit_name(args.service_name.as_str()),
        },
    )
}

/// `profile use`.
pub fn cmd_use(env: &HostEnv, host: &mut Replay, args: &ProfileUseArgs) -> (r: Result<
    ProfileReport,
    Halt,
>)
    ensures
        final(host).seen() == old(host).seen(),
        ran_view(r, final(host).pos()) == used(env@, old(host).seen(), old(host).pos(), args@),
{
    proof {
        reveal(used);
    }
    let paths = app_paths(env, host)?;
    let apply = args.apply || args.fetch;
    if apply && !args.no_restart {
        ensure_service_runtime_home_matches_current(
            host,
            args.service_name.as_str(),
            paths.runtime_config_file.as_str(),
        )?;
    }
    let mut index = load_index(host, paths.profile_index_file.as_str())?;
    if find_profile(&index.profiles, args.name.as_str()) >= index.profiles.len() {
        return Err(
            Halt::Fail(
                Fault {
                    kind: FaultKind::ProfileMissing,
                    detail: args.name.clone(),
                    rolled_back: false,
                },
            ),
        );
    }
    index.active = Some(args.name.clone());
    save_index(host, paths.profile_index_file.as_str(), &index)?;
    apply_use(env, host, args)
}

/// Runs a `profile` command over the record of what it asked of the
/// machine so far.
pub fn run(command: &ProfileCommand, env: &HostEnv, log: &Vec<Exchange>) -> (r: Step<
    ProfileReport,
>)
    ensures
        r@ == told(outcome(command@, env@, record_views(log@)), log@.len()),
{
    let mut host = Replay::new(log);
    let result = match command {
        ProfileCommand::Add(args) => cmd_add(env, &mut host, args),
        ProfileCommand::List => cmd_list(env, &mut host),
        ProfileCommand::Use(args) => cmd_use(env, &mut host, args),
        ProfileCommand::Fetch(args) => cmd_fetch(env, &mut host, args.name.as_str(), args.force),
        ProfileCommand::Remove(args) => cmd_remove(env, &mut host, args.name.as_str()),
        ProfileCommand::Render(args) => cmd_render(env, &mut host, args),
        ProfileCommand::Validate(args) => cmd_validate(env, &mut host, &args.name),
    };
    conclude(result, host.at, log.len())
}

} // verus!
