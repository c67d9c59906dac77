//! The controller's API: where the controller is found, which requests a
//! command sends, and what comes back.

use crate::cli::{ApiCommand, ApiCommonArgs, ApiModeCommand, ApiModeValue};
use crate::host::{
    ask, bind, conclude, done, failed, halted, owned, ran_view, record_views, text_view, told,
    Effect, EffectView, Exchange, ExchangeView, Fault, FaultKind, Halt, HaltView, HostEnv,
    HostEnvView, HttpMethod, HttpRequest, HttpRequestView, Ran, Replay, ReplyView, Step,
};
use crate::paths::{app_paths, located, AppPathsView};
use crate::json::{json_read, read_json};
use crate::text::{
    chars_of, concat, concat3, parse_unsigned, parse_unsigned_chars, starts_with,
    str_starts_with, trim_end_char, trimmed_end_char,
};
use crate::yaml::{
    key_value, node_view, read_yaml, string_field, text_at, yaml_read, Node, NodeView,
};
use vstd::prelude::*;

verus! {

/// Where the controller listens unless the command or the configuration
/// says otherwise.
pub const DEFAULT_CONTROLLER: &'static str = "127.0.0.1:9090";

/// How long a connection to the controller may take, in seconds.
pub const CONNECT_TIMEOUT_SECS: u64 = 8;

/// Where the controller is and how to authenticate.
#[derive(Debug)]
pub struct ApiContext {
    pub base_url: String,
    pub secret: Option<String>,
}

pub struct ApiContextView {
    pub base_url: Seq<char>,
    pub secret: Option<Seq<char>>,
}

impl View for ApiContext {
    type V = ApiContextView;

    open spec fn view(&self) -> ApiContextView {
        ApiContextView { base_url: self.base_url@, secret: text_view(self.secret) }
    }
}

/// What the runtime configuration says about the dashboard.
#[derive(Debug)]
pub struct RuntimeUiFields {
    pub external_ui: Option<String>,
    pub external_ui_name: Option<String>,
    pub external_ui_url: Option<String>,
}

pub struct RuntimeUiFieldsView {
    pub external_ui: Option<Seq<char>>,
    pub external_ui_name: Option<Seq<char>>,
    pub external_ui_url: Option<Seq<char>>,
}

impl View for RuntimeUiFields {
    type V = RuntimeUiFieldsView;

    open spec fn view(&self) -> RuntimeUiFieldsView {
        RuntimeUiFieldsView {
            external_ui: text_view(self.external_ui),
            external_ui_name: text_view(self.external_ui_name),
            external_ui_url: text_view(self.external_ui_url),
        }
    }
}

/// What an `api` command found. The controller's answers are JSON texts.
#[derive(Debug)]
pub enum ApiReport {
    Status { controller: String, response: String },
    ModeGet { response: String },
    ModeSet { mode: ApiModeValue, response: String },
    Proxies { response: String },
    Connections { response: String },
    UiUrl { controller: String, dashboard_url: String, ui: RuntimeUiFields, secret_set: bool },
}

pub enum ApiReportView {
    Status { controller: Seq<char>, response: Seq<char> },
    ModeGet { response: Seq<char> },
    ModeSet { mode: ApiModeValue, response: Seq<char> },
    Proxies { response: Seq<char> },
    Connections { response: Seq<char> },
    UiUrl {
        controller: Seq<char>,
        dashboard_url: Seq<char>,
        ui: RuntimeUiFieldsView,
        secret_set: bool,
    },
}

impl View for ApiReport {
    type V = ApiReportView;

    open spec fn view(&self) -> ApiReportView {
        match self {
            ApiReport::Status { controller, response } => ApiReportView::Status {
                controller: controller@,
                response: response@,
            },
            ApiReport::ModeGet { response } => ApiReportView::ModeGet { response: response@ },
            ApiReport::ModeSet { mode, response } => ApiReportView::ModeSet {
                mode: *mode,
                response: response@,
            },
            ApiReport::Proxies { response } => ApiReportView::Proxies { response: response@ },
            ApiReport::Connections { response } => ApiReportView::Connections {
                response: response@,
            },
            ApiReport::UiUrl { controller, dashboard_url, ui, secret_set } => ApiReportView::UiUrl {
                controller: controller@,
                dashboard_url: dashboard_url@,
                ui: ui@,
                secret_set: *secret_set,
            },
        }
    }
}

pub struct ApiCommonArgsView {
    pub controller: Option<Seq<char>>,
    pub secret: Option<Seq<char>>,
    pub timeout_secs: u64,
}

impl View for ApiCommonArgs {
    type V = ApiCommonArgsView;

    open spec fn view(&self) -> ApiCommonArgsView {
        ApiCommonArgsView {
            controller: text_view(self.controller),
            secret: text_view(self.secret),
            timeout_secs: self.timeout_secs,
        }
    }
}

pub enum ApiCommandView {
    Status(ApiCommonArgsView),
    ModeGet(ApiCommonArgsView),
    ModeSet(ApiModeValue, ApiCommonArgsView),
    Proxies(ApiCommonArgsView),
    Connections(ApiCommonArgsView),
    UiUrl(ApiCommonArgsView),
}

impl View for ApiCommand {
    type V = ApiCommandView;

    open spec fn view(&self) -> ApiCommandView {
        match self {
            ApiCommand::Status(c) => ApiCommandView::Status(c@),
            ApiCommand::Mode { action, common } => match action {
                ApiModeCommand::Get => ApiCommandView::ModeGet(common@),
                ApiModeCommand::SetTo(args) => ApiCommandView::ModeSet(args.mode, common@),
            },
            ApiCommand::Proxies(c) => ApiCommandView::Proxies(c@),
            ApiCommand::Connections(c) => ApiCommandView::Connections(c@),
            ApiCommand::UiUrl(c) => ApiCommandView::UiUrl(c@),
        }
    }
}

// ---------------------------------------------------------------------------
// Addresses
// ---------------------------------------------------------------------------

/// The controller's base URL: without trailing slashes, and with `http://`
/// in front where the address names no scheme.
pub open spec fn controller_url(value: Seq<char>) -> Seq<char> {
    if starts_with(value, "http://"@) || starts_with(value, "https://"@) {
        trim_end_char(value, '/')
    } else {
        "http://"@ + trim_end_char(value, '/')
    }
}

/// The dashboard's URL: `/ui` below the controller.
pub open spec fn dashboard_url(controller: Seq<char>) -> Seq<char> {
    trim_end_char(controller, '/') + "/ui"@
}

/// The first of two optional texts that is there.
pub open spec fn first_of(a: Option<Seq<char>>, b: Option<Seq<char>>) -> Option<Seq<char>> {
    match a {
        Some(x) => Some(x),
        None => b,
    }
}

/// The controller and the secret to use: what the command says, else what
/// the configuration says, else the default address and no secret.
pub open spec fn context_of(
    common: ApiCommonArgsView,
    config_controller: Option<Seq<char>>,
    config_secret: Option<Seq<char>>,
) -> ApiContextView {
    ApiContextView {
        base_url: controller_url(
            match first_of(common.controller, config_controller) {
                Some(c) => c,
                None => DEFAULT_CONTROLLER@,
            },
        ),
        secret: first_of(common.secret, config_secret),
    }
}

/// The token that a request carries: the secret, unless it is empty.
pub open spec fn bearer_of(ctx: ApiContextView) -> Option<Seq<char>> {
    match ctx.secret {
        Some(s) => if s.len() > 0 {
            Some(s)
        } else {
            None
        },
        None => None,
    }
}

/// The body that sets the mode.
pub open spec fn mode_body(mode: ApiModeValue) -> Seq<char> {
    "{\"mode\":\""@ + mode.name() + "\"}"@
}

/// A request to the controller.
pub open spec fn request_to(
    ctx: ApiContextView,
    method: HttpMethod,
    path: Seq<char>,
    body: Option<Seq<char>>,
    timeout_secs: u64,
) -> HttpRequestView {
    HttpRequestView {
        method,
        url: ctx.base_url + path,
        bearer: bearer_of(ctx),
        body,
        json: true,
        agent: None,
        timeout_secs,
        connect_timeout_secs: CONNECT_TIMEOUT_SECS,
    }
}

pub fn normalize_controller_url(value: &str) -> (r: String)
    ensures
        r@ == controller_url(value@),
{
    if str_starts_with(value, "http://") || str_starts_with(value, "https://") {
        trimmed_end_char(value, '/')
    } else {
        let t = trimmed_end_char(value, '/');
        concat("http://", t.as_str())
    }
}

pub fn build_dashboard_url(controller: &str) -> (r: String)
    ensures
        r@ == dashboard_url(controller@),
{
    let t = trimmed_end_char(controller, '/');
    concat(t.as_str(), "/ui")
}

/// The text at `key` of the document's root.
pub fn yaml_key_string(root: &Node, key: &str) -> (r: Option<String>)
    ensures
        text_view(r) == text_at(Some(root@), key@),
{
    string_field(Some(root), key)
}

/// The first of two optional texts that is there.
pub fn or_text(a: &Option<String>, b: Option<String>) -> (r: Option<String>)
    ensures
        text_view(r) == first_of(text_view(*a), text_view(b)),
{
    match a {
        Some(x) => Some(x.clone()),
        None => b,
    }
}

/// The controller and the secret to use.
pub fn api_context(
    common: &ApiCommonArgs,
    config_controller: Option<String>,
    config_secret: Option<String>,
) -> (r: ApiContext)
    ensures
        r@ == context_of(common@, text_view(config_controller), text_view(config_secret)),
{
    let controller = match or_text(&common.controller, config_controller) {
        Some(c) => c,
        None => owned(DEFAULT_CONTROLLER),
    };
    ApiContext {
        base_url: normalize_controller_url(controller.as_str()),
        secret: or_text(&common.secret, config_secret),
    }
}

/// The token that a request carries.
pub fn apply_secret(ctx: &ApiContext) -> (r: Option<String>)
    ensures
        text_view(r) == bearer_of(ctx@),
{
    match &ctx.secret {
        Some(s) => {
            if s.as_str().is_empty() {
                None
            } else {
                Some(s.clone())
            }
        },
        None => None,
    }
}

/// A request to the controller.
pub fn build_request(
    ctx: &ApiContext,
    method: HttpMethod,
    path: &str,
    body: Option<String>,
    timeout_secs: u64,
) -> (r: HttpRequest)
    ensures
        r@ == request_to(ctx@, method, path@, text_view(body), timeout_secs),
{
    HttpRequest {
        method,
        url: concat(ctx.base_url.as_str(), path),
        bearer: apply_secret(ctx),
        body,
        json: true,
        agent: None,
        timeout_secs,
        connect_timeout_secs: CONNECT_TIMEOUT_SECS,
    }
}

// ---------------------------------------------------------------------------
// Outcomes over a record
// ---------------------------------------------------------------------------

/// The runtime configuration's root, if there is a configuration.
pub open spec fn runtime_root(log: Seq<ExchangeView>, at: int, path: Seq<char>) -> Ran<
    Option<NodeView>,
> {
    bind(
        ask(log, at, EffectView::PathExists(path)),
        |there: ReplyView, at1: int|
            if !there.ok {
                done(None, at1)
            } else {
                bind(
                    ask(log, at1, EffectView::ReadFile(path)),
                    |r: ReplyView, at2: int|
                        if !r.ok {
                            failed(FaultKind::ConfigRead, r.detail, at2)
                        } else {
                            match yaml_read(r.text) {
                                Ok(root) => done(Some(root), at2),
                                Err(message) => failed(FaultKind::ConfigParse, message, at2),
                            }
                        },
                )
            },
    )
}

/// The text at `key` of an optional root.
pub open spec fn root_text(root: Option<NodeView>, key: Seq<char>) -> Option<Seq<char>> {
    text_at(root, key)
}

/// Where the controller is, from the command and the runtime configuration.
#[verifier::opaque]
pub open spec fn context(
    env: HostEnvView,
    log: Seq<ExchangeView>,
    at: int,
    common: ApiCommonArgsView,
) -> Ran<(ApiContextView, AppPathsView)> {
    bind(
        located(env, log, at),
        |paths: AppPathsView, at1: int|
            bind(
                runtime_root(log, at1, paths.runtime_config_file),
                |root: Option<NodeView>, at2: int|
                    done(
                        (
                            context_of(
                                common,
                                root_text(root, "external-controller"@),
                                root_text(root, "secret"@),
                            ),
                            paths,
                        ),
                        at2,
                    ),
            ),
    )
}

/// A request is sent; what comes back is the answer's text.
pub open spec fn sent(log: Seq<ExchangeView>, at: int, request: HttpRequestView) -> Ran<Seq<char>> {
    bind(
        ask(log, at, EffectView::Http(request)),
        |r: ReplyView, at1: int|
            if r.ok {
                done(r.text, at1)
            } else {
                failed(FaultKind::ApiRequest, r.detail, at1)
            },
    )
}

/// What the plain output shows of an answer of the controller.
#[derive(Debug)]
pub struct AnswerSummary {
    /// The text at `version`.
    pub version: Option<String>,
    /// The text at `mode`.
    pub mode: Option<String>,
    /// How many members the object at `proxies` has.
    pub proxies: usize,
    /// How many items the array at `connections` has.
    pub connections: usize,
    /// The number at `downloadTotal`.
    pub download_total: u64,
    /// The number at `uploadTotal`.
    pub upload_total: u64,
}

pub struct AnswerSummaryView {
    pub version: Option<Seq<char>>,
    pub mode: Option<Seq<char>>,
    pub proxies: nat,
    pub connections: nat,
    pub download_total: nat,
    pub upload_total: nat,
}

impl View for AnswerSummary {
    type V = AnswerSummaryView;

    open spec fn view(&self) -> AnswerSummaryView {
        AnswerSummaryView {
            version: text_view(self.version),
            mode: text_view(self.mode),
            proxies: self.proxies as nat,
            connections: self.connections as nat,
            download_total: self.download_total as nat,
            upload_total: self.upload_total as nat,
        }
    }
}

/// How many members the object at `key` has; 0 where there is none.
pub open spec fn members_at(doc: NodeView, key: Seq<char>) -> nat {
    match doc.field(key) {
        Some(NodeView::Mapping(entries)) => entries.len(),
        _ => 0,
    }
}

/// How many items the array at `key` has; 0 where there is none.
pub open spec fn items_at(doc: NodeView, key: Seq<char>) -> nat {
    match doc.field(key) {
        Some(NodeView::Sequence(items)) => items.len(),
        _ => 0,
    }
}

/// The number at `key` where it is an unsigned integer of 64 bits; 0
/// otherwise.
pub open spec fn total_at(doc: NodeView, key: Seq<char>) -> nat {
    match doc.field(key) {
        Some(NodeView::Number(digits)) => match parse_unsigned(digits, u64::MAX as nat) {
            Some(n) => n,
            None => 0,
        },
        _ => 0,
    }
}

/// What the plain output shows of an answer.
pub open spec fn summary_of(doc: NodeView) -> AnswerSummaryView {
    AnswerSummaryView {
        version: text_at(Some(doc), "version"@),
        mode: text_at(Some(doc), "mode"@),
        proxies: members_at(doc, "proxies"@),
        connections: items_at(doc, "connections"@),
        download_total: total_at(doc, "downloadTotal"@),
        upload_total: total_at(doc, "uploadTotal"@),
    }
}

/// The mode to show for an answer: the text at `mode`, or `unknown`.
pub open spec fn shown_mode(summary: AnswerSummaryView) -> Seq<char> {
    match summary.mode {
        Some(mode) => mode,
        None => "unknown"@,
    }
}

/// The view of an optional summary.
pub open spec fn summary_view(s: Option<AnswerSummary>) -> Option<AnswerSummaryView> {
    match s {
        Some(x) => Some(x@),
        None => None,
    }
}

/// `api status`: the version is asked for and, if that fails, the
/// configuration.
pub open spec fn status(
    log: Seq<ExchangeView>,
    at: int,
    ctx: ApiContextView,
    timeout_secs: u64,
) -> Ran<ApiReportView> {
    let version = sent(log, at, request_to(ctx, HttpMethod::Get, "/version"@, None, timeout_secs));
    match version.out {
        Ok(response) => done(
            ApiReportView::Status { controller: ctx.base_url, response },
            version.at,
        ),
        Err(HaltView::Need(e)) => halted(HaltView::Need(e), version.at),
        Err(HaltView::Fail(_)) => bind(
            sent(
                log,
                version.at,
                request_to(ctx, HttpMethod::Get, "/configs"@, None, timeout_secs),
            ),
            |response: Seq<char>, at1: int|
                done(ApiReportView::Status { controller: ctx.base_url, response }, at1),
        ),
    }
}

/// The fields of the dashboard in an optional root.
pub open spec fn ui_fields(root: Option<NodeView>) -> RuntimeUiFieldsView {
    RuntimeUiFieldsView {
        external_ui: root_text(root, "external-ui"@),
        external_ui_name: root_text(root, "external-ui-name"@),
        external_ui_url: root_text(root, "external-ui-url"@),
    }
}

/// What a command does once the controller is known.
pub open spec fn answered(
    log: Seq<ExchangeView>,
    at: int,
    command: ApiCommandView,
    ctx: ApiContextView,
    paths: AppPathsView,
) -> Ran<ApiReportView> {
    match command {
        ApiCommandView::Status(common) => status(log, at, ctx, common.timeout_secs),
        ApiCommandView::ModeGet(common) => bind(
            sent(
                log,
                at,
                request_to(ctx, HttpMethod::Get, "/configs"@, None, common.timeout_secs),
            ),
            |response: Seq<char>, at1: int| done(ApiReportView::ModeGet { response }, at1),
        ),
        ApiCommandView::ModeSet(mode, common) => bind(
            sent(
                log,
                at,
                request_to(
                    ctx,
                    HttpMethod::Patch,
                    "/configs"@,
                    Some(mode_body(mode)),
                    common.timeout_secs,
                ),
            ),
            |response: Seq<char>, at1: int| done(ApiReportView::ModeSet { mode, response }, at1),
        ),
        ApiCommandView::Proxies(common) => bind(
            sent(
                log,
                at,
                request_to(ctx, HttpMethod::Get, "/proxies"@, None, common.timeout_secs),
            ),
            |response: Seq<char>, at1: int| done(ApiReportView::Proxies { response }, at1),
        ),
        ApiCommandView::Connections(common) => bind(
            sent(
                log,
                at,
                request_to(ctx, HttpMethod::Get, "/connections"@, None, common.timeout_secs),
            ),
            |response: Seq<char>, at1: int| done(ApiReportView::Connections { response }, at1),
        ),
        ApiCommandView::UiUrl(_) => bind(
            runtime_root(log, at, paths.runtime_config_file),
            |root: Option<NodeView>, at1: int|
                done(
                    ApiReportView::UiUrl {
                        controller: ctx.base_url,
                        dashboard_url: dashboard_url(ctx.base_url),
                        ui: ui_fields(root),
                        secret_set: bearer_of(ctx) is Some,
                    },
                    at1,
                ),
        ),
    }
}

/// The arguments that every `api` command carries.
pub open spec fn common_of(command: ApiCommandView) -> ApiCommonArgsView {
    match command {
        ApiCommandView::Status(c) => c,
        ApiCommandView::ModeGet(c) => c,
        ApiCommandView::ModeSet(_, c) => c,
        ApiCommandView::Proxies(c) => c,
        ApiCommandView::Connections(c) => c,
        ApiCommandView::UiUrl(c) => c,
    }
}

/// What an `api` command comes to over a record.
pub open spec fn outcome(command: ApiCommandView, env: HostEnvView, log: Seq<ExchangeView>) -> Ran<
    ApiReportView,
> {
    outcome_at(command, env, log, 0)
}

/// What an `api` command comes to from a position of a record.
pub open spec fn outcome_at(
    command: ApiCommandView,
    env: HostEnvView,
    log: Seq<ExchangeView>,
    at: int,
) -> Ran<ApiReportView> {
    bind(
        context(env, log, at, common_of(command)),
        |found: (ApiContextView, AppPathsView), at1: int|
            answered(log, at1, command, found.0, found.1),
    )
}

/// The view of a result over an optional root.
pub open spec fn ran_root(r: Result<Option<Node>, Halt>, at: int) -> Ran<Option<NodeView>> {
    Ran {
        out: match r {
            Ok(root) => Ok(node_view(root)),
            Err(h) => Err(h@),
        },
        at,
    }
}

/// The view of a result over a text.
pub open spec fn ran_text(r: Result<String, Halt>, at: int) -> Ran<Seq<char>> {
    Ran {
        out: match r {
            Ok(s) => Ok(s@),
            Err(h) => Err(h@),
        },
        at,
    }
}

// ---------------------------------------------------------------------------
// The commands
// ---------------------------------------------------------------------------

/// Loads the runtime configuration, if there is one.
pub fn load_runtime_root(host: &mut Replay, path: &str) -> (r: Result<Option<Node>, Halt>)
    ensures
        final(host).seen() == old(host).seen(),
        ran_root(r, final(host).pos()) == runtime_root(old(host).seen(), old(host).pos(), path@),
{
    let there = host.perform(Effect::PathExists(owned(path)))?;
    if !there.ok {
        return Ok(None);
    }
    let reply = host.perform(Effect::ReadFile(owned(path)))?;
    if !reply.ok {
        return Err(
            Halt::Fail(
                Fault { kind: FaultKind::ConfigRead, detail: reply.detail, rolled_back: false },
            ),
        );
    }
    match read_yaml(reply.text.as_str()) {
        Ok(root) => Ok(Some(root)),
        Err(message) => Err(
            Halt::Fail(Fault { kind: FaultKind::ConfigParse, detail: message, rolled_back: false }),
        ),
    }
}

/// The controller's address and the secret in the runtime configuration.
pub fn load_runtime_api_fields(root: &Option<Node>) -> (r: (Option<String>, Option<String>))
    ensures
        text_view(r.0) == root_text(node_view(*root), "external-controller"@),
        text_view(r.1) == root_text(node_view(*root), "secret"@),
{
    (
        string_field(root.as_ref(), "external-controller"),
        string_field(root.as_ref(), "secret"),
    )
}

/// What the runtime configuration says about the dashboard.
pub fn load_runtime_ui_fields(root: &Option<Node>) -> (r: RuntimeUiFields)
    ensures
        r@ == ui_fields(node_view(*root)),
{
    RuntimeUiFields {
        external_ui: string_field(root.as_ref(), "external-ui"),
        external_ui_name: string_field(root.as_ref(), "external-ui-name"),
        external_ui_url: string_field(root.as_ref(), "external-ui-url"),
    }
}

/// The view of a result over a context with the paths.
pub open spec fn ran_context(r: Result<(ApiContext, crate::paths::AppPaths), Halt>, at: int) -> Ran<
    (ApiContextView, AppPathsView),
> {
    Ran {
        out: match r {
            Ok(c) => Ok((c.0@, c.1@)),
            Err(h) => Err(h@),
        },
        at,
    }
}

/// Finds out where the controller is.
pub fn load_api_context(env: &HostEnv, host: &mut Replay, common: &ApiCommonArgs) -> (r: Result<
    (ApiContext, crate::paths::AppPaths),
    Halt,
>)
    ensures
        final(host).seen() == old(host).seen(),
        ran_context(r, final(host).pos()) == context(
            env@,
            old(host).seen(),
            old(host).pos(),
            common@,
        ),
{
    proof {
        reveal(context);
    }
    let paths = app_paths(env, host)?;
    let root = load_runtime_root(host, paths.runtime_config_file.as_str())?;
    let (controller, secret) = load_runtime_api_fields(&root);
    Ok((api_context(common, controller, secret), paths))
}

/// Sends a request and gives the answer's text.
pub fn api_send(host: &mut Replay, request: HttpRequest) -> (r: Result<String, Halt>)
    ensures
        final(host).seen() == old(host).seen(),
        ran_text(r, final(host).pos()) == sent(old(host).seen(), old(host).pos(), request@),
{
    let reply = host.perform(Effect::Http(request))?;
    if reply.ok {
        Ok(reply.text)
    } else {
        Err(
            Halt::Fail(
                Fault { kind: FaultKind::ApiRequest, detail: reply.detail, rolled_back: false },
            ),
        )
    }
}

/// Sends a `GET` to the controller.
pub fn api_get(host: &mut Replay, ctx: &ApiContext, path: &str, timeout_secs: u64) -> (r: Result<
    String,
    Halt,
>)
    ensures
        final(host).seen() == old(host).seen(),
        ran_text(r, final(host).pos()) == sent(
            old(host).seen(),
            old(host).pos(),
            request_to(ctx@, HttpMethod::Get, path@, None, timeout_secs),
        ),
{
    api_send(host, build_request(ctx, HttpMethod::Get, path, None, timeout_secs))
}

/// Sends a `PATCH` with a JSON body to the controller.
pub fn api_patch(
    host: &mut Replay,
    ctx: &ApiContext,
    path: &str,
    payload: String,
    timeout_secs: u64,
) -> (r: Result<String, Halt>)
    ensures
        final(host).seen() == old(host).seen(),
        ran_text(r, final(host).pos()) == sent(
            old(host).seen(),
            old(host).pos(),
            request_to(ctx@, HttpMethod::Patch, path@, Some(payload@), timeout_secs),
        ),
{
    api_send(host, build_request(ctx, HttpMethod::Patch, path, Some(payload), timeout_secs))
}

/// How many members the object at `key` has.
pub fn count_members(doc: &Node, key: &str) -> (r: usize)
    ensures
        r == members_at(doc@, key@),
{
    match key_value(doc, key) {
        Some(Node::Mapping(entries)) => {
            proof {
                crate::yaml::lemma_mapping_view(*entries);
            }
            entries.len()
        },
        _ => 0,
    }
}

/// How many items the array at `key` has.
pub fn count_items(doc: &Node, key: &str) -> (r: usize)
    ensures
        r == items_at(doc@, key@),
{
    match key_value(doc, key) {
        Some(Node::Sequence(items)) => {
            assert(Node::Sequence(*items).model()->Sequence_0.len() == items@.len());
            items.len()
        },
        _ => 0,
    }
}

/// The number at `key`.
pub fn read_total(doc: &Node, key: &str) -> (r: u64)
    ensures
        r == total_at(doc@, key@),
{
    match key_value(doc, key) {
        Some(Node::Number(digits)) => {
            let chars = chars_of(digits.as_str());
            match parse_unsigned_chars(&chars, u64::MAX) {
                Some(n) => n,
                None => 0,
            }
        },
        _ => 0,
    }
}

/// What the plain output shows of an answer that was parsed.
pub fn summarize(doc: &Node) -> (r: AnswerSummary)
    ensures
        r@ == summary_of(doc@),
{
    AnswerSummary {
        version: string_field(Some(doc), "version"),
        mode: string_field(Some(doc), "mode"),
        proxies: count_members(doc, "proxies"),
        connections: count_items(doc, "connections"),
        download_total: read_total(doc, "downloadTotal"),
        upload_total: read_total(doc, "uploadTotal"),
    }
}

/// What the plain output shows of an answer's text; none where the text is
/// no JSON.
pub fn answer_summary(response: &str) -> (r: Option<AnswerSummary>)
    ensures
        summary_view(r) == (match json_read(response@) {
            Ok(doc) => Some(summary_of(doc)),
            Err(_) => None,
        }),
{
    match read_json(response) {
        Ok(doc) => Some(summarize(&doc)),
        Err(_) => None,
    }
}

/// The mode to show for an answer.
pub fn mode_shown(summary: &AnswerSummary) -> (r: String)
    ensures
        r@ == shown_mode(summary@),
{
    match &summary.mode {
        Some(mode) => mode.clone(),
        None => owned("unknown"),
    }
}

/// `api status`.
pub fn cmd_status(host: &mut Replay, ctx: &ApiContext, timeout_secs: u64) -> (r: Result<
    ApiReport,
    Halt,
>)
    ensures
        final(host).seen() == old(host).seen(),
        ran_view(r, final(host).pos()) == status(
            old(host).seen(),
            old(host).pos(),
            ctx@,
            timeout_secs,
        ),
{
    let response = match api_get(host, ctx, "/version", timeout_secs) {
        Ok(v) => v,
        Err(Halt::Need(e)) => {
            return Err(Halt::Need(e));
        },
        Err(Halt::Fail(_)) => api_get(host, ctx, "/configs", timeout_secs)?,
    };
    Ok(ApiReport::Status { controller: ctx.base_url.clone(), response })
}

/// `api mode get` and `api mode set`.
pub fn cmd_mode(
    host: &mut Replay,
    ctx: &ApiContext,
    action: &ApiModeCommand,
    timeout_secs: u64,
) -> (r: Result<ApiReport, Halt>)
    ensures
        final(host).seen() == old(host).seen(),
        ran_view(r, final(host).pos()) == (match action {
            ApiModeCommand::Get => bind(
                sent(
                    old(host).seen(),
                    old(host).pos(),
                    request_to(ctx@, HttpMethod::Get, "/configs"@, None, timeout_secs),
                ),
                |response: Seq<char>, at1: int| done(ApiReportView::ModeGet { response }, at1),
            ),
            ApiModeCommand::SetTo(args) => bind(
                sent(
                    old(host).seen(),
                    old(host).pos(),
                    request_to(
                        ctx@,
                        HttpMethod::Patch,
                        "/configs"@,
                        Some(mode_body(args.mode)),
                        timeout_secs,
                    ),
                ),
                |response: Seq<char>, at1: int|
                    done(ApiReportView::ModeSet { mode: args.mode, response }, at1),
            ),
        }),
{
    match action {
        ApiModeCommand::Get => {
            let response = api_get(host, ctx, "/configs", timeout_secs)?;
            Ok(ApiReport::ModeGet { response })
        },
        ApiModeCommand::SetTo(args) => {
            let payload = concat3("{\"mode\":\"", args.mode.as_api_str(), "\"}");
            let response = api_patch(host, ctx, "/configs", payload, timeout_secs)?;
            Ok(ApiReport::ModeSet { mode: args.mode, response })
        },
    }
}

/// `api proxies`.
pub fn cmd_proxies(host: &mut Replay, ctx: &ApiContext, timeout_secs: u64) -> (r: Result<
    ApiReport,
    Halt,
>)
    ensures
        final(host).seen() == old(host).seen(),
        ran_view(r, final(host).pos()) == bind(
            sent(
                old(host).seen(),
                old(host).pos(),
                request_to(ctx@, HttpMethod::Get, "/proxies"@, None, timeout_secs),
            ),
            |response: Seq<char>, at1: int| done(ApiReportView::Proxies { response }, at1),
        ),
{
    let response = api_get(host, ctx, "/proxies", timeout_secs)?;
    Ok(ApiReport::Proxies { response })
}

/// `api connections`.
pub fn cmd_connections(host: &mut Replay, ctx: &ApiContext, timeout_secs: u64) -> (r: Result<
    ApiReport,
    Halt,
>)
    ensures
        final(host).seen() == old(host).seen(),
        ran_view(r, final(host).pos()) == bind(
            sent(
                old(host).seen(),
                old(host).pos(),
                request_to(ctx@, HttpMethod::Get, "/connections"@, None, timeout_secs),
            ),
            |response: Seq<char>, at1: int| done(ApiReportView::Connections { response }, at1),
        ),
{
    let response = api_get(host, ctx, "/connections", timeout_secs)?;
    Ok(ApiReport::Connections { response })
}

/// `api ui-url`.
pub fn cmd_ui_url(host: &mut Replay, ctx: &ApiContext, config_path: &str) -> (r: Result<
    ApiReport,
    Halt,
>)
    ensures
        final(host).seen() == old(host).seen(),
        ran_view(r, final(host).pos()) == bind(
            runtime_root(old(host).seen(), old(host).pos(), config_path@),
            |root: Option<NodeView>, at1: int|
                done(
                    ApiReportView::UiUrl {
                        controller: ctx@.base_url,
                        dashboard_url: dashboard_url(ctx@.base_url),
                        ui: ui_fields(root),
                        secret_set: bearer_of(ctx@) is Some,
                    },
                    at1,
                ),
        ),
{
    let root = load_runtime_root(host, config_path)?;
    let ui = load_runtime_ui_fields(&root);
    Ok(
        ApiReport::UiUrl {
            controller: ctx.base_url.clone(),
            dashboard_url: build_dashboard_url(ctx.base_url.as_str()),
            ui,
            secret_set: apply_secret(ctx).is_some(),
        },
    )
}

/// The arguments that every `api` command carries.
fn common_args(command: &ApiCommand) -> (r: &ApiCommonArgs)
    ensures
        r@ == common_of(command@),
{
    match command {
        ApiCommand::Status(c) => c,
        ApiCommand::Mode { action, common } => common,
        ApiCommand::Proxies(c) => c,
        ApiCommand::Connections(c) => c,
        ApiCommand::UiUrl(c) => c,
    }
}

/// Runs an `api` command over the record of what it asked of the machine
/// so far.
pub fn run(command: &ApiCommand, env: &HostEnv, log: &Vec<Exchange>) -> (r: Step<ApiReport>)
    ensures
        r@ == told(outcome(command@, env@, record_views(log@)), log@.len()),
{
    let mut host = Replay::new(log);
    let result = run_on(command, env, &mut host);
    conclude(result, host.at, log.len())
}

/// Runs an `api` command from a position of the record.
pub fn run_on(command: &ApiCommand, env: &HostEnv, host: &mut Replay) -> (r: Result<
    ApiReport,
    Halt,
>)
    ensures
        final(host).seen() == old(host).seen(),
        ran_view(r, final(host).pos()) == outcome_at(
            command@,
            env@,
            old(host).seen(),
            old(host).pos(),
        ),
{
    let common = common_args(command);
    let (ctx, paths) = load_api_context(env, host, common)?;
    match command {
        ApiCommand::Status(c) => cmd_status(host, &ctx, c.timeout_secs),
        ApiCommand::Mode { action, common } => cmd_mode(host, &ctx, action, common.timeout_secs),
        ApiCommand::Proxies(c) => cmd_proxies(host, &ctx, c.timeout_secs),
        ApiCommand::Connections(c) => cmd_connections(host, &ctx, c.timeout_secs),
        ApiCommand::UiUrl(_) => cmd_ui_url(host, &ctx, paths.runtime_config_file.as_str()),
    }
}

} // verus!
