//! The boundary to the machine. The library never touches the machine
//! itself: a verified function that needs something from it names an
//! `Effect`, the caller carries the effect out and records the `Reply`, and
//! the function is run again over the longer record. A run is therefore a
//! function of its arguments and of the replies recorded so far.

use crate::text::{same, views};
use vstd::prelude::*;

verus! {

/// An external program with its arguments and, where it reads one, its
/// standard input.
#[derive(Debug)]
pub struct Invocation {
    pub program: String,
    pub args: Vec<String>,
    pub stdin: Option<String>,
}

pub struct InvocationView {
    pub program: Seq<char>,
    pub args: Seq<Seq<char>>,
    pub stdin: Option<Seq<char>>,
}

impl View for Invocation {
    type V = InvocationView;

    open spec fn view(&self) -> InvocationView {
        InvocationView {
            program: self.program@,
            args: views(self.args@),
            stdin: match self.stdin {
                Some(s) => Some(s@),
                None => None,
            },
        }
    }
}

/// The programs whose presence is probed before they are used.
#[derive(Clone, Copy, Debug, PartialEq, Eq, Structural)]
pub enum Program {
    Nft,
    Iptables,
    Ip6tables,
    Systemctl,
    Sudo,
    Restorecon,
}

/// The two address families, each with its own iptables binary.
#[derive(Clone, Copy, Debug, PartialEq, Eq, Structural)]
pub enum Family {
    V4,
    V6,
}

/// The built-in NAT chains that jump into the tool's own chain.
#[derive(Clone, Copy, Debug, PartialEq, Eq, Structural)]
pub enum Hook {
    Prerouting,
    Output,
}

/// The destination ranges that are never redirected: loopback, private,
/// link-local, benchmark, multicast and reserved addresses.
#[derive(Clone, Copy, Debug, PartialEq, Eq, Structural)]
pub enum Net {
    Loopback4,
    Private10,
    Private172,
    Private192,
    Benchmark4,
    Multicast4,
    Reserved4,
    Loopback6,
    UniqueLocal6,
    LinkLocal6,
    Multicast6,
}

/// One rule of the tool's own iptables chain.
#[derive(Clone, Copy, Debug, PartialEq, Eq, Structural)]
pub enum ChainRule {
    /// Leave traffic to this range alone.
    ReturnNet(Net),
    /// Leave TCP traffic to this port alone.
    ReturnPort(u16),
    /// Redirect all remaining TCP traffic to this port.
    Redirect(u16),
}

/// A jump from a built-in chain into the tool's own chain; `non_root_only`
/// restricts it to traffic that root does not own.
#[derive(Clone, Copy, Debug, PartialEq, Eq, Structural)]
pub struct Jump {
    pub hook: Hook,
    pub non_root_only: bool,
}

/// One call of a firewall tool.
#[derive(Clone, Copy, Debug, PartialEq, Eq, Structural)]
pub enum FirewallOp {
    /// `nft list table`: does the tool's table exist?
    NftList,
    /// `nft delete table`.
    NftDelete,
    /// `nft -f -` with the rule script for this redirect port.
    NftLoad(u16),
    /// `-N`: create the tool's chain.
    ChainNew(Family),
    /// `-F`: empty the tool's chain.
    ChainFlush(Family),
    /// `-X`: delete the tool's chain.
    ChainDelete(Family),
    /// `-A` into the tool's chain.
    ChainAppend(Family, ChainRule),
    /// `-C`: does this jump exist?
    JumpCheck(Family, Jump),
    /// `-A`: add this jump.
    JumpAppend(Family, Jump),
    /// `-D`: remove one copy of this jump.
    JumpDelete(Family, Jump),
}

/// What can be done to files besides reading and writing them. An
/// operation names one path, or a source and a target.
#[derive(Clone, Copy, Debug, PartialEq, Eq, Structural)]
pub enum FileOp {
    /// Create the directory and its parents.
    CreateDir,
    /// Remove the file.
    Remove,
    /// Remove the directory with all that is in it.
    RemoveDirAll,
    /// Rename the source to the target.
    Rename,
    /// Copy the source to the target.
    Copy,
    /// Make the target a symbolic link to the source.
    Symlink,
    /// Is the path a symbolic link? The reply succeeds where the path's
    /// metadata can be read; its `stamp` is 1 for a link and 0 otherwise.
    IsSymlink,
    /// Read where the symbolic link points to.
    ReadLink,
    /// Resolve the path to its canonical form.
    Canonical,
    /// Allow everyone to execute the file (mode 755).
    SetExecutable,
    /// Decompress the gzip file at the source into the target.
    Gunzip,
    /// Download the URL given as source into the target.
    Download,
}

/// The methods of the requests that are sent.
#[derive(Clone, Copy, Debug, PartialEq, Eq, Structural)]
pub enum HttpMethod {
    Get,
    Patch,
}

/// An HTTP request whose answer is read as text.
#[derive(Debug)]
pub struct HttpRequest {
    pub method: HttpMethod,
    pub url: String,
    /// The token of the `Authorization: Bearer` header, if one is sent.
    pub bearer: Option<String>,
    /// The JSON body, if one is sent.
    pub body: Option<String>,
    /// Whether the answer must be JSON.
    pub json: bool,
    /// The `User-Agent` header, if one is sent.
    pub agent: Option<String>,
    pub timeout_secs: u64,
    pub connect_timeout_secs: u64,
}

pub struct HttpRequestView {
    pub method: HttpMethod,
    pub url: Seq<char>,
    pub bearer: Option<Seq<char>>,
    pub body: Option<Seq<char>>,
    pub json: bool,
    pub agent: Option<Seq<char>>,
    pub timeout_secs: u64,
    pub connect_timeout_secs: u64,
}

impl View for HttpRequest {
    type V = HttpRequestView;

    open spec fn view(&self) -> HttpRequestView {
        HttpRequestView {
            method: self.method,
            url: self.url@,
            bearer: text_view(self.bearer),
            body: text_view(self.body),
            json: self.json,
            agent: text_view(self.agent),
            timeout_secs: self.timeout_secs,
            connect_timeout_secs: self.connect_timeout_secs,
        }
    }
}

/// One request to the machine.
#[derive(Debug)]
pub enum Effect {
    /// Probe a program with `--version` (`long`) or `-V`; only the exit
    /// status matters.
    Tool(Program, bool),
    /// Call a firewall tool.
    Firewall(FirewallOp),
    /// Run a program and capture what it prints.
    Run(Invocation),
    /// Run a program on the caller's terminal; only the exit status matters.
    Status(Invocation),
    /// Does this path exist?
    PathExists(String),
    /// Read this file as text.
    ReadFile(String),
    /// Replace this file's content.
    WriteFile(String, String),
    /// Create the directory that holds this path, and its parents.
    CreateParent(String),
    /// Read the clock, in seconds since the Unix epoch.
    Clock,
    /// Do something to a file; the texts are the path, or source and target.
    File(FileOp, String, String),
    /// Send an HTTP request; the reply is a success only for a successful
    /// status (and, where JSON is asked for, a body that is JSON).
    Http(HttpRequest),
}

pub enum EffectView {
    Tool(Program, bool),
    Firewall(FirewallOp),
    Run(InvocationView),
    Status(InvocationView),
    PathExists(Seq<char>),
    ReadFile(Seq<char>),
    WriteFile(Seq<char>, Seq<char>),
    CreateParent(Seq<char>),
    Clock,
    File(FileOp, Seq<char>, Seq<char>),
    Http(HttpRequestView),
}

impl View for Effect {
    type V = EffectView;

    open spec fn view(&self) -> EffectView {
        match self {
            Effect::Tool(p, long) => EffectView::Tool(*p, *long),
            Effect::Firewall(op) => EffectView::Firewall(*op),
            Effect::Run(i) => EffectView::Run(i@),
            Effect::Status(i) => EffectView::Status(i@),
            Effect::PathExists(p) => EffectView::PathExists(p@),
            Effect::ReadFile(p) => EffectView::ReadFile(p@),
            Effect::WriteFile(p, c) => EffectView::WriteFile(p@, c@),
            Effect::CreateParent(p) => EffectView::CreateParent(p@),
            Effect::Clock => EffectView::Clock,
            Effect::File(op, a, b) => EffectView::File(*op, a@, b@),
            Effect::Http(r) => EffectView::Http(r@),
        }
    }
}

/// What the machine answered to one effect.
///
/// `ok` says whether the effect succeeded (for a question: whether the answer
/// is yes). `text` is what was read or printed to standard output, `detail`
/// the error text or standard error, `stamp` the clock's reading.
#[derive(Debug)]
pub struct Reply {
    pub ok: bool,
    pub text: String,
    pub detail: String,
    pub stamp: u64,
}

pub struct ReplyView {
    pub ok: bool,
    pub text: Seq<char>,
    pub detail: Seq<char>,
    pub stamp: u64,
}

impl View for Reply {
    type V = ReplyView;

    open spec fn view(&self) -> ReplyView {
        ReplyView { ok: self.ok, text: self.text@, detail: self.detail@, stamp: self.stamp }
    }
}

/// One entry of the record: an effect that the run asked for, and what the
/// machine answered.
#[derive(Debug)]
pub struct Exchange {
    pub effect: Effect,
    pub reply: Reply,
}

pub struct ExchangeView {
    pub effect: EffectView,
    pub reply: ReplyView,
}

impl View for Exchange {
    type V = ExchangeView;

    open spec fn view(&self) -> ExchangeView {
        ExchangeView { effect: self.effect@, reply: self.reply@ }
    }
}

/// The views of a record.
pub open spec fn record_views(v: Seq<Exchange>) -> Seq<ExchangeView> {
    Seq::new(v.len(), |i: int| v[i]@)
}

/// Where an operation failed. The variants name the step; the text that
/// varies (a path, an error of the machine) is in `Fault::detail`.
#[derive(Clone, Copy, Debug, PartialEq, Eq, Structural)]
pub enum FaultKind {
    /// The record holds an exchange that the run did not ask for.
    RecordMismatch,
    /// The platform is not Linux.
    UnsupportedPlatform,
    /// Neither root nor both capabilities, and no way to ask for them.
    InsufficientPrivilege,
    /// The path of the running program is unknown, so it cannot be re-run.
    CurrentExeUnknown,
    /// The elevated re-run could not be started or did not succeed.
    ElevationFailed,
    /// `id -u` could not be run or did not succeed.
    UserUnknown,
    /// `/proc/self/status` could not be read.
    CapRead,
    /// The `CapEff` field is no hexadecimal number.
    CapParse,
    /// `/proc/self/status` has no `CapEff` field.
    CapMissing,
    /// `systemctl` is not installed.
    NoSystemctl,
    /// `/dev/net/tun` does not exist.
    DeviceMissing,
    /// No home directory is known to place the configuration in.
    HomeUnknown,
    /// The configuration directory could not be created.
    ConfigDirCreate,
    /// The empty configuration could not be written.
    ConfigInit,
    /// The configuration could not be read.
    ConfigRead,
    /// The configuration is not valid YAML.
    ConfigParse,
    /// The configuration could not be serialised.
    ConfigRender,
    /// The configuration could not be written.
    ConfigWrite,
    /// Neither nft nor iptables is installed.
    NoBackend,
    /// A required firewall tool is not installed.
    ToolMissing,
    /// A firewall command failed.
    CommandFailed,
    /// The rules were reported as loaded but are not there.
    RulesNotVerified,
    /// nft failed and the fallback to iptables failed too.
    FallbackFailed,
    /// Removing the rules failed.
    CleanupFailed,
    /// The state file's directory could not be created.
    StateDirCreate,
    /// The state file could not be written.
    StateWrite,
    /// The state file could not be read.
    StateRead,
    /// The state file's `redir_port` is not a port number.
    StatePort,
    /// The state file's `updated_at` is not a number.
    StateStamp,
    /// The state file lacks `enabled`.
    StateNoEnabled,
    /// The state file lacks `service_name`.
    StateNoService,
    /// The state file lacks `user_service`.
    StateNoUserService,
    /// The state file lacks `updated_at`.
    StateNoStamp,
    /// A request to the controller failed.
    ApiRequest,
    /// The proxy state file is missing.
    ProxyStateMissing,
    /// The proxy state file could not be read.
    ProxyStateRead,
    /// A port in the proxy state file is no port number.
    ProxyStatePort,
    /// The proxy state file lacks a field.
    ProxyStateField,
    /// The shell could not be told from `SHELL`.
    ShellUnknown,
    /// A file could not be read.
    FileRead,
    /// A file could not be written.
    FileWrite,
    /// A file or directory could not be removed.
    FileRemove,
    /// A directory could not be created.
    DirCreate,
    /// The profile's name is empty.
    ProfileNameEmpty,
    /// The profile's name holds a character that is not allowed.
    ProfileName,
    /// A profile with this name exists already.
    ProfileExists,
    /// No profile has this name.
    ProfileMissing,
    /// No profile is named and none is active.
    NoActiveProfile,
    /// The profile's file does not exist.
    ProfileFileMissing,
    /// The profile index is no valid index.
    IndexParse,
    /// The profile index could not be serialised.
    IndexRender,
    /// The subscription could not be fetched.
    FetchFailed,
    /// The subscription is not valid YAML.
    FetchNotYaml,
    /// A YAML file could not be parsed.
    YamlParse,
    /// A document could not be serialised as YAML.
    YamlRender,
    /// The service uses another configuration than this command.
    HomeMismatch,
    /// `systemctl` could not be run or did not succeed.
    SystemctlFailed,
    /// `journalctl` could not be run or did not succeed.
    JournalFailed,
    /// The unit file exists already.
    UnitExists,
    /// The kernel binary does not exist.
    BinaryMissing,
    /// JSON output is not offered for this command.
    JsonUnsupported,
    /// The release could not be fetched.
    ReleaseFetch,
    /// The release has no asset for Linux.
    NoLinuxAsset,
    /// The architecture is not supported.
    UnsupportedArch,
    /// No asset of the release matches.
    NoMatchingAsset,
    /// No source delivered the download.
    DownloadFailed,
    /// The download could not be unpacked.
    UnpackFailed,
    /// The kernel could not be put in place.
    InstallFailed,
    /// The kernel's record lacks its version.
    MetaNoVersion,
    /// The command needs root.
    NotRoot,
    /// The subscription URL is empty.
    EmptyProfileUrl,
    /// The install path is not valid.
    InvalidInstallPath,
    /// After the merge no profile is active.
    NothingToApply,
    /// A profile's file could not be copied.
    CopyFailed,
}

/// A failed operation: where it failed, and the text that goes with it.
#[derive(Debug)]
pub struct Fault {
    pub kind: FaultKind,
    pub detail: String,
    /// Whether the configuration was put back as it was before the failure.
    pub rolled_back: bool,
}

pub struct FaultView {
    pub kind: FaultKind,
    pub detail: Seq<char>,
    pub rolled_back: bool,
}

impl View for Fault {
    type V = FaultView;

    open spec fn view(&self) -> FaultView {
        FaultView { kind: self.kind, detail: self.detail@, rolled_back: self.rolled_back }
    }
}

/// Why a run stopped before its result: it needs the machine's reply to an
/// effect, or it failed.
#[derive(Debug)]
pub enum Halt {
    Need(Effect),
    Fail(Fault),
}

pub enum HaltView {
    Need(EffectView),
    Fail(FaultView),
}

impl View for Halt {
    type V = HaltView;

    open spec fn view(&self) -> HaltView {
        match self {
            Halt::Need(e) => HaltView::Need(e@),
            Halt::Fail(f) => HaltView::Fail(f@),
        }
    }
}

/// The outcome of a run over a record of replies, and the position in the
/// record that it reached.
pub ghost struct Ran<T> {
    pub out: Result<T, HaltView>,
    pub at: int,
}

/// The run went on with `value`.
pub open spec fn done<T>(value: T, at: int) -> Ran<T> {
    Ran { out: Ok(value), at }
}

/// The run stopped.
pub open spec fn halted<T>(h: HaltView, at: int) -> Ran<T> {
    Ran { out: Err(h), at }
}

/// The run failed with `kind` and `detail`.
pub open spec fn failed<T>(kind: FaultKind, detail: Seq<char>, at: int) -> Ran<T> {
    Ran { out: Err(HaltView::Fail(FaultView { kind, detail, rolled_back: false })), at }
}

/// The run goes on with `next` where `first` gave a value, and stops where
/// `first` stopped.
pub open spec fn bind<A, B>(first: Ran<A>, next: spec_fn(A, int) -> Ran<B>) -> Ran<B> {
    match first.out {
        Ok(value) => next(value, first.at),
        Err(h) => halted(h, first.at),
    }
}

/// An executable result and the position reached, as the outcome of a run
/// over views.
pub open spec fn ran_view<T: View>(r: Result<T, Halt>, at: int) -> Ran<T::V> {
    Ran {
        out: match r {
            Ok(value) => Ok(value@),
            Err(h) => Err(h@),
        },
        at,
    }
}

/// What the caller is told of an outcome over a record of `len` exchanges:
/// the result, or the effect that the run needs next. A run that stops
/// before the end of the record found an exchange there that it did not ask
/// for: the record is not its own.
pub open spec fn told<T>(outcome: Ran<T>, len: nat) -> StepView<T> {
    match outcome.out {
        Ok(value) => StepView::Done(Ok(value)),
        Err(HaltView::Need(e)) => if outcome.at < len {
            StepView::Done(
                Err(
                    FaultView {
                        kind: FaultKind::RecordMismatch,
                        detail: Seq::empty(),
                        rolled_back: false,
                    },
                ),
            )
        } else {
            StepView::Need(e)
        },
        Err(HaltView::Fail(f)) => StepView::Done(Err(f)),
    }
}

/// An executable result and the position reached, as the outcome of a run.
pub open spec fn ran<T>(r: Result<T, Halt>, at: int) -> Ran<T> {
    Ran {
        out: match r {
            Ok(value) => Ok(value),
            Err(h) => Err(h@),
        },
        at,
    }
}

/// One effect against the record: the reply at `at` if the record holds
/// there an exchange for this very effect, else a halt that asks for it.
pub open spec fn ask(log: Seq<ExchangeView>, at: int, effect: EffectView) -> Ran<ReplyView> {
    if 0 <= at < log.len() && log[at].effect == effect {
        done(log[at].reply, at + 1)
    } else {
        halted(HaltView::Need(effect), at)
    }
}

/// A cursor over the record.
#[derive(Debug)]
pub struct Replay<'a> {
    pub log: &'a Vec<Exchange>,
    pub at: usize,
}

impl<'a> Replay<'a> {
    /// The record.
    pub open spec fn seen(&self) -> Seq<ExchangeView> {
        record_views(self.log@)
    }

    /// The position of the next reply.
    pub open spec fn pos(&self) -> int {
        self.at as int
    }

    pub fn new(log: &'a Vec<Exchange>) -> (r: Self)
        ensures
            r.seen() == record_views(log@),
            r.pos() == 0,
    {
        Replay { log, at: 0 }
    }

    /// Carries out `effect` against the record.
    pub fn perform(&mut self, effect: Effect) -> (r: Result<Reply, Halt>)
        ensures
            final(self).seen() == old(self).seen(),
            replied(r, final(self).pos()) == ask(old(self).seen(), old(self).pos(), effect@),
    {
        if self.at < self.log.len() && same_effect(&self.log[self.at].effect, &effect) {
            let reply = copy_reply(&self.log[self.at].reply);
            self.at = self.at + 1;
            Ok(reply)
        } else {
            Err(Halt::Need(effect))
        }
    }
}

/// The view of a step's result together with the position it reached.
pub open spec fn replied(r: Result<Reply, Halt>, at: int) -> Ran<ReplyView> {
    Ran {
        out: match r {
            Ok(reply) => Ok(reply@),
            Err(h) => Err(h@),
        },
        at,
    }
}

/// Whether two optional texts are the same.
pub fn same_text(a: &Option<String>, b: &Option<String>) -> (r: bool)
    ensures
        r == (text_view(*a) == text_view(*b)),
{
    match (a, b) {
        (Some(x), Some(y)) => same(x.as_str(), y.as_str()),
        (None, None) => true,
        _ => false,
    }
}

/// Whether two lists of texts are the same.
pub fn same_texts(a: &Vec<String>, b: &Vec<String>) -> (r: bool)
    ensures
        r == (views(a@) == views(b@)),
{
    if a.len() != b.len() {
        assert(views(a@).len() != views(b@).len());
        return false;
    }
    let mut i: usize = 0;
    while i < a.len()
        invariant
            i <= a.len(),
            a.len() == b.len(),
            forall|j: int| 0 <= j < i ==> a@[j]@ == b@[j]@,
        decreases a.len() - i,
    {
        if !same(a[i].as_str(), b[i].as_str()) {
            assert(views(a@)[i as int] != views(b@)[i as int]);
            return false;
        }
        i = i + 1;
    }
    assert(views(a@) =~= views(b@));
    true
}

/// Whether two command lines are the same.
pub fn same_invocation(a: &Invocation, b: &Invocation) -> (r: bool)
    ensures
        r == (a@ == b@),
{
    same(a.program.as_str(), b.program.as_str()) && same_texts(&a.args, &b.args) && same_text(
        &a.stdin,
        &b.stdin,
    )
}

/// Whether two effects are the same.
pub fn same_effect(a: &Effect, b: &Effect) -> (r: bool)
    ensures
        r == (a@ == b@),
{
    match (a, b) {
        (Effect::Tool(p, l), Effect::Tool(q, m)) => *p == *q && *l == *m,
        (Effect::Firewall(x), Effect::Firewall(y)) => *x == *y,
        (Effect::Run(x), Effect::Run(y)) => same_invocation(x, y),
        (Effect::Status(x), Effect::Status(y)) => same_invocation(x, y),
        (Effect::PathExists(x), Effect::PathExists(y)) => same(x.as_str(), y.as_str()),
        (Effect::ReadFile(x), Effect::ReadFile(y)) => same(x.as_str(), y.as_str()),
        (Effect::WriteFile(x, c), Effect::WriteFile(y, d)) => same(x.as_str(), y.as_str()) && same(
            c.as_str(),
            d.as_str(),
        ),
        (Effect::CreateParent(x), Effect::CreateParent(y)) => same(x.as_str(), y.as_str()),
        (Effect::Clock, Effect::Clock) => true,
        (Effect::File(op, x, c), Effect::File(oq, y, d)) => *op == *oq && same(
            x.as_str(),
            y.as_str(),
        ) && same(c.as_str(), d.as_str()),
        (Effect::Http(x), Effect::Http(y)) => same_request(x, y),
        _ => false,
    }
}

/// Whether two requests are the same.
pub fn same_request(a: &HttpRequest, b: &HttpRequest) -> (r: bool)
    ensures
        r == (a@ == b@),
{
    a.method == b.method && same(a.url.as_str(), b.url.as_str()) && same_text(
        &a.bearer,
        &b.bearer,
    ) && same_text(&a.body, &b.body) && a.json == b.json && same_text(&a.agent, &b.agent)
        && a.timeout_secs == b.timeout_secs
        && a.connect_timeout_secs == b.connect_timeout_secs
}

pub fn copy_reply(r: &Reply) -> (c: Reply)
    ensures
        c@ == r@,
{
    Reply { ok: r.ok, text: r.text.clone(), detail: r.detail.clone(), stamp: r.stamp }
}

/// A fault of `kind` with `detail`.
pub fn fault(kind: FaultKind, detail: &str) -> (h: Halt)
    ensures
        h@ == HaltView::Fail(FaultView { kind, detail: detail@, rolled_back: false }),
{
    Halt::Fail(Fault { kind, detail: owned(detail), rolled_back: false })
}

/// An owned copy of `s`.
pub fn owned(s: &str) -> (r: String)
    ensures
        r@ == s@,
{
    s.to_owned()
}

/// Appends `s` to a list of arguments.
pub fn push_arg(v: &mut Vec<String>, s: &str)
    ensures
        views(final(v)@) == views(old(v)@).push(s@),
{
    v.push(owned(s));
    assert(views(v@) =~= views(old(v)@).push(s@));
}

/// What the caller found out about the process before the run: facts that
/// do not change while it lasts.
#[derive(Debug)]
pub struct HostEnv {
    /// The operating system's name (`linux` on Linux).
    pub os: String,
    /// The machine's architecture (`x86_64`, `aarch64`, `arm`, ...).
    pub arch: String,
    /// Whether results are to be printed as JSON.
    pub json: bool,
    /// Whether `CLASH_CLI_NO_AUTO_SUDO` is set.
    pub no_auto_sudo: bool,
    /// The value of `CLASH_CLI_SUDO_REEXEC`, set on the elevated re-run.
    pub sudo_reexec: Option<String>,
    /// Whether standard input, output and error are terminals.
    pub stdin_terminal: bool,
    pub stdout_terminal: bool,
    pub stderr_terminal: bool,
    /// The value of `CLASH_CLI_HOME`.
    pub home_override: Option<String>,
    /// The value of `XDG_CONFIG_HOME`.
    pub xdg_config_home: Option<String>,
    /// The user's home directory.
    pub home_dir: Option<String>,
    /// The path of the running program.
    pub current_exe: Option<String>,
    /// The value of `SHELL`.
    pub shell: Option<String>,
    /// The value of `SUDO_USER`.
    pub sudo_user: Option<String>,
    /// The number of this process.
    pub process_id: u32,
}

pub struct HostEnvView {
    pub os: Seq<char>,
    pub arch: Seq<char>,
    pub json: bool,
    pub no_auto_sudo: bool,
    pub sudo_reexec: Option<Seq<char>>,
    pub stdin_terminal: bool,
    pub stdout_terminal: bool,
    pub stderr_terminal: bool,
    pub home_override: Option<Seq<char>>,
    pub xdg_config_home: Option<Seq<char>>,
    pub home_dir: Option<Seq<char>>,
    pub current_exe: Option<Seq<char>>,
    pub shell: Option<Seq<char>>,
    pub sudo_user: Option<Seq<char>>,
    pub process_id: u32,
}

/// The view of an optional text.
pub open spec fn text_view(s: Option<String>) -> Option<Seq<char>> {
    match s {
        Some(t) => Some(t@),
        None => None,
    }
}

impl View for HostEnv {
    type V = HostEnvView;

    open spec fn view(&self) -> HostEnvView {
        HostEnvView {
            os: self.os@,
            arch: self.arch@,
            json: self.json,
            no_auto_sudo: self.no_auto_sudo,
            sudo_reexec: text_view(self.sudo_reexec),
            stdin_terminal: self.stdin_terminal,
            stdout_terminal: self.stdout_terminal,
            stderr_terminal: self.stderr_terminal,
            home_override: text_view(self.home_override),
            xdg_config_home: text_view(self.xdg_config_home),
            home_dir: text_view(self.home_dir),
            current_exe: text_view(self.current_exe),
            shell: text_view(self.shell),
            sudo_user: text_view(self.sudo_user),
            process_id: self.process_id,
        }
    }
}

/// A copy of an optional text.
pub fn copy_text(s: &Option<String>) -> (r: Option<String>)
    ensures
        text_view(r) == text_view(*s),
{
    match s {
        Some(t) => Some(t.clone()),
        None => None,
    }
}

impl HostEnv {
    /// The same facts with another home directory override.
    pub fn with_home(&self, home: Option<String>) -> (r: HostEnv)
        ensures
            r@ == (HostEnvView { home_override: text_view(home), ..self@ }),
    {
        HostEnv {
            os: self.os.clone(),
            arch: self.arch.clone(),
            json: self.json,
            no_auto_sudo: self.no_auto_sudo,
            sudo_reexec: copy_text(&self.sudo_reexec),
            stdin_terminal: self.stdin_terminal,
            stdout_terminal: self.stdout_terminal,
            stderr_terminal: self.stderr_terminal,
            home_override: home,
            xdg_config_home: copy_text(&self.xdg_config_home),
            home_dir: copy_text(&self.home_dir),
            current_exe: copy_text(&self.current_exe),
            shell: copy_text(&self.shell),
            sudo_user: copy_text(&self.sudo_user),
            process_id: self.process_id,
        }
    }
}

/// What the caller learns from one run: the effect to carry out next, or the
/// result.
#[derive(Debug)]
pub enum Step<T> {
    Need(Effect),
    Done(Result<T, Fault>),
}

pub enum StepView<T> {
    Need(EffectView),
    Done(Result<T, FaultView>),
}

impl<T: View> View for Step<T> {
    type V = StepView<T::V>;

    open spec fn view(&self) -> StepView<T::V> {
        match self {
            Step::Need(e) => StepView::Need(e@),
            Step::Done(Ok(value)) => StepView::Done(Ok(value@)),
            Step::Done(Err(f)) => StepView::Done(Err(f@)),
        }
    }
}

/// Ends a run that reached `at` in a record of `len` exchanges: a result
/// is handed out, a needed effect asked for.
pub fn conclude<T: View>(r: Result<T, Halt>, at: usize, len: usize) -> (s: Step<T>)
    ensures
        s@ == told(ran_view(r, at as int), len as nat),
{
    match r {
        Ok(value) => Step::Done(Ok(value)),
        Err(Halt::Need(e)) => {
            if at < len {
                Step::Done(
                    Err(
                        Fault {
                            kind: FaultKind::RecordMismatch,
                            detail: String::new(),
                            rolled_back: false,
                        },
                    ),
                )
            } else {
                Step::Need(e)
            }
        },
        Err(Halt::Fail(f)) => Step::Done(Err(f)),
    }
}

} // verus!
