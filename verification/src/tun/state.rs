//! The record of the last `on` or `off`: which backend was used, for which
//! port and service, and when. It says what was last done, not what the
//! system looks like now.

use crate::host::{ExchangeView, 
    ask, bind, done, failed, halted, owned, ran, Effect, EffectView, Fault, FaultKind, FaultView,
    Halt, HaltView, Ran, Replay, ReplyView,
};
use crate::text::{
    after, before, bool_str, bool_text, chars_of, decimal, is_word, lines, parse_unsigned,
    parse_unsigned_chars, push_decimal, push_str, rows, split_at_char, split_lines, text_of, trim,
    trim_chars,
};
use vstd::prelude::*;

verus! {

/// The port that redirected traffic goes to unless the configuration names
/// another.
pub const DEFAULT_REDIR_PORT: u16 = 7892;

/// The firewall backend that holds the redirect rules.
#[derive(Clone, Copy, Debug, PartialEq, Eq, Structural)]
pub enum RuleBackend {
    Nft,
    Iptables,
    Absent,
}

impl RuleBackend {
    /// The name that stands for `text`; any text that names no backend
    /// stands for none.
    pub open spec fn named(text: Seq<char>) -> RuleBackend {
        if text == "nft"@ {
            RuleBackend::Nft
        } else if text == "iptables"@ {
            RuleBackend::Iptables
        } else {
            RuleBackend::Absent
        }
    }

    /// The backend's name.
    pub open spec fn name(self) -> Seq<char> {
        match self {
            RuleBackend::Nft => "nft"@,
            RuleBackend::Iptables => "iptables"@,
            RuleBackend::Absent => "none"@,
        }
    }

    pub fn as_str(self) -> (r: &'static str)
        ensures
            r@ == self.name(),
    {
        match self {
            RuleBackend::Nft => "nft",
            RuleBackend::Iptables => "iptables",
            RuleBackend::Absent => "none",
        }
    }

    pub fn from_str(v: &str) -> (r: RuleBackend)
        ensures
            r == RuleBackend::named(v@),
    {
        let c = chars_of(v);
        if is_word(&c, "nft") {
            RuleBackend::Nft
        } else if is_word(&c, "iptables") {
            RuleBackend::Iptables
        } else {
            RuleBackend::Absent
        }
    }
}

/// A backend's name stands for the backend.
pub proof fn lemma_backend_name_round_trip(b: RuleBackend)
    ensures
        RuleBackend::named(b.name()) == b,
{
    reveal_strlit("nft");
    reveal_strlit("iptables");
    reveal_strlit("none");
    assert("nft"@.len() == 3 && "iptables"@.len() == 8 && "none"@.len() == 4);
}

/// The outcome of the last `on` or `off`.
#[derive(Debug)]
pub struct TunState {
    pub enabled: bool,
    pub service_name: String,
    pub user_service: bool,
    pub backend: RuleBackend,
    pub redir_port: u16,
    pub rules_applied: bool,
    pub updated_at: u64,
}

pub struct TunStateView {
    pub enabled: bool,
    pub service_name: Seq<char>,
    pub user_service: bool,
    pub backend: RuleBackend,
    pub redir_port: u16,
    pub rules_applied: bool,
    pub updated_at: u64,
}

impl View for TunState {
    type V = TunStateView;

    open spec fn view(&self) -> TunStateView {
        TunStateView {
            enabled: self.enabled,
            service_name: self.service_name@,
            user_service: self.user_service,
            backend: self.backend,
            redir_port: self.redir_port,
            rules_applied: self.rules_applied,
            updated_at: self.updated_at,
        }
    }
}

/// The fields read so far from a state file.
#[derive(Debug)]
pub struct Fields {
    pub enabled: Option<bool>,
    pub service_name: Option<Vec<char>>,
    pub user_service: Option<bool>,
    pub backend: Option<RuleBackend>,
    pub redir_port: Option<u16>,
    pub rules_applied: Option<bool>,
    pub updated_at: Option<u64>,
}

pub struct FieldsView {
    pub enabled: Option<bool>,
    pub service_name: Option<Seq<char>>,
    pub user_service: Option<bool>,
    pub backend: Option<RuleBackend>,
    pub redir_port: Option<u16>,
    pub rules_applied: Option<bool>,
    pub updated_at: Option<u64>,
}

impl View for Fields {
    type V = FieldsView;

    open spec fn view(&self) -> FieldsView {
        FieldsView {
            enabled: self.enabled,
            service_name: match self.service_name {
                Some(s) => Some(s@),
                None => None,
            },
            user_service: self.user_service,
            backend: self.backend,
            redir_port: self.redir_port,
            rules_applied: self.rules_applied,
            updated_at: self.updated_at,
        }
    }
}

/// No field read yet.
pub open spec fn no_fields() -> FieldsView {
    FieldsView {
        enabled: None,
        service_name: None,
        user_service: None,
        backend: None,
        redir_port: None,
        rules_applied: None,
        updated_at: None,
    }
}

/// The key of a `key=value` line.
pub open spec fn line_key(line: Seq<char>) -> Seq<char> {
    trim(before(line, '='))
}

/// The value of a `key=value` line (empty where the line has no `=`).
pub open spec fn line_value(line: Seq<char>) -> Seq<char> {
    trim(after(line, '='))
}

/// The fields once `line` is read: a known key sets its field, replacing an
/// earlier value; an unknown key is skipped; a port or a time that is no
/// number is an error.
pub open spec fn absorb(f: FieldsView, line: Seq<char>) -> Result<FieldsView, FaultView> {
    let key = line_key(line);
    let value = line_value(line);
    if key == "enabled"@ {
        Ok(FieldsView { enabled: Some(value == "true"@), ..f })
    } else if key == "service_name"@ {
        Ok(FieldsView { service_name: Some(value), ..f })
    } else if key == "user_service"@ {
        Ok(FieldsView { user_service: Some(value == "true"@), ..f })
    } else if key == "backend"@ {
        Ok(FieldsView { backend: Some(RuleBackend::named(value)), ..f })
    } else if key == "redir_port"@ {
        match parse_unsigned(value, 0xffff) {
            Some(n) => Ok(FieldsView { redir_port: Some(n as u16), ..f }),
            None => Err(FaultView { kind: FaultKind::StatePort, detail: value, rolled_back: false }),
        }
    } else if key == "rules_applied"@ {
        Ok(FieldsView { rules_applied: Some(value == "true"@), ..f })
    } else if key == "updated_at"@ {
        match parse_unsigned(value, 0xffff_ffff_ffff_ffff) {
            Some(n) => Ok(FieldsView { updated_at: Some(n as u64), ..f }),
            None => Err(FaultView { kind: FaultKind::StateStamp, detail: value, rolled_back: false }),
        }
    } else {
        Ok(f)
    }
}

/// The fields once all `rest` is read, line by line; the first error ends
/// the reading.
pub open spec fn scan(rest: Seq<Seq<char>>, f: FieldsView) -> Result<FieldsView, FaultView>
    decreases rest.len(),
{
    if rest.len() == 0 {
        Ok(f)
    } else {
        match absorb(f, rest[0]) {
            Ok(g) => scan(rest.drop_first(), g),
            Err(e) => Err(e),
        }
    }
}

/// The state that the fields make: `enabled`, `service_name`, `user_service`
/// and `updated_at` are required, the others have defaults.
pub open spec fn complete(f: FieldsView) -> Result<TunStateView, FaultView> {
    if f.enabled is None {
        Err(FaultView { kind: FaultKind::StateNoEnabled, detail: Seq::empty(), rolled_back: false })
    } else if f.service_name is None {
        Err(FaultView { kind: FaultKind::StateNoService, detail: Seq::empty(), rolled_back: false })
    } else if f.user_service is None {
        Err(FaultView { kind: FaultKind::StateNoUserService, detail: Seq::empty(), rolled_back: false })
    } else if f.updated_at is None {
        Err(FaultView { kind: FaultKind::StateNoStamp, detail: Seq::empty(), rolled_back: false })
    } else {
        Ok(
            TunStateView {
                enabled: f.enabled->0,
                service_name: f.service_name->0,
                user_service: f.user_service->0,
                backend: match f.backend {
                    Some(b) => b,
                    None => RuleBackend::Absent,
                },
                redir_port: match f.redir_port {
                    Some(p) => p,
                    None => DEFAULT_REDIR_PORT,
                },
                rules_applied: match f.rules_applied {
                    Some(b) => b,
                    None => false,
                },
                updated_at: f.updated_at->0,
            },
        )
    }
}

/// The state that a state file's text holds.
pub open spec fn parse_state(content: Seq<char>) -> Result<TunStateView, FaultView> {
    match scan(lines(content), no_fields()) {
        Ok(f) => complete(f),
        Err(e) => Err(e),
    }
}

/// The text of a state file.
pub open spec fn state_text(s: TunStateView) -> Seq<char> {
    "enabled="@ + bool_text(s.enabled) + "\nservice_name="@ + s.service_name
        + "\nuser_service="@ + bool_text(s.user_service) + "\nbackend="@ + s.backend.name()
        + "\nredir_port="@ + decimal(s.redir_port as nat) + "\nrules_applied="@ + bool_text(
        s.rules_applied,
    ) + "\nupdated_at="@ + decimal(s.updated_at as nat) + "\n"@
}

/// The view of a parsing result.
pub open spec fn state_result_view(r: Result<TunState, Fault>) -> Result<TunStateView, FaultView> {
    match r {
        Ok(s) => Ok(s@),
        Err(e) => Err(e@),
    }
}

/// The view of a result over fields.
pub open spec fn fields_result_view(r: Result<Fields, Fault>) -> Result<FieldsView, FaultView> {
    match r {
        Ok(f) => Ok(f@),
        Err(e) => Err(e@),
    }
}

/// Reads one line into the fields.
pub fn absorb_line(f: Fields, line: &Vec<char>) -> (r: Result<Fields, Fault>)
    ensures
        fields_result_view(r) == absorb(f@, line@),
{
    let (k, v) = split_at_char(line, '=');
    let key = trim_chars(&k);
    let value = trim_chars(&v);
    let mut f = f;
    if is_word(&key, "enabled") {
        f.enabled = Some(is_word(&value, "true"));
        Ok(f)
    } else if is_word(&key, "service_name") {
        f.service_name = Some(value);
        Ok(f)
    } else if is_word(&key, "user_service") {
        f.user_service = Some(is_word(&value, "true"));
        Ok(f)
    } else if is_word(&key, "backend") {
        let name = text_of(&value);
        f.backend = Some(RuleBackend::from_str(name.as_str()));
        Ok(f)
    } else if is_word(&key, "redir_port") {
        match parse_unsigned_chars(&value, 0xffff) {
            Some(n) => {
                f.redir_port = Some(n as u16);
                Ok(f)
            },
            None => Err(Fault { kind: FaultKind::StatePort, detail: text_of(&value), rolled_back: false }),
        }
    } else if is_word(&key, "rules_applied") {
        f.rules_applied = Some(is_word(&value, "true"));
        Ok(f)
    } else if is_word(&key, "updated_at") {
        match parse_unsigned_chars(&value, 0xffff_ffff_ffff_ffff) {
            Some(n) => {
                f.updated_at = Some(n);
                Ok(f)
            },
            None => Err(Fault { kind: FaultKind::StateStamp, detail: text_of(&value), rolled_back: false }),
        }
    } else {
        Ok(f)
    }
}

/// A fault without text.
pub fn bare(kind: FaultKind) -> (f: Fault)
    ensures
        f@ == (FaultView { kind, detail: Seq::empty(), rolled_back: false }),
{
    Fault { kind, detail: String::new(), rolled_back: false }
}

impl TunState {
    /// The state as the text of a state file: one `key=value` line for each
    /// field.
    pub fn to_text(&self) -> (r: String)
        ensures
            r@ == state_text(self@),
    {
        let mut out: Vec<char> = Vec::new();
        assert(out@ =~= Seq::<char>::empty());
        push_str(&mut out, "enabled=");
        assert(out@ =~= "enabled="@);
        push_str(&mut out, bool_str(self.enabled));
        push_str(&mut out, "\nservice_name=");
        push_str(&mut out, self.service_name.as_str());
        push_str(&mut out, "\nuser_service=");
        push_str(&mut out, bool_str(self.user_service));
        push_str(&mut out, "\nbackend=");
        push_str(&mut out, self.backend.as_str());
        push_str(&mut out, "\nredir_port=");
        push_decimal(&mut out, self.redir_port as u64);
        push_str(&mut out, "\nrules_applied=");
        push_str(&mut out, bool_str(self.rules_applied));
        push_str(&mut out, "\nupdated_at=");
        push_decimal(&mut out, self.updated_at);
        push_str(&mut out, "\n");
        text_of(&out)
    }

    /// The state that the text of a state file holds. Later lines replace
    /// earlier ones, unknown keys are skipped; `backend`, `redir_port` and
    /// `rules_applied` may be missing.
    pub fn from_text(content: &str) -> (r: Result<TunState, Fault>)
        ensures
            state_result_view(r) == parse_state(content@),
    {
        let chars = chars_of(content);
        let all = split_lines(&chars);
        let mut f = Fields {
            enabled: None,
            service_name: None,
            user_service: None,
            backend: None,
            redir_port: None,
            rules_applied: None,
            updated_at: None,
        };
        let mut i: usize = 0;
        assert(rows(all@).skip(0) =~= rows(all@));
        while i < all.len()
            invariant
                i <= all.len(),
                rows(all@) == lines(content@),
                scan(rows(all@).skip(i as int), f@) == scan(lines(content@), no_fields()),
            decreases all.len() - i,
        {
            let ghost rest = rows(all@).skip(i as int);
            assert(rest[0] == all@[i as int]@);
            assert(rest.drop_first() =~= rows(all@).skip(i + 1));
            match absorb_line(f, &all[i]) {
                Ok(g) => {
                    f = g;
                },
                Err(e) => {
                    return Err(e);
                },
            }
            i = i + 1;
        }
        if f.enabled.is_none() {
            return Err(bare(FaultKind::StateNoEnabled));
        }
        if f.service_name.is_none() {
            return Err(bare(FaultKind::StateNoService));
        }
        if f.user_service.is_none() {
            return Err(bare(FaultKind::StateNoUserService));
        }
        if f.updated_at.is_none() {
            return Err(bare(FaultKind::StateNoStamp));
        }
        let name = f.service_name.unwrap();
        Ok(
            TunState {
                enabled: f.enabled.unwrap(),
                service_name: text_of(&name),
                user_service: f.user_service.unwrap(),
                backend: match f.backend {
                    Some(b) => b,
                    None => RuleBackend::Absent,
                },
                redir_port: match f.redir_port {
                    Some(p) => p,
                    None => DEFAULT_REDIR_PORT,
                },
                rules_applied: match f.rules_applied {
                    Some(b) => b,
                    None => false,
                },
                updated_at: f.updated_at.unwrap(),
            },
        )
    }
}

/// The state is written: the file's directory is created, then the file
/// replaced.
#[verifier::opaque]
pub open spec fn state_written(log: Seq<ExchangeView>, at: int, path: Seq<char>, state: TunStateView) -> Ran<
    (),
> {
    bind(
        ask(log, at, EffectView::CreateParent(path)),
        |made: ReplyView, at1: int|
            if !made.ok {
                failed(FaultKind::StateDirCreate, made.detail, at1)
            } else {
                bind(
                    ask(log, at1, EffectView::WriteFile(path, state_text(state))),
                    |written: ReplyView, at2: int|
                        if written.ok {
                            done((), at2)
                        } else {
                            failed(FaultKind::StateWrite, written.detail, at2)
                        },
                )
            },
    )
}

/// The recorded state is read; no file means no record.
#[verifier::opaque]
pub open spec fn state_read(log: Seq<ExchangeView>, at: int, path: Seq<char>) -> Ran<
    Option<TunStateView>,
> {
    bind(
        ask(log, at, EffectView::PathExists(path)),
        |there: ReplyView, at1: int|
            if !there.ok {
                done(None, at1)
            } else {
                bind(
                    ask(log, at1, EffectView::ReadFile(path)),
                    |r: ReplyView, at2: int|
                        if !r.ok {
                            failed(FaultKind::StateRead, r.detail, at2)
                        } else {
                            match parse_state(r.text) {
                                Ok(state) => done(Some(state), at2),
                                Err(f) => halted(HaltView::Fail(f), at2),
                            }
                        },
                )
            },
    )
}

/// The view of an optional state.
pub open spec fn state_view(s: Option<TunState>) -> Option<TunStateView> {
    match s {
        Some(state) => Some(state@),
        None => None,
    }
}

/// The view of a result over an optional state.
pub open spec fn ran_state(r: Result<Option<TunState>, Halt>, at: int) -> Ran<Option<TunStateView>> {
    Ran {
        out: match r {
            Ok(s) => Ok(state_view(s)),
            Err(h) => Err(h@),
        },
        at,
    }
}

/// Writes the state file.
pub fn write_tun_state(host: &mut Replay, path: &str, state: &TunState) -> (r: Result<(), Halt>)
    ensures
        final(host).seen() == old(host).seen(),
        ran(r, final(host).pos()) == state_written(
            old(host).seen(),
            old(host).pos(),
            path@,
            state@,
        ),
{
    proof {
        reveal(state_written);
    }
    let made = host.perform(Effect::CreateParent(owned(path)))?;
    if !made.ok {
        return Err(Halt::Fail(Fault { kind: FaultKind::StateDirCreate, detail: made.detail, rolled_back: false }));
    }
    let written = host.perform(Effect::WriteFile(owned(path), state.to_text()))?;
    if written.ok {
        Ok(())
    } else {
        Err(Halt::Fail(Fault { kind: FaultKind::StateWrite, detail: written.detail, rolled_back: false }))
    }
}

/// Reads the state file, if there is one.
pub fn read_tun_state(host: &mut Replay, path: &str) -> (r: Result<Option<TunState>, Halt>)
    ensures
        final(host).seen() == old(host).seen(),
        ran_state(r, final(host).pos()) == state_read(old(host).seen(), old(host).pos(), path@),
{
    proof {
        reveal(state_read);
    }
    let there = host.perform(Effect::PathExists(owned(path)))?;
    if !there.ok {
        return Ok(None);
    }
    let reply = host.perform(Effect::ReadFile(owned(path)))?;
    if !reply.ok {
        return Err(Halt::Fail(Fault { kind: FaultKind::StateRead, detail: reply.detail, rolled_back: false }));
    }
    match TunState::from_text(reply.text.as_str()) {
        Ok(state) => Ok(Some(state)),
        Err(f) => Err(Halt::Fail(f)),
    }
}

} // verus!
