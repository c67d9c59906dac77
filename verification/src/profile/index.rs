//! The profile index: the subscriptions that are known, which of them is
//! active, and how the index is kept as JSON.

use crate::host::{owned, text_view, Fault, FaultKind, FaultView};
use crate::json::{json_doc, json_read, json_written, plain_json, read_json, write_json};
use crate::text::{
    chars_of, decimal, decimal_text, parse_unsigned, parse_unsigned_chars, same, trim, trim_chars,
};
use crate::yaml::{
    entry_views, item_views, key_value, lemma_sequence_view, mapping_node, Node, NodeView,
};
use vstd::prelude::*;

verus! {

/// One subscription.
#[derive(Debug)]
pub struct ProfileEntry {
    pub name: String,
    pub url: String,
    pub file: String,
    pub created_at: u64,
    pub updated_at: Option<u64>,
}

pub struct ProfileEntryView {
    pub name: Seq<char>,
    pub url: Seq<char>,
    pub file: Seq<char>,
    pub created_at: u64,
    pub updated_at: Option<u64>,
}

impl View for ProfileEntry {
    type V = ProfileEntryView;

    open spec fn view(&self) -> ProfileEntryView {
        ProfileEntryView {
            name: self.name@,
            url: self.url@,
            file: self.file@,
            created_at: self.created_at,
            updated_at: self.updated_at,
        }
    }
}

/// The subscriptions that are known, and the active one.
#[derive(Debug)]
pub struct ProfileIndex {
    pub active: Option<String>,
    pub profiles: Vec<ProfileEntry>,
}

pub struct ProfileIndexView {
    pub active: Option<Seq<char>>,
    pub profiles: Seq<ProfileEntryView>,
}

/// The views of a list of subscriptions.
pub open spec fn profile_views(v: Seq<ProfileEntry>) -> Seq<ProfileEntryView> {
    Seq::new(v.len(), |i: int| v[i]@)
}

impl View for ProfileIndex {
    type V = ProfileIndexView;

    open spec fn view(&self) -> ProfileIndexView {
        ProfileIndexView { active: text_view(self.active), profiles: profile_views(self.profiles@) }
    }
}

/// The index without subscriptions.
pub open spec fn empty_index() -> ProfileIndexView {
    ProfileIndexView { active: None, profiles: Seq::empty() }
}

impl ProfileIndex {
    /// The index without subscriptions.
    pub fn new() -> (r: ProfileIndex)
        ensures
            r@ == empty_index(),
    {
        let r = ProfileIndex { active: None, profiles: Vec::new() };
        assert(profile_views(r.profiles@) =~= Seq::<ProfileEntryView>::empty());
        r
    }
}

/// A copy of a subscription.
pub fn copy_entry(e: &ProfileEntry) -> (r: ProfileEntry)
    ensures
        r@ == e@,
{
    ProfileEntry {
        name: e.name.clone(),
        url: e.url.clone(),
        file: e.file.clone(),
        created_at: e.created_at,
        updated_at: e.updated_at,
    }
}

// ---------------------------------------------------------------------------
// Names
// ---------------------------------------------------------------------------

/// The characters of a profile's name: ASCII letters and digits, `-`, `_`
/// and `.`.
pub open spec fn name_char(c: char) -> bool {
    ('a' <= c <= 'z') || ('A' <= c <= 'Z') || ('0' <= c <= '9') || c == '-' || c == '_' || c
        == '.'
}

/// The index of the first character of a name that is not allowed, or the
/// name's length.
pub open spec fn first_bad_char(name: Seq<char>) -> nat
    decreases name.len(),
{
    if name.len() == 0 || !name_char(name[0]) {
        0
    } else {
        1 + first_bad_char(name.drop_first())
    }
}

/// Why a name is no profile's name, if it is none: it is empty but for
/// whitespace, or it holds a character that is not allowed.
pub open spec fn name_fault(name: Seq<char>) -> Option<FaultKind> {
    if trim(name).len() == 0 {
        Some(FaultKind::ProfileNameEmpty)
    } else if first_bad_char(name) < name.len() {
        Some(FaultKind::ProfileName)
    } else {
        None
    }
}

proof fn lemma_first_bad_char(name: Seq<char>, i: int)
    requires
        0 <= i <= name.len(),
        forall|j: int| 0 <= j < i ==> name_char(name[j]),
        i == name.len() || !name_char(name[i]),
    ensures
        first_bad_char(name) == i,
    decreases name.len(),
{
    if name.len() == 0 || !name_char(name[0]) {
    } else {
        let t = name.drop_first();
        assert forall|j: int| 0 <= j < i - 1 implies name_char(t[j]) by {
            assert(t[j] == name[j + 1]);
        }
        lemma_first_bad_char(t, i - 1);
    }
}

/// Accepts a profile's name.
#[verifier::loop_isolation(false)]
pub fn validate_profile_name(name: &str) -> (r: Result<(), Fault>)
    ensures
        match r {
            Ok(_) => name_fault(name@) is None,
            Err(f) => name_fault(name@) == Some(f.kind) && f@.detail == name@ && !f.rolled_back,
        },
{
    let c = chars_of(name);
    let t = trim_chars(&c);
    if t.len() == 0 {
        return Err(
            Fault { kind: FaultKind::ProfileNameEmpty, detail: owned(name), rolled_back: false },
        );
    }
    let mut i: usize = 0;
    while i < c.len()
        invariant
            i <= c.len(),
            forall|j: int| 0 <= j < i ==> name_char(c@[j]),
        decreases c.len() - i,
    {
        let ch = c[i];
        let ok = (ch >= 'a' && ch <= 'z') || (ch >= 'A' && ch <= 'Z') || (ch >= '0' && ch <= '9')
            || ch == '-' || ch == '_' || ch == '.';
        if !ok {
            proof {
                lemma_first_bad_char(c@, i as int);
            }
            return Err(
                Fault { kind: FaultKind::ProfileName, detail: owned(name), rolled_back: false },
            );
        }
        i = i + 1;
    }
    proof {
        lemma_first_bad_char(c@, i as int);
    }
    Ok(())
}

// ---------------------------------------------------------------------------
// Looking up
// ---------------------------------------------------------------------------

/// The index of the first subscription with this name, or the number of
/// subscriptions.
pub open spec fn profile_index(profiles: Seq<ProfileEntryView>, name: Seq<char>) -> nat
    decreases profiles.len(),
{
    if profiles.len() == 0 || profiles[0].name == name {
        0
    } else {
        1 + profile_index(profiles.drop_first(), name)
    }
}

pub proof fn lemma_profile_index(profiles: Seq<ProfileEntryView>, name: Seq<char>, i: int)
    requires
        0 <= i <= profiles.len(),
        forall|j: int| 0 <= j < i ==> profiles[j].name != name,
        i == profiles.len() || profiles[i].name == name,
    ensures
        profile_index(profiles, name) == i,
    decreases profiles.len(),
{
    if profiles.len() == 0 || profiles[0].name == name {
    } else {
        let t = profiles.drop_first();
        assert forall|j: int| 0 <= j < i - 1 implies t[j].name != name by {
            assert(t[j] == profiles[j + 1]);
        }
        lemma_profile_index(t, name, i - 1);
    }
}

/// Whether a subscription has this name.
pub open spec fn has_profile(profiles: Seq<ProfileEntryView>, name: Seq<char>) -> bool {
    profile_index(profiles, name) < profiles.len()
}

/// The position of the first subscription with this name.
pub fn find_profile(profiles: &Vec<ProfileEntry>, name: &str) -> (i: usize)
    ensures
        i == profile_index(profile_views(profiles@), name@),
        i <= profiles.len(),
        i < profiles.len() ==> profiles@[i as int]@.name == name@,
{
    let mut i: usize = 0;
    while i < profiles.len()
        invariant
            i <= profiles.len(),
            forall|j: int| 0 <= j < i ==> profile_views(profiles@)[j].name != name@,
        decreases profiles.len() - i,
    {
        if same(profiles[i].name.as_str(), name) {
            proof {
                lemma_profile_index(profile_views(profiles@), name@, i as int);
            }
            return i;
        }
        i = i + 1;
    }
    proof {
        lemma_profile_index(profile_views(profiles@), name@, i as int);
    }
    i
}

/// The subscription that a command means: the named one, or the active one
/// where none is named.
pub open spec fn selected(index: ProfileIndexView, name: Option<Seq<char>>) -> Result<
    ProfileEntryView,
    FaultView,
> {
    let target = match name {
        Some(n) => Some(n),
        None => index.active,
    };
    match target {
        None => Err(
            FaultView { kind: FaultKind::NoActiveProfile, detail: Seq::empty(), rolled_back: false },
        ),
        Some(t) => if has_profile(index.profiles, t) {
            Ok(index.profiles[profile_index(index.profiles, t) as int])
        } else {
            Err(FaultView { kind: FaultKind::ProfileMissing, detail: t, rolled_back: false })
        },
    }
}

/// The view of a selection.
pub open spec fn selection_view(r: Result<&ProfileEntry, Fault>) -> Result<
    ProfileEntryView,
    FaultView,
> {
    match r {
        Ok(e) => Ok(e@),
        Err(f) => Err(f@),
    }
}

pub fn select_profile<'a>(index: &'a ProfileIndex, name: Option<&str>) -> (r: Result<
    &'a ProfileEntry,
    Fault,
>)
    ensures
        selection_view(r) == selected(
            index@,
            match name {
                Some(n) => Some(n@),
                None => None,
            },
        ),
{
    let target = match name {
        Some(v) => owned(v),
        None => match &index.active {
            Some(a) => a.clone(),
            None => {
                return Err(
                    Fault {
                        kind: FaultKind::NoActiveProfile,
                        detail: String::new(),
                        rolled_back: false,
                    },
                );
            },
        },
    };
    let i = find_profile(&index.profiles, target.as_str());
    if i < index.profiles.len() {
        Ok(&index.profiles[i])
    } else {
        Err(Fault { kind: FaultKind::ProfileMissing, detail: target, rolled_back: false })
    }
}

// ---------------------------------------------------------------------------
// The index as JSON
// ---------------------------------------------------------------------------

/// The text that a required field holds.
pub open spec fn field_text(v: Option<NodeView>) -> Option<Seq<char>> {
    match v {
        Some(NodeView::Text(s)) => Some(s),
        _ => None,
    }
}

/// The number that a required field holds.
pub open spec fn field_u64(v: Option<NodeView>) -> Option<u64> {
    match v {
        Some(NodeView::Number(s)) => match parse_unsigned(s, 0xffff_ffff_ffff_ffff) {
            Some(n) => Some(n as u64),
            None => None,
        },
        _ => None,
    }
}

/// The text that an optional field holds: a missing field and `null` hold
/// none; anything but a text is an error (the outer `None`).
pub open spec fn optional_text(v: Option<NodeView>) -> Option<Option<Seq<char>>> {
    match v {
        None => Some(None),
        Some(NodeView::Null) => Some(None),
        Some(NodeView::Text(s)) => Some(Some(s)),
        _ => None,
    }
}

/// The number that an optional field holds.
pub open spec fn optional_u64(v: Option<NodeView>) -> Option<Option<u64>> {
    match v {
        None => Some(None),
        Some(NodeView::Null) => Some(None),
        Some(NodeView::Number(s)) => match parse_unsigned(s, 0xffff_ffff_ffff_ffff) {
            Some(n) => Some(Some(n as u64)),
            None => None,
        },
        _ => None,
    }
}

/// The subscription that a JSON object holds.
pub open spec fn entry_in(v: NodeView) -> Option<ProfileEntryView> {
    if !(v is Mapping) {
        None
    } else {
        match (
            field_text(v.field("name"@)),
            field_text(v.field("url"@)),
            field_text(v.field("file"@)),
            field_u64(v.field("created_at"@)),
            optional_u64(v.field("updated_at"@)),
        ) {
            (Some(name), Some(url), Some(file), Some(created_at), Some(updated_at)) => Some(
                ProfileEntryView { name, url, file, created_at, updated_at },
            ),
            _ => None,
        }
    }
}

/// The subscriptions that a JSON array holds.
pub open spec fn entries_in(items: Seq<NodeView>) -> Option<Seq<ProfileEntryView>>
    decreases items.len(),
{
    if items.len() == 0 {
        Some(Seq::empty())
    } else {
        match (entries_in(items.drop_last()), entry_in(items.last())) {
            (Some(head), Some(e)) => Some(head.push(e)),
            _ => None,
        }
    }
}

/// The index that a JSON document holds.
pub open spec fn index_in(doc: NodeView) -> Option<ProfileIndexView> {
    if !(doc is Mapping) {
        None
    } else {
        match (optional_text(doc.field("active"@)), doc.field("profiles"@)) {
            (Some(active), Some(NodeView::Sequence(items))) => match entries_in(items) {
                Some(profiles) => Some(ProfileIndexView { active, profiles }),
                None => None,
            },
            _ => None,
        }
    }
}

/// The JSON value of an optional text.
pub open spec fn text_doc(v: Option<Seq<char>>) -> NodeView {
    match v {
        Some(s) => NodeView::Text(s),
        None => NodeView::Null,
    }
}

/// The JSON value of an optional number.
pub open spec fn u64_doc(v: Option<u64>) -> NodeView {
    match v {
        Some(n) => NodeView::Number(decimal(n as nat)),
        None => NodeView::Null,
    }
}

/// The JSON object of a subscription.
pub open spec fn entry_doc(e: ProfileEntryView) -> NodeView {
    NodeView::Mapping(
        seq![
            (NodeView::Text("name"@), NodeView::Text(e.name)),
            (NodeView::Text("url"@), NodeView::Text(e.url)),
            (NodeView::Text("file"@), NodeView::Text(e.file)),
            (NodeView::Text("created_at"@), NodeView::Number(decimal(e.created_at as nat))),
            (NodeView::Text("updated_at"@), u64_doc(e.updated_at)),
        ],
    )
}

/// The JSON document of an index.
pub open spec fn index_doc(index: ProfileIndexView) -> NodeView {
    NodeView::Mapping(
        seq![
            (NodeView::Text("active"@), text_doc(index.active)),
            (
                NodeView::Text("profiles"@),
                NodeView::Sequence(index.profiles.map_values(|e: ProfileEntryView| entry_doc(e))),
            ),
        ],
    )
}

fn text_node(v: &Option<String>) -> (r: Node)
    ensures
        r@ == text_doc(text_view(*v)),
{
    match v {
        Some(s) => Node::Text(s.clone()),
        None => Node::Null,
    }
}

fn u64_node(v: Option<u64>) -> (r: Node)
    ensures
        r@ == u64_doc(v),
{
    match v {
        Some(n) => Node::Number(decimal_text(n)),
        None => Node::Null,
    }
}

/// The JSON object of a subscription.
pub fn entry_node(e: &ProfileEntry) -> (r: Node)
    ensures
        r@ == entry_doc(e@),
{
    let mut fields: Vec<(Node, Node)> = Vec::new();
    fields.push((Node::Text(owned("name")), Node::Text(e.name.clone())));
    fields.push((Node::Text(owned("url")), Node::Text(e.url.clone())));
    fields.push((Node::Text(owned("file")), Node::Text(e.file.clone())));
    fields.push((Node::Text(owned("created_at")), Node::Number(decimal_text(e.created_at))));
    fields.push((Node::Text(owned("updated_at")), u64_node(e.updated_at)));
    assert(entry_views(fields@) =~= entry_doc(e@)->Mapping_0);
    mapping_node(fields)
}

/// The JSON document of an index.
pub fn index_node(index: &ProfileIndex) -> (r: Node)
    ensures
        r@ == index_doc(index@),
{
    let mut items: Vec<Node> = Vec::new();
    let mut i: usize = 0;
    while i < index.profiles.len()
        invariant
            i <= index.profiles.len(),
            items.len() == i,
            forall|j: int| 0 <= j < i ==> items@[j]@ == entry_doc(index.profiles@[j]@),
        decreases index.profiles.len() - i,
    {
        items.push(entry_node(&index.profiles[i]));
        i = i + 1;
    }
    proof {
        lemma_sequence_view(items);
        assert(item_views(items@) =~= profile_views(index.profiles@).map_values(
            |e: ProfileEntryView| entry_doc(e),
        ));
    }
    let mut fields: Vec<(Node, Node)> = Vec::new();
    fields.push((Node::Text(owned("active")), text_node(&index.active)));
    fields.push((Node::Text(owned("profiles")), Node::Sequence(items)));
    assert(entry_views(fields@) =~= index_doc(index@)->Mapping_0);
    mapping_node(fields)
}

fn read_text(v: Option<&Node>) -> (r: Option<String>)
    ensures
        text_view(r) == field_text(crate::yaml::opt_view(v)),
{
    match v {
        Some(Node::Text(s)) => Some(s.clone()),
        _ => None,
    }
}

fn read_u64(v: Option<&Node>) -> (r: Option<u64>)
    ensures
        r == field_u64(crate::yaml::opt_view(v)),
{
    match v {
        Some(Node::Number(s)) => parse_unsigned_chars(&chars_of(s.as_str()), 0xffff_ffff_ffff_ffff),
        _ => None,
    }
}

fn read_optional_u64(v: Option<&Node>) -> (r: Option<Option<u64>>)
    ensures
        r == optional_u64(crate::yaml::opt_view(v)),
{
    match v {
        None => Some(None),
        Some(Node::Null) => Some(None),
        Some(Node::Number(s)) => {
            match parse_unsigned_chars(&chars_of(s.as_str()), 0xffff_ffff_ffff_ffff) {
                Some(n) => Some(Some(n)),
                None => None,
            }
        },
        _ => None,
    }
}

/// The view of an optional subscription.
pub open spec fn entry_view(e: Option<ProfileEntry>) -> Option<ProfileEntryView> {
    match e {
        Some(x) => Some(x@),
        None => None,
    }
}

/// The view of an optional index.
pub open spec fn index_view(e: Option<ProfileIndex>) -> Option<ProfileIndexView> {
    match e {
        Some(x) => Some(x@),
        None => None,
    }
}

/// The subscription that a JSON object holds.
pub fn entry_of(v: &Node) -> (r: Option<ProfileEntry>)
    ensures
        entry_view(r) == entry_in(v@),
{
    match v {
        Node::Mapping(_) => {},
        _ => {
            return None;
        },
    }
    let name = read_text(key_value(v, "name"));
    let url = read_text(key_value(v, "url"));
    let file = read_text(key_value(v, "file"));
    let created_at = read_u64(key_value(v, "created_at"));
    let updated_at = read_optional_u64(key_value(v, "updated_at"));
    match (name, url, file, created_at, updated_at) {
        (Some(name), Some(url), Some(file), Some(created_at), Some(updated_at)) => Some(
            ProfileEntry { name, url, file, created_at, updated_at },
        ),
        _ => None,
    }
}

/// What reading an index from its text gives: the index, or the failure
/// with the parser's message (none where the text is JSON but no index).
pub open spec fn index_parsed(text: Seq<char>) -> Result<ProfileIndexView, FaultView> {
    match json_read(text) {
        Err(message) => Err(
            FaultView { kind: FaultKind::IndexParse, detail: message, rolled_back: false },
        ),
        Ok(doc) => match index_in(doc) {
            Some(index) => Ok(index),
            None => Err(
                FaultView { kind: FaultKind::IndexParse, detail: Seq::empty(), rolled_back: false },
            ),
        },
    }
}

/// What writing an index gives: its text, or the failure.
pub open spec fn index_rendered(index: ProfileIndexView) -> Result<Seq<char>, FaultView> {
    match json_written(plain_json(index_doc(index))) {
        Ok(text) => Ok(text),
        Err(message) => Err(
            FaultView { kind: FaultKind::IndexRender, detail: message, rolled_back: false },
        ),
    }
}

/// Reads an index from its JSON text.
pub fn parse_index(text: &str) -> (r: Result<ProfileIndex, Fault>)
    ensures
        match r {
            Ok(index) => index_parsed(text@) == Ok::<ProfileIndexView, FaultView>(index@),
            Err(fault) => index_parsed(text@) == Err::<ProfileIndexView, FaultView>(fault@),
        },
{
    match read_json(text) {
        Err(message) => Err(
            Fault { kind: FaultKind::IndexParse, detail: message, rolled_back: false },
        ),
        Ok(doc) => match index_of(&doc) {
            Some(index) => Ok(index),
            None => Err(
                Fault { kind: FaultKind::IndexParse, detail: String::new(), rolled_back: false },
            ),
        },
    }
}

/// Writes an index as JSON text.
pub fn render_index(index: &ProfileIndex) -> (r: Result<String, Fault>)
    ensures
        match r {
            Ok(text) => index_rendered(index@) == Ok::<Seq<char>, FaultView>(text@),
            Err(fault) => index_rendered(index@) == Err::<Seq<char>, FaultView>(fault@),
        },
{
    match write_json(&json_doc(&index_node(index))) {
        Ok(text) => Ok(text),
        Err(message) => Err(
            Fault { kind: FaultKind::IndexRender, detail: message, rolled_back: false },
        ),
    }
}

/// The index that a JSON document holds.
#[verifier::loop_isolation(false)]
pub fn index_of(doc: &Node) -> (r: Option<ProfileIndex>)
    ensures
        index_view(r) == index_in(doc@),
{
    match doc {
        Node::Mapping(_) => {},
        _ => {
            return None;
        },
    }
    let active = match key_value(doc, "active") {
        None => None,
        Some(Node::Null) => None,
        Some(Node::Text(s)) => Some(s.clone()),
        _ => {
            return None;
        },
    };
    let items = match key_value(doc, "profiles") {
        Some(Node::Sequence(items)) => {
            proof {
                lemma_sequence_view(*items);
            }
            items
        },
        _ => {
            return None;
        },
    };
    let mut profiles: Vec<ProfileEntry> = Vec::new();
    let mut i: usize = 0;
    assert(item_views(items@).subrange(0, 0) =~= Seq::<NodeView>::empty());
    assert(profile_views(profiles@) =~= Seq::<ProfileEntryView>::empty());
    while i < items.len()
        invariant
            i <= items.len(),
            entries_in(item_views(items@).subrange(0, i as int)) == Some(
                profile_views(profiles@),
            ),
        decreases items.len() - i,
    {
        let ghost upto = item_views(items@).subrange(0, i + 1);
        let ghost before = profile_views(profiles@);
        proof {
            assert(upto.drop_last() =~= item_views(items@).subrange(0, i as int));
            assert(upto.last() == items@[i as int]@);
        }
        match entry_of(&items[i]) {
            Some(e) => {
                profiles.push(e);
                assert(profile_views(profiles@) =~= before.push(e@));
            },
            None => {
                proof {
                    lemma_entries_prefix(item_views(items@), i + 1);
                }
                return None;
            },
        }
        i = i + 1;
    }
    assert(item_views(items@).subrange(0, items.len() as int) =~= item_views(items@));
    Some(ProfileIndex { active, profiles })
}

/// Where a prefix of an array holds no list of subscriptions, the whole
/// array holds none.
pub proof fn lemma_entries_prefix(items: Seq<NodeView>, k: int)
    requires
        0 <= k <= items.len(),
        entries_in(items.subrange(0, k)) is None,
    ensures
        entries_in(items) is None,
    decreases items.len() - k,
{
    if k == items.len() {
        assert(items.subrange(0, k) =~= items);
    } else {
        let t = items.subrange(0, k + 1);
        assert(t.drop_last() =~= items.subrange(0, k));
        lemma_entries_prefix(items, k + 1);
    }
}

} // verus!
