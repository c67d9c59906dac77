//! The configuration document: a YAML value held as a tree of plain values,
//! read and written by `serde_yaml`, looked up and changed by verified code.

use crate::host::{owned, Fault, FaultKind, FaultView};
use crate::text::{chars_of, decimal, decimal_text, is_word, parse_signed, parse_unsigned};
use serde_yaml::value::{Tag, TaggedValue};
use serde_yaml::Value;
use vstd::prelude::*;

verus! {

/// A YAML value. A number is kept as the text in which `serde_yaml` writes
/// it, whatever its size; a mapping keeps its entries in order.
#[derive(Debug)]
pub enum Node {
    Null,
    Bool(bool),
    Number(String),
    Text(String),
    Sequence(Vec<Node>),
    Mapping(Vec<(Node, Node)>),
    Tagged(String, Box<Node>),
}

/// The mathematical value of a `Node`.
pub enum NodeView {
    Null,
    Bool(bool),
    Number(Seq<char>),
    Text(Seq<char>),
    Sequence(Seq<NodeView>),
    Mapping(Seq<(NodeView, NodeView)>),
    Tagged(Seq<char>, Box<NodeView>),
}

impl Node {
    pub open spec fn model(self) -> NodeView
        decreases self,
    {
        match self {
            Node::Null => NodeView::Null,
            Node::Bool(b) => NodeView::Bool(b),
            Node::Number(s) => NodeView::Number(s@),
            Node::Text(s) => NodeView::Text(s@),
            Node::Sequence(items) => NodeView::Sequence(
                Seq::new(
                    items@.len(),
                    |i: int|
                        if 0 <= i < items@.len() {
                            items@[i].model()
                        } else {
                            NodeView::Null
                        },
                ),
            ),
            Node::Mapping(entries) => NodeView::Mapping(
                Seq::new(
                    entries@.len(),
                    |i: int|
                        if 0 <= i < entries@.len() {
                            (entries@[i].0.model(), entries@[i].1.model())
                        } else {
                            (NodeView::Null, NodeView::Null)
                        },
                ),
            ),
            Node::Tagged(t, inner) => NodeView::Tagged(t@, Box::new((*inner).model())),
        }
    }
}

impl View for Node {
    type V = NodeView;

    open spec fn view(&self) -> NodeView {
        self.model()
    }
}

/// The views of a mapping's entries.
pub open spec fn entry_views(entries: Seq<(Node, Node)>) -> Seq<(NodeView, NodeView)> {
    Seq::new(entries.len(), |i: int| (entries[i].0@, entries[i].1@))
}

/// The empty mapping.
pub open spec fn empty_mapping() -> NodeView {
    NodeView::Mapping(Seq::empty())
}

impl NodeView {
    /// The value under all its tags.
    pub open spec fn untag(self) -> NodeView
        decreases self,
    {
        match self {
            NodeView::Tagged(_, inner) => (*inner).untag(),
            _ => self,
        }
    }

    /// Whether the value, under its tags, is a mapping.
    pub open spec fn is_mapping(self) -> bool {
        self.untag() is Mapping
    }

    /// The entries of a mapping (none for any other value).
    pub open spec fn entries(self) -> Seq<(NodeView, NodeView)> {
        match self.untag() {
            NodeView::Mapping(e) => e,
            _ => Seq::empty(),
        }
    }

    /// The value at `key` in a mapping.
    pub open spec fn field(self, key: Seq<char>) -> Option<NodeView> {
        lookup(self.entries(), key)
    }

    /// The boolean that the value is, under its tags.
    pub open spec fn as_bool(self) -> Option<bool> {
        match self.untag() {
            NodeView::Bool(b) => Some(b),
            _ => None,
        }
    }

    /// The text that the value is, under its tags.
    pub open spec fn as_text(self) -> Option<Seq<char>> {
        match self.untag() {
            NodeView::Text(s) => Some(s),
            _ => None,
        }
    }

    /// The integer that the value is, under its tags, if it fits 64 bits
    /// with a sign.
    pub open spec fn as_int(self) -> Option<int> {
        match self.untag() {
            NodeView::Number(s) => parse_signed(s),
            _ => None,
        }
    }

    /// The port number that the value holds: an integer in range, or a text
    /// that writes one.
    pub open spec fn as_port(self) -> Option<u16> {
        match self.as_int() {
            Some(i) => if 0 <= i <= 0xffff {
                Some(i as u16)
            } else {
                None
            },
            None => match self.as_text() {
                Some(s) => match parse_unsigned(s, 0xffff) {
                    Some(n) => Some(n as u16),
                    None => None,
                },
                None => None,
            },
        }
    }

    /// No tag in the value is empty: the condition under which it can be
    /// written.
    pub open spec fn well_formed(self) -> bool
        decreases self,
    {
        match self {
            NodeView::Tagged(t, inner) => t.len() > 0 && (*inner).well_formed(),
            NodeView::Sequence(items) => forall|i: int|
                0 <= i < items.len() ==> (#[trigger] items[i]).well_formed(),
            NodeView::Mapping(entries) => forall|i: int|
                0 <= i < entries.len() ==> (#[trigger] entries[i]).0.well_formed()
                    && entries[i].1.well_formed(),
            _ => true,
        }
    }

    /// The value with the entries of its mapping replaced; a value that is no
    /// mapping becomes one.
    pub open spec fn with_entries(self, entries: Seq<(NodeView, NodeView)>) -> NodeView
        decreases self,
    {
        match self {
            NodeView::Tagged(t, inner) => if (*inner).is_mapping() {
                NodeView::Tagged(t, Box::new((*inner).with_entries(entries)))
            } else {
                NodeView::Mapping(entries)
            },
            _ => NodeView::Mapping(entries),
        }
    }

    /// The value with `value` stored at `key` in the mapping reached by
    /// `path`. A value on the way that is no mapping is replaced by a
    /// mapping, a missing one is created.
    pub open spec fn assigned(
        self,
        path: Seq<Seq<char>>,
        key: Seq<char>,
        value: NodeView,
    ) -> NodeView
        decreases path.len(), 1int,
    {
        self.with_entries(assigned_entries(self.entries(), path, key, value))
    }

    /// The value with every mapping on `path` in place, and nothing else
    /// changed.
    pub open spec fn ensured(self, path: Seq<Seq<char>>) -> NodeView
        decreases path.len(), 1int,
    {
        self.with_entries(ensured_entries(self.entries(), path))
    }

    /// The value reached by `path` through nested mappings.
    pub open spec fn at(self, path: Seq<Seq<char>>) -> Option<NodeView>
        decreases path.len(),
    {
        if path.len() == 0 {
            Some(self)
        } else {
            match self.field(path[0]) {
                Some(c) => c.at(path.drop_first()),
                None => None,
            }
        }
    }

    /// The value at `key` in the mapping reached by `path`.
    pub open spec fn get(self, path: Seq<Seq<char>>, key: Seq<char>) -> Option<NodeView> {
        match self.at(path) {
            Some(m) => m.field(key),
            None => None,
        }
    }

    /// Whether the mapping reached by `path` has an entry at `key`.
    pub open spec fn has(self, path: Seq<Seq<char>>, key: Seq<char>) -> bool {
        match self.at(path) {
            Some(m) => m.field(key) is Some,
            None => false,
        }
    }

    /// The value with `value` stored at `key` under `path` unless an entry is
    /// there already; the mappings on `path` are put in place either way.
    pub open spec fn defaulted(
        self,
        path: Seq<Seq<char>>,
        key: Seq<char>,
        value: NodeView,
    ) -> NodeView {
        if self.ensured(path).has(path, key) {
            self.ensured(path)
        } else {
            self.ensured(path).assigned(path, key, value)
        }
    }
}

/// The index of the first entry whose key is the text `key`, or the number
/// of entries when there is none.
pub open spec fn key_index(entries: Seq<(NodeView, NodeView)>, key: Seq<char>) -> nat
    decreases entries.len(),
{
    if entries.len() == 0 || entries[0].0 == NodeView::Text(key) {
        0
    } else {
        1 + key_index(entries.drop_first(), key)
    }
}

/// The value of the first entry whose key is the text `key`.
pub open spec fn lookup(entries: Seq<(NodeView, NodeView)>, key: Seq<char>) -> Option<NodeView> {
    let i = key_index(entries, key);
    if i < entries.len() {
        Some(entries[i as int].1)
    } else {
        None
    }
}

/// The entries with `value` at `key`: in the place of the entry that has the
/// key, or at the end when none has it.
pub open spec fn stored(
    entries: Seq<(NodeView, NodeView)>,
    key: Seq<char>,
    value: NodeView,
) -> Seq<(NodeView, NodeView)> {
    let i = key_index(entries, key);
    if i < entries.len() {
        entries.update(i as int, (entries[i as int].0, value))
    } else {
        entries.push((NodeView::Text(key), value))
    }
}

/// The entries of a mapping once `value` is stored at `key` under `path`.
pub open spec fn assigned_entries(
    e: Seq<(NodeView, NodeView)>,
    path: Seq<Seq<char>>,
    key: Seq<char>,
    value: NodeView,
) -> Seq<(NodeView, NodeView)>
    decreases path.len(), 0int,
{
    if path.len() == 0 {
        stored(e, key, value)
    } else {
        let child = match lookup(e, path[0]) {
            Some(c) => c,
            None => empty_mapping(),
        };
        stored(e, path[0], child.assigned(path.drop_first(), key, value))
    }
}

/// The entries of a mapping once every mapping on `path` is in place.
pub open spec fn ensured_entries(e: Seq<(NodeView, NodeView)>, path: Seq<Seq<char>>) -> Seq<
    (NodeView, NodeView),
>
    decreases path.len(), 0int,
{
    if path.len() == 0 {
        e
    } else {
        let child = match lookup(e, path[0]) {
            Some(c) => c,
            None => empty_mapping(),
        };
        stored(e, path[0], child.ensured(path.drop_first()))
    }
}

/// The views of a path of keys.
pub open spec fn path_views(path: Seq<&str>) -> Seq<Seq<char>> {
    Seq::new(path.len(), |i: int| path[i]@)
}

// ---------------------------------------------------------------------------
// Reading and writing through serde_yaml
// ---------------------------------------------------------------------------

#[verifier::external_type_specification]
#[verifier::external_body]
pub struct ExYamlValue(Value);

/// What `serde_yaml::from_str` makes of a text: the value it holds, or the
/// parser's message.
pub uninterp spec fn yaml_read(text: Seq<char>) -> Result<NodeView, Seq<char>>;

/// What `serde_yaml::to_string` writes for a value, or the serialiser's
/// message.
pub uninterp spec fn yaml_written(doc: NodeView) -> Result<Seq<char>, Seq<char>>;

/// The result of reading, seen through views.
pub open spec fn read_view(r: Result<Node, String>) -> Result<NodeView, Seq<char>> {
    match r {
        Ok(n) => Ok(n@),
        Err(e) => Err(e@),
    }
}

/// The result of writing, seen through views.
pub open spec fn written_view(r: Result<String, String>) -> Result<Seq<char>, Seq<char>> {
    match r {
        Ok(s) => Ok(s@),
        Err(e) => Err(e@),
    }
}

/// `serde_yaml::from_str` at `serde_yaml::Value`, the value handed over as a
/// `Node`. The contract names the result and adds that no tag of a parsed
/// value is empty: a tag is kept as `Tag` displays it, which begins with
/// `!`.
#[verifier::external_body]
pub(crate) fn read_yaml(text: &str) -> (r: Result<Node, String>)
    ensures
        read_view(r) == yaml_read(text@),
        r matches Ok(n) ==> n@.well_formed(),
{
    match serde_yaml::from_str::<Value>(text) {
        Ok(v) => Ok(node_of(v)),
        Err(e) => Err(e.to_string()),
    }
}

/// `serde_yaml::to_string` on the `serde_yaml::Value` that `doc` stands for.
/// The contract names the result.
#[verifier::external_body]
pub(crate) fn write_yaml(doc: &Node) -> (r: Result<String, String>)
    requires
        doc@.well_formed(),
    ensures
        written_view(r) == yaml_written(doc@),
{
    match serde_yaml::to_string(&value_of(doc)) {
        Ok(s) => Ok(s),
        Err(e) => Err(e.to_string()),
    }
}

/// Moves a `serde_yaml::Value` into a `Node`, variant by variant; a number
/// is kept as `Number`'s own text, a tag as `Tag`'s.
#[verifier::external_body]
fn node_of(v: Value) -> Node {
    match v {
        Value::Null => Node::Null,
        Value::Bool(b) => Node::Bool(b),
        Value::Number(n) => Node::Number(n.to_string()),
        Value::String(s) => Node::Text(s),
        Value::Sequence(xs) => Node::Sequence(xs.into_iter().map(node_of).collect()),
        Value::Mapping(m) => Node::Mapping(m.into_iter().map(|(k, v)| (node_of(k), node_of(v))).collect()),
        Value::Tagged(t) => Node::Tagged(t.tag.to_string(), Box::new(node_of(t.value))),
    }
}

/// Copies a `Node` into a `serde_yaml::Value`, variant by variant; a number
/// is read back from its text by `Number`'s own parser, and a text that it
/// refuses stays a text. `Tag::new` panics on an empty tag, which a
/// well-formed value does not have.
#[verifier::external_body]
fn value_of(n: &Node) -> Value
    requires
        n@.well_formed(),
{
    match n {
        Node::Null => Value::Null,
        Node::Bool(b) => Value::Bool(*b),
        Node::Number(s) => s.parse().map_or(Value::String(s.clone()), Value::Number),
        Node::Text(s) => Value::String(s.clone()),
        Node::Sequence(xs) => Value::Sequence(xs.iter().map(value_of).collect()),
        Node::Mapping(m) => Value::Mapping(m.iter().map(|(k, v)| (value_of(k), value_of(v))).collect()),
        Node::Tagged(t, inner) => Value::Tagged(Box::new(TaggedValue { tag: Tag::new(t), value: value_of(inner) })),
    }
}

// ---------------------------------------------------------------------------
// Looking up
// ---------------------------------------------------------------------------

pub proof fn lemma_mapping_view(entries: Vec<(Node, Node)>)
    ensures
        Node::Mapping(entries)@ == NodeView::Mapping(entry_views(entries@)),
{
    assert(Node::Mapping(entries).model()->Mapping_0 =~= entry_views(entries@));
}

pub proof fn lemma_key_index(entries: Seq<(NodeView, NodeView)>, key: Seq<char>, i: int)
    requires
        0 <= i <= entries.len(),
        forall|j: int| 0 <= j < i ==> entries[j].0 != NodeView::Text(key),
        i == entries.len() || entries[i].0 == NodeView::Text(key),
    ensures
        key_index(entries, key) == i,
    decreases entries.len(),
{
    if entries.len() == 0 || entries[0].0 == NodeView::Text(key) {
    } else {
        let t = entries.drop_first();
        assert forall|j: int| 0 <= j < i - 1 implies t[j].0 != NodeView::Text(key) by {
            assert(t[j] == entries[j + 1]);
        }
        lemma_key_index(t, key, i - 1);
    }
}

/// Whether the value, under its tags, is a mapping.
pub fn is_mapping(n: &Node) -> (r: bool)
    ensures
        r == n@.is_mapping(),
    decreases n,
{
    match n {
        Node::Tagged(_, inner) => is_mapping(inner),
        Node::Mapping(_) => true,
        _ => false,
    }
}

/// The value under all its tags.
pub fn untagged(n: &Node) -> (r: &Node)
    ensures
        r@ == n@.untag(),
        !(r is Tagged),
    decreases n,
{
    match n {
        Node::Tagged(_, inner) => untagged(inner),
        _ => n,
    }
}

/// The index of the first entry whose key is the text `key`, or the number
/// of entries.
pub fn find_key(entries: &Vec<(Node, Node)>, key: &str) -> (i: usize)
    ensures
        i == key_index(entry_views(entries@), key@),
        i <= entries.len(),
{
    let wanted = chars_of(key);
    let mut i: usize = 0;
    while i < entries.len()
        invariant
            i <= entries.len(),
            wanted@ == key@,
            forall|j: int| 0 <= j < i ==> entry_views(entries@)[j].0 != NodeView::Text(key@),
        decreases entries.len() - i,
    {
        let hit = match &entries[i].0 {
            Node::Text(s) => {
                let c = chars_of(s.as_str());
                is_word(&c, key)
            },
            _ => false,
        };
        if hit {
            proof {
                lemma_key_index(entry_views(entries@), key@, i as int);
            }
            return i;
        }
        i = i + 1;
    }
    proof {
        lemma_key_index(entry_views(entries@), key@, i as int);
    }
    i
}

/// The value at `key` of a mapping.
pub fn key_value<'a>(root: &'a Node, key: &str) -> (r: Option<&'a Node>)
    ensures
        match r {
            Some(n) => root@.field(key@) == Some(n@),
            None => root@.field(key@) is None,
        },
{
    match untagged(root) {
        Node::Mapping(entries) => {
            proof {
                lemma_mapping_view(*entries);
            }
            let i = find_key(entries, key);
            if i < entries.len() {
                Some(&entries[i].1)
            } else {
                None
            }
        },
        _ => None,
    }
}

/// The field at `key` of `root`, seen as an optional value.
pub open spec fn field_of(root: Option<NodeView>, key: Seq<char>) -> Option<NodeView> {
    match root {
        Some(n) => n.field(key),
        None => None,
    }
}

/// The view of an optional node.
pub open spec fn opt_view(root: Option<&Node>) -> Option<NodeView> {
    match root {
        Some(n) => Some(n@),
        None => None,
    }
}

/// The view of an optional document.
pub open spec fn node_view(root: Option<Node>) -> Option<NodeView> {
    match root {
        Some(n) => Some(n@),
        None => None,
    }
}

/// The boolean at `key`.
pub open spec fn bool_at(root: Option<NodeView>, key: Seq<char>) -> Option<bool> {
    match field_of(root, key) {
        Some(v) => v.as_bool(),
        None => None,
    }
}

/// The text at `key`.
pub open spec fn text_at(root: Option<NodeView>, key: Seq<char>) -> Option<Seq<char>> {
    match field_of(root, key) {
        Some(v) => v.as_text(),
        None => None,
    }
}

/// The port number at `key`.
pub open spec fn port_at(root: Option<NodeView>, key: Seq<char>) -> Option<u16> {
    match field_of(root, key) {
        Some(v) => v.as_port(),
        None => None,
    }
}

/// The boolean at `key` of `root`; none where `root` is none or no mapping,
/// the key is missing, or its value is no boolean.
pub fn bool_field(root: Option<&Node>, key: &str) -> (r: Option<bool>)
    ensures
        r == bool_at(opt_view(root), key@),
{
    match root {
        Some(n) => match key_value(n, key) {
            Some(v) => match untagged(v) {
                Node::Bool(b) => Some(*b),
                _ => None,
            },
            None => None,
        },
        None => None,
    }
}

/// The text at `key` of `root`; none where `root` is none or no mapping, the
/// key is missing, or its value is no text.
pub fn string_field(root: Option<&Node>, key: &str) -> (r: Option<String>)
    ensures
        match r {
            Some(s) => text_at(opt_view(root), key@) == Some(s@),
            None => text_at(opt_view(root), key@) is None,
        },
{
    match root {
        Some(n) => match key_value(n, key) {
            Some(v) => match untagged(v) {
                Node::Text(s) => Some(s.clone()),
                _ => None,
            },
            None => None,
        },
        None => None,
    }
}

/// The port number at `key` of `root`: an integer between 0 and 65535, or a
/// text that writes one; none otherwise.
pub fn u16_field(root: Option<&Node>, key: &str) -> (r: Option<u16>)
    ensures
        r == port_at(opt_view(root), key@),
{
    match root {
        Some(n) => match key_value(n, key) {
            Some(v) => port_of(v),
            None => None,
        },
        None => None,
    }
}

/// The port number that a value holds.
pub fn port_of(v: &Node) -> (r: Option<u16>)
    ensures
        r == v@.as_port(),
{
    match untagged(v) {
        Node::Number(s) => {
            let c = chars_of(s.as_str());
            match crate::text::parse_signed_chars(&c) {
                Some(i) => if 0 <= i && i <= 0xffff {
                    Some(i as u16)
                } else {
                    None
                },
                None => None,
            }
        },
        Node::Text(s) => {
            let c = chars_of(s.as_str());
            match crate::text::parse_unsigned_chars(&c, 0xffff) {
                Some(n) => Some(n as u16),
                None => None,
            }
        },
        _ => None,
    }
}

// ---------------------------------------------------------------------------
// Laws of lookup and storing
// ---------------------------------------------------------------------------

/// Every entry of a mapping is well formed.
pub open spec fn entries_well_formed(e: Seq<(NodeView, NodeView)>) -> bool {
    forall|i: int| 0 <= i < e.len() ==> (#[trigger] e[i]).0.well_formed() && e[i].1.well_formed()
}

pub proof fn lemma_key_index_bound(e: Seq<(NodeView, NodeView)>, key: Seq<char>)
    ensures
        key_index(e, key) <= e.len(),
        key_index(e, key) < e.len() ==> e[key_index(e, key) as int].0 == NodeView::Text(key),
        forall|j: int| 0 <= j < key_index(e, key) ==> e[j].0 != NodeView::Text(key),
    decreases e.len(),
{
    if e.len() == 0 || e[0].0 == NodeView::Text(key) {
    } else {
        let t = e.drop_first();
        lemma_key_index_bound(t, key);
        assert forall|j: int| 0 <= j < key_index(e, key) implies e[j].0 != NodeView::Text(key) by {
            if j > 0 {
                assert(e[j] == t[j - 1]);
            }
        }
    }
}

/// What is stored at a key is found there, and in the same place as before.
pub proof fn lemma_stored_lookup(e: Seq<(NodeView, NodeView)>, key: Seq<char>, value: NodeView)
    ensures
        lookup(stored(e, key, value), key) == Some(value),
        key_index(stored(e, key, value), key) == key_index(e, key),
{
    lemma_key_index_bound(e, key);
    let i = key_index(e, key) as int;
    let s = stored(e, key, value);
    assert forall|j: int| 0 <= j < i implies s[j].0 != NodeView::Text(key) by {
        assert(s[j] == e[j]);
    }
    lemma_key_index(s, key, i);
}

/// Storing at one key leaves every other key as it was.
pub proof fn lemma_stored_other(
    e: Seq<(NodeView, NodeView)>,
    key: Seq<char>,
    value: NodeView,
    other: Seq<char>,
)
    requires
        other != key,
    ensures
        lookup(stored(e, key, value), other) == lookup(e, other),
{
    lemma_key_index_bound(e, key);
    lemma_key_index_bound(e, other);
    let i = key_index(e, key) as int;
    let k = key_index(e, other) as int;
    let s = stored(e, key, value);
    assert forall|j: int| 0 <= j < k implies s[j].0 != NodeView::Text(other) by {
        if j < e.len() {
            assert(s[j].0 == e[j].0);
        }
    }
    if k < e.len() {
        assert(s[k].0 == e[k].0);
        assert(k != i);
        lemma_key_index(s, other, k);
    } else if i < e.len() {
        lemma_key_index(s, other, k);
    } else {
        assert(s[k].0 == NodeView::Text(key));
        assert(s[k].0 != NodeView::Text(other));
        lemma_key_index(s, other, k + 1);
    }
}

/// Storing again what a key already holds changes nothing.
pub proof fn lemma_stored_same(e: Seq<(NodeView, NodeView)>, key: Seq<char>)
    requires
        lookup(e, key) is Some,
    ensures
        stored(e, key, lookup(e, key)->0) == e,
{
    assert(stored(e, key, lookup(e, key)->0) =~= e);
}

/// A value whose entries were replaced is a mapping with those entries, and
/// keeps its tags.
pub proof fn lemma_with_entries(n: NodeView, e: Seq<(NodeView, NodeView)>)
    ensures
        n.with_entries(e).is_mapping(),
        n.with_entries(e).entries() == e,
        n.is_mapping() ==> n.with_entries(n.entries()) == n,
        n.well_formed() && entries_well_formed(e) ==> n.with_entries(e).well_formed(),
        n.well_formed() && n.is_mapping() ==> entries_well_formed(n.entries()),
    decreases n,
{
    match n {
        NodeView::Tagged(t, inner) => {
            lemma_with_entries(*inner, e);
        },
        _ => {},
    }
}

pub proof fn lemma_stored_well_formed(
    e: Seq<(NodeView, NodeView)>,
    key: Seq<char>,
    value: NodeView,
)
    requires
        entries_well_formed(e),
        value.well_formed(),
    ensures
        entries_well_formed(stored(e, key, value)),
{
    let s = stored(e, key, value);
    let k = key_index(e, key) as int;
    lemma_key_index_bound(e, key);
    assert forall|i: int| 0 <= i < s.len() implies (#[trigger] s[i]).0.well_formed()
        && s[i].1.well_formed() by {
        if i < e.len() && i != k {
            assert(s[i] == e[i]);
        } else if i < e.len() {
            assert(s[i].0 == e[i].0);
        }
    }
}

/// The entries of a well-formed value, mapping or not, are well formed.
pub proof fn lemma_entries_well_formed(n: NodeView)
    requires
        n.well_formed(),
    ensures
        entries_well_formed(n.entries()),
        forall|key: Seq<char>| (#[trigger] n.field(key)) is Some ==> n.field(key)->0.well_formed(),
{
    lemma_with_entries(n, Seq::empty());
    assert forall|key: Seq<char>| (#[trigger] n.field(key)) is Some implies n.field(
        key,
    )->0.well_formed() by {
        lemma_key_index_bound(n.entries(), key);
    }
}

/// A value stored under a path is found there: whatever the document held,
/// the mapping reached by `path` afterwards has `value` at `key`.
pub proof fn lemma_assigned_found(
    n: NodeView,
    path: Seq<Seq<char>>,
    key: Seq<char>,
    value: NodeView,
)
    ensures
        n.assigned(path, key, value).at(path) is Some,
        n.assigned(path, key, value).at(path)->0.field(key) == Some(value),
        n.assigned(path, key, value).has(path, key),
    decreases path.len(),
{
    let e = n.entries();
    let r = n.assigned(path, key, value);
    lemma_with_entries(n, assigned_entries(e, path, key, value));
    if path.len() == 0 {
        lemma_stored_lookup(e, key, value);
    } else {
        let child = match lookup(e, path[0]) {
            Some(c) => c,
            None => empty_mapping(),
        };
        let grown = child.assigned(path.drop_first(), key, value);
        lemma_stored_lookup(e, path[0], grown);
        lemma_assigned_found(child, path.drop_first(), key, value);
        assert(r.field(path[0]) == Some(grown));
    }
}

/// Putting the mappings of a path in place changes nothing where an entry
/// is already reached through the path.
pub proof fn lemma_ensured_same(n: NodeView, path: Seq<Seq<char>>, key: Seq<char>)
    requires
        n.has(path, key),
    ensures
        n.ensured(path) == n,
    decreases path.len(),
{
    let e = n.entries();
    lemma_with_entries(n, e);
    if path.len() == 0 {
        lemma_key_index_bound(e, key);
    } else {
        lemma_key_index_bound(e, path[0]);
        let child = lookup(e, path[0])->0;
        lemma_ensured_same(child, path.drop_first(), key);
        lemma_stored_same(e, path[0]);
    }
}

/// Storing what is already there changes nothing.
pub proof fn lemma_assigned_same(
    n: NodeView,
    path: Seq<Seq<char>>,
    key: Seq<char>,
    value: NodeView,
)
    requires
        n.get(path, key) == Some(value),
    ensures
        n.assigned(path, key, value) == n,
    decreases path.len(),
{
    let e = n.entries();
    lemma_with_entries(n, e);
    if path.len() == 0 {
        lemma_key_index_bound(e, key);
        lemma_stored_same(e, key);
    } else {
        lemma_key_index_bound(e, path[0]);
        let child = lookup(e, path[0])->0;
        lemma_assigned_same(child, path.drop_first(), key, value);
        lemma_stored_same(e, path[0]);
    }
}

/// A default never replaces what is there: where the path already reaches
/// an entry at `key`, the document stays as it is, whatever the entry holds.
pub proof fn lemma_default_keeps(
    n: NodeView,
    path: Seq<Seq<char>>,
    key: Seq<char>,
    value: NodeView,
)
    requires
        n.has(path, key),
    ensures
        n.defaulted(path, key, value) == n,
{
    lemma_ensured_same(n, path, key);
}

/// After a default the entry exists: it holds what it held before, or
/// `value` where there was none.
pub proof fn lemma_default_found(
    n: NodeView,
    path: Seq<Seq<char>>,
    key: Seq<char>,
    value: NodeView,
)
    ensures
        n.defaulted(path, key, value).has(path, key),
        !n.ensured(path).has(path, key) ==> n.defaulted(path, key, value).at(path)->0.field(key)
            == Some(value),
{
    if !n.ensured(path).has(path, key) {
        lemma_assigned_found(n.ensured(path), path, key, value);
    }
}

/// Storing keeps a document well formed.
pub proof fn lemma_assigned_well_formed(
    n: NodeView,
    path: Seq<Seq<char>>,
    key: Seq<char>,
    value: NodeView,
)
    requires
        n.well_formed(),
        value.well_formed(),
    ensures
        n.assigned(path, key, value).well_formed(),
    decreases path.len(),
{
    let e = n.entries();
    lemma_entries_well_formed(n);
    if path.len() == 0 {
        lemma_stored_well_formed(e, key, value);
    } else {
        let child = match lookup(e, path[0]) {
            Some(c) => c,
            None => empty_mapping(),
        };
        assert(child.well_formed()) by {
            if lookup(e, path[0]) is Some {
                assert(n.field(path[0]) is Some);
            }
        }
        lemma_assigned_well_formed(child, path.drop_first(), key, value);
        lemma_stored_well_formed(e, path[0], child.assigned(path.drop_first(), key, value));
    }
    lemma_with_entries(n, assigned_entries(e, path, key, value));
}

/// Putting the mappings of a path in place keeps a document well formed.
pub proof fn lemma_ensured_well_formed(n: NodeView, path: Seq<Seq<char>>)
    requires
        n.well_formed(),
    ensures
        n.ensured(path).well_formed(),
    decreases path.len(),
{
    let e = n.entries();
    lemma_entries_well_formed(n);
    if path.len() == 0 {
    } else {
        let child = match lookup(e, path[0]) {
            Some(c) => c,
            None => empty_mapping(),
        };
        assert(child.well_formed()) by {
            if lookup(e, path[0]) is Some {
                assert(n.field(path[0]) is Some);
            }
        }
        lemma_ensured_well_formed(child, path.drop_first());
        lemma_stored_well_formed(e, path[0], child.ensured(path.drop_first()));
    }
    lemma_with_entries(n, ensured_entries(e, path));
}

/// A default keeps a document well formed.
pub proof fn lemma_defaulted_well_formed(
    n: NodeView,
    path: Seq<Seq<char>>,
    key: Seq<char>,
    value: NodeView,
)
    requires
        n.well_formed(),
        value.well_formed(),
    ensures
        n.defaulted(path, key, value).well_formed(),
{
    lemma_ensured_well_formed(n, path);
    lemma_assigned_well_formed(n.ensured(path), path, key, value);
}

/// Two places in a document are apart when, somewhere on the way down,
/// their keys differ: neither lies on the way to the other.
pub open spec fn apart(a: Seq<Seq<char>>, b: Seq<Seq<char>>) -> bool {
    exists|i: int| 0 <= i < a.len() && 0 <= i < b.len() && #[trigger] a[i] != b[i]
}

pub proof fn lemma_apart_step(a: Seq<Seq<char>>, b: Seq<Seq<char>>)
    requires
        apart(a, b),
        a.len() > 0,
        b.len() > 0,
        a[0] == b[0],
    ensures
        apart(a.drop_first(), b.drop_first()),
{
    let i = choose|i: int| 0 <= i < a.len() && 0 <= i < b.len() && #[trigger] a[i] != b[i];
    assert(a.drop_first()[i - 1] == a[i]);
    assert(b.drop_first()[i - 1] == b[i]);
}

/// A lookup in the empty mapping finds nothing.
pub proof fn lemma_empty_get(path: Seq<Seq<char>>, key: Seq<char>)
    ensures
        empty_mapping().get(path, key) is None,
{
    if path.len() > 0 {
        assert(empty_mapping().field(path[0]) is None);
    }
}

/// Storing in one place leaves every place apart from it as it was.
pub proof fn lemma_assigned_frame(
    n: NodeView,
    path: Seq<Seq<char>>,
    key: Seq<char>,
    value: NodeView,
    other_path: Seq<Seq<char>>,
    other_key: Seq<char>,
)
    requires
        apart(path.push(key), other_path.push(other_key)),
    ensures
        n.assigned(path, key, value).get(other_path, other_key) == n.get(other_path, other_key),
    decreases path.len(),
{
    let e = n.entries();
    let a = path.push(key);
    let b = other_path.push(other_key);
    let r = n.assigned(path, key, value);
    lemma_with_entries(n, assigned_entries(e, path, key, value));
    let first = if path.len() == 0 {
        key
    } else {
        path[0]
    };
    let other_first = if other_path.len() == 0 {
        other_key
    } else {
        other_path[0]
    };
    assert(a[0] == first && b[0] == other_first);
    let grown = if path.len() == 0 {
        value
    } else {
        (match lookup(e, path[0]) {
            Some(c) => c,
            None => empty_mapping(),
        }).assigned(path.drop_first(), key, value)
    };
    assert(r.entries() == stored(e, first, grown));
    if first != other_first {
        lemma_stored_other(e, first, grown, other_first);
    } else {
        lemma_apart_step(a, b);
        lemma_stored_lookup(e, first, grown);
        if path.len() == 0 || other_path.len() == 0 {
            // One of the two ends here, so they cannot be apart further down.
            let i = choose|i: int|
                0 <= i < a.drop_first().len() && 0 <= i < b.drop_first().len() && (
                #[trigger] a.drop_first()[i]) != b.drop_first()[i];
            assert(false);
        } else {
            let child = match lookup(e, path[0]) {
                Some(c) => c,
                None => empty_mapping(),
            };
            assert(a.drop_first() =~= path.drop_first().push(key));
            assert(b.drop_first() =~= other_path.drop_first().push(other_key));
            lemma_assigned_frame(
                child,
                path.drop_first(),
                key,
                value,
                other_path.drop_first(),
                other_key,
            );
            if lookup(e, path[0]) is None {
                lemma_empty_get(other_path.drop_first(), other_key);
            }
        }
    }
}

/// Putting the mappings of a path in place leaves every place apart from a
/// place below the path as it was.
pub proof fn lemma_ensured_frame(
    n: NodeView,
    path: Seq<Seq<char>>,
    key: Seq<char>,
    other_path: Seq<Seq<char>>,
    other_key: Seq<char>,
)
    requires
        apart(path.push(key), other_path.push(other_key)),
    ensures
        n.ensured(path).get(other_path, other_key) == n.get(other_path, other_key),
    decreases path.len(),
{
    let e = n.entries();
    let a = path.push(key);
    let b = other_path.push(other_key);
    let r = n.ensured(path);
    lemma_with_entries(n, ensured_entries(e, path));
    if path.len() == 0 {
        assert(r.entries() == e);
    } else {
        let other_first = if other_path.len() == 0 {
            other_key
        } else {
            other_path[0]
        };
        assert(a[0] == path[0] && b[0] == other_first);
        let child = match lookup(e, path[0]) {
            Some(c) => c,
            None => empty_mapping(),
        };
        let grown = child.ensured(path.drop_first());
        assert(r.entries() == stored(e, path[0], grown));
        if path[0] != other_first {
            lemma_stored_other(e, path[0], grown, other_first);
        } else {
            lemma_apart_step(a, b);
            lemma_stored_lookup(e, path[0], grown);
            if other_path.len() == 0 {
                // The other path ends here, so the two cannot be apart further down.
                let i = choose|i: int|
                    0 <= i < a.drop_first().len() && 0 <= i < b.drop_first().len() && (
                    #[trigger] a.drop_first()[i]) != b.drop_first()[i];
                assert(false);
            } else {
                assert(a.drop_first() =~= path.drop_first().push(key));
                assert(b.drop_first() =~= other_path.drop_first().push(other_key));
                lemma_ensured_frame(
                    child,
                    path.drop_first(),
                    key,
                    other_path.drop_first(),
                    other_key,
                );
                if lookup(e, path[0]) is None {
                    lemma_empty_get(other_path.drop_first(), other_key);
                }
            }
        }
    }
}

/// A default in one place leaves every place apart from it as it was.
pub proof fn lemma_defaulted_frame(
    n: NodeView,
    path: Seq<Seq<char>>,
    key: Seq<char>,
    value: NodeView,
    other_path: Seq<Seq<char>>,
    other_key: Seq<char>,
)
    requires
        apart(path.push(key), other_path.push(other_key)),
    ensures
        n.defaulted(path, key, value).get(other_path, other_key) == n.get(other_path, other_key),
{
    lemma_ensured_frame(n, path, key, other_path, other_key);
    lemma_assigned_frame(n.ensured(path), path, key, value, other_path, other_key);
}

/// A default leaves the entry as it was where there was one, whatever it
/// held, and stores `value` where there was none.
pub proof fn lemma_defaulted_get(
    n: NodeView,
    path: Seq<Seq<char>>,
    key: Seq<char>,
    value: NodeView,
)
    ensures
        n.get(path, key) is Some ==> n.defaulted(path, key, value).get(path, key) == n.get(
            path,
            key,
        ),
        n.get(path, key) is None ==> n.defaulted(path, key, value).get(path, key) == Some(value),
{
    if n.get(path, key) is Some {
        lemma_default_keeps(n, path, key, value);
    } else {
        lemma_ensured_get(n, path, key);
        lemma_assigned_found(n.ensured(path), path, key, value);
    }
}

/// Putting the mappings of a path in place adds no entry below the path.
pub proof fn lemma_ensured_get(n: NodeView, path: Seq<Seq<char>>, key: Seq<char>)
    requires
        n.get(path, key) is None,
    ensures
        n.ensured(path).get(path, key) is None,
    decreases path.len(),
{
    let e = n.entries();
    lemma_with_entries(n, ensured_entries(e, path));
    if path.len() > 0 {
        let child = match lookup(e, path[0]) {
            Some(c) => c,
            None => empty_mapping(),
        };
        lemma_stored_lookup(e, path[0], child.ensured(path.drop_first()));
        if lookup(e, path[0]) is None {
            lemma_empty_get(path.drop_first(), key);
        }
        lemma_ensured_get(child, path.drop_first(), key);
    }
}

// ---------------------------------------------------------------------------
// Changing
// ---------------------------------------------------------------------------

/// The mapping with these entries.
pub fn mapping_node(entries: Vec<(Node, Node)>) -> (r: Node)
    ensures
        r@ == NodeView::Mapping(entry_views(entries@)),
{
    proof {
        lemma_mapping_view(entries);
    }
    Node::Mapping(entries)
}

/// No entries.
pub fn no_entries() -> (r: Vec<(Node, Node)>)
    ensures
        entry_views(r@) == Seq::<(NodeView, NodeView)>::empty(),
{
    let r: Vec<(Node, Node)> = Vec::new();
    assert(entry_views(r@) =~= Seq::empty());
    r
}

/// Stores `value` at `key`: in the place of the entry that has the key, or
/// at the end.
pub fn store(entries: &mut Vec<(Node, Node)>, key: &str, value: Node)
    ensures
        entry_views(final(entries)@) == stored(entry_views(old(entries)@), key@, value@),
{
    let i = find_key(entries, key);
    if i < entries.len() {
        let (k, _) = entries.remove(i);
        entries.insert(i, (k, value));
    } else {
        entries.push((Node::Text(owned(key)), value));
    }
    assert(entry_views(entries@) =~= stored(entry_views(old(entries)@), key@, value@));
}

/// The entries of a mapping with `value` stored at `key` under the keys of
/// `path` from `from` on.
pub fn assign_entries(
    entries: Vec<(Node, Node)>,
    path: &[&str],
    from: usize,
    key: &str,
    value: Node,
) -> (r: Vec<(Node, Node)>)
    requires
        from <= path.len(),
    ensures
        entry_views(r@) == assigned_entries(
            entry_views(entries@),
            path_views(path@).skip(from as int),
            key@,
            value@,
        ),
    decreases path.len() - from, 0int,
{
    let mut entries = entries;
    let ghost before = entry_views(entries@);
    let ghost rest = path_views(path@).skip(from as int);
    if from == path.len() {
        store(&mut entries, key, value);
        entries
    } else {
        let step = path[from];
        assert(rest[0] == step@);
        assert(rest.drop_first() =~= path_views(path@).skip(from + 1));
        let i = find_key(&entries, step);
        if i < entries.len() {
            let (k, child) = entries.remove(i);
            let grown = assign(child, path, from + 1, key, value);
            entries.insert(i, (k, grown));
            assert(entry_views(entries@) =~= stored(before, step@, grown@));
        } else {
            let fresh = mapping_node(no_entries());
            let grown = assign(fresh, path, from + 1, key, value);
            entries.push((Node::Text(owned(step)), grown));
            assert(entry_views(entries@) =~= stored(before, step@, grown@));
        }
        entries
    }
}

/// `node` with `value` stored at `key` under the keys of `path` from `from`
/// on.
pub fn assign(node: Node, path: &[&str], from: usize, key: &str, value: Node) -> (r: Node)
    requires
        from <= path.len(),
    ensures
        r@ == node@.assigned(path_views(path@).skip(from as int), key@, value@),
    decreases path.len() - from, 1int, node,
{
    match node {
        Node::Tagged(t, inner) => {
            if is_mapping(&inner) {
                Node::Tagged(t, Box::new(assign(*inner, path, from, key, value)))
            } else {
                mapping_node(assign_entries(no_entries(), path, from, key, value))
            }
        },
        Node::Mapping(entries) => {
            proof {
                lemma_mapping_view(entries);
            }
            mapping_node(assign_entries(entries, path, from, key, value))
        },
        _ => {
            mapping_node(assign_entries(no_entries(), path, from, key, value))
        },
    }
}

/// The entries of a mapping with every mapping on the keys of `path` from
/// `from` on in place.
pub fn ensure_entries(entries: Vec<(Node, Node)>, path: &[&str], from: usize) -> (r: Vec<
    (Node, Node),
>)
    requires
        from <= path.len(),
    ensures
        entry_views(r@) == ensured_entries(
            entry_views(entries@),
            path_views(path@).skip(from as int),
        ),
    decreases path.len() - from, 0int,
{
    let mut entries = entries;
    let ghost before = entry_views(entries@);
    let ghost rest = path_views(path@).skip(from as int);
    if from == path.len() {
        entries
    } else {
        let step = path[from];
        assert(rest[0] == step@);
        assert(rest.drop_first() =~= path_views(path@).skip(from + 1));
        let i = find_key(&entries, step);
        if i < entries.len() {
            let (k, child) = entries.remove(i);
            let grown = ensure(child, path, from + 1);
            entries.insert(i, (k, grown));
            assert(entry_views(entries@) =~= stored(before, step@, grown@));
        } else {
            let fresh = mapping_node(no_entries());
            let grown = ensure(fresh, path, from + 1);
            entries.push((Node::Text(owned(step)), grown));
            assert(entry_views(entries@) =~= stored(before, step@, grown@));
        }
        entries
    }
}

/// `node` with every mapping on the keys of `path` from `from` on in place.
pub fn ensure(node: Node, path: &[&str], from: usize) -> (r: Node)
    requires
        from <= path.len(),
    ensures
        r@ == node@.ensured(path_views(path@).skip(from as int)),
    decreases path.len() - from, 1int, node,
{
    match node {
        Node::Tagged(t, inner) => {
            if is_mapping(&inner) {
                Node::Tagged(t, Box::new(ensure(*inner, path, from)))
            } else {
                mapping_node(ensure_entries(no_entries(), path, from))
            }
        },
        Node::Mapping(entries) => {
            proof {
                lemma_mapping_view(entries);
            }
            mapping_node(ensure_entries(entries, path, from))
        },
        _ => {
            mapping_node(ensure_entries(no_entries(), path, from))
        },
    }
}

/// Whether the mapping reached through the keys of `path` from `from` on has
/// an entry at `key`.
pub fn has_field(node: &Node, path: &[&str], from: usize, key: &str) -> (r: bool)
    requires
        from <= path.len(),
    ensures
        r == node@.has(path_views(path@).skip(from as int), key@),
    decreases path.len() - from,
{
    let ghost rest = path_views(path@).skip(from as int);
    if from == path.len() {
        key_value(node, key).is_some()
    } else {
        assert(rest[0] == path[from as int]@);
        assert(rest.drop_first() =~= path_views(path@).skip(from + 1));
        match key_value(node, path[from]) {
            Some(child) => has_field(child, path, from + 1, key),
            None => false,
        }
    }
}

/// Puts every mapping on `path_keys` in place: the root and each value on
/// the way that is no mapping is replaced by an empty one, each missing one
/// is created.
pub fn ensure_mapping_path(root: &mut Node, path_keys: &[&str])
    ensures
        final(root)@ == old(root)@.ensured(path_views(path_keys@)),
{
    let mut taken = Node::Null;
    core::mem::swap(root, &mut taken);
    assert(path_views(path_keys@).skip(0) =~= path_views(path_keys@));
    *root = ensure(taken, path_keys, 0);
}

/// Stores `value` at `key` under `path_keys`, whatever was there.
pub fn set_field(root: &mut Node, path_keys: &[&str], key: &str, value: Node)
    ensures
        final(root)@ == old(root)@.assigned(path_views(path_keys@), key@, value@),
{
    let mut taken = Node::Null;
    core::mem::swap(root, &mut taken);
    assert(path_views(path_keys@).skip(0) =~= path_views(path_keys@));
    *root = assign(taken, path_keys, 0, key, value);
}

/// Stores `value` at `key` under `path_keys` unless an entry is there.
pub fn set_default_field(root: &mut Node, path_keys: &[&str], key: &str, value: Node)
    ensures
        final(root)@ == old(root)@.defaulted(path_views(path_keys@), key@, value@),
{
    assert(path_views(path_keys@).skip(0) =~= path_views(path_keys@));
    let mut taken = Node::Null;
    core::mem::swap(root, &mut taken);
    let prepared = ensure(taken, path_keys, 0);
    if has_field(&prepared, path_keys, 0, key) {
        *root = prepared;
    } else {
        *root = assign(prepared, path_keys, 0, key, value);
    }
}

/// Stores the boolean `value` at `key` under `path_keys`.
pub fn set_bool_field(root: &mut Node, path_keys: &[&str], key: &str, value: bool)
    ensures
        final(root)@ == old(root)@.assigned(
            path_views(path_keys@),
            key@,
            NodeView::Bool(value),
        ),
{
    set_field(root, path_keys, key, Node::Bool(value));
}

/// Stores the boolean `value` at `key` under `path_keys` unless an entry is
/// there.
pub fn set_default_bool_field(root: &mut Node, path_keys: &[&str], key: &str, value: bool)
    ensures
        final(root)@ == old(root)@.defaulted(
            path_views(path_keys@),
            key@,
            NodeView::Bool(value),
        ),
{
    set_default_field(root, path_keys, key, Node::Bool(value));
}

/// Stores the text `value` at `key` under `path_keys` unless an entry is
/// there.
pub fn set_default_string_field(root: &mut Node, path_keys: &[&str], key: &str, value: &str)
    ensures
        final(root)@ == old(root)@.defaulted(
            path_views(path_keys@),
            key@,
            NodeView::Text(value@),
        ),
{
    set_default_field(root, path_keys, key, Node::Text(owned(value)));
}

/// Stores the number `value` at `key` under `path_keys` unless an entry is
/// there.
pub fn set_default_u16_field(root: &mut Node, path_keys: &[&str], key: &str, value: u16)
    ensures
        final(root)@ == old(root)@.defaulted(
            path_views(path_keys@),
            key@,
            NodeView::Number(decimal(value as nat)),
        ),
{
    set_default_field(root, path_keys, key, Node::Number(decimal_text(value as u64)));
}

// ---------------------------------------------------------------------------
// Copying, comparing and merging
// ---------------------------------------------------------------------------

/// The index of the first entry whose key is `key`, or the number of
/// entries when there is none.
pub open spec fn node_index(entries: Seq<(NodeView, NodeView)>, key: NodeView) -> nat
    decreases entries.len(),
{
    if entries.len() == 0 || entries[0].0 == key {
        0
    } else {
        1 + node_index(entries.drop_first(), key)
    }
}

/// The entries of a mapping once the entries of `patch` from `from` on are
/// merged into them: a key that is there has its value merged, a key that
/// is not is added at the end.
pub open spec fn merged_entries(
    base: Seq<(NodeView, NodeView)>,
    patch: Seq<(NodeView, NodeView)>,
    from: int,
) -> Seq<(NodeView, NodeView)>
    decreases patch, patch.len() - from,
{
    if from < 0 || from >= patch.len() {
        base
    } else {
        let i = node_index(base, patch[from].0);
        let next = if i < base.len() {
            base.update(i as int, (base[i as int].0, merged(base[i as int].1, patch[from].1)))
        } else {
            base.push(patch[from])
        };
        merged_entries(next, patch, from + 1)
    }
}

/// A document with a patch merged into it: two mappings are merged key by
/// key, anything else is replaced by the patch.
pub open spec fn merged(base: NodeView, patch: NodeView) -> NodeView
    decreases patch, 0int,
{
    match (base, patch) {
        (NodeView::Mapping(b), NodeView::Mapping(p)) => NodeView::Mapping(merged_entries(b, p, 0)),
        _ => patch,
    }
}

pub proof fn lemma_sequence_view(items: Vec<Node>)
    ensures
        Node::Sequence(items)@ == NodeView::Sequence(item_views(items@)),
{
    assert(Node::Sequence(items).model()->Sequence_0 =~= item_views(items@));
}

/// The views of a sequence's items.
pub open spec fn item_views(items: Seq<Node>) -> Seq<NodeView> {
    Seq::new(items.len(), |i: int| items[i]@)
}

/// A copy of a value.
#[verifier::loop_isolation(false)]
pub fn copy_node(n: &Node) -> (r: Node)
    ensures
        r@ == n@,
    decreases n,
{
    match n {
        Node::Null => Node::Null,
        Node::Bool(b) => Node::Bool(*b),
        Node::Number(s) => Node::Number(s.clone()),
        Node::Text(s) => Node::Text(s.clone()),
        Node::Sequence(items) => {
            let mut out: Vec<Node> = Vec::new();
            let mut i: usize = 0;
            while i < items.len()
                invariant
                    i <= items.len(),
                    out.len() == i,
                    forall|j: int| 0 <= j < i ==> out@[j]@ == items@[j]@,
                decreases items.len() - i,
            {
                out.push(copy_node(&items[i]));
                i = i + 1;
            }
            proof {
                lemma_sequence_view(out);
                lemma_sequence_view(*items);
                assert(item_views(out@) =~= item_views(items@));
            }
            Node::Sequence(out)
        },
        Node::Mapping(entries) => {
            let mut out: Vec<(Node, Node)> = Vec::new();
            let mut i: usize = 0;
            while i < entries.len()
                invariant
                    i <= entries.len(),
                    out.len() == i,
                    forall|j: int|
                        0 <= j < i ==> out@[j].0@ == entries@[j].0@ && out@[j].1@
                            == entries@[j].1@,
                decreases entries.len() - i,
            {
                let k = copy_node(&entries[i].0);
                let v = copy_node(&entries[i].1);
                out.push((k, v));
                i = i + 1;
            }
            proof {
                lemma_mapping_view(out);
                lemma_mapping_view(*entries);
                assert(entry_views(out@) =~= entry_views(entries@));
            }
            Node::Mapping(out)
        },
        Node::Tagged(t, inner) => Node::Tagged(t.clone(), Box::new(copy_node(inner))),
    }
}

/// Whether two values are the same.
#[verifier::loop_isolation(false)]
pub fn same_node(a: &Node, b: &Node) -> (r: bool)
    ensures
        r == (a@ == b@),
    decreases a,
{
    match (a, b) {
        (Node::Null, Node::Null) => true,
        (Node::Bool(x), Node::Bool(y)) => *x == *y,
        (Node::Number(x), Node::Number(y)) => crate::text::same(x.as_str(), y.as_str()),
        (Node::Text(x), Node::Text(y)) => crate::text::same(x.as_str(), y.as_str()),
        (Node::Sequence(x), Node::Sequence(y)) => {
            proof {
                lemma_sequence_view(*x);
                lemma_sequence_view(*y);
            }
            if x.len() != y.len() {
                assert(item_views(x@).len() != item_views(y@).len());
                return false;
            }
            let mut i: usize = 0;
            while i < x.len()
                invariant
                    i <= x.len(),
                    x.len() == y.len(),
                    forall|j: int| 0 <= j < i ==> x@[j]@ == y@[j]@,
                decreases x.len() - i,
            {
                if !same_node(&x[i], &y[i]) {
                    assert(item_views(x@)[i as int] != item_views(y@)[i as int]);
                    return false;
                }
                i = i + 1;
            }
            assert(item_views(x@) =~= item_views(y@));
            true
        },
        (Node::Mapping(x), Node::Mapping(y)) => {
            proof {
                lemma_mapping_view(*x);
                lemma_mapping_view(*y);
            }
            if x.len() != y.len() {
                assert(entry_views(x@).len() != entry_views(y@).len());
                return false;
            }
            let mut i: usize = 0;
            while i < x.len()
                invariant
                    i <= x.len(),
                    x.len() == y.len(),
                    forall|j: int|
                        0 <= j < i ==> x@[j].0@ == y@[j].0@ && x@[j].1@ == y@[j].1@,
                decreases x.len() - i,
            {
                if !same_node(&x[i].0, &y[i].0) || !same_node(&x[i].1, &y[i].1) {
                    assert(entry_views(x@)[i as int] != entry_views(y@)[i as int]);
                    return false;
                }
                i = i + 1;
            }
            assert(entry_views(x@) =~= entry_views(y@));
            true
        },
        (Node::Tagged(s, x), Node::Tagged(t, y)) => crate::text::same(s.as_str(), t.as_str())
            && same_node(x, y),
        _ => false,
    }
}

pub proof fn lemma_node_index(entries: Seq<(NodeView, NodeView)>, key: NodeView, i: int)
    requires
        0 <= i <= entries.len(),
        forall|j: int| 0 <= j < i ==> entries[j].0 != key,
        i == entries.len() || entries[i].0 == key,
    ensures
        node_index(entries, key) == i,
    decreases entries.len(),
{
    if entries.len() == 0 || entries[0].0 == key {
    } else {
        let t = entries.drop_first();
        assert forall|j: int| 0 <= j < i - 1 implies t[j].0 != key by {
            assert(t[j] == entries[j + 1]);
        }
        lemma_node_index(t, key, i - 1);
    }
}

/// The index of the first entry whose key is `key`, or the number of
/// entries.
pub fn find_node(entries: &Vec<(Node, Node)>, key: &Node) -> (i: usize)
    ensures
        i == node_index(entry_views(entries@), key@),
        i <= entries.len(),
{
    let mut i: usize = 0;
    while i < entries.len()
        invariant
            i <= entries.len(),
            forall|j: int| 0 <= j < i ==> entry_views(entries@)[j].0 != key@,
        decreases entries.len() - i,
    {
        if same_node(&entries[i].0, key) {
            proof {
                lemma_node_index(entry_views(entries@), key@, i as int);
            }
            return i;
        }
        i = i + 1;
    }
    proof {
        lemma_node_index(entry_views(entries@), key@, i as int);
    }
    i
}

/// Merges a patch into a document: two mappings are merged key by key,
/// anything else is replaced by the patch.
#[verifier::loop_isolation(false)]
pub fn deep_merge(base: &mut Node, patch: &Node)
    ensures
        final(base)@ == merged(old(base)@, patch@),
    decreases patch,
{
    let mut taken = Node::Null;
    core::mem::swap(base, &mut taken);
    match (taken, patch) {
        (Node::Mapping(entries), Node::Mapping(more)) => {
            proof {
                lemma_mapping_view(entries);
                lemma_mapping_view(*more);
            }
            let mut entries = entries;
            let ghost start = entry_views(entries@);
            let mut i: usize = 0;
            while i < more.len()
                invariant
                    i <= more.len(),
                    merged_entries(entry_views(entries@), entry_views(more@), i as int)
                        == merged_entries(start, entry_views(more@), 0),
                decreases more.len() - i,
            {
                let ghost before = entry_views(entries@);
                let at = find_node(&entries, &more[i].0);
                if at < entries.len() {
                    let (k, mut v) = entries.remove(at);
                    deep_merge(&mut v, &more[i].1);
                    entries.insert(at, (k, v));
                    assert(entry_views(entries@) =~= before.update(
                        at as int,
                        (before[at as int].0, merged(before[at as int].1, more@[i as int].1@)),
                    ));
                } else {
                    let k = copy_node(&more[i].0);
                    let v = copy_node(&more[i].1);
                    entries.push((k, v));
                    assert(entry_views(entries@) =~= before.push(entry_views(more@)[i as int]));
                }
                i = i + 1;
            }
            *base = mapping_node(entries);
        },
        (_, other) => {
            *base = copy_node(other);
        },
    }
}

/// The items of a well-formed sequence are well formed.
pub proof fn lemma_items_well_formed(n: NodeView)
    requires
        n.well_formed(),
        n is Sequence,
    ensures
        forall|j: int|
            0 <= j < n->Sequence_0.len() ==> (#[trigger] n->Sequence_0[j]).well_formed(),
    decreases n,
{
    match n {
        NodeView::Sequence(items) => {
            assert forall|j: int| 0 <= j < items.len() implies (#[trigger] items[j]).well_formed() by {
            }
        },
        _ => {},
    }
}

proof fn lemma_item_not_well_formed(all: Seq<NodeView>, i: int)
    requires
        0 <= i < all.len(),
        !all[i].well_formed(),
    ensures
        !NodeView::Sequence(all).well_formed(),
{
    let n = NodeView::Sequence(all);
    if n.well_formed() {
        lemma_items_well_formed(n);
        assert(all[i].well_formed());
    }
}

proof fn lemma_entry_not_well_formed(all: Seq<(NodeView, NodeView)>, i: int)
    requires
        0 <= i < all.len(),
        !(all[i].0.well_formed() && all[i].1.well_formed()),
    ensures
        !NodeView::Mapping(all).well_formed(),
{
    let n = NodeView::Mapping(all);
    if n.well_formed() {
        lemma_with_entries(n, all);
        assert(entries_well_formed(all));
        assert(all[i].0.well_formed() && all[i].1.well_formed());
    }
}

/// What reading a text gives: the document, or the failure with the
/// parser's message.
pub open spec fn parsed(text: Seq<char>) -> Result<NodeView, FaultView> {
    match yaml_read(text) {
        Ok(doc) => Ok(doc),
        Err(message) => Err(
            FaultView { kind: FaultKind::YamlParse, detail: message, rolled_back: false },
        ),
    }
}

/// What writing a document gives: its text, or the failure. A document
/// with an empty tag cannot be written.
pub open spec fn rendered(doc: NodeView) -> Result<Seq<char>, FaultView> {
    if !doc.well_formed() {
        Err(FaultView { kind: FaultKind::YamlRender, detail: Seq::empty(), rolled_back: false })
    } else {
        match yaml_written(doc) {
            Ok(text) => Ok(text),
            Err(message) => Err(
                FaultView { kind: FaultKind::YamlRender, detail: message, rolled_back: false },
            ),
        }
    }
}

/// Reads a document from its text.
pub fn parse(text: &str) -> (r: Result<Node, Fault>)
    ensures
        match r {
            Ok(doc) => parsed(text@) == Ok::<NodeView, FaultView>(doc@) && doc@.well_formed(),
            Err(fault) => parsed(text@) == Err::<NodeView, FaultView>(fault@),
        },
{
    match read_yaml(text) {
        Ok(doc) => Ok(doc),
        Err(message) => Err(
            Fault { kind: FaultKind::YamlParse, detail: message, rolled_back: false },
        ),
    }
}

/// Writes a document as text.
pub fn render(doc: &Node) -> (r: Result<String, Fault>)
    ensures
        match r {
            Ok(text) => rendered(doc@) == Ok::<Seq<char>, FaultView>(text@),
            Err(fault) => rendered(doc@) == Err::<Seq<char>, FaultView>(fault@),
        },
{
    if !is_well_formed(doc) {
        return Err(
            Fault { kind: FaultKind::YamlRender, detail: String::new(), rolled_back: false },
        );
    }
    match write_yaml(doc) {
        Ok(text) => Ok(text),
        Err(message) => Err(
            Fault { kind: FaultKind::YamlRender, detail: message, rolled_back: false },
        ),
    }
}

/// Whether no tag in the value is empty.
#[verifier::loop_isolation(false)]
pub fn is_well_formed(n: &Node) -> (r: bool)
    ensures
        r == n@.well_formed(),
    decreases n,
{
    match n {
        Node::Tagged(t, inner) => !t.as_str().is_empty() && is_well_formed(inner),
        Node::Sequence(items) => {
            proof {
                lemma_sequence_view(*items);
            }
            let mut i: usize = 0;
            while i < items.len()
                invariant
                    i <= items.len(),
                    forall|j: int| 0 <= j < i ==> items@[j]@.well_formed(),
                decreases items.len() - i,
            {
                if !is_well_formed(&items[i]) {
                    proof {
                        let all = item_views(items@);
                        assert(n@ == NodeView::Sequence(all));
                        assert(all[i as int] == items@[i as int]@);
                        lemma_item_not_well_formed(all, i as int);
                    }
                    return false;
                }
                i = i + 1;
            }
            assert forall|j: int| 0 <= j < item_views(items@).len() implies (
            #[trigger] item_views(items@)[j]).well_formed() by {
                assert(item_views(items@)[j] == items@[j]@);
            }
            true
        },
        Node::Mapping(entries) => {
            proof {
                lemma_mapping_view(*entries);
            }
            let mut i: usize = 0;
            while i < entries.len()
                invariant
                    i <= entries.len(),
                    forall|j: int|
                        0 <= j < i ==> entries@[j].0@.well_formed() && entries@[j].1@.well_formed(),
                decreases entries.len() - i,
            {
                if !is_well_formed(&entries[i].0) || !is_well_formed(&entries[i].1) {
                    proof {
                        let all = entry_views(entries@);
                        assert(n@ == NodeView::Mapping(all));
                        assert(all[i as int].0 == entries@[i as int].0@);
                        assert(all[i as int].1 == entries@[i as int].1@);
                        lemma_entry_not_well_formed(all, i as int);
                    }
                    return false;
                }
                i = i + 1;
            }
            assert forall|j: int| 0 <= j < entry_views(entries@).len() implies (
            #[trigger] entry_views(entries@)[j]).0.well_formed() && entry_views(
                entries@,
            )[j].1.well_formed() by {
                assert(entry_views(entries@)[j].0 == entries@[j].0@);
            }
            true
        },
        _ => true,
    }
}

} // verus!
