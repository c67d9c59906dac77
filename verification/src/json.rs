//! JSON texts, read and written by `serde_json`. A text that is read is
//! held as the same tree of plain values as a YAML document; what is written
//! is first made a JSON value, whose keys are texts and which has no tags.

use crate::yaml::{lemma_mapping_view, lemma_sequence_view, Node, NodeView};
use serde_json::Value as Json;
use vstd::prelude::*;

verus! {

#[verifier::external_type_specification]
#[verifier::external_body]
pub struct ExJsonValue(Json);

/// A JSON value to write. A number is held as the text that writes it; an
/// object keeps its members in order.
#[derive(Debug)]
pub enum JsonDoc {
    Null,
    Bool(bool),
    Number(String),
    Text(String),
    Array(Vec<JsonDoc>),
    Object(Vec<(String, JsonDoc)>),
}

/// The mathematical value of a `JsonDoc`.
pub enum JsonView {
    Null,
    Bool(bool),
    Number(Seq<char>),
    Text(Seq<char>),
    Array(Seq<JsonView>),
    Object(Seq<(Seq<char>, JsonView)>),
}

impl JsonDoc {
    pub open spec fn model(self) -> JsonView
        decreases self,
    {
        match self {
            JsonDoc::Null => JsonView::Null,
            JsonDoc::Bool(b) => JsonView::Bool(b),
            JsonDoc::Number(s) => JsonView::Number(s@),
            JsonDoc::Text(s) => JsonView::Text(s@),
            JsonDoc::Array(items) => JsonView::Array(
                Seq::new(
                    items@.len(),
                    |i: int|
                        if 0 <= i < items@.len() {
                            items@[i].model()
                        } else {
                            JsonView::Null
                        },
                ),
            ),
            JsonDoc::Object(members) => JsonView::Object(
                Seq::new(
                    members@.len(),
                    |i: int|
                        if 0 <= i < members@.len() {
                            (members@[i].0@, members@[i].1.model())
                        } else {
                            (Seq::empty(), JsonView::Null)
                        },
                ),
            ),
        }
    }
}

impl View for JsonDoc {
    type V = JsonView;

    open spec fn view(&self) -> JsonView {
        self.model()
    }
}

/// The views of an array's items.
pub open spec fn element_views(items: Seq<JsonDoc>) -> Seq<JsonView> {
    Seq::new(items.len(), |i: int| items[i]@)
}

/// The views of an object's members.
pub open spec fn member_views(members: Seq<(String, JsonDoc)>) -> Seq<(Seq<char>, JsonView)> {
    Seq::new(members.len(), |i: int| (members[i].0@, members[i].1@))
}

pub proof fn lemma_array_view(items: Vec<JsonDoc>)
    ensures
        JsonDoc::Array(items)@ == JsonView::Array(element_views(items@)),
{
    assert(JsonDoc::Array(items).model()->Array_0 =~= element_views(items@));
}

pub proof fn lemma_object_view(members: Vec<(String, JsonDoc)>)
    ensures
        JsonDoc::Object(members)@ == JsonView::Object(member_views(members@)),
{
    assert(JsonDoc::Object(members).model()->Object_0 =~= member_views(members@));
}

/// What `serde_json::from_str` makes of a text: the value it holds, or the
/// parser's message.
pub uninterp spec fn json_read(text: Seq<char>) -> Result<NodeView, Seq<char>>;

/// What `serde_json::to_string_pretty` writes for a value, or the
/// serialiser's message.
pub uninterp spec fn json_written(doc: JsonView) -> Result<Seq<char>, Seq<char>>;

/// The text that stands for a key of an object: the text itself, and the
/// empty text for a key that is no text.
pub open spec fn key_text(key: NodeView) -> Seq<char> {
    match key {
        NodeView::Text(s) => s,
        _ => Seq::empty(),
    }
}

/// The JSON value that stands for a document. JSON has no tags, so a tagged
/// value stands for what it tags; the keys of an object are texts, so a key
/// that is no text becomes the empty text.
pub open spec fn plain_json(n: NodeView) -> JsonView
    decreases n,
{
    match n {
        NodeView::Null => JsonView::Null,
        NodeView::Bool(b) => JsonView::Bool(b),
        NodeView::Number(s) => JsonView::Number(s),
        NodeView::Text(s) => JsonView::Text(s),
        NodeView::Sequence(items) => JsonView::Array(
            Seq::new(
                items.len(),
                |i: int|
                    if 0 <= i < items.len() {
                        plain_json(items[i])
                    } else {
                        JsonView::Null
                    },
            ),
        ),
        NodeView::Mapping(entries) => JsonView::Object(
            Seq::new(
                entries.len(),
                |i: int|
                    if 0 <= i < entries.len() {
                        (key_text(entries[i].0), plain_json(entries[i].1))
                    } else {
                        (Seq::empty(), JsonView::Null)
                    },
            ),
        ),
        NodeView::Tagged(_, inner) => plain_json(*inner),
    }
}

/// The text that stands for a key of an object.
pub fn key_of(key: &Node) -> (r: String)
    ensures
        r@ == key_text(key@),
{
    match key {
        Node::Text(s) => s.clone(),
        _ => String::new(),
    }
}

/// The JSON value that stands for a document.
#[verifier::loop_isolation(false)]
pub fn json_doc(n: &Node) -> (r: JsonDoc)
    ensures
        r@ == plain_json(n@),
    decreases n,
{
    match n {
        Node::Null => JsonDoc::Null,
        Node::Bool(b) => JsonDoc::Bool(*b),
        Node::Number(s) => JsonDoc::Number(s.clone()),
        Node::Text(s) => JsonDoc::Text(s.clone()),
        Node::Sequence(items) => {
            let mut out: Vec<JsonDoc> = Vec::new();
            let mut i: usize = 0;
            while i < items.len()
                invariant
                    i <= items.len(),
                    out.len() == i,
                    forall|j: int| 0 <= j < i ==> out@[j]@ == plain_json(items@[j]@),
                decreases items.len() - i,
            {
                out.push(json_doc(&items[i]));
                i = i + 1;
            }
            proof {
                lemma_array_view(out);
                lemma_sequence_view(*items);
                assert(element_views(out@) =~= plain_json(n@)->Array_0);
            }
            JsonDoc::Array(out)
        },
        Node::Mapping(entries) => {
            let mut out: Vec<(String, JsonDoc)> = Vec::new();
            let mut i: usize = 0;
            while i < entries.len()
                invariant
                    i <= entries.len(),
                    out.len() == i,
                    forall|j: int|
                        0 <= j < i ==> out@[j].0@ == key_text(entries@[j].0@) && out@[j].1@
                            == plain_json(entries@[j].1@),
                decreases entries.len() - i,
            {
                let k = key_of(&entries[i].0);
                let v = json_doc(&entries[i].1);
                out.push((k, v));
                i = i + 1;
            }
            proof {
                lemma_object_view(out);
                lemma_mapping_view(*entries);
                assert(member_views(out@) =~= plain_json(n@)->Object_0);
            }
            JsonDoc::Object(out)
        },
        Node::Tagged(_, inner) => json_doc(inner),
    }
}

/// `serde_json::from_str` at `serde_json::Value`, the value handed over as
/// a `Node`. The contract names the result and adds that no tag of a parsed
/// value is empty: JSON has no tags, so a parsed value holds none.
#[verifier::external_body]
pub(crate) fn read_json(text: &str) -> (r: Result<Node, String>)
    ensures
        crate::yaml::read_view(r) == json_read(text@),
        r matches Ok(n) ==> n@.well_formed(),
{
    match serde_json::from_str::<Json>(text) {
        Ok(v) => Ok(node_of_json(v)),
        Err(e) => Err(e.to_string()),
    }
}

/// `serde_json::to_string_pretty` on the `serde_json::Value` that holds
/// what `doc` holds. The contract names the result.
#[verifier::external_body]
pub(crate) fn write_json(doc: &JsonDoc) -> (r: Result<String, String>)
    ensures
        crate::yaml::written_view(r) == json_written(doc@),
{
    match serde_json::to_string_pretty(&json_of(doc)) {
        Ok(s) => Ok(s),
        Err(e) => Err(e.to_string()),
    }
}

/// Moves a `serde_json::Value` into a `Node`, variant by variant; a number
/// is kept as `Number`'s own text.
#[verifier::external_body]
fn node_of_json(v: Json) -> Node {
    match v {
        Json::Null => Node::Null,
        Json::Bool(b) => Node::Bool(b),
        Json::Number(n) => Node::Number(n.to_string()),
        Json::String(s) => Node::Text(s),
        Json::Array(xs) => Node::Sequence(xs.into_iter().map(node_of_json).collect()),
        Json::Object(m) => Node::Mapping(m.into_iter().map(|(k, v)| (Node::Text(k), node_of_json(v))).collect()),
    }
}

/// Copies a `JsonDoc` into a `serde_json::Value`, variant by variant; a
/// number is read back from its text by `serde_json`, and a text that it
/// refuses stays a text.
#[verifier::external_body]
fn json_of(d: &JsonDoc) -> Json {
    match d {
        JsonDoc::Null => Json::Null,
        JsonDoc::Bool(b) => Json::Bool(*b),
        JsonDoc::Number(s) => serde_json::from_str(s).map_or(Json::String(s.clone()), Json::Number),
        JsonDoc::Text(s) => Json::String(s.clone()),
        JsonDoc::Array(xs) => Json::Array(xs.iter().map(json_of).collect()),
        JsonDoc::Object(m) => Json::Object(m.iter().map(|(k, v)| (k.clone(), json_of(v))).collect()),
    }
}

} // verus!
