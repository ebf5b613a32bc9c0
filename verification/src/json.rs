//! JSON, through `serde_json`: reading what the player reports, writing what it is told.

use crate::lists;
use crate::text;
use vstd::prelude::*;

verus! {

/// A JSON document, as `serde_json` holds it.
#[verifier::external_type_specification]
#[verifier::external_body]
pub struct ExValue(serde_json::Value);

/// Why `serde_json` could not read or write a document.
#[verifier::external_type_specification]
#[verifier::external_body]
pub struct ExError(serde_json::Error);

/// What stands at one place of a document. A number is given as whole seconds: cut off
/// towards zero, and zero where it is negative. An array is given by its length.
#[derive(Debug)]
pub enum Node {
    Null,
    Bool(bool),
    Number(Option<u64>),
    Text(String),
    Array(usize),
    Object,
}

/// A `Node`, with its text as characters.
pub enum NodeView {
    Null,
    Bool(bool),
    Number(Option<u64>),
    Text(Seq<char>),
    Array(nat),
    Object,
}

impl View for Node {
    type V = NodeView;

    open spec fn view(&self) -> NodeView {
        match self {
            Node::Null => NodeView::Null,
            Node::Bool(b) => NodeView::Bool(*b),
            Node::Number(n) => NodeView::Number(*n),
            Node::Text(s) => NodeView::Text(s@),
            Node::Array(n) => NodeView::Array(*n as nat),
            Node::Object => NodeView::Object,
        }
    }
}

/// An optional `Node`, with its text as characters.
pub open spec fn opt_node(o: Option<Node>) -> Option<NodeView> {
    match o {
        Some(n) => Some(n@),
        None => None,
    }
}

/// What a document holds: what stands at each of its places, a place being named by its
/// JSON pointer.
pub uninterp spec fn nodes(document: serde_json::Value) -> Map<Seq<char>, NodeView>;

/// What the document that a text spells holds; `None` where it spells none.
pub uninterp spec fn parsed(line: Seq<char>) -> Option<Map<Seq<char>, NodeView>>;

/// Calls `serde_json::from_str`: reads a document, and fails where the text spells none.
#[verifier::external_body]
pub(crate) fn parse(line: &str) -> (r: Result<serde_json::Value, serde_json::Error>)
    ensures
        match r {
            Ok(document) => parsed(line@) == Some(nodes(document)),
            Err(_) => parsed(line@) is None,
        },
{
    serde_json::from_str::<serde_json::Value>(line)
}

/// Calls `serde_json::Value::pointer`: looks up a place of a document.
#[verifier::external_body]
pub(crate) fn node_at(document: &serde_json::Value, pointer: &str) -> (r: Option<Node>)
    ensures
        opt_node(r) == nodes(*document).get(pointer@),
{
    document.pointer(pointer).map(|v| match v {
        serde_json::Value::Null => Node::Null,
        serde_json::Value::Bool(b) => Node::Bool(*b),
        serde_json::Value::Number(n) => Node::Number(n.as_f64().map(|x| x as u64)),
        serde_json::Value::String(s) => Node::Text(s.clone()),
        serde_json::Value::Array(a) => Node::Array(a.len()),
        serde_json::Value::Object(_) => Node::Object,
    })
}

/// A word of a command.
#[derive(Debug)]
pub enum Arg {
    Text(String),
    Int(i64),
    Flag(bool),
    List(Vec<String>),
}

/// An `Arg`, with its texts as characters.
pub enum ArgView {
    Text(Seq<char>),
    Int(i64),
    Flag(bool),
    List(Seq<Seq<char>>),
}

impl View for Arg {
    type V = ArgView;

    open spec fn view(&self) -> ArgView {
        match self {
            Arg::Text(s) => ArgView::Text(s@),
            Arg::Int(i) => ArgView::Int(*i),
            Arg::Flag(b) => ArgView::Flag(*b),
            Arg::List(l) => ArgView::List(text::texts(l@)),
        }
    }
}

/// The bytes of the object with an array under one key and a number under another; `None`
/// where it cannot be written.
pub uninterp spec fn written(
    list_key: Seq<char>,
    list: Seq<ArgView>,
    number_key: Seq<char>,
    number: u64,
) -> Option<Seq<u8>>;

/// Calls `serde_json::to_vec` on an object with an array under one key and a number under
/// another. The compact form has no line feed in it: between the values there is no white
/// space, and inside a text a line feed is escaped.
#[verifier::external_body]
pub(crate) fn write_object(
    list_key: &str,
    list: &Vec<Arg>,
    number_key: &str,
    number: u64,
) -> (r: Result<Vec<u8>, serde_json::Error>)
    ensures
        match r {
            Ok(bytes) => written(list_key@, lists::views(list@), number_key@, number) == Some(bytes@)
                && !bytes@.contains(10u8),
            Err(_) => written(list_key@, lists::views(list@), number_key@, number) is None,
        },
{
    let mut object = serde_json::Map::new();
    let values = list.iter().map(|a| match a {
        Arg::Text(s) => serde_json::Value::from(s.as_str()),
        Arg::Int(i) => serde_json::Value::from(*i),
        Arg::Flag(b) => serde_json::Value::from(*b),
        Arg::List(l) => serde_json::Value::from(l.clone()),
    });
    object.insert(list_key.to_owned(), serde_json::Value::Array(values.collect()));
    object.insert(number_key.to_owned(), serde_json::Value::from(number));
    serde_json::to_vec(&serde_json::Value::Object(object))
}

} // verus!
