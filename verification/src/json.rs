//! Parsing: the text is read by `serde_json`, and the tree that it hands over is matched
//! against the variants of the intermediate value.

use serde_json::Value;
use vstd::prelude::*;
use crate::error::SerialError;
use crate::value::{lemma_view_of_vec, Content, DeSerialResult, Record};

verus! {

/// `serde_json::Value`, the tree that the reader builds. Nothing of what it holds is seen
/// here but through [`value_tree`].
#[verifier::external_type_specification]
#[verifier::external_body]
pub struct ExJsonValue(serde_json::Value);

/// `serde_json::Error`, the reader's error. It is only told apart from a success.
#[verifier::external_type_specification]
#[verifier::external_body]
pub struct ExJsonError(serde_json::Error);

/// A JSON text as the reader hands it over, node for node.
#[derive(Debug)]
pub enum Json {
    Null,
    Bool(bool),
    /// A number: the integer that it is, where it is one that fits in 64 bits with a sign, and
    /// the float that stands for it, by the 64 bits of its IEEE 754 encoding.
    Number { integer: Option<i64>, float: Option<u64> },
    String(String),
    Array(Vec<Json>),
    /// The members of an object, each with its name.
    Object(Vec<(String, Json)>),
}

/// What a [`Json`] holds: its view.
pub enum Tree {
    Null,
    Bool(bool),
    Number { integer: Option<i64>, float: Option<u64> },
    Str(Seq<char>),
    Array(Seq<Tree>),
    Object(Seq<(Seq<char>, Tree)>),
}

impl View for Json {
    type V = Tree;

    open spec fn view(&self) -> Tree
        decreases self,
    {
        match self {
            Json::Null => Tree::Null,
            Json::Bool(b) => Tree::Bool(*b),
            Json::Number { integer, float } => Tree::Number { integer: *integer, float: *float },
            Json::String(s) => Tree::Str(s@),
            Json::Array(items) => Tree::Array(
                Seq::new(
                    items.len() as nat,
                    |i: int|
                        if 0 <= i < items.len() {
                            items[i]@
                        } else {
                            arbitrary()
                        },
                ),
            ),
            Json::Object(members) => Tree::Object(
                Seq::new(
                    members.len() as nat,
                    |i: int|
                        if 0 <= i < members.len() {
                            (members[i].0@, members[i].1@)
                        } else {
                            arbitrary()
                        },
                ),
            ),
        }
    }
}

/// An array holds the views of its items, in their order.
pub proof fn lemma_view_of_array(items: Vec<Json>)
    ensures
        Json::Array(items)@ == Tree::Array(items@.map_values(|j: Json| j@)),
{
    reveal_with_fuel(<Json as View>::view, 2);
    assert(Json::Array(items)@->Array_0 =~= items@.map_values(|j: Json| j@));
}

/// An object holds the names and the views of its members, in their order.
pub proof fn lemma_view_of_object(members: Vec<(String, Json)>)
    ensures
        Json::Object(members)@ == Tree::Object(
            members@.map_values(|m: (String, Json)| (m.0@, m.1@)),
        ),
{
    reveal_with_fuel(<Json as View>::view, 2);
    assert(Json::Object(members)@->Object_0 =~= members@.map_values(
        |m: (String, Json)| (m.0@, m.1@),
    ));
}

/// What `serde_json::from_str` makes of a text: the tree that it reads, or `None` where it
/// reports an error.
pub uninterp spec fn json_tree(text: Seq<char>) -> Option<Tree>;

/// What a `serde_json::Value` holds, node for node. A number is held by what
/// `serde_json::Number::as_i64` and `as_f64` give for it, the float as its bits; the members of
/// an object stand in the order in which its `serde_json::Map` hands them out.
pub uninterp spec fn value_tree(v: serde_json::Value) -> Tree;

/// Calls `serde_json::from_str` for a `serde_json::Value`. The contract is not proved. It
/// claims that what is read depends on the text alone, and names it; it claims nothing of which
/// texts are read as what.
#[verifier::external_body]
fn read_json(text: &str) -> (r: Result<serde_json::Value, serde_json::Error>)
    ensures
        match r {
            Ok(v) => json_tree(text@) == Some(value_tree(v)),
            Err(_) => json_tree(text@) is None,
        },
{
    serde_json::from_str::<serde_json::Value>(text)
}

/// Turns a `serde_json::Value` into the [`Json`] that holds the same, node for node: it takes
/// the variants of the value apart, asks `serde_json::Number::as_i64` and `as_f64` for a number,
/// and walks an array and the `serde_json::Map` of an object in their order. The contract is
/// not proved. It claims that the result depends on the value alone, and names what it holds.
#[verifier::external_body]
fn json_of_value(v: serde_json::Value) -> (r: Json)
    ensures
        r@ == value_tree(v),
{
    match v {
        Value::Null => Json::Null,
        Value::Bool(b) => Json::Bool(b),
        Value::Number(n) => Json::Number {
            integer: n.as_i64(),
            float: n.as_f64().map(|x| x.to_bits()),
        },
        Value::String(s) => Json::String(s),
        Value::Array(a) => Json::Array(a.into_iter().map(json_of_value).collect()),
        Value::Object(m) => Json::Object(
            m.into_iter().map(|(k, v)| (k, json_of_value(v))).collect(),
        ),
    }
}

/// The record that holds each of `fields` under its name. Of two fields of one name, the
/// later one stays.
pub open spec fn record_of(fields: Seq<(Seq<char>, Content)>) -> Map<Seq<char>, Content>
    decreases fields.len(),
{
    if fields.len() == 0 {
        Map::empty()
    } else {
        record_of(fields.drop_last()).insert(fields.last().0, fields.last().1)
    }
}

/// The intermediate value that a tree stands for, or `None` where it stands for none.
///
/// The variants are tried in their order. A boolean is a `Bool`. A number is an `Int` where it
/// is an integer that fits, else a `Float`. A string is a `String`. An array is a `Vec` of what
/// its items stand for, and an object a `Struct` of what its members stand for: both only
/// where each of them stands for a value. Null stands for none.
pub open spec fn populated(tree: Tree) -> Option<Content>
    decreases tree,
{
    match tree {
        Tree::Null => None,
        Tree::Bool(b) => Some(Content::Bool(b)),
        Tree::Number { integer: Some(i), float } => Some(Content::Int(i as int)),
        Tree::Number { integer: None, float: Some(bits) } => Some(Content::Float(bits)),
        Tree::Number { integer: None, float: None } => None,
        Tree::Str(s) => Some(Content::Str(s)),
        Tree::Array(items) => if forall|i: int|
            0 <= i < items.len() ==> populated(#[trigger] items[i]) is Some {
            Some(
                Content::List(
                    Seq::new(
                        items.len(),
                        |i: int|
                            if 0 <= i < items.len() {
                                populated(items[i])->0
                            } else {
                                arbitrary()
                            },
                    ),
                ),
            )
        } else {
            None
        },
        Tree::Object(members) => match populated_members(members) {
            Some(fields) => Some(Content::Record(record_of(fields))),
            None => None,
        },
    }
}

/// What the members of an object stand for, each with its name and in their order, or `None`
/// where one of them stands for no value.
pub open spec fn populated_members(members: Seq<(Seq<char>, Tree)>) -> Option<
    Seq<(Seq<char>, Content)>,
>
    decreases members,
{
    if forall|i: int| 0 <= i < members.len() ==> populated((#[trigger] members[i]).1) is Some {
        Some(
            Seq::new(
                members.len(),
                |i: int|
                    if 0 <= i < members.len() {
                        (members[i].0, populated(members[i].1)->0)
                    } else {
                        arbitrary()
                    },
            ),
        )
    } else {
        None
    }
}

/// Matches a tree against the variants of the intermediate value.
pub fn populate(tree: Json) -> (r: Result<DeSerialResult, SerialError>)
    ensures
        match r {
            Ok(d) => populated(tree@) == Some(d@),
            Err(e) => populated(tree@) is None && e@ is Parse,
        },
    decreases tree,
{
    match tree {
        Json::Null => Err(SerialError::Parse),
        Json::Bool(b) => Ok(DeSerialResult::Bool(b)),
        Json::Number { integer: Some(i), float: _ } => Ok(DeSerialResult::Int(i)),
        Json::Number { integer: None, float: Some(bits) } => Ok(DeSerialResult::Float(bits)),
        Json::Number { integer: None, float: None } => Err(SerialError::Parse),
        Json::String(s) => Ok(DeSerialResult::String(s)),
        Json::Array(items) => {
            let ghost trees = items@.map_values(|j: Json| j@);
            proof {
                lemma_view_of_array(items);
                reveal_with_fuel(populated, 2);
            }
            let mut out: Vec<DeSerialResult> = Vec::new();
            for item in it: items
                invariant
                    it.seq() == items@,
                    trees == items@.map_values(|j: Json| j@),
                    tree == Json::Array(items),
                    tree@ == Tree::Array(trees),
                    out.len() == it.index(),
                    forall|i: int|
                        0 <= i < out.len() ==> populated(#[trigger] trees[i]) == Some(out[i]@),
            {
                match populate(item) {
                    Ok(d) => {
                        out.push(d);
                    },
                    Err(e) => {
                        proof {
                            reveal_with_fuel(populated, 2);
                            assert(populated(trees[it.index() as int]) is None);
                        }
                        return Err(e);
                    },
                }
            }
            proof {
                lemma_view_of_vec(out);
                reveal_with_fuel(populated, 2);
                assert(populated(tree@)->0->List_0 =~= out@.map_values(|d: DeSerialResult| d@));
            }
            Ok(DeSerialResult::Vec(out))
        },
        Json::Object(members) => {
            let ghost trees = members@.map_values(|m: (String, Json)| (m.0@, m.1@));
            let ghost fields = Seq::new(
                trees.len(),
                |i: int|
                    if 0 <= i < trees.len() {
                        (trees[i].0, populated(trees[i].1)->0)
                    } else {
                        arbitrary()
                    },
            );
            proof {
                lemma_view_of_object(members);
            }
            let mut record = Record::new();
            for member in it: members
                invariant
                    it.seq() == members@,
                    trees == members@.map_values(|m: (String, Json)| (m.0@, m.1@)),
                    tree == Json::Object(members),
                    tree@ == Tree::Object(trees),
                    fields == Seq::new(
                        trees.len(),
                        |i: int|
                            if 0 <= i < trees.len() {
                                (trees[i].0, populated(trees[i].1)->0)
                            } else {
                                arbitrary()
                            },
                    ),
                    forall|i: int|
                        0 <= i < it.index() ==> populated((#[trigger] trees[i]).1) is Some,
                    record@ == record_of(fields.take(it.index() as int)),
            {
                let ghost n = it.index() as int;
                let (name, value) = member;
                match populate(value) {
                    Ok(d) => {
                        proof {
                            assert(fields.take(n + 1).drop_last() == fields.take(n));
                        }
                        record.insert(name, d);
                    },
                    Err(e) => {
                        proof {
                            reveal_with_fuel(populated, 2);
                            assert(populated(trees[n].1) is None);
                        }
                        return Err(e);
                    },
                }
            }
            proof {
                reveal_with_fuel(populated, 2);
                assert(fields.take(fields.len() as int) == fields);
                assert(populated_members(trees)->0 =~= fields);
            }
            Ok(DeSerialResult::Struct(record))
        },
    }
}

/// The intermediate value that a text stands for, or `None` where it is not parsed.
pub open spec fn deserialized(text: Seq<char>) -> Option<Content> {
    match json_tree(text) {
        Some(tree) => populated(tree),
        None => None,
    }
}

/// Parses a text into an intermediate value.
pub fn deserialize(serial: &str) -> (r: Result<DeSerialResult, SerialError>)
    ensures
        match r {
            Ok(d) => deserialized(serial@) == Some(d@),
            Err(e) => deserialized(serial@) is None && e@ is Parse,
        },
{
    match read_json(serial) {
        Ok(v) => populate(json_of_value(v)),
        Err(_) => Err(SerialError::Parse),
    }
}

} // verus!
