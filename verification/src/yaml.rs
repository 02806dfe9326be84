//! YAML documents as trees of plain values, written and read by `serde_yaml`.

use vstd::prelude::*;

verus! {

/// A YAML value, as far as entry headers use it.
#[derive(Debug)]
pub enum YamlNode {
    /// The null value.
    Null,
    /// A string.
    Text(String),
    /// A sequence.
    List(Vec<YamlNode>),
    /// A mapping, in document order.
    Record(Vec<(YamlNode, YamlNode)>),
    /// A boolean, a number or a tagged value: nothing a header field accepts.
    Other,
}

/// The mathematical value of a [`YamlNode`].
pub enum YamlTree {
    Null,
    Text(Seq<char>),
    List(Seq<YamlTree>),
    Record(Seq<(YamlTree, YamlTree)>),
    Other,
}

impl View for YamlNode {
    type V = YamlTree;

    open spec fn view(&self) -> YamlTree
        decreases self,
    {
        match self {
            YamlNode::Null => YamlTree::Null,
            YamlNode::Text(s) => YamlTree::Text(s@),
            YamlNode::List(items) => YamlTree::List(nodes_view(*items)),
            YamlNode::Record(pairs) => YamlTree::Record(pairs_view(*pairs)),
            YamlNode::Other => YamlTree::Other,
        }
    }
}

/// The trees of a vector of nodes.
pub open spec fn nodes_view(items: Vec<YamlNode>) -> Seq<YamlTree>
    decreases items,
{
    Seq::new(
        items.len() as nat,
        |i: int|
            if 0 <= i < items.len() {
                items[i].view()
            } else {
                YamlTree::Null
            },
    )
}

/// The trees of a vector of pairs of a key and a value.
pub open spec fn pairs_view(pairs: Vec<(YamlNode, YamlNode)>) -> Seq<(YamlTree, YamlTree)>
    decreases pairs,
{
    Seq::new(
        pairs.len() as nat,
        |i: int|
            if 0 <= i < pairs.len() {
                (pairs[i].0.view(), pairs[i].1.view())
            } else {
                (YamlTree::Null, YamlTree::Null)
            },
    )
}

/// The text that `serde_yaml` writes for a tree, or its error message.
pub uninterp spec fn emitted_yaml(tree: YamlTree) -> Result<Seq<char>, Seq<char>>;

/// The tree that `serde_yaml` reads from a text, or its error message.
pub uninterp spec fn parsed_yaml(text: Seq<char>) -> Result<YamlTree, Seq<char>>;

/// `serde_yaml::Value`: what the two conversions below hand to the writer
/// and take from the reader. Nothing is known of what is inside.
#[verifier::external_type_specification]
#[verifier::external_body]
pub struct ExYamlValue(serde_yaml::Value);

/// The `serde_yaml::Value` with the shape of `node`: strings, sequences and
/// mappings one for one; `Other` has no counterpart and becomes null.
#[verifier::external_body]
fn value_of_node(node: &YamlNode) -> serde_yaml::Value {
    match node {
        YamlNode::Null => serde_yaml::Value::Null,
        YamlNode::Text(s) => serde_yaml::Value::String(s.clone()),
        YamlNode::List(v) => serde_yaml::Value::Sequence(v.iter().map(value_of_node).collect()),
        YamlNode::Record(p) => serde_yaml::Value::Mapping(
            p.iter().map(|kv| (value_of_node(&kv.0), value_of_node(&kv.1))).collect(),
        ),
        YamlNode::Other => serde_yaml::Value::Null,
    }
}

/// The node with the shape of a `serde_yaml::Value`, one variant for each.
#[verifier::external_body]
fn node_of_value(value: &serde_yaml::Value) -> YamlNode {
    match value {
        serde_yaml::Value::Null => YamlNode::Null,
        serde_yaml::Value::Bool(_) => YamlNode::Other,
        serde_yaml::Value::Number(_) => YamlNode::Other,
        serde_yaml::Value::String(s) => YamlNode::Text(s.clone()),
        serde_yaml::Value::Sequence(v) => YamlNode::List(v.iter().map(node_of_value).collect()),
        serde_yaml::Value::Mapping(m) => YamlNode::Record(
            m.iter().map(|kv| (node_of_value(kv.0), node_of_value(kv.1))).collect(),
        ),
        serde_yaml::Value::Tagged(_) => YamlNode::Other,
    }
}

/// `serde_yaml::to_string` on the value with the shape of `node`: the text, or
/// the message of the error, both functions of the tree alone.
#[verifier::external_body]
fn yaml_to_string(node: &YamlNode) -> (r: Result<String, String>)
    ensures
        text_result(r) == emitted_yaml(node@),
{
    match serde_yaml::to_string(&value_of_node(node)) {
        Ok(text) => Ok(text),
        Err(e) => Err(e.to_string()),
    }
}

/// `serde_yaml::from_str` for a `Value`: the tree with the shape of what was
/// read, or the message of the error, both functions of the text alone.
#[verifier::external_body]
fn yaml_from_str(text: &str) -> (r: Result<YamlNode, String>)
    ensures
        tree_result(r) == parsed_yaml(text@),
{
    match serde_yaml::from_str::<serde_yaml::Value>(text) {
        Ok(value) => Ok(node_of_value(&value)),
        Err(e) => Err(e.to_string()),
    }
}

/// A result of text, by its views.
pub open spec fn text_result(r: Result<String, String>) -> Result<Seq<char>, Seq<char>> {
    match r {
        Ok(s) => Ok(s@),
        Err(e) => Err(e@),
    }
}

/// A result of a node, by its views.
pub open spec fn tree_result(r: Result<YamlNode, String>) -> Result<YamlTree, Seq<char>> {
    match r {
        Ok(n) => Ok(n@),
        Err(e) => Err(e@),
    }
}

/// Writes a tree as YAML text.
pub fn emit(node: &YamlNode) -> (r: Result<String, String>)
    ensures
        text_result(r) == emitted_yaml(node@),
{
    yaml_to_string(node)
}

/// Reads YAML text as a tree.
pub fn parse(text: &str) -> (r: Result<YamlNode, String>)
    ensures
        tree_result(r) == parsed_yaml(text@),
{
    yaml_from_str(text)
}

} // verus!
