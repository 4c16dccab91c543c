//! The plain model of a parsed markup document: every node of the document in
//! document order, each with its tag name, its attributes, and its depth in
//! the tree. Logic over the catalog works on this model; the markup grammar
//! itself is the parser crate's concern.

use vstd::prelude::*;
use crate::strutil::{lookup, lookup_in, pairs_model};

verus! {

/// One node of a parsed document. `depth` is the length of the node's chain
/// of ancestors including the node itself, so a node's subtree is exactly the
/// run of following nodes with a strictly greater depth.
#[derive(Debug, Clone)]
pub struct MarkupNode {
    /// Tag name; empty for non-element nodes (text, comments).
    pub tag: String,
    /// Attribute names and values in document order.
    pub attrs: Vec<(String, String)>,
    pub depth: usize,
}

/// The mathematical value of a [`MarkupNode`].
pub struct NodeModel {
    pub tag: Seq<char>,
    pub attrs: Seq<(Seq<char>, Seq<char>)>,
    pub depth: nat,
}

impl View for MarkupNode {
    type V = NodeModel;

    open spec fn view(&self) -> NodeModel {
        NodeModel { tag: self.tag@, attrs: pairs_model(self.attrs@), depth: self.depth as nat }
    }
}

/// The views of a node sequence.
pub open spec fn nodes_model(nodes: Seq<MarkupNode>) -> Seq<NodeModel> {
    Seq::new(nodes.len(), |i: int| nodes[i]@)
}

/// The document-order node list that parsing a markup text yields, or `None`
/// when the text is not well-formed markup. Parsing depends on the text
/// alone; what this function's values are on a given text is stated nowhere,
/// so nothing is assumed of the parser beyond determinism.
pub uninterp spec fn markup_of(text: Seq<char>) -> Option<Seq<NodeModel>>;

/// Relies on `roxmltree::Document::parse` and the accessors
/// `Document::root`, `Node::descendants`, `Node::tag_name`, `ExpandedName::name`,
/// `Node::attributes`, `Attribute::name`, `Attribute::value` and
/// `Node::ancestors`: parsing a well-formed document yields every node in
/// document order; a node's tag name is empty when it is not an element; its
/// attributes come in document order; its ancestor chain, counted including
/// the node itself, is its depth. Malformed markup makes `parse` fail.
#[verifier::external_body]
pub fn parse_markup(text: &str) -> (r: Option<Vec<MarkupNode>>)
    ensures
        match r {
            Some(nodes) => markup_of(text@) == Some(nodes_model(nodes@)),
            None => markup_of(text@) is None,
        },
{
    let doc = match roxmltree::Document::parse(text) {
        Ok(d) => d,
        Err(_) => return None,
    };
    Some(doc.root().descendants().map(|n| MarkupNode {
        tag: n.tag_name().name().to_string(),
        attrs: n.attributes().map(|a| (a.name().to_string(), a.value().to_string())).collect(),
        depth: n.ancestors().count(),
    }).collect())
}

/// The value of a node's first attribute named `name`, if any.
pub open spec fn attr_of(n: NodeModel, name: Seq<char>) -> Option<Seq<char>> {
    lookup_in(n.attrs, name)
}

/// Finds the value of the node's first attribute named `name`.
pub fn find_attr(node: &MarkupNode, name: &str) -> (r: Option<String>)
    ensures
        match r {
            Some(v) => attr_of(node@, name@) == Some(v@),
            None => attr_of(node@, name@) is None,
        },
{
    lookup(&node.attrs, name)
}

} // verus!
