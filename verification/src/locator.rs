//! Resolution of a cursor position to the node context the classifier
//! reads.
//!
//! The syntax tree and its nodes belong to the external parser and stay
//! opaque here: each navigational query goes through a trusted wrapper,
//! and what the wrappers hand back is converted at once into the plain
//! values of [`NodeContext`]. Absence of a covering node is a normal
//! outcome, not an error.

use vstd::prelude::*;
use crate::syntax::{probe_range, NodeContext, ProbePoint, SyntaxKind};

verus! {

#[verifier::external_type_specification]
#[verifier::external_body]
pub struct ExTree(tree_sitter::Tree);

#[verifier::external_type_specification]
#[verifier::external_body]
pub struct ExNode<'tree>(tree_sitter::Node<'tree>);

/// Relies on tree_sitter::Tree::root_node: hands back the root node of
/// the tree.
#[verifier::external_body]
fn root_node<'t>(tree: &'t tree_sitter::Tree) -> tree_sitter::Node<'t> {
    tree.root_node()
}

/// Relies on tree_sitter::Node::named_descendant_for_point_range: the
/// smallest named node within this node that spans the given point range,
/// if any.
#[verifier::external_body]
fn named_descendant<'t>(
    node: &tree_sitter::Node<'t>,
    start: ProbePoint,
    end: ProbePoint,
) -> Option<tree_sitter::Node<'t>> {
    node.named_descendant_for_point_range(
        tree_sitter::Point { row: start.row as usize, column: start.column as usize },
        tree_sitter::Point { row: end.row as usize, column: end.column as usize },
    )
}

/// Relies on tree_sitter::Node::kind: the node's grammar kind tag.
#[verifier::external_body]
fn node_kind<'t>(node: &tree_sitter::Node<'t>) -> &'t str {
    node.kind()
}

/// Relies on tree_sitter::Node::parent: the node's immediate parent, if
/// any.
#[verifier::external_body]
fn node_parent<'t>(node: &tree_sitter::Node<'t>) -> Option<tree_sitter::Node<'t>> {
    node.parent()
}

/// Relies on tree_sitter::Node::prev_sibling: the node's previous
/// sibling, if any.
#[verifier::external_body]
fn node_prev_sibling<'t>(node: &tree_sitter::Node<'t>) -> Option<tree_sitter::Node<'t>> {
    node.prev_sibling()
}

/// Relies on tree_sitter::Node::prev_named_sibling: the node's previous
/// named sibling, if any.
#[verifier::external_body]
fn node_prev_named_sibling<'t>(node: &tree_sitter::Node<'t>) -> Option<tree_sitter::Node<'t>> {
    node.prev_named_sibling()
}

/// Relies on tree_sitter::Node::utf8_text: the slice of the source text
/// the node's byte range covers, or empty where that range is not valid
/// UTF-8 of the given source. The node must come from a tree parsed from
/// this very text — the snapshot hands over tree and text of one document
/// revision — for the slice by the node's byte range panics on a shorter
/// source; only the UTF-8 error is caught.
#[verifier::external_body]
fn node_text<'t>(node: &tree_sitter::Node<'t>, content: &str) -> String {
    node.utf8_text(content.as_bytes()).unwrap_or("").to_string()
}

/// The kind tag of an optional node, mapped to the classifier's kinds.
fn optional_kind<'t>(node: &Option<tree_sitter::Node<'t>>) -> Option<SyntaxKind> {
    match node {
        Option::None => Option::None,
        Option::Some(n) => Option::Some(SyntaxKind::from_name(node_kind(n))),
    }
}

/// Resolves a cursor position to the innermost named node covering the
/// probe range and reads its surroundings into plain values. `None` —
/// an empty document, a position outside every node — makes the whole
/// request resolve to "no completion".
pub fn locate(tree: &tree_sitter::Tree, content: &str, line: u32, character: u32) -> Option<
    NodeContext,
> {
    let (start, end) = probe_range(line, character);
    let root = root_node(tree);
    match named_descendant(&root, start, end) {
        Option::None => Option::None,
        Option::Some(node) => {
            let parent = node_parent(&node);
            let grandparent = match &parent {
                Option::None => Option::None,
                Option::Some(p) => node_parent(p),
            };
            Option::Some(
                NodeContext {
                    kind: SyntaxKind::from_name(node_kind(&node)),
                    text: node_text(&node, content),
                    parent: optional_kind(&parent),
                    grandparent: optional_kind(&grandparent),
                    prev_sibling: optional_kind(&node_prev_sibling(&node)),
                    prev_named_sibling: optional_kind(&node_prev_named_sibling(&node)),
                },
            )
        },
    }
}

} // verus!
