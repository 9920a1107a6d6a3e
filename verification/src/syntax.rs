//! The boundary to the syntax-tree provider: the tree-sitter parser with
//! the C grammar. The types are declared here, the results of the node
//! accessors are given names, and every call into the provider goes
//! through one of the functions below, whose contracts are taken on trust.

use vstd::prelude::*;
use vstd::utf8::encode_utf8;
use crate::extract::DECLARATION_QUERY;

verus! {

/// `tree_sitter::Parser`, carried through as it is.
#[verifier::external_type_specification]
#[verifier::external_body]
pub struct ExParser(tree_sitter::Parser);

/// `tree_sitter::Tree`, carried through as it is.
#[verifier::external_type_specification]
#[verifier::external_body]
pub struct ExTree(tree_sitter::Tree);

/// `tree_sitter::Node`, a node of a syntax tree. What its accessors
/// answer is named below; nothing else is known of it.
#[verifier::external_type_specification]
#[verifier::external_body]
pub struct ExNode<'a>(tree_sitter::Node<'a>);

/// `tree_sitter::Language`, a grammar, carried through as it is.
#[verifier::external_type_specification]
#[verifier::external_body]
pub struct ExLanguage(tree_sitter::Language);

/// `tree_sitter::Query`, a compiled query, carried through as it is.
#[verifier::external_type_specification]
#[verifier::external_body]
pub struct ExQuery(tree_sitter::Query);

/// The grammar's name for the kind of a node: what `Node::kind` answers.
pub uninterp spec fn kind_of(node: tree_sitter::Node) -> Seq<char>;

/// The byte offsets at which a node starts and ends: the two byte fields
/// of what `Node::range` answers.
pub uninterp spec fn span_of(node: tree_sitter::Node) -> (usize, usize);

/// The number of children that a node reports: what `Node::child_count`
/// answers.
pub uninterp spec fn child_count_of(node: tree_sitter::Node) -> usize;

/// What a node answers when asked for its child at an index: the result
/// of `Node::child`.
pub uninterp spec fn child_of(node: tree_sitter::Node, index: usize) -> Option<tree_sitter::Node>;

/// What a node answers when asked for its first child under a field
/// name: the result of `Node::child_by_field_name`.
pub uninterp spec fn field_of(node: tree_sitter::Node, field: Seq<char>) -> Option<
    tree_sitter::Node,
>;

/// Parses C source text with `Parser::parse`, without an earlier tree.
/// Nothing is claimed of the outcome: the parser gives no tree when it has
/// no language or was stopped.
#[verifier::external_body]
pub(crate) fn parse_source(parser: &mut tree_sitter::Parser, source: &str) -> (tree: Option<
    tree_sitter::Tree,
>) {
    parser.parse(source, None)
}

/// The root of a syntax tree, from `Tree::root_node`.
#[verifier::external_body]
pub(crate) fn root_node<'a>(tree: &'a tree_sitter::Tree) -> (root: tree_sitter::Node<'a>) {
    tree.root_node()
}

/// The C grammar, from `tree_sitter_c::language`.
#[verifier::external_body]
pub(crate) fn c_language() -> (language: tree_sitter::Language) {
    tree_sitter_c::language()
}

/// Compiles the declaration query with `Query::new`; `None` stands for
/// the provider's error. Only that one pattern is admitted: on a pattern
/// that ends in a name which the grammar lacks, `Query::new` panics while
/// it builds its error, and in the declaration query every name is
/// followed by a delimiter. Nothing is claimed of the outcome.
#[verifier::external_body]
pub(crate) fn compile_query(language: tree_sitter::Language, pattern: &str) -> (query: Option<
    tree_sitter::Query,
>)
    requires
        pattern@ == DECLARATION_QUERY@,
{
    tree_sitter::Query::new(language, pattern).ok()
}

/// The index under which a query reports the captures of a name, from
/// `Query::capture_index_for_name`. Nothing is claimed of the outcome.
#[verifier::external_body]
pub(crate) fn capture_index_for_name(query: &tree_sitter::Query, name: &str) -> (index: Option<
    u32,
>) {
    query.capture_index_for_name(name)
}

/// Runs a query over the tree below `root` with `QueryCursor::matches` and
/// hands out the captures of all matches, in the order in which the cursor
/// reports them, each as its capture index and its node. The source has
/// to reach as far as the root: where the query holds a text predicate,
/// the cursor slices the source by the span of a captured node, and every
/// such node lies within the root. Nothing is claimed of which captures
/// come.
#[verifier::external_body]
pub(crate) fn query_captures<'a>(
    query: &tree_sitter::Query,
    root: tree_sitter::Node<'a>,
    source: &str,
) -> (captures: Vec<(u32, tree_sitter::Node<'a>)>)
    requires
        span_of(root).1 <= encode_utf8(source@).len(),
{
    let mut cursor = tree_sitter::QueryCursor::new();
    let matches = cursor.matches(query, root, source.as_bytes());
    let captures = matches.flat_map(|found| found.captures.to_vec());
    captures.map(|capture| (capture.index, capture.node)).collect()
}

/// The kind of a node, from `Node::kind`; the contract only names the
/// result. The grammar's kind names are valid UTF-8, which `Node::kind`
/// relies on.
#[verifier::external_body]
pub(crate) fn node_kind(node: tree_sitter::Node) -> (kind: &'static str)
    ensures
        kind@ == kind_of(node),
{
    node.kind()
}

/// The start and end byte of a node, from `Node::range`; the contract only
/// names the result.
#[verifier::external_body]
pub(crate) fn node_span(node: tree_sitter::Node) -> (span: (usize, usize))
    ensures
        span == span_of(node),
{
    let range = node.range();
    (range.start_byte, range.end_byte)
}

/// The number of children of a node, from `Node::child_count`; the
/// contract only names the result.
#[verifier::external_body]
pub(crate) fn node_child_count(node: tree_sitter::Node) -> (count: usize)
    ensures
        count == child_count_of(node),
{
    node.child_count()
}

/// The child of a node at an index, from `Node::child`; the contract only
/// names the result.
#[verifier::external_body]
pub(crate) fn node_child<'a>(node: tree_sitter::Node<'a>, index: usize) -> (child: Option<
    tree_sitter::Node<'a>,
>)
    ensures
        child == child_of(node, index),
{
    node.child(index)
}

/// The first child of a node under a field name, from
/// `Node::child_by_field_name`; the contract only names the result.
#[verifier::external_body]
pub(crate) fn node_child_by_field_name<'a>(node: tree_sitter::Node<'a>, field: &str) -> (child:
    Option<tree_sitter::Node<'a>>)
    ensures
        child == field_of(node, field@),
{
    node.child_by_field_name(field)
}

} // verus!
