use vstd::prelude::*;
use vstd::string::StrSliceExecFns;

verus! {

// The parsing engine is consumed as a fixed external capability. Its types
// are declared opaque here, and each call the harness makes goes through one
// wrapper. The wrappers promise no more than the engine's documentation
// does: what a given grammar handle yields is unknown to the verifier, so
// the harness's judgements are verified functions of whatever came back.

/// tree_sitter's opaque compiled-grammar handle.
#[verifier::external_type_specification]
#[verifier::external_body]
pub struct ExLanguage(tree_sitter::Language);

/// tree_sitter's parser.
#[verifier::external_type_specification]
#[verifier::external_body]
pub struct ExParser(tree_sitter::Parser);

/// tree_sitter's parse tree.
#[verifier::external_type_specification]
#[verifier::external_body]
pub struct ExTree(tree_sitter::Tree);

/// tree_sitter's node within a parse tree.
#[verifier::external_type_specification]
#[verifier::external_body]
pub struct ExNode<'tree>(tree_sitter::Node<'tree>);

/// tree_sitter's error for a grammar a parser cannot use.
#[verifier::external_type_specification]
#[verifier::external_body]
pub struct ExLanguageError(tree_sitter::LanguageError);

/// Relies on tree_sitter's `Language::node_kind_count`: the number of
/// distinct node kinds the grammar defines. Nothing is assumed of the value;
/// the harness judges it.
#[verifier::external_body]
pub(crate) fn node_kind_count(language: &tree_sitter::Language) -> usize {
    language.node_kind_count()
}

/// Relies on tree_sitter's `Parser::new`: a fresh parser with no language
/// assigned yet.
#[verifier::external_body]
pub(crate) fn new_parser() -> tree_sitter::Parser {
    tree_sitter::Parser::new()
}

/// Relies on tree_sitter's `Parser::set_language`: binds the parser to a
/// grammar, failing when the grammar's ABI version is incompatible or the
/// grammar is not parseable.
#[verifier::external_body]
pub(crate) fn set_parser_language(
    parser: &mut tree_sitter::Parser,
    language: &tree_sitter::Language,
) -> Result<(), tree_sitter::LanguageError> {
    parser.set_language(language)
}

/// Relies on tree_sitter's `Parser::parse`: parses the text, yielding no
/// tree when the parser has no language or parsing was cancelled.
#[verifier::external_body]
pub(crate) fn parse_text(parser: &mut tree_sitter::Parser, text: &str) -> Option<
    tree_sitter::Tree,
> {
    parser.parse(text, None)
}

/// Relies on tree_sitter's `Tree::root_node`: the root of the parse tree.
#[verifier::external_body]
pub(crate) fn root_node<'t>(tree: &'t tree_sitter::Tree) -> tree_sitter::Node<'t> {
    tree.root_node()
}

/// Relies on tree_sitter's `Node::has_error`: whether this node is or
/// contains any syntax error.
#[verifier::external_body]
pub(crate) fn node_has_error(node: &tree_sitter::Node<'_>) -> bool {
    node.has_error()
}

} // verus!
