//! Trusted boundary to the parsing backend: tree-sitter, with the Nix
//! grammar.  Every function here is an `external_body` wrapper around
//! one backend operation (or one short, fixed chain of them); the
//! verified engine drives them and works on the plain values they hand
//! back.  Verdicts that depend on the arguments alone are named by
//! `uninterp` spec functions, so the engine's contracts can say when
//! parsing and query building succeed.

use vstd::prelude::*;
use vstd::string::StringSliceAdditionalSpecFns;
use crate::node::NodeData;
use crate::query::Span;
use tree_sitter::StreamingIterator;

verus! {

#[verifier::external_type_specification]
#[verifier::external_body]
pub struct ExNode<'tree>(tree_sitter::Node<'tree>);

#[verifier::external_type_specification]
#[verifier::external_body]
pub struct ExQuery(tree_sitter::Query);

#[verifier::external_type_specification]
#[verifier::external_body]
pub struct ExQueryCursor(tree_sitter::QueryCursor);

/// A document the backend parsed cleanly, kept together with the
/// exact text it was parsed from, so that queries and node texts are
/// always read against the text the tree came from.
#[verifier::external_body]
pub struct ParsedDoc {
    code: String,
    tree: tree_sitter::Tree,
}

/// The stream of structural occurrences one query run yields over one
/// parsed document.  Verus cannot declare tree_sitter::QueryMatches
/// itself (its bounds defeat the declaration), so the stream sits in a
/// hidden field.
#[verifier::external_body]
pub struct QueryRun<'q> {
    inner: tree_sitter::QueryMatches<'q, 'q, &'q [u8], &'q [u8]>,
}

/// Whether the backend fails on this text: the Nix grammar cannot be
/// loaded, no tree comes back, or the tree holds a syntax error.  A
/// verdict of the parser and grammar alone, from the text alone.
pub uninterp spec fn nix_parse_err(code: Seq<char>) -> bool;

/// Whether the backend accepts this pattern text as a structural query
/// over the Nix grammar and the query names this capture.  A verdict
/// of the query engine and grammar alone, from its two arguments alone.
pub uninterp spec fn nix_query_ok(source: Seq<char>, capture: Seq<char>) -> bool;

/// The bytes of the text a parsed document was parsed from.
pub uninterp spec fn doc_bytes(doc: ParsedDoc) -> Seq<u8>;

/// The characters that UTF-8 decoding yields for the byte range
/// `start..end` of `bytes`.  A function of its arguments alone.
pub uninterp spec fn byte_slice_chars(bytes: Seq<u8>, start: int, end: int) -> Seq<char>;

/// Whether a character counts as whitespace for trimming, as
/// char::is_whitespace decides it.  A function of the character alone.
pub uninterp spec fn is_wspace(c: char) -> bool;

/// `s` with its leading whitespace removed.
pub open spec fn trim_front(s: Seq<char>) -> Seq<char>
    decreases s.len(),
{
    if s.len() > 0 && is_wspace(s[0]) {
        trim_front(s.drop_first())
    } else {
        s
    }
}

/// `s` with its trailing whitespace removed.
pub open spec fn trim_back(s: Seq<char>) -> Seq<char>
    decreases s.len(),
{
    if s.len() > 0 && is_wspace(s.last()) {
        trim_back(s.drop_last())
    } else {
        s
    }
}

/// `s` with whitespace removed from both ends.
pub open spec fn trimmed(s: Seq<char>) -> Seq<char> {
    trim_back(trim_front(s))
}

/// Relies on str::trim: the same text with whitespace (in the sense of
/// char::is_whitespace, named is_wspace) removed from both ends.
#[verifier::external_body]
pub fn trim_text(code: &str) -> (r: String)
    ensures
        r@ == trimmed(code@),
        code@.len() > 0 && !is_wspace(code@[0]) && !is_wspace(code@[code@.len() - 1]) ==> r@
            == code@,
{
    code.trim().to_owned()
}

/// Relies on tree_sitter::Parser (new, set_language, parse),
/// tree_sitter_nix::LANGUAGE and Node::has_error: parses the text with
/// the Nix grammar and hands back the document exactly when the
/// grammar loads, a tree comes back, and it holds no syntax error.
/// The document keeps its own copy of the text, so later reads cannot
/// be given a different text than the tree came from.
#[verifier::external_body]
pub fn parse_nix_clean(code: &str) -> (r: Option<ParsedDoc>)
    ensures
        r is Some <==> !nix_parse_err(code@),
        r matches Some(doc) ==> doc_bytes(doc) == code.spec_bytes(),
        r matches Some(doc) ==> byte_slice_chars(
            code.spec_bytes(),
            0,
            code.spec_bytes().len() as int,
        ) == code@,
{
    let mut parser = tree_sitter::Parser::new();
    let language = tree_sitter::Language::from(tree_sitter_nix::LANGUAGE);
    if parser.set_language(&language).is_err() {
        return None;
    }
    match parser.parse(code, None) {
        Some(tree) if !tree.root_node().has_error() => {
            Some(ParsedDoc { code: code.to_owned(), tree })
        },
        _ => None,
    }
}

/// Relies on tree_sitter::Query::new with the Nix grammar and on
/// Query::capture_index_for_name: the compiled query and the capture's
/// index, exactly when the pattern text is a well-formed query naming
/// that capture.
#[verifier::external_body]
pub fn build_query(source: &str, capture: &str) -> (r: Option<(tree_sitter::Query, u32)>)
    ensures
        r is Some <==> nix_query_ok(source@, capture@),
{
    let language = tree_sitter::Language::from(tree_sitter_nix::LANGUAGE);
    match tree_sitter::Query::new(&language, source) {
        Ok(q) => match q.capture_index_for_name(capture) {
            Some(ix) => Some((q, ix)),
            None => None,
        },
        Err(_) => None,
    }
}

/// Relies on tree_sitter::QueryCursor::new.
#[verifier::external_body]
pub fn new_cursor() -> tree_sitter::QueryCursor {
    tree_sitter::QueryCursor::new()
}

/// Relies on tree_sitter::QueryCursor::matches and Tree::root_node:
/// starts the query at the document's root, reading text from the very
/// bytes the tree was parsed from (which keeps the backend's text
/// predicates in bounds).
#[verifier::external_body]
pub fn run_query<'q>(
    cursor: &'q mut tree_sitter::QueryCursor,
    query: &'q tree_sitter::Query,
    doc: &'q ParsedDoc,
) -> QueryRun<'q> {
    QueryRun { inner: cursor.matches(query, doc.tree.root_node(), doc.code.as_bytes()) }
}

/// Relies on StreamingIterator::next for QueryMatches and on
/// QueryMatch::nodes_for_capture_index: steps to the next structural
/// occurrence and hands back its first node for the capture.  None once
/// the occurrences are exhausted; Some(None) for an occurrence that has
/// no node under that capture index.
#[verifier::external_body]
pub fn next_anchor<'q>(
    matches: &mut QueryRun<'q>,
    capture: u32,
) -> Option<Option<tree_sitter::Node<'q>>> {
    match matches.inner.next() {
        None => None,
        Some(m) => Some(m.nodes_for_capture_index(capture).next()),
    }
}

/// Relies on tree_sitter::Node::child_count.
#[verifier::external_body]
pub fn node_child_count(node: &tree_sitter::Node) -> usize {
    node.child_count()
}

/// Relies on tree_sitter::Node::child: the i-th child in document
/// order, or None past the last one.
#[verifier::external_body]
pub fn node_child<'t>(node: &tree_sitter::Node<'t>, i: usize) -> Option<tree_sitter::Node<'t>> {
    node.child(i)
}

/// Relies on tree_sitter::Node::kind, byte_range, start_position,
/// end_position and utf8_text: one node flattened to plain values.
/// None when the node's byte range does not lie within the document,
/// when its positions are out of order, or when its slice is not valid
/// UTF-8 — so the record, when it comes, is in bounds and its text is
/// the document's slice at its range.
#[verifier::external_body]
pub fn node_record(node: &tree_sitter::Node, doc: &ParsedDoc) -> (r: Option<NodeData>)
    ensures
        r matches Some(d) ==> {
            &&& d@.span.start <= d@.span.end
            &&& d@.span.end <= doc_bytes(*doc).len()
            &&& d@.text == byte_slice_chars(
                doc_bytes(*doc),
                d@.span.start as int,
                d@.span.end as int,
            )
            &&& d@.start_row == d@.end_row ==> d@.start_col <= d@.end_col
        },
{
    let range = node.byte_range();
    let sp = node.start_position();
    let ep = node.end_position();
    if range.start > range.end || range.end > doc.code.len()
        || (sp.row == ep.row && sp.column > ep.column) {
        return None;
    }
    match node.utf8_text(doc.code.as_bytes()) {
        Ok(text) => Some(NodeData {
            kind: node.kind().to_owned(), text: text.to_owned(),
            span: Span { start: range.start, end: range.end },
            start_row: sp.row, start_col: sp.column, end_row: ep.row, end_col: ep.column,
        }),
        Err(_) => None,
    }
}

} // verus!
