//! A plain record of one syntax-tree node: everything the match
//! extractor reads, held as ordinary values.

use vstd::prelude::*;
use crate::query::Span;

verus! {

/// One node of a parsed document, flattened to plain data: its grammar
/// kind, its exact source text, its byte range and its zero-based
/// start and end positions.
pub struct NodeData {
    pub kind: String,
    pub text: String,
    pub span: Span,
    pub start_row: usize,
    pub start_col: usize,
    pub end_row: usize,
    pub end_col: usize,
}

/// The mathematical image of a `NodeData`.
pub ghost struct NodeDataV {
    pub kind: Seq<char>,
    pub text: Seq<char>,
    pub span: Span,
    pub start_row: usize,
    pub start_col: usize,
    pub end_row: usize,
    pub end_col: usize,
}

impl View for NodeData {
    type V = NodeDataV;

    open spec fn view(&self) -> NodeDataV {
        NodeDataV {
            kind: self.kind@,
            text: self.text@,
            span: self.span,
            start_row: self.start_row,
            start_col: self.start_col,
            end_row: self.end_row,
            end_col: self.end_col,
        }
    }
}

/// The views of a sequence of node records.
pub open spec fn node_views(s: Seq<NodeData>) -> Seq<NodeDataV> {
    s.map_values(|n: NodeData| n@)
}

} // verus!
