//! The match extractor: from one structural occurrence, as handed back
//! by the backend, to the diagnostics a rule reports there.
//!
//! A List rule looks for the first list literal in the occurrence's
//! pre-order node sequence; every bare identifier strictly inside that
//! list whose whole text matches the rule's value pattern yields one
//! diagnostic carrying the list as its context.  Every other kind of
//! rule reports the occurrence's anchor node itself, with no context.

use vstd::prelude::*;
use vstd::string::StringExecFns;
use crate::node::{node_views, NodeData, NodeDataV};
use crate::pattern::{anchored, regex_found, regex_ok, value_pattern_matches};
use crate::query::{AMatch, AQuery, MatchV, QueryType, QueryV, Span};

verus! {

/// The views of a sequence of produced diagnostics.
pub open spec fn match_views(s: Seq<AMatch>) -> Seq<MatchV> {
    s.map_values(|m: AMatch| m@)
}

/// One past `x`, for the one-based lines and columns of reports,
/// stopping at the largest machine value.
pub open spec fn one_based(x: usize) -> usize {
    if x + 1 > usize::MAX {
        usize::MAX
    } else {
        (x + 1) as usize
    }
}

/// The empty byte range reported when no structural context applies.
pub open spec fn no_context() -> Span {
    Span { start: 0, end: 0 }
}

/// The diagnostic recorded for node `n`, found by rule `q` in the
/// document at `file`, with `ctx` as its structural context.
pub open spec fn match_of_node(q: QueryV, file: Seq<char>, n: NodeDataV, ctx: Span) -> MatchV {
    MatchV {
        file: file,
        message: q.name,
        matched: n.text,
        fix: q.solution,
        type_of_fix: q.type_of_fix,
        line: one_based(n.start_row),
        column: one_based(n.start_col),
        end_column: one_based(n.end_col),
        byte_range: n.span,
        list_byte_range: ctx,
        query: q,
    }
}

/// What holds of every diagnostic the engine hands out for a document
/// at `file`: it names that document, repeats its rule's message and
/// fix, and its context range obeys the rule's kind — non-empty and
/// strictly around the match for a List rule, empty for every other
/// kind.
pub open spec fn match_invariant(m: MatchV, file: Seq<char>) -> bool {
    &&& m.file == file
    &&& m.message == m.query.name
    &&& m.fix == m.query.solution
    &&& m.type_of_fix == m.query.type_of_fix
    &&& m.query.type_of_query == QueryType::List ==> !m.list_byte_range.is_empty()
        && m.list_byte_range.strictly_contains(m.byte_range)
    &&& m.query.type_of_query != QueryType::List ==> m.list_byte_range.is_empty()
}

/// Whether `n` is a node a List rule reports: a bare identifier,
/// strictly inside the context list, whose whole text matches the
/// rule's anchored value pattern.
pub open spec fn list_hit(q: QueryV, ctx: Span, n: NodeDataV) -> bool {
    &&& n.kind == "identifier"@
    &&& ctx.strictly_contains(n.span)
    &&& regex_found(anchored(q.what), n.text)
}

/// The byte range of the first list literal in the occurrence's
/// pre-order node sequence.
pub open spec fn first_list_span(nodes: Seq<NodeDataV>) -> Option<Span>
    decreases nodes.len(),
{
    if nodes.len() == 0 {
        None
    } else if nodes[0].kind == "list_expression"@ {
        Some(nodes[0].span)
    } else {
        first_list_span(nodes.drop_first())
    }
}

/// The diagnostics of a List rule within one occurrence, in node order.
pub open spec fn list_matches(
    q: QueryV,
    file: Seq<char>,
    ctx: Span,
    nodes: Seq<NodeDataV>,
) -> Seq<MatchV>
    decreases nodes.len(),
{
    if nodes.len() == 0 {
        Seq::empty()
    } else {
        list_matches(q, file, ctx, nodes.drop_last()) + (if list_hit(q, ctx, nodes.last()) {
            seq![match_of_node(q, file, nodes.last(), ctx)]
        } else {
            Seq::empty()
        })
    }
}

/// All diagnostics of rule `q` in one structural occurrence whose
/// pre-order node sequence (anchor node first) is `nodes`.
pub open spec fn occurrence_matches(q: QueryV, file: Seq<char>, nodes: Seq<NodeDataV>) -> Seq<
    MatchV,
> {
    if q.type_of_query == QueryType::List {
        match first_list_span(nodes) {
            Some(ctx) => list_matches(q, file, ctx, nodes),
            None => Seq::empty(),
        }
    } else {
        if nodes.len() > 0 {
            seq![match_of_node(q, file, nodes[0], no_context())]
        } else {
            Seq::empty()
        }
    }
}

/// Skipping a prefix with no list literal does not change which list
/// literal is found first.
proof fn lemma_first_list_skip(nodes: Seq<NodeDataV>, i: int)
    requires
        0 <= i <= nodes.len(),
        forall|j: int| 0 <= j < i ==> nodes[j].kind != "list_expression"@,
    ensures
        first_list_span(nodes) == first_list_span(nodes.skip(i)),
    decreases i,
{
    if i > 0 {
        assert(nodes[0].kind != "list_expression"@);
        assert(nodes.drop_first() =~= nodes.skip(1));
        assert forall|j: int| 0 <= j < i - 1 implies nodes.skip(1)[j].kind
            != "list_expression"@ by {
            assert(nodes.skip(1)[j] == nodes[j + 1]);
        }
        lemma_first_list_skip(nodes.skip(1), i - 1);
        assert(nodes.skip(1).skip(i - 1) =~= nodes.skip(i));
    } else {
        assert(nodes.skip(0) =~= nodes);
    }
}

/// Build the diagnostic for one node.
fn make_match(q: &AQuery, file: &str, n: &NodeData, ctx: Span) -> (r: AMatch)
    ensures
        r@ == match_of_node(q@, file@, n@, ctx),
{
    AMatch {
        file: file.to_owned(),
        message: q.name.clone(),
        matched: n.text.clone(),
        fix: q.solution.clone(),
        type_of_fix: q.type_of_fix,
        line: n.start_row.saturating_add(1),
        column: n.start_col.saturating_add(1),
        end_column: n.end_col.saturating_add(1),
        byte_range: n.span,
        list_byte_range: ctx,
        query: q.duplicate(),
    }
}

/// Extract the diagnostics of rule `q` from one structural occurrence.
pub fn extract_occurrence(q: &AQuery, file: &str, nodes: &Vec<NodeData>) -> (r: Vec<AMatch>)
    requires
        q@.type_of_query == QueryType::List ==> regex_ok(anchored(q@.what)),
    ensures
        match_views(r@) == occurrence_matches(q@, file@, node_views(nodes@)),
{
    let ghost nv = node_views(nodes@);
    let mut out: Vec<AMatch> = Vec::new();
    if q.type_of_query == QueryType::List {
        let llit: String = "list_expression".to_owned();
        let mut i: usize = 0;
        let mut ctx_found: Option<Span> = None;
        while i < nodes.len() && ctx_found.is_none()
            invariant
                nv == node_views(nodes@),
                0 <= i as int <= nv.len(),
                llit@ == "list_expression"@,
                ctx_found is None ==> forall|j: int|
                    0 <= j < i as int ==> nv[j].kind != "list_expression"@,
                ctx_found matches Some(c) ==> first_list_span(nv) == Some(c),
            decreases nv.len() - i + (if ctx_found is None { 1int } else { 0int }),
        {
            if nodes[i].kind == llit {
                proof {
                    lemma_first_list_skip(nv, i as int);
                    assert(nv.skip(i as int)[0] == nv[i as int]);
                }
                ctx_found = Some(nodes[i].span);
            } else {
                i += 1;
            }
        }
        match ctx_found {
            None => {
                proof {
                    lemma_first_list_skip(nv, nv.len() as int);
                    assert(nv.skip(nv.len() as int) =~= Seq::<NodeDataV>::empty());
                    assert(match_views(out@) =~= Seq::<MatchV>::empty());
                }
            },
            Some(ctx) => {
                let ilit: String = "identifier".to_owned();
                let mut k: usize = 0;
                proof {
                    assert(nv.take(0) =~= Seq::<NodeDataV>::empty());
                    assert(match_views(out@) =~= Seq::<MatchV>::empty());
                }
                while k < nodes.len()
                    invariant
                        nv == node_views(nodes@),
                        0 <= k as int <= nv.len(),
                        ilit@ == "identifier"@,
                        regex_ok(anchored(q@.what)),
                        match_views(out@) == list_matches(q@, file@, ctx, nv.take(k as int)),
                    decreases nv.len() - k,
                {
                    let n = &nodes[k];
                    let hit: bool = if n.kind == ilit && ctx.start < n.span.start && n.span.start
                        <= n.span.end && n.span.end < ctx.end {
                        value_pattern_matches(q.what.as_str(), n.text.as_str()).unwrap()
                    } else {
                        false
                    };
                    proof {
                        assert(nv.take(k as int + 1).drop_last() =~= nv.take(k as int));
                        assert(nv.take(k as int + 1).last() == nv[k as int]);
                        assert(hit == list_hit(q@, ctx, nv[k as int]));
                    }
                    if hit {
                        let ghost prev = out@;
                        let m = make_match(q, file, n, ctx);
                        out.push(m);
                        proof {
                            assert(match_views(out@) =~= match_views(prev) + seq![
                                match_of_node(q@, file@, nv[k as int], ctx),
                            ]);
                        }
                    } else {
                        proof {
                            assert(list_matches(q@, file@, ctx, nv.take(k as int + 1))
                                =~= list_matches(q@, file@, ctx, nv.take(k as int)));
                        }
                    }
                    k += 1;
                }
                proof {
                    assert(nv.take(nv.len() as int) =~= nv);
                }
            },
        }
    } else {
        if nodes.len() > 0 {
            let m = make_match(q, file, &nodes[0], Span::empty());
            out.push(m);
            proof {
                assert(match_views(out@) =~= seq![
                    match_of_node(q@, file@, nv[0], no_context()),
                ]);
            }
        } else {
            proof {
                assert(match_views(out@) =~= Seq::<MatchV>::empty());
            }
        }
    }
    out
}

/// Every diagnostic of a List rule is the diagnostic of some hit node
/// of the occurrence, carrying the context list it sits in.
proof fn lemma_list_matches_elt(
    q: QueryV,
    file: Seq<char>,
    ctx: Span,
    nodes: Seq<NodeDataV>,
    i: int,
)
    requires
        0 <= i < list_matches(q, file, ctx, nodes).len(),
    ensures
        exists|j: int|
            0 <= j < nodes.len() && list_hit(q, ctx, #[trigger] nodes[j]) && list_matches(
                q,
                file,
                ctx,
                nodes,
            )[i] == match_of_node(q, file, nodes[j], ctx),
    decreases nodes.len(),
{
    if nodes.len() > 0 {
        let head = list_matches(q, file, ctx, nodes.drop_last());
        if i < head.len() {
            lemma_list_matches_elt(q, file, ctx, nodes.drop_last(), i);
            let j0 = choose|j: int|
                0 <= j < nodes.drop_last().len() && list_hit(
                    q,
                    ctx,
                    #[trigger] nodes.drop_last()[j],
                ) && head[i] == match_of_node(q, file, nodes.drop_last()[j], ctx);
            assert(nodes.drop_last()[j0] == nodes[j0]);
            assert(list_matches(q, file, ctx, nodes)[i] == match_of_node(q, file, nodes[j0], ctx));
        } else {
            let j0 = nodes.len() - 1;
            assert(list_hit(q, ctx, nodes[j0]));
            assert(list_matches(q, file, ctx, nodes)[i] == match_of_node(q, file, nodes[j0], ctx));
        }
    }
}

/// The first list literal's range is some node's span.
proof fn lemma_first_list_is_node(nodes: Seq<NodeDataV>, sp: Span)
    requires
        first_list_span(nodes) == Some(sp),
    ensures
        exists|j: int| 0 <= j < nodes.len() && #[trigger] nodes[j].span == sp,
    decreases nodes.len(),
{
    if nodes.len() > 0 {
        if nodes[0].kind == "list_expression"@ {
            assert(nodes[0].span == sp);
        } else {
            lemma_first_list_is_node(nodes.drop_first(), sp);
            let j0 = choose|j: int|
                0 <= j < nodes.drop_first().len() && #[trigger] nodes.drop_first()[j].span == sp;
            assert(nodes.drop_first()[j0] == nodes[j0 + 1]);
            assert(nodes[j0 + 1].span == sp);
        }
    }
}

/// Every diagnostic's byte range and matched text come from some node
/// of the occurrence, and a List rule's context range is some node's
/// span as well.
pub proof fn lemma_occurrence_nodes(q: QueryV, file: Seq<char>, nodes: Seq<NodeDataV>, i: int)
    requires
        0 <= i < occurrence_matches(q, file, nodes).len(),
    ensures
        exists|j: int|
            0 <= j < nodes.len() && occurrence_matches(q, file, nodes)[i].byte_range
                == #[trigger] nodes[j].span && occurrence_matches(q, file, nodes)[i].matched
                == nodes[j].text,
        q.type_of_query == QueryType::List ==> exists|l: int|
            0 <= l < nodes.len() && occurrence_matches(q, file, nodes)[i].list_byte_range
                == #[trigger] nodes[l].span,
{
    if q.type_of_query == QueryType::List {
        let ctx = first_list_span(nodes)->Some_0;
        lemma_list_matches_elt(q, file, ctx, nodes, i);
        lemma_first_list_is_node(nodes, ctx);
    } else {
        assert(occurrence_matches(q, file, nodes)[i].byte_range == nodes[0].span
            && occurrence_matches(q, file, nodes)[i].matched == nodes[0].text);
    }
}

/// Every diagnostic of one occurrence carries the rule that produced
/// it, and its context range obeys that rule's kind: for a List rule
/// the context is non-empty and strictly contains the matched range;
/// for every other kind it is empty.
pub proof fn lemma_occurrence_spans(q: QueryV, file: Seq<char>, nodes: Seq<NodeDataV>, i: int)
    requires
        0 <= i < occurrence_matches(q, file, nodes).len(),
    ensures
        occurrence_matches(q, file, nodes)[i].query == q,
        match_invariant(occurrence_matches(q, file, nodes)[i], file),
{
    if q.type_of_query == QueryType::List {
        let ctx = first_list_span(nodes)->Some_0;
        lemma_list_matches_elt(q, file, ctx, nodes, i);
    }
}

} // verus!
