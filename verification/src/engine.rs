//! The rule engine: every rule of a catalog applied to one parsed
//! document in catalog order, and the join of per-file results.

use vstd::prelude::*;
use crate::backend;
use crate::backend::{
    byte_slice_chars, doc_bytes, nix_parse_err, nix_query_ok, trimmed, ParsedDoc, QueryRun,
};
use crate::extract::{
    extract_occurrence, lemma_occurrence_nodes, lemma_occurrence_spans, match_invariant,
    match_views, occurrence_matches,
};
use crate::node::{node_views, NodeData, NodeDataV};
use crate::pattern::{anchored, regex_ok};
use crate::query::{query_string_spec, AMatch, AQuery, MatchV, QueryType, QueryV};

verus! {

/// Why a run ended without diagnostics.
#[derive(Debug, PartialEq, Eq)]
pub enum LintError {
    /// A rule's value pattern is not a well-formed regular expression;
    /// carries the rule's name.  A configuration error: no document
    /// can be processed until the catalog is fixed.
    InvalidRegex(String),
    /// A rule's compiled pattern was refused by the backend's query
    /// engine; carries the rule's name.  A configuration error too.
    InvalidQuery(String),
    /// The document is not parseable Nix: the backend yielded no tree,
    /// could not load the grammar, or the tree holds syntax errors.
    ParseFailed,
}

/// The mathematical image of a `LintError`.
pub ghost enum LintErrorV {
    InvalidRegex(Seq<char>),
    InvalidQuery(Seq<char>),
    ParseFailed,
}

impl View for LintError {
    type V = LintErrorV;

    open spec fn view(&self) -> LintErrorV {
        match self {
            LintError::InvalidRegex(n) => LintErrorV::InvalidRegex(n@),
            LintError::InvalidQuery(n) => LintErrorV::InvalidQuery(n@),
            LintError::ParseFailed => LintErrorV::ParseFailed,
        }
    }
}

/// The views of a catalog of rules.
pub open spec fn query_views(s: Seq<AQuery>) -> Seq<QueryV> {
    s.map_values(|q: AQuery| q@)
}

/// Every rule's value pattern, anchored, is a well-formed regular
/// expression.
pub open spec fn all_regex_ok(qs: Seq<QueryV>) -> bool {
    forall|i: int| 0 <= i < qs.len() ==> regex_ok(anchored(#[trigger] qs[i].what))
}

/// Every rule's compiled pattern is a query the backend accepts, with
/// its anchor capture.
pub open spec fn all_queries_ok(qs: Seq<QueryV>) -> bool {
    forall|i: int|
        0 <= i < qs.len() ==> nix_query_ok(query_string_spec(#[trigger] qs[i]), "q"@)
}

/// `name` names the first rule whose anchored value pattern the regex
/// engine refuses.
pub open spec fn invalid_regex_report(qs: Seq<QueryV>, name: Seq<char>) -> bool {
    exists|i: int|
        {
            &&& 0 <= i < qs.len()
            &&& #[trigger] qs[i].name == name
            &&& !regex_ok(anchored(qs[i].what))
            &&& forall|j: int| 0 <= j < i ==> regex_ok(anchored(#[trigger] qs[j].what))
        }
}

/// `name` names the first rule whose compiled pattern the backend's
/// query engine refuses.
pub open spec fn invalid_query_report(qs: Seq<QueryV>, name: Seq<char>) -> bool {
    exists|i: int|
        {
            &&& 0 <= i < qs.len()
            &&& #[trigger] qs[i].name == name
            &&& !nix_query_ok(query_string_spec(qs[i]), "q"@)
            &&& forall|j: int|
                0 <= j < i ==> nix_query_ok(query_string_spec(#[trigger] qs[j]), "q"@)
        }
}

/// The diagnostics of one rule over the occurrences the backend
/// yielded for it, in occurrence order.
pub open spec fn rule_matches(q: QueryV, file: Seq<char>, occs: Seq<Seq<NodeDataV>>) -> Seq<MatchV>
    decreases occs.len(),
{
    if occs.len() == 0 {
        Seq::empty()
    } else {
        rule_matches(q, file, occs.drop_last()) + occurrence_matches(q, file, occs.last())
    }
}

/// The diagnostics of a whole catalog over one document: each rule's
/// own, concatenated in catalog order.
pub open spec fn doc_matches(
    qs: Seq<QueryV>,
    file: Seq<char>,
    occs: Seq<Seq<Seq<NodeDataV>>>,
) -> Seq<MatchV>
    decreases qs.len(),
{
    if qs.len() == 0 {
        Seq::empty()
    } else {
        doc_matches(qs.drop_last(), file, occs.drop_last()) + rule_matches(
            qs.last(),
            file,
            occs.last(),
        )
    }
}

/// A node record drawn from a parsed document: its byte range lies
/// within the document, its text is the document's slice at that
/// range, and on a single line its columns are ordered.
pub open spec fn node_wf(n: NodeDataV, d: ParsedDoc) -> bool {
    &&& n.span.start <= n.span.end
    &&& n.span.end <= doc_bytes(d).len()
    &&& n.text == byte_slice_chars(doc_bytes(d), n.span.start as int, n.span.end as int)
    &&& n.start_row == n.end_row ==> n.start_col <= n.end_col
}

/// A diagnostic drawn from a parsed document: its byte range is a
/// valid range within the document, its matched text is the document's
/// slice at that range, and a List rule's context range lies within
/// the document too.
pub open spec fn match_in_doc(m: MatchV, d: ParsedDoc) -> bool {
    &&& m.byte_range.start <= m.byte_range.end
    &&& m.byte_range.end <= doc_bytes(d).len()
    &&& m.matched == byte_slice_chars(doc_bytes(d), m.byte_range.start as int, m.byte_range.end as int)
    &&& m.query.type_of_query == QueryType::List ==> m.list_byte_range.end <= doc_bytes(d).len()
}

/// Every node of one occurrence is well-formed for the document.
pub open spec fn occ_nodes_wf(nodes: Seq<NodeDataV>, d: ParsedDoc) -> bool {
    forall|j: int| 0 <= j < nodes.len() ==> node_wf(#[trigger] nodes[j], d)
}

/// Every node of every occurrence of one rule is well-formed.
pub open spec fn rule_occs_wf(occs: Seq<Seq<NodeDataV>>, d: ParsedDoc) -> bool {
    forall|a: int| 0 <= a < occs.len() ==> occ_nodes_wf(#[trigger] occs[a], d)
}

/// Every node of every occurrence of every rule is well-formed.
pub open spec fn doc_occs_wf(occs: Seq<Seq<Seq<NodeDataV>>>, d: ParsedDoc) -> bool {
    forall|a: int| 0 <= a < occs.len() ==> rule_occs_wf(#[trigger] occs[a], d)
}

/// The subtree of `root` in pre-order: each node before its children,
/// children in document order.  No published pre-order walker builds
/// against this tree-sitter release, so the walk is spelled out here
/// over the trusted child accessors; it carries no contract, since
/// nothing can be stated of opaque nodes.  The step budget only makes
/// termination a theorem; it is far beyond any real document.
fn preorder<'t>(root: tree_sitter::Node<'t>) -> Vec<tree_sitter::Node<'t>> {
    let mut stack: Vec<tree_sitter::Node<'t>> = Vec::new();
    stack.push(root);
    let mut out: Vec<tree_sitter::Node<'t>> = Vec::new();
    let mut budget: usize = usize::MAX;
    while budget > 0
        decreases budget,
    {
        budget -= 1;
        match stack.pop() {
            None => {
                break;
            },
            Some(n) => {
                let count = backend::node_child_count(&n);
                let mut i: usize = count;
                while i > 0
                    decreases i,
                {
                    i -= 1;
                    match backend::node_child(&n, i) {
                        Some(child) => stack.push(child),
                        None => (),
                    }
                }
                out.push(n);
            },
        }
    }
    out
}

/// Flatten a whole occurrence to plain records, each well-formed for
/// the document; a node the backend cannot record (range out of
/// bounds, text not valid UTF-8) is dropped.
fn collect_node_data(nodes: &Vec<tree_sitter::Node>, doc: &ParsedDoc) -> (r: Vec<NodeData>)
    ensures
        occ_nodes_wf(node_views(r@), *doc),
{
    let mut out: Vec<NodeData> = Vec::new();
    let mut i: usize = 0;
    while i < nodes.len()
        invariant
            0 <= i as int <= nodes@.len(),
            occ_nodes_wf(node_views(out@), *doc),
        decreases nodes@.len() - i,
    {
        match backend::node_record(&nodes[i], doc) {
            Some(d) => {
                let ghost prev = out@;
                let ghost dv = d@;
                out.push(d);
                proof {
                    assert(node_wf(dv, *doc));
                    assert(node_views(out@) =~= node_views(prev).push(dv));
                    assert forall|j: int| 0 <= j < node_views(out@).len() implies node_wf(
                        #[trigger] node_views(out@)[j],
                        *doc,
                    ) by {
                        if j < node_views(prev).len() {
                            assert(node_views(out@)[j] == node_views(prev)[j]);
                        } else {
                            assert(node_views(out@)[j] == dv);
                        }
                    }
                }
            },
            None => (),
        }
        i += 1;
    }
    out
}

/// Apply every rule of the catalog to one document, in catalog order.
///
/// `path` is only recorded in the diagnostics; `code` is the raw text
/// of the document, trimmed here before parsing so that reported
/// positions agree with the parsed tree.  Each rule's value pattern is
/// checked up front: a refused pattern aborts the run naming the first
/// offending rule; a pattern the backend's query engine refuses aborts
/// it naming that rule; a document that does not parse cleanly aborts
/// it with `ParseFailed`.  The run succeeds exactly when none of the
/// three happens.
pub fn find_lints(path: &str, code: &str, queries: &Vec<AQuery>) -> (r: Result<
    Vec<AMatch>,
    LintError,
>)
    ensures
        r is Ok <==> (all_regex_ok(query_views(queries@)) && !nix_parse_err(trimmed(code@))
            && all_queries_ok(query_views(queries@))),
        r matches Ok(ms) ==> {
            &&& exists|occs: Seq<Seq<Seq<NodeDataV>>>|
                occs.len() == queries@.len() && match_views(ms@) == doc_matches(
                    query_views(queries@),
                    path@,
                    occs,
                )
            &&& forall|i: int|
                0 <= i < ms@.len() ==> match_invariant(#[trigger] ms@[i]@, path@)
            &&& forall|i: int|
                0 <= i < ms@.len() ==> exists|k: int|
                    0 <= k < queries@.len() && (#[trigger] ms@[i]@).query == queries@[k]@
            &&& exists|d: ParsedDoc|
                {
                    &&& byte_slice_chars(doc_bytes(d), 0, doc_bytes(d).len() as int) == trimmed(
                        code@,
                    )
                    &&& forall|i: int|
                        0 <= i < ms@.len() ==> match_in_doc(#[trigger] ms@[i]@, d)
                }
        },
        r matches Err(e) ==> match e@ {
            LintErrorV::InvalidRegex(name) => invalid_regex_report(query_views(queries@), name),
            LintErrorV::InvalidQuery(name) => all_regex_ok(query_views(queries@))
                && !nix_parse_err(trimmed(code@)) && invalid_query_report(
                query_views(queries@),
                name,
            ),
            LintErrorV::ParseFailed => all_regex_ok(query_views(queries@)) && nix_parse_err(
                trimmed(code@),
            ),
        },
{
    let ghost qsv = query_views(queries@);

    // Configuration check: every value pattern must compile.
    let mut vi: usize = 0;
    while vi < queries.len()
        invariant
            qsv == query_views(queries@),
            0 <= vi as int <= queries@.len(),
            forall|j: int| 0 <= j < vi as int ==> regex_ok(anchored(#[trigger] qsv[j].what)),
        decreases queries@.len() - vi,
    {
        if queries[vi].what_to_pred().is_none() {
            let name = queries[vi].name.clone();
            proof {
                let i = vi as int;
                assert(qsv[i] == queries@[i]@);
                assert({
                    &&& 0 <= i < qsv.len()
                    &&& qsv[i].name == name@
                    &&& !regex_ok(anchored(qsv[i].what))
                    &&& forall|j: int| 0 <= j < i ==> regex_ok(anchored(#[trigger] qsv[j].what))
                });
                assert(invalid_regex_report(qsv, name@));
                assert(!all_regex_ok(qsv));
            }
            return Err(LintError::InvalidRegex(name));
        }
        vi += 1;
    }
    proof {
        assert(all_regex_ok(qsv));
    }

    // Parse the trimmed document; a dirty tree aborts the run.
    let trimmed_code = backend::trim_text(code);
    let tstr = trimmed_code.as_str();
    let doc = match backend::parse_nix_clean(tstr) {
        Some(d) => d,
        None => {
            return Err(LintError::ParseFailed);
        },
    };

    // Run each rule in catalog order.
    let mut out: Vec<AMatch> = Vec::new();
    let ghost mut occs_all: Seq<Seq<Seq<NodeDataV>>> = Seq::empty();
    let mut qi: usize = 0;
    proof {
        assert(match_views(out@) =~= Seq::<MatchV>::empty());
        assert(qsv.take(0) =~= Seq::<QueryV>::empty());
    }
    while qi < queries.len()
        invariant
            qsv == query_views(queries@),
            all_regex_ok(qsv),
            !nix_parse_err(trimmed(code@)),
            0 <= qi as int <= queries@.len(),
            occs_all.len() == qi as int,
            match_views(out@) == doc_matches(qsv.take(qi as int), path@, occs_all),
            doc_occs_wf(occs_all, doc),
            forall|j: int|
                0 <= j < qi as int ==> nix_query_ok(query_string_spec(#[trigger] qsv[j]), "q"@),
        decreases queries@.len() - qi,
    {
        let q = &queries[qi];
        proof {
            assert(qsv[qi as int] == queries@[qi as int]@);
        }
        let qstr = q.query_string();
        let (tsq, cap) = match backend::build_query(qstr.as_str(), "q") {
            Some(p) => p,
            None => {
                let name = q.name.clone();
                proof {
                    let i = qi as int;
                    assert({
                        &&& 0 <= i < qsv.len()
                        &&& qsv[i].name == name@
                        &&& !nix_query_ok(query_string_spec(qsv[i]), "q"@)
                        &&& forall|j: int|
                            0 <= j < i ==> nix_query_ok(query_string_spec(#[trigger] qsv[j]), "q"@)
                    });
                    assert(invalid_query_report(qsv, name@));
                    assert(!all_queries_ok(qsv));
                }
                return Err(LintError::InvalidQuery(name));
            },
        };
        let mut cursor = backend::new_cursor();
        let mut run: QueryRun = backend::run_query(&mut cursor, &tsq, &doc);
        let ghost mut rule_occs: Seq<Seq<NodeDataV>> = Seq::empty();
        let mut budget: usize = usize::MAX;
        while budget > 0
            invariant
                qsv == query_views(queries@),
                all_regex_ok(qsv),
                (qi as int) < queries@.len(),
                q == queries@[qi as int],
                qsv[qi as int] == queries@[qi as int]@,
                match_views(out@) == doc_matches(qsv.take(qi as int), path@, occs_all)
                    + rule_matches(q@, path@, rule_occs),
                rule_occs_wf(rule_occs, doc),
            decreases budget,
        {
            budget -= 1;
            match backend::next_anchor(&mut run, cap) {
                None => {
                    break;
                },
                Some(None) => {
                    // An occurrence without the anchor capture: skipped.
                },
                Some(Some(anchor)) => {
                    let pre = preorder(anchor);
                    let nd = collect_node_data(&pre, &doc);
                    let mut ms = extract_occurrence(q, path, &nd);
                    let ghost mprev = out@;
                    let ghost msv = ms@;
                    out.append(&mut ms);
                    proof {
                        let ghost prev_occs = rule_occs;
                        rule_occs = rule_occs + seq![node_views(nd@)];
                        assert(rule_occs.drop_last() =~= prev_occs);
                        assert(rule_occs.last() == node_views(nd@));
                        assert(match_views(out@) =~= match_views(mprev) + match_views(msv));
                        assert forall|a: int| 0 <= a < rule_occs.len() implies occ_nodes_wf(
                            #[trigger] rule_occs[a],
                            doc,
                        ) by {
                            if a < prev_occs.len() {
                                assert(rule_occs[a] == prev_occs[a]);
                            } else {
                                assert(rule_occs[a] == node_views(nd@));
                            }
                        }
                    }
                },
            }
        }
        proof {
            let ghost prev_all = occs_all;
            occs_all = occs_all + seq![rule_occs];
            assert(occs_all.drop_last() =~= prev_all);
            assert(occs_all.last() == rule_occs);
            assert(qsv.take(qi as int + 1).drop_last() =~= qsv.take(qi as int));
            assert(qsv.take(qi as int + 1).last() == qsv[qi as int]);
            assert forall|a: int| 0 <= a < occs_all.len() implies rule_occs_wf(
                #[trigger] occs_all[a],
                doc,
            ) by {
                if a < prev_all.len() {
                    assert(occs_all[a] == prev_all[a]);
                } else {
                    assert(occs_all[a] == rule_occs);
                }
            }
        }
        qi += 1;
    }
    proof {
        assert(qsv.take(queries@.len() as int) =~= qsv);
        assert(all_queries_ok(qsv));
        assert forall|i: int| 0 <= i < out@.len() implies match_invariant(
            #[trigger] out@[i]@,
            path@,
        ) by {
            lemma_doc_spans(qsv, path@, occs_all, i);
            assert(match_views(out@)[i] == out@[i]@);
        }
        assert forall|i: int| 0 <= i < out@.len() implies exists|k: int|
            0 <= k < queries@.len() && (#[trigger] out@[i]@).query == queries@[k]@ by {
            lemma_doc_spans(qsv, path@, occs_all, i);
            assert(match_views(out@)[i] == out@[i]@);
            let k0 = choose|k: int|
                0 <= k < qsv.len() && match_views(out@)[i].query == #[trigger] qsv[k];
            assert(qsv[k0] == queries@[k0]@);
            assert(0 <= k0 < queries@.len() && out@[i]@.query == queries@[k0]@);
        }
        assert(byte_slice_chars(doc_bytes(doc), 0, doc_bytes(doc).len() as int) == trimmed(code@));
        assert forall|i: int| 0 <= i < out@.len() implies match_in_doc(
            #[trigger] out@[i]@,
            doc,
        ) by {
            lemma_doc_in_doc(qsv, path@, occs_all, doc, i);
            assert(match_views(out@)[i] == out@[i]@);
        }
        assert({
            &&& byte_slice_chars(doc_bytes(doc), 0, doc_bytes(doc).len() as int) == trimmed(code@)
            &&& forall|i: int| 0 <= i < out@.len() ==> match_in_doc(#[trigger] out@[i]@, doc)
        });
    }
    Ok(out)
}

/// Each diagnostic of one rule carries that rule, with its context
/// range obeying the rule's kind.
proof fn lemma_rule_spans(q: QueryV, file: Seq<char>, occs: Seq<Seq<NodeDataV>>, i: int)
    requires
        0 <= i < rule_matches(q, file, occs).len(),
    ensures
        rule_matches(q, file, occs)[i].query == q,
        match_invariant(rule_matches(q, file, occs)[i], file),
    decreases occs.len(),
{
    if occs.len() > 0 {
        let head = rule_matches(q, file, occs.drop_last());
        if i < head.len() {
            lemma_rule_spans(q, file, occs.drop_last(), i);
        } else {
            lemma_occurrence_spans(q, file, occs.last(), i - head.len());
        }
    }
}

/// Each diagnostic of one rule is drawn from the document when every
/// occurrence node is.
proof fn lemma_rule_in_doc(
    q: QueryV,
    file: Seq<char>,
    occs: Seq<Seq<NodeDataV>>,
    d: ParsedDoc,
    i: int,
)
    requires
        0 <= i < rule_matches(q, file, occs).len(),
        rule_occs_wf(occs, d),
    ensures
        match_in_doc(rule_matches(q, file, occs)[i], d),
    decreases occs.len(),
{
    if occs.len() > 0 {
        let head = rule_matches(q, file, occs.drop_last());
        if i < head.len() {
            assert forall|a: int| 0 <= a < occs.drop_last().len() implies occ_nodes_wf(
                #[trigger] occs.drop_last()[a],
                d,
            ) by {
                assert(occs.drop_last()[a] == occs[a]);
            }
            lemma_rule_in_doc(q, file, occs.drop_last(), d, i);
        } else {
            let nodes = occs.last();
            let k = i - head.len();
            lemma_occurrence_nodes(q, file, nodes, k);
            lemma_occurrence_spans(q, file, nodes, k);
            let m = occurrence_matches(q, file, nodes)[k];
            let j0 = choose|j: int|
                0 <= j < nodes.len() && m.byte_range == #[trigger] nodes[j].span && m.matched
                    == nodes[j].text;
            assert(node_wf(nodes[j0], d));
            if q.type_of_query == QueryType::List {
                let l0 = choose|l: int|
                    0 <= l < nodes.len() && m.list_byte_range == #[trigger] nodes[l].span;
                assert(node_wf(nodes[l0], d));
            }
        }
    }
}

/// Each diagnostic of a whole run carries a rule of the catalog that
/// was run, with its context range obeying that rule's kind.
proof fn lemma_doc_spans(qs: Seq<QueryV>, file: Seq<char>, occs: Seq<Seq<Seq<NodeDataV>>>, i: int)
    requires
        0 <= i < doc_matches(qs, file, occs).len(),
    ensures
        match_invariant(doc_matches(qs, file, occs)[i], file),
        exists|k: int| 0 <= k < qs.len() && doc_matches(qs, file, occs)[i].query == #[trigger] qs[k],
    decreases qs.len(),
{
    if qs.len() > 0 {
        let head = doc_matches(qs.drop_last(), file, occs.drop_last());
        if i < head.len() {
            lemma_doc_spans(qs.drop_last(), file, occs.drop_last(), i);
            let k0 = choose|k: int|
                0 <= k < qs.drop_last().len() && head[i].query == #[trigger] qs.drop_last()[k];
            assert(qs.drop_last()[k0] == qs[k0]);
            assert(doc_matches(qs, file, occs)[i].query == qs[k0]);
        } else {
            lemma_rule_spans(qs.last(), file, occs.last(), i - head.len());
            assert(doc_matches(qs, file, occs)[i].query == qs[qs.len() - 1]);
        }
    }
}

/// Each diagnostic of a whole run is drawn from the document when every
/// occurrence node is.
proof fn lemma_doc_in_doc(
    qs: Seq<QueryV>,
    file: Seq<char>,
    occs: Seq<Seq<Seq<NodeDataV>>>,
    d: ParsedDoc,
    i: int,
)
    requires
        0 <= i < doc_matches(qs, file, occs).len(),
        occs.len() == qs.len(),
        doc_occs_wf(occs, d),
    ensures
        match_in_doc(doc_matches(qs, file, occs)[i], d),
    decreases qs.len(),
{
    if qs.len() > 0 {
        let head = doc_matches(qs.drop_last(), file, occs.drop_last());
        if i < head.len() {
            assert forall|a: int| 0 <= a < occs.drop_last().len() implies rule_occs_wf(
                #[trigger] occs.drop_last()[a],
                d,
            ) by {
                assert(occs.drop_last()[a] == occs[a]);
            }
            lemma_doc_in_doc(qs.drop_last(), file, occs.drop_last(), d, i);
        } else {
            assert(rule_occs_wf(occs.last(), d));
            lemma_rule_in_doc(qs.last(), file, occs.last(), d, i - head.len());
        }
    }
}

/// Wherever a List rule fires, the reported context range is non-empty
/// and strictly contains the reported byte range.
pub proof fn lemma_list_context_strict(
    qs: Seq<QueryV>,
    file: Seq<char>,
    occs: Seq<Seq<Seq<NodeDataV>>>,
    i: int,
)
    requires
        0 <= i < doc_matches(qs, file, occs).len(),
        doc_matches(qs, file, occs)[i].query.type_of_query == QueryType::List,
    ensures
        !doc_matches(qs, file, occs)[i].list_byte_range.is_empty(),
        doc_matches(qs, file, occs)[i].list_byte_range.strictly_contains(
            doc_matches(qs, file, occs)[i].byte_range,
        ),
{
    lemma_doc_spans(qs, file, occs, i);
}

/// Wherever a rule of any other kind fires, the reported context range
/// is empty.
pub proof fn lemma_non_list_context_empty(
    qs: Seq<QueryV>,
    file: Seq<char>,
    occs: Seq<Seq<Seq<NodeDataV>>>,
    i: int,
)
    requires
        0 <= i < doc_matches(qs, file, occs).len(),
        doc_matches(qs, file, occs)[i].query.type_of_query != QueryType::List,
    ensures
        doc_matches(qs, file, occs)[i].list_byte_range.is_empty(),
{
    lemma_doc_spans(qs, file, occs, i);
}

/// The engine is deterministic per document: over the same parsed
/// document and the same catalog, two runs yield the same diagnostics
/// in the same order — catalog order, then in-document occurrence
/// order.
pub proof fn lemma_engine_deterministic(
    qs: Seq<QueryV>,
    file: Seq<char>,
    occs: Seq<Seq<Seq<NodeDataV>>>,
    r1: Seq<MatchV>,
    r2: Seq<MatchV>,
)
    requires
        r1 == doc_matches(qs, file, occs),
        r2 == doc_matches(qs, file, occs),
    ensures
        r1 == r2,
{
}

/// Running the engine twice over the same parsed document and the same
/// catalog yields identical diagnostics as a multiset.
pub proof fn lemma_engine_idempotent(
    qs: Seq<QueryV>,
    file: Seq<char>,
    occs: Seq<Seq<Seq<NodeDataV>>>,
    r1: Seq<MatchV>,
    r2: Seq<MatchV>,
)
    requires
        r1 == doc_matches(qs, file, occs),
        r2 == doc_matches(qs, file, occs),
    ensures
        r1.to_multiset() == r2.to_multiset(),
{
}

/// The first error among the per-file results, in file order.
pub open spec fn first_error(rs: Seq<Result<Vec<AMatch>, LintError>>) -> Option<LintErrorV>
    decreases rs.len(),
{
    if rs.len() == 0 {
        None
    } else {
        match rs[0] {
            Result::Err(e) => Some(e@),
            Result::Ok(_) => first_error(rs.drop_first()),
        }
    }
}

/// Every successful file's diagnostics concatenated, in file order.
pub open spec fn all_matches(rs: Seq<Result<Vec<AMatch>, LintError>>) -> Seq<MatchV>
    decreases rs.len(),
{
    if rs.len() == 0 {
        Seq::empty()
    } else {
        (match rs[0] {
            Result::Ok(ms) => match_views(ms@),
            Result::Err(_) => Seq::empty(),
        }) + all_matches(rs.drop_first())
    }
}

/// An error-free prefix neither hides an error nor contributes one.
proof fn lemma_first_error_skip(rs: Seq<Result<Vec<AMatch>, LintError>>, i: int)
    requires
        0 <= i <= rs.len(),
        forall|j: int| 0 <= j < i ==> rs[j] is Ok,
    ensures
        first_error(rs) == first_error(rs.skip(i)),
    decreases i,
{
    if i > 0 {
        assert(rs[0] is Ok);
        assert(rs.drop_first() =~= rs.skip(1));
        assert forall|j: int| 0 <= j < i - 1 implies rs.skip(1)[j] is Ok by {
            assert(rs.skip(1)[j] == rs[j + 1]);
        }
        lemma_first_error_skip(rs.skip(1), i - 1);
        assert(rs.skip(1).skip(i - 1) =~= rs.skip(i));
    } else {
        assert(rs.skip(0) =~= rs);
    }
}

/// Appending one more result extends the joined diagnostics by that
/// result's own.
proof fn lemma_all_matches_push(
    s: Seq<Result<Vec<AMatch>, LintError>>,
    x: Result<Vec<AMatch>, LintError>,
)
    ensures
        all_matches(s.push(x)) == all_matches(s) + (match x {
            Result::Ok(ms) => match_views(ms@),
            Result::Err(_) => Seq::empty(),
        }),
    decreases s.len(),
{
    let sp = s.push(x);
    let xm = (match x {
        Result::Ok(ms) => match_views(ms@),
        Result::Err(_) => Seq::<MatchV>::empty(),
    });
    if s.len() == 0 {
        assert(sp[0] == x);
        assert(sp.drop_first() =~= Seq::<Result<Vec<AMatch>, LintError>>::empty());
        assert(all_matches(sp) =~= all_matches(s) + xm);
    } else {
        assert(sp[0] == s[0]);
        assert(sp.drop_first() =~= s.drop_first().push(x));
        lemma_all_matches_push(s.drop_first(), x);
        let m0 = (match s[0] {
            Result::Ok(ms) => match_views(ms@),
            Result::Err(_) => Seq::<MatchV>::empty(),
        });
        assert(all_matches(sp) == m0 + all_matches(sp.drop_first()));
        assert(all_matches(sp.drop_first()) == all_matches(s.drop_first()) + xm);
        assert(all_matches(s) == m0 + all_matches(s.drop_first()));
        assert(m0 + (all_matches(s.drop_first()) + xm) =~= (m0 + all_matches(s.drop_first()))
            + xm);
    }
}

impl LintError {
    /// A copy whose contents are known to equal the original's.
    pub fn duplicate(&self) -> (r: LintError)
        ensures
            r@ == self@,
    {
        match self {
            LintError::InvalidRegex(n) => LintError::InvalidRegex(n.clone()),
            LintError::InvalidQuery(n) => LintError::InvalidQuery(n.clone()),
            LintError::ParseFailed => LintError::ParseFailed,
        }
    }
}

/// Join the per-file results of a run, as the pipeline's merge step
/// does: the first error aborts the whole run; otherwise every file's
/// diagnostics are kept together, in the order the files were given.
pub fn aggregate_results(results: &Vec<Result<Vec<AMatch>, LintError>>) -> (r: Result<
    Vec<AMatch>,
    LintError,
>)
    ensures
        r matches Ok(ms) ==> first_error(results@) is None && match_views(ms@) == all_matches(
            results@,
        ),
        r matches Err(e) ==> first_error(results@) == Some(e@),
{
    let mut out: Vec<AMatch> = Vec::new();
    let mut i: usize = 0;
    proof {
        assert(results@.take(0) =~= Seq::<Result<Vec<AMatch>, LintError>>::empty());
        assert(match_views(out@) =~= Seq::<MatchV>::empty());
    }
    while i < results.len()
        invariant
            0 <= i as int <= results@.len(),
            forall|j: int| 0 <= j < i as int ==> results@[j] is Ok,
            match_views(out@) == all_matches(results@.take(i as int)),
        decreases results@.len() - i,
    {
        match &results[i] {
            Result::Ok(ms) => {
                let ghost prev = out@;
                let mut k: usize = 0;
                proof {
                    assert(ms@.take(0) =~= Seq::<AMatch>::empty());
                    assert(match_views(out@) =~= match_views(prev) + match_views(ms@.take(0)));
                }
                while k < ms.len()
                    invariant
                        0 <= k as int <= ms@.len(),
                        match_views(out@) == match_views(prev) + match_views(ms@.take(k as int)),
                    decreases ms@.len() - k,
                {
                    let d = ms[k].duplicate();
                    out.push(d);
                    proof {
                        let t0 = ms@.take(k as int);
                        let t1 = ms@.take(k as int + 1);
                        assert(t1 =~= t0.push(ms@[k as int]));
                        assert(match_views(t1) =~= match_views(t0).push(ms@[k as int]@));
                        assert(match_views(out@) =~= (match_views(prev) + match_views(t0)).push(
                            ms@[k as int]@,
                        ));
                        assert((match_views(prev) + match_views(t0)).push(ms@[k as int]@)
                            =~= match_views(prev) + match_views(t0).push(ms@[k as int]@));
                    }
                    k += 1;
                }
                proof {
                    assert(ms@.take(ms@.len() as int) =~= ms@);
                    lemma_all_matches_push(results@.take(i as int), results@[i as int]);
                    assert(results@.take(i as int + 1) =~= results@.take(i as int).push(
                        results@[i as int],
                    ));
                }
            },
            Result::Err(e) => {
                let err = e.duplicate();
                proof {
                    lemma_first_error_skip(results@, i as int);
                    assert(results@.skip(i as int)[0] == results@[i as int]);
                    assert(first_error(results@.skip(i as int)) == Some(err@));
                }
                return Err(err);
            },
        }
        i += 1;
    }
    proof {
        assert(results@.take(results@.len() as int) =~= results@);
        lemma_first_error_skip(results@, results@.len() as int);
        assert(results@.skip(results@.len() as int) =~= Seq::<
            Result<Vec<AMatch>, LintError>,
        >::empty());
    }
    Ok(out)
}

} // verus!
