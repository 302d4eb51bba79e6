//! The rule model: what a lint looks for, and the diagnostic it produces.

use vstd::prelude::*;
use vstd::string::StringExecFns;

verus! {

/// The shape of source construct a rule looks for.
#[derive(Clone, Copy, Debug, PartialEq, Eq, Structural)]
pub enum QueryType {
    List,
    BindingAStringInsteadOfList,
    ArgToOptionalAList,
    XInFormals,
    String,
    RecursiveAttrSet,
    AttrNameInFunction,
    BindingWithExpression,
    AttrValueInContext,
}

/// How a reported occurrence should be repaired.
#[derive(Clone, Copy, Debug, PartialEq, Eq, Structural)]
pub enum TypeOfFix {
    Remove,
    Move,
    Change,
    ConvertToList,
}

/// A half-open byte range within a document.
#[derive(Clone, Copy, Debug, PartialEq, Eq, Structural)]
pub struct Span {
    pub start: usize,
    pub end: usize,
}

impl Span {
    /// The empty range used when no structural context applies.
    pub fn empty() -> (r: Span)
        ensures
            r == (Span { start: 0, end: 0 }),
    {
        Span { start: 0, end: 0 }
    }

    /// Whether this range holds no bytes at all.
    pub open spec fn is_empty(self) -> bool {
        self.start == self.end
    }

    /// Whether `inner` lies inside `self` with room to spare on both sides.
    pub open spec fn strictly_contains(self, inner: Span) -> bool {
        self.start < inner.start && inner.start <= inner.end && inner.end < self.end
    }
}

/// One lint rule: an anti-pattern to search for and the fix to suggest.
#[derive(Clone, Debug, PartialEq, Eq)]
pub struct AQuery {
    pub name: String,
    pub solution: String,
    /// a regex pattern.
    /// examples: "pkg-config", "cmake|makeWrapper"
    pub what: String,
    pub in_what: String,
    pub context: String,
    pub type_of_query: QueryType,
    pub type_of_fix: TypeOfFix,
}

/// The mathematical image of an `AQuery`: every text field as a
/// sequence of characters.
pub ghost struct QueryV {
    pub name: Seq<char>,
    pub solution: Seq<char>,
    pub what: Seq<char>,
    pub in_what: Seq<char>,
    pub context: Seq<char>,
    pub type_of_query: QueryType,
    pub type_of_fix: TypeOfFix,
}

impl View for AQuery {
    type V = QueryV;

    open spec fn view(&self) -> QueryV {
        QueryV {
            name: self.name@,
            solution: self.solution@,
            what: self.what@,
            in_what: self.in_what@,
            context: self.context@,
            type_of_query: self.type_of_query,
            type_of_fix: self.type_of_fix,
        }
    }
}

impl AQuery {
    /// A field-by-field copy whose contents are known to equal the original's.
    pub fn duplicate(&self) -> (r: AQuery)
        ensures
            r@ == self@,
    {
        AQuery {
            name: self.name.clone(),
            solution: self.solution.clone(),
            what: self.what.clone(),
            in_what: self.in_what.clone(),
            context: self.context.clone(),
            type_of_query: self.type_of_query,
            type_of_fix: self.type_of_fix,
        }
    }
}

/// The tree-sitter pattern that `AQuery::query_string` produces for a rule,
/// kind by kind, as a sequence of characters.
pub open spec fn query_string_spec(q: QueryV) -> Seq<char> {
    match q.type_of_query {
        QueryType::List => "(
                    (binding attrpath: _ @a expression: _ @l)
                    (#eq? @a \""@ + q.in_what + "\")
                    (#match? @l \""@ + q.what + "\")
                ) @q"@,
        QueryType::String => "(
                    (binding attrpath: _ @a
                        expression: (string_expression (string_fragment) @l)
                    )
                    (#eq? @a \""@ + q.in_what + "\")
                    (#match? @l \""@ + q.what + "\")
                ) @q"@,
        QueryType::BindingAStringInsteadOfList => "(
                    (binding attrpath: _ @a expression: (string_expression) @l)
                    (#match? @a \""@ + q.in_what + "\")
                ) @q"@,
        QueryType::ArgToOptionalAList => "(
                    (apply_expression
                        function:
                            (apply_expression
                              function: (_ (_) @a)
                            )
                        argument: (list_expression) @l
                    )
                    (#match? @a \"^optional$\")
                ) @q"@,
        QueryType::XInFormals => "(
                    (function_expression
                        formals: (formals
                            (formal
                                (identifier) @q))
                    )
                    (#match? @q \""@ + q.what + "\")
                )"@,
        QueryType::RecursiveAttrSet => "(
                    (apply_expression
                        function: _ @f
                        argument: (rec_attrset_expression)
                    )
                    (#match? @f \""@ + q.in_what + "\")
                ) @q"@,
        QueryType::BindingWithExpression => "(
                    (binding
                        attrpath: _ @a
                        expression: (with_expression
                            environment: _ @e
                        )
                    )
                    (#eq? @a \""@ + q.in_what + "\")
                    (#eq? @e \""@ + q.what + "\")
                ) @q"@,
        QueryType::AttrNameInFunction => "(
                    (apply_expression function: _ @f
                        argument: (_ (_ (binding attrpath: _ @q)))
                    )
                    (#match? @f \""@ + q.in_what + "\")
                    (#eq? @q \""@ + q.what + "\")
                )"@,
        QueryType::AttrValueInContext => "(
                    (apply_expression
                        function: _ @f
                        argument: (_ (_ (binding
                            attrpath: _ @a
                            expression: (string_expression _ @q)
                    ))))
                    (#eq? @f \""@ + q.context + "\")
                    (#eq? @a \""@ + q.in_what + "\")
                    (#match? @q \""@ + q.what + "\")
                )"@,
    }
}

impl AQuery {
    /// The query compiler: render this rule as the tree-sitter pattern
    /// that detects its kind of construct.
    pub fn query_string(&self) -> (r: String)
        ensures
            r@ == query_string_spec(self@),
    {
        let mut s = String::new();
        match self.type_of_query {
            QueryType::List => {
                s.append("(
                    (binding attrpath: _ @a expression: _ @l)
                    (#eq? @a \"");
                s.append(self.in_what.as_str());
                s.append("\")
                    (#match? @l \"");
                s.append(self.what.as_str());
                s.append("\")
                ) @q");
            }
            QueryType::String => {
                s.append("(
                    (binding attrpath: _ @a
                        expression: (string_expression (string_fragment) @l)
                    )
                    (#eq? @a \"");
                s.append(self.in_what.as_str());
                s.append("\")
                    (#match? @l \"");
                s.append(self.what.as_str());
                s.append("\")
                ) @q");
            }
            QueryType::BindingAStringInsteadOfList => {
                s.append("(
                    (binding attrpath: _ @a expression: (string_expression) @l)
                    (#match? @a \"");
                s.append(self.in_what.as_str());
                s.append("\")
                ) @q");
            }
            QueryType::ArgToOptionalAList => {
                s.append("(
                    (apply_expression
                        function:
                            (apply_expression
                              function: (_ (_) @a)
                            )
                        argument: (list_expression) @l
                    )
                    (#match? @a \"^optional$\")
                ) @q");
            }
            QueryType::XInFormals => {
                s.append("(
                    (function_expression
                        formals: (formals
                            (formal
                                (identifier) @q))
                    )
                    (#match? @q \"");
                s.append(self.what.as_str());
                s.append("\")
                )");
            }
            QueryType::RecursiveAttrSet => {
                s.append("(
                    (apply_expression
                        function: _ @f
                        argument: (rec_attrset_expression)
                    )
                    (#match? @f \"");
                s.append(self.in_what.as_str());
                s.append("\")
                ) @q");
            }
            QueryType::BindingWithExpression => {
                s.append("(
                    (binding
                        attrpath: _ @a
                        expression: (with_expression
                            environment: _ @e
                        )
                    )
                    (#eq? @a \"");
                s.append(self.in_what.as_str());
                s.append("\")
                    (#eq? @e \"");
                s.append(self.what.as_str());
                s.append("\")
                ) @q");
            }
            QueryType::AttrNameInFunction => {
                s.append("(
                    (apply_expression function: _ @f
                        argument: (_ (_ (binding attrpath: _ @q)))
                    )
                    (#match? @f \"");
                s.append(self.in_what.as_str());
                s.append("\")
                    (#eq? @q \"");
                s.append(self.what.as_str());
                s.append("\")
                )");
            }
            QueryType::AttrValueInContext => {
                s.append("(
                    (apply_expression
                        function: _ @f
                        argument: (_ (_ (binding
                            attrpath: _ @a
                            expression: (string_expression _ @q)
                    ))))
                    (#eq? @f \"");
                s.append(self.context.as_str());
                s.append("\")
                    (#eq? @a \"");
                s.append(self.in_what.as_str());
                s.append("\")
                    (#match? @q \"");
                s.append(self.what.as_str());
                s.append("\")
                )");
            }
        }
        proof {
            assert(s@ =~= query_string_spec(self@));
        }
        s
    }
}

/// One reported occurrence of a rule in one document.
#[derive(Debug, PartialEq, Eq)]
pub struct AMatch {
    pub file: String,
    pub message: String,
    pub matched: String,
    pub fix: String,
    pub type_of_fix: TypeOfFix,
    pub line: usize,
    pub column: usize,
    pub end_column: usize,
    pub byte_range: Span,
    pub list_byte_range: Span,
    pub query: AQuery,
}

impl AMatch {
    /// A field-by-field copy whose contents are known to equal the
    /// original's.
    pub fn duplicate(&self) -> (r: AMatch)
        ensures
            r@ == self@,
    {
        AMatch {
            file: self.file.clone(),
            message: self.message.clone(),
            matched: self.matched.clone(),
            fix: self.fix.clone(),
            type_of_fix: self.type_of_fix,
            line: self.line,
            column: self.column,
            end_column: self.end_column,
            byte_range: self.byte_range,
            list_byte_range: self.list_byte_range,
            query: self.query.duplicate(),
        }
    }
}

/// The mathematical image of an `AMatch`.
pub ghost struct MatchV {
    pub file: Seq<char>,
    pub message: Seq<char>,
    pub matched: Seq<char>,
    pub fix: Seq<char>,
    pub type_of_fix: TypeOfFix,
    pub line: usize,
    pub column: usize,
    pub end_column: usize,
    pub byte_range: Span,
    pub list_byte_range: Span,
    pub query: QueryV,
}

impl View for AMatch {
    type V = MatchV;

    open spec fn view(&self) -> MatchV {
        MatchV {
            file: self.file@,
            message: self.message@,
            matched: self.matched@,
            fix: self.fix@,
            type_of_fix: self.type_of_fix,
            line: self.line,
            column: self.column,
            end_column: self.end_column,
            byte_range: self.byte_range,
            list_byte_range: self.list_byte_range,
            query: self.query@,
        }
    }
}

} // verus!
