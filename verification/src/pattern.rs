//! Anchored regular-expression matching of captured values.
//!
//! A rule's `what` field is a regex over the text of one captured node.
//! The engine wraps it as `^(...)$` before handing it to the regex
//! engine, so the whole text has to match, not just a piece of it.

use vstd::prelude::*;
use vstd::string::StringExecFns;
use crate::query::AQuery;
use predicates::Predicate;

verus! {

/// Whether the regex engine accepts `pattern` as a well-formed regular
/// expression.  Decided by the engine alone, from the pattern alone.
pub uninterp spec fn regex_ok(pattern: Seq<char>) -> bool;

/// Whether the regex compiled from `pattern` finds a match somewhere
/// inside `text`.  Decided by the regex engine alone, from its two
/// arguments alone.
pub uninterp spec fn regex_found(pattern: Seq<char>, text: Seq<char>) -> bool;

/// `pattern` wrapped so that only a match over the whole text counts.
pub open spec fn anchored(pattern: Seq<char>) -> Seq<char> {
    "^("@ + pattern + ")$"@
}

/// Wrap a rule's value pattern in the anchors that make a partial
/// match insufficient.
pub fn anchor_pattern(pattern: &str) -> (r: String)
    ensures
        r@ == anchored(pattern@),
{
    let mut s = String::new();
    s.append("^(");
    s.append(pattern);
    s.append(")$");
    proof {
        assert(s@ =~= anchored(pattern@));
    }
    s
}

#[verifier::external_type_specification]
#[verifier::external_body]
pub struct ExRegexPredicate(predicates::str::RegexPredicate);

/// Relies on predicates::str::is_match (regex::Regex::new under it):
/// Some exactly when the pattern is a well-formed regular expression.
#[verifier::external_body]
pub fn compile_regex(pattern: &str) -> (r: Option<predicates::str::RegexPredicate>)
    ensures
        r is Some <==> regex_ok(pattern@),
{
    predicates::str::is_match(pattern).ok()
}

/// Relies on predicates::str::is_match and on Predicate::eval for
/// RegexPredicate (regex::Regex::is_match under it): when the pattern
/// compiles, whether it matches somewhere inside `text`.
#[verifier::external_body]
pub fn regex_eval(pattern: &str, text: &str) -> (r: Option<bool>)
    ensures
        r is Some <==> regex_ok(pattern@),
        r matches Some(found) ==> found == regex_found(pattern@, text@),
{
    match predicates::str::is_match(pattern) {
        Ok(p) => Some(p.eval(text)),
        Err(_) => None,
    }
}

/// Compile a value pattern in its anchored form; None when it is not a
/// well-formed regular expression.
pub fn pred(pattern: &str) -> (r: Option<predicates::str::RegexPredicate>)
    ensures
        r is Some <==> regex_ok(anchored(pattern@)),
{
    let p = anchor_pattern(pattern);
    compile_regex(p.as_str())
}

/// Decide whether `text`, as a whole, matches the anchored value
/// pattern; None when the pattern is not a well-formed regular
/// expression.
pub fn value_pattern_matches(pattern: &str, text: &str) -> (r: Option<bool>)
    ensures
        r is Some <==> regex_ok(anchored(pattern@)),
        r matches Some(found) ==> found == regex_found(anchored(pattern@), text@),
{
    let p = anchor_pattern(pattern);
    regex_eval(p.as_str(), text)
}

impl AQuery {
    /// The predicate that decides whether a captured value matches this
    /// rule's value pattern as a whole; None when the pattern is not a
    /// well-formed regular expression.
    pub fn what_to_pred(&self) -> (r: Option<predicates::str::RegexPredicate>)
        ensures
            r is Some <==> regex_ok(anchored(self@.what)),
    {
        pred(self.what.as_str())
    }
}

} // verus!
