use nixpkgs_lint::engine::{aggregate_results, find_lints, LintError};
use rayon::prelude::ParallelIterator;
use rayon::prelude::IntoParallelRefIterator;
use nixpkgs_lint::pattern::value_pattern_matches;
use nixpkgs_lint::queries::add_default_queries;
use nixpkgs_lint::query::{AQuery, QueryType, Span, TypeOfFix};

fn default_queries() -> Vec<AQuery> {
    let mut qs: Vec<AQuery> = Vec::new();
    add_default_queries(&mut qs);
    qs
}

#[test]
fn scenario_build_time_tool_in_build_inputs() {
    let code = "{ buildInputs = [ cmake gcc ]; }";
    let qs = default_queries();
    let ms = find_lints("pkg.nix", code, &qs).unwrap();
    assert_eq!(ms.len(), 1);
    let m = &ms[0];
    assert_eq!(m.file, "pkg.nix");
    assert_eq!(m.matched, "cmake");
    assert_eq!(m.message, "build time tool in buildInputs");
    assert_eq!(m.fix, "move this from buildInputs to nativeBuildInputs");
    assert!(matches!(m.type_of_fix, TypeOfFix::Move));
    assert_eq!(m.line, 1);
    assert_eq!(m.column, 19);
    assert_eq!(m.end_column, 24);
    assert_eq!(&code[m.byte_range.start..m.byte_range.end], "cmake");
    assert_eq!(
        &code[m.list_byte_range.start..m.list_byte_range.end],
        "[ cmake gcc ]"
    );
}

#[test]
fn scenario_no_build_inputs_attribute() {
    let code = "{ foo = [ cmake pkgconfig ]; }";
    let qs = default_queries();
    let ms = find_lints("pkg.nix", code, &qs).unwrap();
    assert_eq!(ms.len(), 0);
}

#[test]
fn scenario_unparsable_file_aborts() {
    let code = "{ buildInputs = [ cmake";
    let qs = default_queries();
    let r = find_lints("broken.nix", code, &qs);
    assert!(matches!(r, Err(LintError::ParseFailed)));
}

#[test]
fn empty_attrset_has_no_matches() {
    let qs = default_queries();
    let ms = find_lints("empty.nix", "{ }", &qs).unwrap();
    assert_eq!(ms.len(), 0);
}

#[test]
fn list_context_strictly_contains_match() {
    let code = "{ buildInputs = [ cmake gcc ]; }";
    let qs = default_queries();
    let ms = find_lints("pkg.nix", code, &qs).unwrap();
    for m in &ms {
        assert!(m.list_byte_range.start < m.list_byte_range.end);
        assert!(m.list_byte_range.start < m.byte_range.start);
        assert!(m.byte_range.end < m.list_byte_range.end);
    }
}

#[test]
fn non_list_rule_has_empty_context() {
    let code = "{ description = \"A tool\"; }";
    let mut qs: Vec<AQuery> = Vec::new();
    qs.push(AQuery {
        name: "starts with definite or indefinite article in description".to_string(),
        solution: "remove a definite/indefinite article from meta.description".to_string(),
        what: "^(A|The) ".to_string(),
        in_what: "description".to_string(),
        context: String::new(),
        type_of_query: QueryType::String,
        type_of_fix: TypeOfFix::Change,
    });
    let ms = find_lints("pkg.nix", code, &qs).unwrap();
    assert_eq!(ms.len(), 1);
    assert_eq!(ms[0].list_byte_range, Span { start: 0, end: 0 });
}

#[test]
fn engine_is_deterministic_and_idempotent() {
    let code = "{ buildInputs = [ cmake pkg-config gcc ]; }";
    let qs = default_queries();
    let first = find_lints("pkg.nix", code, &qs).unwrap();
    let second = find_lints("pkg.nix", code, &qs).unwrap();
    assert_eq!(first, second);
    assert_eq!(first.len(), 2);
}

#[test]
fn anchored_pattern_rejects_partial_matches() {
    let pat = "cmake|pkg-config";
    assert_eq!(value_pattern_matches(pat, "cmake"), Some(true));
    assert_eq!(value_pattern_matches(pat, "pkg-config"), Some(true));
    assert_eq!(value_pattern_matches(pat, "libcmake"), Some(false));
    assert_eq!(value_pattern_matches(pat, "cmake-foo"), Some(false));
}

#[test]
fn invalid_value_pattern_is_reported_with_rule_name() {
    let mut qs: Vec<AQuery> = Vec::new();
    qs.push(AQuery {
        name: "broken rule".to_string(),
        solution: "none".to_string(),
        what: "(".to_string(),
        in_what: "buildInputs".to_string(),
        context: String::new(),
        type_of_query: QueryType::List,
        type_of_fix: TypeOfFix::Remove,
    });
    let r = find_lints("pkg.nix", "{ }", &qs);
    assert_eq!(r, Err(LintError::InvalidRegex("broken rule".to_string())));
}

#[test]
fn invalid_query_pattern_is_reported_with_rule_name() {
    let mut qs: Vec<AQuery> = Vec::new();
    qs.push(AQuery {
        name: "quoted rule".to_string(),
        solution: "none".to_string(),
        what: "x".to_string(),
        in_what: "a\"b".to_string(),
        context: String::new(),
        type_of_query: QueryType::List,
        type_of_fix: TypeOfFix::Remove,
    });
    let r = find_lints("pkg.nix", "{ }", &qs);
    assert_eq!(r, Err(LintError::InvalidQuery("quoted rule".to_string())));
}

#[test]
fn aggregation_keeps_every_files_matches() {
    let qs = default_queries();
    let with_match = find_lints("a.nix", "{ buildInputs = [ cmake ]; }", &qs);
    let without = find_lints("b.nix", "{ buildInputs = [ gcc ]; }", &qs);
    let joined = aggregate_results(&vec![with_match, without]).unwrap();
    assert_eq!(joined.len(), 1);
    assert_eq!(joined[0].file, "a.nix");
    assert_eq!(joined[0].matched, "cmake");
}

#[test]
fn aggregation_stops_at_the_first_error() {
    let qs = default_queries();
    let ok = find_lints("a.nix", "{ buildInputs = [ cmake ]; }", &qs);
    let bad = find_lints("b.nix", "{ buildInputs = [", &qs);
    let also_ok = find_lints("c.nix", "{ }", &qs);
    let r = aggregate_results(&vec![ok, bad, also_ok]);
    assert_eq!(r, Err(LintError::ParseFailed));
}

#[test]
fn parallel_pipeline_yields_only_the_matching_files_lints() {
    let qs = default_queries();
    let inputs: Vec<(&str, &str)> = vec![
        ("match.nix", "{ buildInputs = [ cmake gcc ]; }"),
        ("clean.nix", "{ buildInputs = [ gcc ]; }"),
    ];
    let results: Vec<Result<_, _>> = inputs
        .par_iter()
        .map(|(path, code)| find_lints(path, code, &qs))
        .collect();
    let joined = aggregate_results(&results).unwrap();
    assert_eq!(joined.len(), 1);
    assert_eq!(joined[0].file, "match.nix");
    assert_eq!(joined[0].matched, "cmake");
}

#[test]
fn trimming_happens_before_parsing() {
    let code = "\n\n   { buildInputs = [ cmake ]; }   \n";
    let qs = default_queries();
    let ms = find_lints("pkg.nix", code, &qs).unwrap();
    assert_eq!(ms.len(), 1);
    // Positions are relative to the trimmed text.
    assert_eq!(ms[0].line, 1);
    let trimmed = code.trim();
    assert_eq!(
        &trimmed[ms[0].byte_range.start..ms[0].byte_range.end],
        "cmake"
    );
}
