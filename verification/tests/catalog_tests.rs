use nixpkgs_lint::files::{is_hidden, is_nix_file};
use nixpkgs_lint::queries::{add_default_queries, add_unfinished_queries};
use nixpkgs_lint::query::{AQuery, QueryType, TypeOfFix};

#[test]
fn default_catalog_contents() {
    let mut qs: Vec<AQuery> = Vec::new();
    add_default_queries(&mut qs);
    assert_eq!(qs.len(), 4);
    assert_eq!(qs[0].name, "build time tool in buildInputs");
    assert_eq!(qs[0].in_what, "buildInputs");
    assert_eq!(
        qs[0].what,
        "cmake|makeWrapper|pkg-config|intltool|autoreconfHook"
    );
    assert!(matches!(qs[0].type_of_query, QueryType::List));
    assert!(matches!(qs[0].type_of_fix, TypeOfFix::Move));
    assert_eq!(qs[1].name, "*Flags not a list");
    assert!(matches!(
        qs[1].type_of_query,
        QueryType::BindingAStringInsteadOfList
    ));
    assert_eq!(qs[2].name, "Arg to lib.optional is a list");
    assert_eq!(qs[3].name, "unnormalized python pname");
    assert_eq!(qs[3].context, "buildPythonPackage");
}

#[test]
fn unfinished_catalog_contents() {
    let mut qs: Vec<AQuery> = Vec::new();
    add_unfinished_queries(&mut qs);
    assert_eq!(qs.len(), 19);
    assert_eq!(
        qs[0].name,
        "redundant package from stdenv in nativeBuildInputs"
    );
    assert_eq!(qs[18].name, "bare pytest in nativeCheckInputs");
    assert!(matches!(qs[18].type_of_fix, TypeOfFix::Change));
}

#[test]
fn catalogs_append_after_existing_rules() {
    let mut qs: Vec<AQuery> = Vec::new();
    add_default_queries(&mut qs);
    add_unfinished_queries(&mut qs);
    assert_eq!(qs.len(), 23);
    assert_eq!(qs[0].name, "build time tool in buildInputs");
    assert_eq!(qs[4].name, "redundant package from stdenv in nativeBuildInputs");
}

#[test]
fn list_query_string_shape() {
    let mut qs: Vec<AQuery> = Vec::new();
    add_default_queries(&mut qs);
    let s = qs[0].query_string();
    let expected = "(
                    (binding attrpath: _ @a expression: _ @l)
                    (#eq? @a \"buildInputs\")
                    (#match? @l \"cmake|makeWrapper|pkg-config|intltool|autoreconfHook\")
                ) @q";
    assert_eq!(s, expected);
}

#[test]
fn compiling_a_rule_twice_gives_the_same_pattern() {
    let mut qs: Vec<AQuery> = Vec::new();
    add_default_queries(&mut qs);
    add_unfinished_queries(&mut qs);
    for q in &qs {
        assert_eq!(q.query_string(), q.query_string());
    }
}

#[test]
fn what_to_pred_accepts_catalog_rules() {
    let mut qs: Vec<AQuery> = Vec::new();
    add_default_queries(&mut qs);
    add_unfinished_queries(&mut qs);
    for q in &qs {
        assert!(q.what_to_pred().is_some());
    }
}

#[test]
fn hidden_names() {
    assert!(is_hidden(".git"));
    assert!(is_hidden("."));
    assert!(!is_hidden("default.nix"));
    assert!(!is_hidden(""));
}

#[test]
fn nix_file_names() {
    assert!(is_nix_file("default.nix"));
    assert!(is_nix_file(".nix"));
    assert!(!is_nix_file("nix"));
    assert!(!is_nix_file("default.nix.bak"));
    assert!(!is_nix_file("README.md"));
}
