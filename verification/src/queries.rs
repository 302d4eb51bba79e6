//! The built-in rule catalog: a stable set enabled by default, and an
//! experimental set, known to be incomplete or over-eager, that a
//! caller opts into.  Both are fixed data, built once at startup and
//! shared read-only.

use vstd::prelude::*;
use crate::engine::query_views;
use crate::query::{AQuery, QueryType, QueryV, TypeOfFix};

verus! {

/// Build one catalog entry.
fn mk_query(
    name: &str,
    solution: &str,
    what: &str,
    in_what: &str,
    context: &str,
    type_of_query: QueryType,
    type_of_fix: TypeOfFix,
) -> (r: AQuery)
    ensures
        r@ == (QueryV {
            name: name@,
            solution: solution@,
            what: what@,
            in_what: in_what@,
            context: context@,
            type_of_query,
            type_of_fix,
        }),
{
    AQuery {
        name: name.to_owned(),
        solution: solution.to_owned(),
        what: what.to_owned(),
        in_what: in_what.to_owned(),
        context: context.to_owned(),
        type_of_query,
        type_of_fix,
    }
}

/// The stable rules, in catalog order.
pub open spec fn default_catalog() -> Seq<QueryV> {
    seq![
        QueryV {
            name: "build time tool in buildInputs"@,
            solution: "move this from buildInputs to nativeBuildInputs"@,
            what: "cmake|makeWrapper|pkg-config|intltool|autoreconfHook"@,
            in_what: "buildInputs"@,
            context: ""@,
            type_of_query: QueryType::List,
            type_of_fix: TypeOfFix::Move,
        },
        QueryV {
            name: "*Flags not a list"@,
            solution: "convert to a list"@,
            what: ""@,
            in_what: "Flags"@,
            context: ""@,
            type_of_query: QueryType::BindingAStringInsteadOfList,
            type_of_fix: TypeOfFix::ConvertToList,
        },
        QueryV {
            name: "Arg to lib.optional is a list"@,
            solution: "change lib.optional to lib.optionals"@,
            what: ""@,
            in_what: ""@,
            context: ""@,
            type_of_query: QueryType::ArgToOptionalAList,
            type_of_fix: TypeOfFix::Change,
        },
        QueryV {
            name: "unnormalized python pname"@,
            solution: "normalize this according to PEP503, for example, lowercase and use `-` instead of `.` and `_`"@,
            what: "[A-Z._]"@,
            in_what: "pname"@,
            context: "buildPythonPackage"@,
            type_of_query: QueryType::AttrValueInContext,
            type_of_fix: TypeOfFix::Change,
        },
    ]
}

/// Append the stable rules to a caller's rule list, in catalog order.
pub fn add_default_queries(queries: &mut Vec<AQuery>)
    ensures
        query_views(final(queries)@) == query_views(old(queries)@) + default_catalog(),
{
    let ghost base = queries@;
    queries.push(
        mk_query(
            "build time tool in buildInputs",
            "move this from buildInputs to nativeBuildInputs",
            "cmake|makeWrapper|pkg-config|intltool|autoreconfHook",
            "buildInputs",
            "",
            QueryType::List,
            TypeOfFix::Move,
        ),
    );
    queries.push(
        mk_query(
            "*Flags not a list",
            "convert to a list",
            "",
            "Flags",
            "",
            QueryType::BindingAStringInsteadOfList,
            TypeOfFix::ConvertToList,
        ),
    );
    queries.push(
        mk_query(
            "Arg to lib.optional is a list",
            "change lib.optional to lib.optionals",
            "",
            "",
            "",
            QueryType::ArgToOptionalAList,
            TypeOfFix::Change,
        ),
    );
    queries.push(
        mk_query(
            "unnormalized python pname",
            "normalize this according to PEP503, for example, lowercase and use `-` instead of `.` and `_`",
            "[A-Z._]",
            "pname",
            "buildPythonPackage",
            QueryType::AttrValueInContext,
            TypeOfFix::Change,
        ),
    );
    proof {
        assert(query_views(queries@) =~= query_views(base) + default_catalog());
    }
}

/// The experimental rules, in catalog order.
pub open spec fn unfinished_catalog() -> Seq<QueryV> {
    seq![
        QueryV {
            name: "redundant package from stdenv in nativeBuildInputs"@,
            solution: "remove this from nativeBuildInputs"@,
            what: "coreutils|findutils|diffutils|gnugrep|gawk|gnutar|gzip|bzip2\\.bin|gnumake|bash|patch|xz\\.bin|file"@,
            in_what: "nativeBuildInputs"@,
            context: ""@,
            type_of_query: QueryType::List,
            type_of_fix: TypeOfFix::Remove,
        },
        QueryV {
            name: "starts with definite or indefinite article in description"@,
            solution: "remove a definite/indefinite article from meta.description"@,
            what: "^(A|The) "@,
            in_what: "description"@,
            context: ""@,
            type_of_query: QueryType::String,
            type_of_fix: TypeOfFix::Change,
        },
        QueryV {
            name: "no capitalization in description"@,
            solution: "be capitalized"@,
            what: "^[a-z]"@,
            in_what: "description"@,
            context: ""@,
            type_of_query: QueryType::String,
            type_of_fix: TypeOfFix::Change,
        },
        QueryV {
            name: "ends with period in description"@,
            solution: "remove a period from meta.description"@,
            what: "\\\\.$"@,
            in_what: "description"@,
            context: ""@,
            type_of_query: QueryType::String,
            type_of_fix: TypeOfFix::Change,
        },
        QueryV {
            name: "rec keyword with mkDerivation"@,
            solution: "consider to use finalAttrs pattern"@,
            what: ""@,
            in_what: "mkDerivation"@,
            context: ""@,
            type_of_query: QueryType::RecursiveAttrSet,
            type_of_fix: TypeOfFix::Change,
        },
        QueryV {
            name: "refs/tags with rev"@,
            solution: "replace rev with tag and remove the prefix, refs/tags/"@,
            what: "^refs/tags/"@,
            in_what: "rev"@,
            context: "fetchFromGitHub"@,
            type_of_query: QueryType::AttrValueInContext,
            type_of_fix: TypeOfFix::Change,
        },
        QueryV {
            name: "SRI hash"@,
            solution: "replace this with hash"@,
            what: "sha256"@,
            in_what: "fetchFromGitHub|fetchPypi"@,
            context: ""@,
            type_of_query: QueryType::AttrNameInFunction,
            type_of_fix: TypeOfFix::Change,
        },
        QueryV {
            name: "binding with expression"@,
            solution: "remove with expression"@,
            what: "lib"@,
            in_what: "meta"@,
            context: ""@,
            type_of_query: QueryType::BindingWithExpression,
            type_of_fix: TypeOfFix::Change,
        },
        QueryV {
            name: "deprecated format attribute usage"@,
            solution: "set `pyproject = true` instead"@,
            what: "setuptools|pyproject"@,
            in_what: "format"@,
            context: ""@,
            type_of_query: QueryType::String,
            type_of_fix: TypeOfFix::Change,
        },
        QueryV {
            name: "deprecated format attribute usage"@,
            solution: "set `pyproject = false` instead"@,
            what: "other"@,
            in_what: "format"@,
            context: ""@,
            type_of_query: QueryType::String,
            type_of_fix: TypeOfFix::Change,
        },
        QueryV {
            name: "unnecessary wheel in build-system"@,
            solution: "remove this from build-system"@,
            what: "wheel"@,
            in_what: "build-system"@,
            context: ""@,
            type_of_query: QueryType::List,
            type_of_fix: TypeOfFix::Remove,
        },
        QueryV {
            name: "python package in nativeBuildInputs"@,
            solution: "move this from nativeBuildInputs to build-system"@,
            what: "setuptools|setuptools-scm|hatchling|flit-core|poetry-core|pdm-backend|wheel|maturinBuildHook|"@,
            in_what: "nativeBuildInputs"@,
            context: ""@,
            type_of_query: QueryType::List,
            type_of_fix: TypeOfFix::Move,
        },
        QueryV {
            name: "redundant package in nativeBuildInputs"@,
            solution: "remove this from nativeBuildInputs"@,
            what: "pythonRelaxDepsHook"@,
            in_what: "nativeBuildInputs"@,
            context: ""@,
            type_of_query: QueryType::List,
            type_of_fix: TypeOfFix::Move,
        },
        QueryV {
            name: "versioned package in dependencies"@,
            solution: "change `package_X_Y` to `package`"@,
            what: "[a-z0-9-]+_[0-9]+"@,
            in_what: "dependencies"@,
            context: ""@,
            type_of_query: QueryType::List,
            type_of_fix: TypeOfFix::Change,
        },
        QueryV {
            name: "pytest-cov in nativeCheckInputs"@,
            solution: "remove this from nativeCheckInputs or change to pytest-cov-stub"@,
            what: "pytest-cov"@,
            in_what: "nativeCheckInputs"@,
            context: ""@,
            type_of_query: QueryType::List,
            type_of_fix: TypeOfFix::Remove,
        },
        QueryV {
            name: "pytest-benchmark in nativeCheckInputs"@,
            solution: "remove this from nativeCheckInputs or pass `--benchmark-disable` to pytestFlagsArray"@,
            what: "pytest-benchmark"@,
            in_what: "nativeCheckInputs"@,
            context: ""@,
            type_of_query: QueryType::List,
            type_of_fix: TypeOfFix::Remove,
        },
        QueryV {
            name: "non functional testing tool in nativeCheckInputs"@,
            solution: "remove this from nativeCheckInputs"@,
            what: "pytest-runner|flake8|black|isort|coverage|ruff"@,
            in_what: "nativeCheckInputs"@,
            context: ""@,
            type_of_query: QueryType::List,
            type_of_fix: TypeOfFix::Remove,
        },
        QueryV {
            name: "deprecated testing tool in nativeCheckInputs"@,
            solution: "remove this from nativeCheckInputs"@,
            what: "nose"@,
            in_what: "nativeCheckInputs"@,
            context: ""@,
            type_of_query: QueryType::List,
            type_of_fix: TypeOfFix::Remove,
        },
        QueryV {
            name: "bare pytest in nativeCheckInputs"@,
            solution: "change pytest to pytestCheckHook"@,
            what: "pytest"@,
            in_what: "nativeCheckInputs"@,
            context: ""@,
            type_of_query: QueryType::List,
            type_of_fix: TypeOfFix::Change,
        },
    ]
}

/// Append the experimental rules to a caller's rule list, in catalog
/// order.
pub fn add_unfinished_queries(queries: &mut Vec<AQuery>)
    ensures
        query_views(final(queries)@) == query_views(old(queries)@) + unfinished_catalog(),
{
    let ghost base = queries@;
    queries.push(
        mk_query(
            "redundant package from stdenv in nativeBuildInputs",
            "remove this from nativeBuildInputs",
            "coreutils|findutils|diffutils|gnugrep|gawk|gnutar|gzip|bzip2\\.bin|gnumake|bash|patch|xz\\.bin|file",
            "nativeBuildInputs",
            "",
            QueryType::List,
            TypeOfFix::Remove,
        ),
    );
    queries.push(
        mk_query(
            "starts with definite or indefinite article in description",
            "remove a definite/indefinite article from meta.description",
            "^(A|The) ",
            "description",
            "",
            QueryType::String,
            TypeOfFix::Change,
        ),
    );
    queries.push(
        mk_query(
            "no capitalization in description",
            "be capitalized",
            "^[a-z]",
            "description",
            "",
            QueryType::String,
            TypeOfFix::Change,
        ),
    );
    queries.push(
        mk_query(
            "ends with period in description",
            "remove a period from meta.description",
            "\\\\.$",
            "description",
            "",
            QueryType::String,
            TypeOfFix::Change,
        ),
    );
    queries.push(
        mk_query(
            "rec keyword with mkDerivation",
            "consider to use finalAttrs pattern",
            "",
            "mkDerivation",
            "",
            QueryType::RecursiveAttrSet,
            TypeOfFix::Change,
        ),
    );
    queries.push(
        mk_query(
            "refs/tags with rev",
            "replace rev with tag and remove the prefix, refs/tags/",
            "^refs/tags/",
            "rev",
            "fetchFromGitHub",
            QueryType::AttrValueInContext,
            TypeOfFix::Change,
        ),
    );
    queries.push(
        mk_query(
            "SRI hash",
            "replace this with hash",
            "sha256",
            "fetchFromGitHub|fetchPypi",
            "",
            QueryType::AttrNameInFunction,
            TypeOfFix::Change,
        ),
    );
    queries.push(
        mk_query(
            "binding with expression",
            "remove with expression",
            "lib",
            "meta",
            "",
            QueryType::BindingWithExpression,
            TypeOfFix::Change,
        ),
    );
    queries.push(
        mk_query(
            "deprecated format attribute usage",
            "set `pyproject = true` instead",
            "setuptools|pyproject",
            "format",
            "",
            QueryType::String,
            TypeOfFix::Change,
        ),
    );
    queries.push(
        mk_query(
            "deprecated format attribute usage",
            "set `pyproject = false` instead",
            "other",
            "format",
            "",
            QueryType::String,
            TypeOfFix::Change,
        ),
    );
    queries.push(
        mk_query(
            "unnecessary wheel in build-system",
            "remove this from build-system",
            "wheel",
            "build-system",
            "",
            QueryType::List,
            TypeOfFix::Remove,
        ),
    );
    queries.push(
        mk_query(
            "python package in nativeBuildInputs",
            "move this from nativeBuildInputs to build-system",
            "setuptools|setuptools-scm|hatchling|flit-core|poetry-core|pdm-backend|wheel|maturinBuildHook|",
            "nativeBuildInputs",
            "",
            QueryType::List,
            TypeOfFix::Move,
        ),
    );
    queries.push(
        mk_query(
            "redundant package in nativeBuildInputs",
            "remove this from nativeBuildInputs",
            "pythonRelaxDepsHook",
            "nativeBuildInputs",
            "",
            QueryType::List,
            TypeOfFix::Move,
        ),
    );
    queries.push(
        mk_query(
            "versioned package in dependencies",
            "change `package_X_Y` to `package`",
            "[a-z0-9-]+_[0-9]+",
            "dependencies",
            "",
            QueryType::List,
            TypeOfFix::Change,
        ),
    );
    queries.push(
        mk_query(
            "pytest-cov in nativeCheckInputs",
            "remove this from nativeCheckInputs or change to pytest-cov-stub",
            "pytest-cov",
            "nativeCheckInputs",
            "",
            QueryType::List,
            TypeOfFix::Remove,
        ),
    );
    queries.push(
        mk_query(
            "pytest-benchmark in nativeCheckInputs",
            "remove this from nativeCheckInputs or pass `--benchmark-disable` to pytestFlagsArray",
            "pytest-benchmark",
            "nativeCheckInputs",
            "",
            QueryType::List,
            TypeOfFix::Remove,
        ),
    );
    queries.push(
        mk_query(
            "non functional testing tool in nativeCheckInputs",
            "remove this from nativeCheckInputs",
            "pytest-runner|flake8|black|isort|coverage|ruff",
            "nativeCheckInputs",
            "",
            QueryType::List,
            TypeOfFix::Remove,
        ),
    );
    queries.push(
        mk_query(
            "deprecated testing tool in nativeCheckInputs",
            "remove this from nativeCheckInputs",
            "nose",
            "nativeCheckInputs",
            "",
            QueryType::List,
            TypeOfFix::Remove,
        ),
    );
    queries.push(
        mk_query(
            "bare pytest in nativeCheckInputs",
            "change pytest to pytestCheckHook",
            "pytest",
            "nativeCheckInputs",
            "",
            QueryType::List,
            TypeOfFix::Change,
        ),
    );
    proof {
        assert(query_views(queries@) =~= query_views(base) + unfinished_catalog());
    }
}

} // verus!
