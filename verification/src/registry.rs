//! The catalog of search functions: their names and how each is written in
//! a query.

use crate::matching::{resolve, MatchKind};
use vstd::prelude::*;

verus! {

/// The name under which the engine knows the full-text match.
pub const MATCH_UDF_NAME: &'static str = "str_match";

/// The name under which the engine knows the full-text match that does not
/// regard case.
pub const MATCH_UDF_IGNORE_CASE_NAME: &'static str = "str_match_ignore_case";

/// The name under which the engine knows the regular-expression match.
pub const REGEX_MATCH_UDF_NAME: &'static str = "re_match";

/// The name under which the engine knows the negated regular-expression
/// match.
pub const REGEX_NOT_MATCH_UDF_NAME: &'static str = "re_not_match";

/// One search function: its name, and an example of how it is written.
#[derive(Debug, Clone, Copy, PartialEq, Eq)]
pub struct FunctionDescriptor {
    pub name: &'static str,
    pub text: &'static str,
}

/// How many functions the catalog lists.
pub open spec fn catalog_len() -> nat {
    7
}

/// The name of the catalog's entry at position `i`, in display order.
pub open spec fn catalog_name(i: int) -> Seq<char> {
    if i == 0 {
        "match_all_raw"@
    } else if i == 1 {
        "match_all_raw_ignore_case"@
    } else if i == 2 {
        "match_all"@
    } else if i == 3 {
        "str_match"@
    } else if i == 4 {
        "str_match_ignore_case"@
    } else if i == 5 {
        "re_match"@
    } else {
        "re_not_match"@
    }
}

/// The example text of the catalog's entry at position `i`.
pub open spec fn catalog_text(i: int) -> Seq<char> {
    if i == 0 {
        "match_all_raw('v')"@
    } else if i == 1 {
        "match_all_raw_ignore_case('v')"@
    } else if i == 2 {
        "match_all('v')"@
    } else if i == 3 {
        "match_all('v')"@
    } else if i == 4 {
        "match_all_ignore_case('v')"@
    } else if i == 5 {
        "re_match(field, 'pattern')"@
    } else {
        "re_not_match(field, 'pattern')"@
    }
}

/// Whether a list of descriptors is the catalog: the same entries in the
/// same order.
pub open spec fn is_catalog(entries: Seq<FunctionDescriptor>) -> bool {
    &&& entries.len() == catalog_len()
    &&& forall|i: int|
        0 <= i < entries.len() ==> (#[trigger] entries[i]).name@ == catalog_name(i)
            && entries[i].text@ == catalog_text(i)
}

/// The catalog of search functions, in display order. It is the same list
/// at every call.
pub fn default_functions() -> (r: Vec<FunctionDescriptor>)
    ensures
        is_catalog(r@),
{
    let mut entries: Vec<FunctionDescriptor> = Vec::new();
    entries.push(FunctionDescriptor { name: "match_all_raw", text: "match_all_raw('v')" });
    entries.push(
        FunctionDescriptor {
            name: "match_all_raw_ignore_case",
            text: "match_all_raw_ignore_case('v')",
        },
    );
    entries.push(FunctionDescriptor { name: "match_all", text: "match_all('v')" });
    entries.push(FunctionDescriptor { name: MATCH_UDF_NAME, text: "match_all('v')" });
    entries.push(
        FunctionDescriptor {
            name: MATCH_UDF_IGNORE_CASE_NAME,
            text: "match_all_ignore_case('v')",
        },
    );
    entries.push(
        FunctionDescriptor { name: REGEX_MATCH_UDF_NAME, text: "re_match(field, 'pattern')" },
    );
    entries.push(
        FunctionDescriptor {
            name: REGEX_NOT_MATCH_UDF_NAME,
            text: "re_not_match(field, 'pattern')",
        },
    );
    entries
}

/// No two entries of the catalog share a name.
pub proof fn lemma_catalog_names_distinct(i: int, j: int)
    requires
        0 <= i < j < catalog_len(),
    ensures
        catalog_name(i) != catalog_name(j),
{
    reveal_strlit("match_all_raw");
    reveal_strlit("match_all_raw_ignore_case");
    reveal_strlit("match_all");
    reveal_strlit("str_match");
    reveal_strlit("str_match_ignore_case");
    reveal_strlit("re_match");
    reveal_strlit("re_not_match");
    assert("match_all_raw"@.len() == 13);
    assert("match_all_raw_ignore_case"@.len() == 25);
    assert("match_all"@.len() == 9 && "match_all"@[0] == 'm');
    assert("str_match"@.len() == 9 && "str_match"@[0] == 's');
    assert("str_match_ignore_case"@.len() == 21);
    assert("re_match"@.len() == 8);
    assert("re_not_match"@.len() == 12);
}

/// `match_all` and the canonical name of the full-text match are two
/// entries of the catalog with one and the same example text, and both
/// stand for the full-text match.
pub proof fn lemma_catalog_alias()
    ensures
        catalog_name(2) == "match_all"@,
        catalog_name(3) == "str_match"@,
        catalog_text(2) == catalog_text(3),
        catalog_text(2) == "match_all('v')"@,
        resolve(catalog_name(2)) == Some(MatchKind::MatchAll),
        resolve(catalog_name(3)) == Some(MatchKind::MatchAll),
{
}

/// Every predicate's canonical name is an entry of the catalog: the name
/// written in a query and the name the engine knows are one text.
pub proof fn lemma_canonical_names_listed(kind: MatchKind)
    ensures
        exists|i: int|
            0 <= i < catalog_len() && #[trigger] catalog_name(i)
                == crate::matching::canonical_name(kind),
{
    match kind {
        MatchKind::MatchAll => {
            assert(catalog_name(3) == crate::matching::canonical_name(kind));
        },
        MatchKind::MatchAllIgnoreCase => {
            assert(catalog_name(4) == crate::matching::canonical_name(kind));
        },
        MatchKind::RegexMatch => {
            assert(catalog_name(5) == crate::matching::canonical_name(kind));
        },
        MatchKind::RegexNotMatch => {
            assert(catalog_name(6) == crate::matching::canonical_name(kind));
        },
    }
}

} // verus!
