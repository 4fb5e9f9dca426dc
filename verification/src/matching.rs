//! The matching predicates: full-text match, match without regard to case,
//! regular-expression match and its negation.

use crate::text::{chars_of, contains, equals_text, find_in, fold, folded_chars_of};
use vstd::prelude::*;
use vstd::string::StringExecFns;

verus! {

/// A compiled regular expression of the `regex` crate.
#[verifier::external_type_specification]
#[verifier::external_body]
pub struct ExRegex(regex::Regex);

/// The error with which the `regex` crate refuses a pattern.
#[verifier::external_type_specification]
#[verifier::external_body]
pub struct ExRegexError(regex::Error);

/// The pattern text that a compiled expression was made from: what
/// `Regex::as_str` returns.
pub uninterp spec fn regex_source(re: regex::Regex) -> Seq<char>;

/// Whether a compiled expression finds a match anywhere in a text: what
/// `Regex::is_match` returns.
pub uninterp spec fn regex_accepts(re: regex::Regex, value: Seq<char>) -> bool;

/// Compiles a pattern with `Regex::new`. Whether it compiles is left to the
/// crate; an expression that comes back keeps the pattern it was given as its
/// source text.
#[verifier::external_body]
fn compile_regex(pattern: &str) -> (r: Result<regex::Regex, regex::Error>)
    ensures
        r matches Ok(re) ==> regex_source(re) == pattern@,
{
    regex::Regex::new(pattern)
}

/// Reads the source text of a compiled expression with `Regex::as_str`.
#[verifier::external_body]
fn regex_as_str(re: &regex::Regex) -> (r: &str)
    ensures
        r@ == regex_source(*re),
{
    re.as_str()
}

/// Searches a text with `Regex::is_match`: true exactly when the expression
/// matches somewhere in it.
#[verifier::external_body]
fn regex_is_match(re: &regex::Regex, value: &str) -> (r: bool)
    ensures
        r == regex_accepts(*re, value@),
{
    re.is_match(value)
}

/// A pattern that is no regular expression, with the reason.
#[derive(Debug)]
pub struct PatternCompilationError {
    /// The pattern as it was given.
    pub pattern: String,
    /// What the regular-expression compiler said of it.
    pub cause: regex::Error,
}

/// The error that reports `pattern`, given what the compiler said.
pub fn rejected_pattern(pattern: &str, cause: regex::Error) -> (e: PatternCompilationError)
    ensures
        e.pattern@ == pattern@,
        e.cause == cause,
{
    PatternCompilationError { pattern: String::from_str(pattern), cause }
}

/// A regular expression, compiled once and used for every value after.
#[derive(Debug)]
pub struct CompiledPattern {
    regex: regex::Regex,
}

impl CompiledPattern {
    /// The pattern text this expression was compiled from.
    pub closed spec fn source(&self) -> Seq<char> {
        regex_source(self.regex)
    }

    /// Whether the expression finds at least one match anywhere in `value`.
    pub closed spec fn accepts(&self, value: Seq<char>) -> bool {
        regex_accepts(self.regex, value)
    }

    /// What `compile` returns for `pattern`, given what the compiler made of
    /// it: the expression where there is one, else the error with the pattern
    /// and the compiler's reason.
    pub fn from_outcome(pattern: &str, outcome: Result<regex::Regex, regex::Error>) -> (r: Result<
        CompiledPattern,
        PatternCompilationError,
    >)
        ensures
            match outcome {
                Ok(re) => r matches Ok(compiled) && compiled.source() == regex_source(re) && forall|
                    value: Seq<char>,
                | #[trigger] compiled.accepts(value) == regex_accepts(re, value),
                Err(cause) => r matches Err(e) && e.pattern@ == pattern@ && e.cause == cause,
            },
    {
        match outcome {
            Ok(regex) => Ok(CompiledPattern { regex }),
            Err(cause) => Err(rejected_pattern(pattern, cause)),
        }
    }

    /// Compiles `pattern`. A pattern that does not compile is reported here,
    /// with its text, before any value is looked at.
    pub fn compile(pattern: &str) -> (r: Result<CompiledPattern, PatternCompilationError>)
        ensures
            r matches Ok(compiled) ==> compiled.source() == pattern@,
            r matches Err(e) ==> e.pattern@ == pattern@,
    {
        CompiledPattern::from_outcome(pattern, compile_regex(pattern))
    }

    /// The pattern text this expression was compiled from.
    pub fn pattern(&self) -> (r: &str)
        ensures
            r@ == self.source(),
    {
        regex_as_str(&self.regex)
    }
}

/// Full-text match: whether `pattern` occurs in `value` as a contiguous run
/// of characters, upper and lower case told apart.
pub fn match_all(value: &str, pattern: &str) -> (r: bool)
    ensures
        r == contains(value@, pattern@),
{
    let hay = chars_of(value);
    let needle = chars_of(pattern);
    find_in(&hay, &needle)
}

/// Full-text match without regard to case: both texts are put through the
/// simple lowercase fold (`A` to `Z` become `a` to `z`) and then searched.
pub fn match_all_ignore_case(value: &str, pattern: &str) -> (r: bool)
    ensures
        r == contains(fold(value@), fold(pattern@)),
{
    let hay = folded_chars_of(value);
    let needle = folded_chars_of(pattern);
    find_in(&hay, &needle)
}

/// Regular-expression match: whether the compiled pattern finds at least one
/// match anywhere in `value`.
pub fn regex_match(value: &str, pattern: &CompiledPattern) -> (r: bool)
    ensures
        r == pattern.accepts(value@),
{
    regex_is_match(&pattern.regex, value)
}

/// The negation of `regex_match`, on a pattern that has compiled.
pub fn regex_not_match(value: &str, pattern: &CompiledPattern) -> (r: bool)
    ensures
        r == !pattern.accepts(value@),
{
    !regex_match(value, pattern)
}

/// Which predicate a registered function is.
#[derive(PartialEq, Eq, Structural, Debug, Clone, Copy)]
pub enum MatchKind {
    MatchAll,
    MatchAllIgnoreCase,
    RegexMatch,
    RegexNotMatch,
}

/// The name under which the engine knows a predicate.
pub open spec fn canonical_name(kind: MatchKind) -> Seq<char> {
    match kind {
        MatchKind::MatchAll => "str_match"@,
        MatchKind::MatchAllIgnoreCase => "str_match_ignore_case"@,
        MatchKind::RegexMatch => "re_match"@,
        MatchKind::RegexNotMatch => "re_not_match"@,
    }
}

/// The predicate that a function name stands for. `match_all` is a second
/// name of the full-text match; every other predicate has its canonical name
/// only.
pub open spec fn resolve(name: Seq<char>) -> Option<MatchKind> {
    if name == "match_all"@ || name == "str_match"@ {
        Some(MatchKind::MatchAll)
    } else if name == "str_match_ignore_case"@ {
        Some(MatchKind::MatchAllIgnoreCase)
    } else if name == "re_match"@ {
        Some(MatchKind::RegexMatch)
    } else if name == "re_not_match"@ {
        Some(MatchKind::RegexNotMatch)
    } else {
        None
    }
}

impl MatchKind {
    /// The name under which the engine knows this predicate.
    pub fn name(self) -> (r: &'static str)
        ensures
            r@ == canonical_name(self),
    {
        match self {
            MatchKind::MatchAll => "str_match",
            MatchKind::MatchAllIgnoreCase => "str_match_ignore_case",
            MatchKind::RegexMatch => "re_match",
            MatchKind::RegexNotMatch => "re_not_match",
        }
    }

    /// The predicate that `name` stands for, if it names one.
    pub fn from_name(name: &str) -> (r: Option<MatchKind>)
        ensures
            r == resolve(name@),
    {
        let n = chars_of(name);
        if equals_text(&n, "match_all") || equals_text(&n, "str_match") {
            Some(MatchKind::MatchAll)
        } else if equals_text(&n, "str_match_ignore_case") {
            Some(MatchKind::MatchAllIgnoreCase)
        } else if equals_text(&n, "re_match") {
            Some(MatchKind::RegexMatch)
        } else if equals_text(&n, "re_not_match") {
            Some(MatchKind::RegexNotMatch)
        } else {
            None
        }
    }

    /// Whether this predicate needs its pattern compiled.
    pub open spec fn uses_regex(self) -> bool {
        self == MatchKind::RegexMatch || self == MatchKind::RegexNotMatch
    }
}

/// A predicate together with its pattern, made ready once and then applied
/// to one value after another.
#[derive(Debug)]
pub struct Matcher {
    kind: MatchKind,
    pattern: String,
    needle: Vec<char>,
    compiled: Option<CompiledPattern>,
}

/// Why a predicate could not be made ready.
#[derive(Debug)]
pub enum PrepareError {
    /// The name is that of no matching function.
    UnknownFunction,
    /// The pattern is no regular expression.
    Pattern(PatternCompilationError),
}

impl Matcher {
    /// Which predicate this is.
    pub closed spec fn kind(&self) -> MatchKind {
        self.kind
    }

    /// The pattern as it was given.
    pub closed spec fn pattern(&self) -> Seq<char> {
        self.pattern@
    }

    /// The compiled pattern; the two regular-expression predicates have one.
    pub closed spec fn compiled(&self) -> Option<CompiledPattern> {
        self.compiled
    }

    /// Whether the compiled pattern finds a match in `value`.
    pub open spec fn accepts(&self, value: Seq<char>) -> bool {
        self.compiled() matches Some(compiled) && compiled.accepts(value)
    }

    /// What holds of every matcher that `new` or `for_name` returned.
    pub closed spec fn wf(&self) -> bool {
        match self.kind {
            MatchKind::MatchAll => self.needle@ == self.pattern@ && self.compiled is None,
            MatchKind::MatchAllIgnoreCase => self.needle@ == fold(self.pattern@)
                && self.compiled is None,
            _ => self.compiled is Some && self.compiled->Some_0.source() == self.pattern@,
        }
    }

    /// Whether the predicate holds of `value`.
    pub open spec fn holds(&self, value: Seq<char>) -> bool {
        match self.kind() {
            MatchKind::MatchAll => contains(value, self.pattern()),
            MatchKind::MatchAllIgnoreCase => contains(fold(value), fold(self.pattern())),
            MatchKind::RegexMatch => self.accepts(value),
            MatchKind::RegexNotMatch => !self.accepts(value),
        }
    }

    /// Makes a predicate ready. The two full-text predicates always succeed;
    /// a regular-expression predicate fails here, once, where its pattern
    /// does not compile, and the error carries the pattern.
    pub fn new(kind: MatchKind, pattern: &str) -> (r: Result<Matcher, PatternCompilationError>)
        ensures
            !kind.uses_regex() ==> r is Ok,
            r matches Ok(m) ==> m.wf() && m.kind() == kind && m.pattern() == pattern@,
            r matches Ok(m) ==> (kind.uses_regex() <==> m.compiled() is Some),
            r matches Ok(m) ==> (m.compiled() matches Some(compiled) ==> compiled.source()
                == pattern@),
            r matches Err(e) ==> kind.uses_regex() && e.pattern@ == pattern@,
    {
        match kind {
            MatchKind::MatchAll => Ok(
                Matcher {
                    kind,
                    pattern: String::from_str(pattern),
                    needle: chars_of(pattern),
                    compiled: None,
                },
            ),
            MatchKind::MatchAllIgnoreCase => Ok(
                Matcher {
                    kind,
                    pattern: String::from_str(pattern),
                    needle: folded_chars_of(pattern),
                    compiled: None,
                },
            ),
            _ => match CompiledPattern::compile(pattern) {
                Ok(compiled) => Ok(
                    Matcher {
                        kind,
                        pattern: String::from_str(pattern),
                        needle: Vec::new(),
                        compiled: Some(compiled),
                    },
                ),
                Err(e) => Err(e),
            },
        }
    }

    /// What `for_name` returns, given the predicate that the name stands for
    /// and what making it ready gave.
    pub fn prepared(
        kind: Option<MatchKind>,
        made: Result<Matcher, PatternCompilationError>,
    ) -> (r: Result<Matcher, PrepareError>)
        ensures
            kind is None ==> r == Err::<Matcher, PrepareError>(PrepareError::UnknownFunction),
            kind is Some ==> match made {
                Ok(m) => r == Ok::<Matcher, PrepareError>(m),
                Err(e) => r == Err::<Matcher, PrepareError>(PrepareError::Pattern(e)),
            },
    {
        match kind {
            None => Err(PrepareError::UnknownFunction),
            Some(_) => match made {
                Ok(m) => Ok(m),
                Err(e) => Err(PrepareError::Pattern(e)),
            },
        }
    }

    /// Makes ready the predicate registered under `name`. A name that stands
    /// for no predicate is refused; so is a pattern that does not compile.
    pub fn for_name(name: &str, pattern: &str) -> (r: Result<Matcher, PrepareError>)
        ensures
            resolve(name@) is None <==> r == Err::<Matcher, PrepareError>(
                PrepareError::UnknownFunction,
            ),
            resolve(name@) matches Some(kind) && !kind.uses_regex() ==> r is Ok,
            r matches Ok(m) ==> m.wf() && Some(m.kind()) == resolve(name@) && m.pattern()
                == pattern@,
            r matches Err(PrepareError::Pattern(e)) ==> e.pattern@ == pattern@ && resolve(
                name@,
            ) is Some && resolve(name@)->Some_0.uses_regex(),
    {
        match MatchKind::from_name(name) {
            None => Err(PrepareError::UnknownFunction),
            Some(kind) => Matcher::prepared(Some(kind), Matcher::new(kind, pattern)),
        }
    }

    /// Applies the predicate to one value.
    pub fn evaluate(&self, value: &str) -> (r: bool)
        requires
            self.wf(),
        ensures
            r == self.holds(value@),
    {
        match self.kind {
            MatchKind::MatchAll => {
                let hay = chars_of(value);
                find_in(&hay, &self.needle)
            },
            MatchKind::MatchAllIgnoreCase => {
                let hay = folded_chars_of(value);
                find_in(&hay, &self.needle)
            },
            MatchKind::RegexMatch => match &self.compiled {
                Some(compiled) => regex_match(value, compiled),
                None => false,
            },
            MatchKind::RegexNotMatch => match &self.compiled {
                Some(compiled) => regex_not_match(value, compiled),
                None => true,
            },
        }
    }
}

/// The two names of the full-text match stand for one predicate: made ready
/// with the same pattern, they give the same answer on every value.
pub proof fn lemma_alias_same_result(a: Matcher, b: Matcher, value: Seq<char>)
    requires
        Some(a.kind()) == resolve("match_all"@),
        Some(b.kind()) == resolve("str_match"@),
        a.pattern() == b.pattern(),
    ensures
        a.kind() == b.kind(),
        a.holds(value) == b.holds(value),
        a.holds(value) == contains(value, a.pattern()),
{
}

/// Every predicate is found again under its canonical name, and no two
/// predicates share one.
pub proof fn lemma_canonical_name_resolves(kind: MatchKind)
    ensures
        resolve(canonical_name(kind)) == Some(kind),
{
    reveal_strlit("match_all");
    reveal_strlit("str_match");
    reveal_strlit("str_match_ignore_case");
    reveal_strlit("re_match");
    reveal_strlit("re_not_match");
    assert("match_all"@[0] == 'm' && "str_match"@[0] == 's');
    assert("str_match"@.len() == 9 && "str_match_ignore_case"@.len() == 21);
    assert("re_match"@.len() == 8 && "re_not_match"@.len() == 12);
    assert("match_all"@.len() == 9);
}

} // verus!
