//! Search expressions used to recognise a reply whose text is not known in
//! advance.
use vstd::prelude::*;

verus! {

#[verifier::external_type_specification]
#[verifier::external_body]
pub struct ExRegex(regex::Regex);

#[verifier::external_type_specification]
#[verifier::external_body]
pub struct ExRegexError(regex::Error);

/// Whether `regex::Regex::new` accepts the expression `source`.
pub uninterp spec fn regex_compiles(source: Seq<char>) -> bool;

/// Whether the expression `source` matches somewhere inside `haystack`.
pub uninterp spec fn regex_finds(source: Seq<char>, haystack: Seq<char>) -> bool;

/// Why an expression could not be turned into a [`Pattern`].
#[derive(Clone, Copy, Debug, PartialEq, Eq)]
pub enum PatternError {
    /// The expression is malformed, or compiles to more than the default
    /// size limit allows.
    Invalid,
}

/// A compiled search expression together with the text it was compiled from.
///
/// The fields are private: the only way to build a `Pattern` is
/// [`Pattern::new`], so `re` is always the compiled form of `source`.
pub struct Pattern {
    source: String,
    re: regex::Regex,
}

/// Relies on `regex::Regex::new`: whether it succeeds depends on the
/// expression alone.
#[verifier::external_body]
fn compile_regex(source: &str) -> (r: Result<regex::Regex, regex::Error>)
    ensures
        r is Ok <==> regex_compiles(source@),
{
    regex::Regex::new(source)
}

/// Relies on `regex::Regex::is_match`: true if and only if the expression
/// matches somewhere in the haystack. The expression is `p.re`, which
/// [`Pattern::new`] compiled from `p.source`.
#[verifier::external_body]
fn regex_is_match(p: &Pattern, haystack: &str) -> (r: bool)
    ensures
        r == regex_finds(p.source@, haystack@),
{
    p.re.is_match(haystack)
}

impl View for Pattern {
    type V = Seq<char>;

    /// A pattern is seen as the expression it was compiled from.
    closed spec fn view(&self) -> Seq<char> {
        self.source@
    }
}

impl Pattern {
    /// Compiles `source`; fails exactly when the expression is not accepted.
    pub fn new(source: &str) -> (r: Result<Pattern, PatternError>)
        ensures
            r is Ok <==> regex_compiles(source@),
            r matches Ok(p) ==> p@ == source@,
    {
        match compile_regex(source) {
            Ok(re) => Ok(Pattern { source: source.to_owned(), re }),
            Err(_) => Err(PatternError::Invalid),
        }
    }

    /// The expression this pattern was compiled from.
    pub fn source(&self) -> (r: &str)
        ensures
            r@ == self@,
    {
        self.source.as_str()
    }

    /// Whether the pattern matches somewhere inside `line`.
    pub fn is_found_in(&self, line: &str) -> (r: bool)
        ensures
            r == regex_finds(self@, line@),
    {
        regex_is_match(self, line)
    }
}

} // verus!
