use vstd::prelude::*;

verus! {

#[verifier::external_type_specification]
#[verifier::external_body]
pub struct ExRegex(regex::Regex);

#[verifier::external_type_specification]
#[verifier::external_body]
pub struct ExRegexError(regex::Error);

/// Whether `regex::Regex::new` accepts `pattern` (its syntax is valid and the
/// compiled program stays within the default size limits).
pub uninterp spec fn regex_compiles(pattern: Seq<char>) -> bool;

/// Whether the regex compiled from `pattern` with default options matches
/// somewhere in `haystack`.
pub uninterp spec fn regex_finds(pattern: Seq<char>, haystack: Seq<char>) -> bool;

/// A regular expression together with the text it was compiled from.
/// The two fields are set together, by `compile` alone.
pub struct NamePattern {
    source: String,
    compiled: regex::Regex,
}

impl NamePattern {
    /// The text the pattern was compiled from.
    pub closed spec fn text(&self) -> Seq<char> {
        self.source@
    }

    /// Relies on `regex::Regex::new`: it succeeds exactly on the patterns that
    /// `regex_compiles` names, with default options, and fails with its error
    /// otherwise.
    #[verifier::external_body]
    pub(crate) fn compile(pattern: &str) -> (r: Result<NamePattern, regex::Error>)
        ensures
            r is Ok <==> regex_compiles(pattern@),
            r matches Ok(p) ==> p.text() == pattern@,
    {
        match regex::Regex::new(pattern) {
            Ok(compiled) => Ok(NamePattern { source: pattern.to_string(), compiled }),
            Err(e) => Err(e),
        }
    }

    /// Relies on `regex::Regex::is_match`: true exactly when the regex matches
    /// somewhere in `haystack`.
    #[verifier::external_body]
    pub(crate) fn finds(&self, haystack: &str) -> (r: bool)
        ensures
            r == regex_finds(self.text(), haystack@),
    {
        self.compiled.is_match(haystack)
    }

    /// The text the pattern was compiled from.
    pub fn as_str(&self) -> (r: &str)
        ensures
            r@ == self.text(),
    {
        self.source.as_str()
    }
}

} // verus!
