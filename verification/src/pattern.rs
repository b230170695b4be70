//! Compiled regular expressions of the `regex` crate, with what the library
//! relies on of their matching stated over the pattern text.

use vstd::prelude::*;

verus! {

/// The compiled regular expression type of the `regex` crate, carried opaquely.
#[verifier::external_type_specification]
#[verifier::external_body]
pub struct ExRegex(regex::Regex);

/// Whether `regex::Regex::new` accepts `pattern` (valid syntax, within the
/// default size limit).
pub uninterp spec fn regex_compiles(pattern: Seq<char>) -> bool;

/// What `regex::Regex::is_match` answers for the regex compiled from `pattern`
/// on `haystack`: whether a match exists anywhere in it.
pub uninterp spec fn regex_is_match(pattern: Seq<char>, haystack: Seq<char>) -> bool;

/// The text of the capture group named `group` in the first (leftmost-first)
/// match of `pattern` in `haystack`, as `regex::Regex::captures` followed by
/// `regex::Captures::name` give it; `None` when there is no match or the
/// group took no part in it.
pub uninterp spec fn regex_named_group(
    pattern: Seq<char>,
    haystack: Seq<char>,
    group: Seq<char>,
) -> Option<Seq<char>>;

/// What `regex::Regex::replace_all` returns for the regex compiled from
/// `pattern`: `haystack` with every non-overlapping match replaced by
/// `replacement`.
pub uninterp spec fn regex_replace_all(
    pattern: Seq<char>,
    haystack: Seq<char>,
    replacement: Seq<char>,
) -> Seq<char>;

/// A regular expression together with the pattern text it was compiled from.
///
/// Values are only made by [`Pattern::compile`], so `regex` is always the
/// compilation of `source`.
pub struct Pattern {
    regex: regex::Regex,
    source: String,
}

impl View for Pattern {
    type V = Seq<char>;

    /// The pattern text.
    closed spec fn view(&self) -> Seq<char> {
        self.source@
    }
}

impl Pattern {
    /// Compiles `pattern` with `regex::Regex::new`.
    ///
    /// Trusted: the result is `Some` exactly when the regex crate accepts the
    /// pattern, and then it holds that pattern. Which patterns the crate
    /// accepts is left to the name `regex_compiles`.
    #[verifier::external_body]
    pub(crate) fn compile(pattern: &str) -> (res: Option<Pattern>)
        ensures
            res is Some <==> regex_compiles(pattern@),
            res matches Some(p) ==> p@ == pattern@,
    {
        match regex::Regex::new(pattern) {
            Ok(regex) => Some(Pattern { regex, source: pattern.to_string() }),
            Err(_) => None,
        }
    }

    /// Calls `regex::Regex::is_match`.
    ///
    /// Trusted: the answer is the name `regex_is_match` of the pattern and the
    /// haystack.
    #[verifier::external_body]
    pub(crate) fn is_match(&self, haystack: &str) -> (res: bool)
        ensures
            res == regex_is_match(self@, haystack@),
    {
        self.regex.is_match(haystack)
    }

    /// Calls `regex::Regex::captures` and then `regex::Captures::name`.
    ///
    /// Trusted: the result is the name `regex_named_group`; as the crate
    /// documents, a group is only found where the regex matches.
    #[verifier::external_body]
    pub(crate) fn named_group(&self, haystack: &str, group: &str) -> (res: Option<String>)
        ensures
            res.deep_view() == regex_named_group(self@, haystack@, group@),
            res is Some ==> regex_is_match(self@, haystack@),
    {
        match self.regex.captures(haystack) {
            Some(caps) => match caps.name(group) {
                Some(m) => Some(m.as_str().to_string()),
                None => None,
            },
            None => None,
        }
    }

    /// Calls `regex::Regex::replace_all`.
    ///
    /// Trusted: the result is the name `regex_replace_all`; as the crate
    /// documents, a haystack without a match comes back unchanged.
    #[verifier::external_body]
    pub(crate) fn replace_all(&self, haystack: &str, replacement: &str) -> (res: String)
        ensures
            res@ == regex_replace_all(self@, haystack@, replacement@),
            !regex_is_match(self@, haystack@) ==> res@ == haystack@,
    {
        self.regex.replace_all(haystack, replacement).into_owned()
    }
}

} // verus!
