//! Trusted boundary to the `regex` crate.
//!
//! A `CompiledRegex` pairs a compiled `regex::Regex` with the pattern text
//! it was compiled from; its view is that pattern text. What the regex
//! engine decides about a pattern and a haystack is named by uninterpreted
//! spec functions: the engine's answers depend on the pattern and the
//! haystack alone, so the names are well defined, and every contract above
//! this module speaks only through them.

use vstd::prelude::*;

verus! {

#[verifier::external_type_specification]
#[verifier::external_body]
pub struct ExRegex(regex::Regex);

#[verifier::external_type_specification]
#[verifier::external_body]
pub struct ExRegexError(regex::Error);

/// Whether `regex::Regex::new` accepts `pattern`.
pub uninterp spec fn re_compiles(pattern: Seq<char>) -> bool;

/// What `regex::Regex::is_match` returns for a regex compiled from
/// `pattern` when applied to `text`.
pub uninterp spec fn re_is_match(pattern: Seq<char>, text: Seq<char>) -> bool;

/// What the capture group named `nature` of a regex compiled from
/// `pattern` captures on `text`: the captured text when the pattern
/// matches and the group participates in the match, nothing otherwise.
pub uninterp spec fn re_nature_capture(pattern: Seq<char>, text: Seq<char>) -> Option<Seq<char>>;

/// What `regex::escape` returns for `text`.
pub uninterp spec fn re_escape(text: Seq<char>) -> Seq<char>;

/// A regex compiled by the `regex` crate, together with the pattern text
/// it was compiled from. The view of a `CompiledRegex` is the pattern.
pub struct CompiledRegex {
    regex: regex::Regex,
    pattern: String,
}

impl View for CompiledRegex {
    type V = Seq<char>;

    closed spec fn view(&self) -> Seq<char> {
        self.pattern@
    }
}

impl DeepView for CompiledRegex {
    type V = Seq<char>;

    open spec fn deep_view(&self) -> Seq<char> {
        self.view()
    }
}

impl CompiledRegex {
    /// Relies on `regex::Regex::new`: compiling succeeds exactly when the
    /// pattern is a valid regex, and depends on the pattern alone.
    #[verifier::external_body]
    pub fn new(pattern: &str) -> (r: Result<CompiledRegex, regex::Error>)
        ensures
            r is Ok <==> re_compiles(pattern@),
            r matches Ok(c) ==> c@ == pattern@,
    {
        match regex::Regex::new(pattern) {
            Ok(regex) => Ok(CompiledRegex { regex, pattern: pattern.to_string() }),
            Err(e) => Err(e),
        }
    }

    /// The pattern this regex was compiled from.
    pub fn pattern(&self) -> (r: &str)
        ensures
            r@ == self@,
    {
        self.pattern.as_str()
    }

    /// Relies on `regex::Regex::is_match`: whether the pattern matches
    /// somewhere in `text`; a pure function of pattern and haystack.
    #[verifier::external_body]
    pub fn is_match(&self, text: &str) -> (r: bool)
        ensures
            r == re_is_match(self@, text@),
    {
        self.regex.is_match(text)
    }

    /// Relies on `regex::Regex::captures` and `regex::Captures::name`: the
    /// text captured by the group named `nature`, when the pattern matches
    /// `text` and the group participates in the match; a pure function of
    /// pattern and haystack.
    #[verifier::external_body]
    pub fn capture_nature(&self, text: &str) -> (r: Option<String>)
        ensures
            r matches Some(s) ==> re_nature_capture(self@, text@) == Some(s@),
            r is None ==> re_nature_capture(self@, text@) is None,
    {
        match self.regex.captures(text) {
            Some(caps) => match caps.name("nature") {
                Some(m) => Some(m.as_str().to_string()),
                None => None,
            },
            None => None,
        }
    }
}

/// Relies on `regex::escape`: the result is the escaped text wrapped in
/// anchors. The escape makes the text safe as a regex literal; whether
/// the anchored pattern compiles is still the engine's decision (it
/// enforces a size limit), so nothing is claimed of that here, and rule
/// compilation reports a pattern the engine refuses.
#[verifier::external_body]
pub fn exact_match_pattern(text: &str) -> (r: String)
    ensures
        r@ == seq!['^'] + re_escape(text@) + seq!['$'],
{
    format!("^{}$", regex::escape(text))
}

} // verus!
