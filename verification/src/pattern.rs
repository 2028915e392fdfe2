//! The optional line filter, delegated to the `regex` crate.
//!
//! What the engine decides is named, not restated: `regex_accepts` stands for
//! whether `regex::Regex::new` accepts a pattern, and `regex_match` for what
//! `regex::Regex::is_match` answers on a pattern and a haystack. Both are
//! functions of their text arguments alone.

use vstd::prelude::*;

use crate::error::TimelnError;

verus! {

#[verifier::external_type_specification]
#[verifier::external_body]
pub struct ExRegex(regex::Regex);

/// Whether `regex::Regex::new` accepts `pattern` as a valid pattern.
pub uninterp spec fn regex_accepts(pattern: Seq<char>) -> bool;

/// The pattern text a compiled `regex::Regex` was built from, as
/// `regex::Regex::as_str` answers it.
pub uninterp spec fn regex_source(re: regex::Regex) -> Seq<char>;

/// What `regex::Regex::is_match` answers for a pattern and a haystack.
pub uninterp spec fn regex_match(pattern: Seq<char>, text: Seq<char>) -> bool;

/// The text of the leftmost match `regex::Regex::find` reports for a
/// pattern and a haystack, meaningful when the pattern matches at all.
pub uninterp spec fn regex_first_match(pattern: Seq<char>, text: Seq<char>) -> Seq<char>;

/// Relies on regex::Regex::new: it answers Ok exactly on patterns it accepts,
/// and the compiled value keeps the pattern text (regex::Regex::as_str).
#[verifier::external_body]
fn regex_compile(pattern: &str) -> (r: Result<regex::Regex, String>)
    ensures
        r is Ok <==> regex_accepts(pattern@),
        r matches Ok(re) ==> regex_source(re) == pattern@,
{
    match regex::Regex::new(pattern) {
        Ok(re) => Ok(re),
        Err(e) => Err(format!("{}", e)),
    }
}

/// Relies on regex::Regex::is_match: deterministic in the pattern and the
/// haystack.
#[verifier::external_body]
fn regex_is_match(re: &regex::Regex, text: &str) -> (r: bool)
    ensures
        r == regex_match(regex_source(*re), text@),
{
    re.is_match(text)
}

/// Relies on regex::Regex::find: it answers Some exactly when the pattern
/// matches the haystack, and hands back the text of the leftmost match,
/// which is deterministic in the pattern and the haystack.
#[verifier::external_body]
fn regex_find_text(re: &regex::Regex, text: &str) -> (r: Option<String>)
    ensures
        r is Some <==> regex_match(regex_source(*re), text@),
        r matches Some(m) ==> m@ == regex_first_match(regex_source(*re), text@),
{
    re.find(text).map(|m| m.as_str().to_owned())
}

/// A line filter compiled once at startup from a pattern text.
pub struct PatternFilter {
    pattern: String,
    re: regex::Regex,
}

impl PatternFilter {
    #[verifier::type_invariant]
    spec fn wf(&self) -> bool {
        regex_source(self.re) == self.pattern@
    }

    /// The pattern text this filter was built from.
    pub closed spec fn spec_pattern(&self) -> Seq<char> {
        self.pattern@
    }

    /// Compiles `pattern`; fails exactly when the engine rejects it, before
    /// any line is read.
    pub fn new(pattern: &str) -> (r: Result<PatternFilter, TimelnError>)
        ensures
            r is Ok <==> regex_accepts(pattern@),
            r matches Ok(f) ==> f.spec_pattern() == pattern@,
            r matches Err(e) ==> e is Regex,
    {
        match regex_compile(pattern) {
            Ok(re) => Ok(PatternFilter { pattern: pattern.to_owned(), re }),
            Err(msg) => Err(TimelnError::Regex(msg)),
        }
    }

    /// Whether the pattern matches anywhere in `text`.
    pub fn is_match(&self, text: &str) -> (r: bool)
        ensures
            r == regex_match(self.spec_pattern(), text@),
    {
        proof {
            use_type_invariant(&*self);
        }
        regex_is_match(&self.re, text)
    }

    /// The text of the leftmost match in `text`, present exactly when the
    /// pattern matches.
    pub fn find_text(&self, text: &str) -> (r: Option<String>)
        ensures
            r is Some <==> regex_match(self.spec_pattern(), text@),
            r matches Some(m) ==> m@ == regex_first_match(self.spec_pattern(), text@),
    {
        proof {
            use_type_invariant(&*self);
        }
        regex_find_text(&self.re, text)
    }

    /// The pattern text this filter was built from.
    pub fn pattern(&self) -> (r: &String)
        ensures
            r@ == self.spec_pattern(),
    {
        &self.pattern
    }
}

} // verus!
