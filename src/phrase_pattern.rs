//! Case-insensitive whole-word phrase patterns, matched with the `regex`
//! crate.
use vstd::prelude::*;

verus! {

/// Declares `regex::Regex`, held opaque inside [`PhrasePattern`].
#[verifier::external_type_specification]
#[verifier::external_body]
pub struct ExRegex(regex::Regex);

/// What `regex::escape` returns for a string: the string with every regex
/// meta character escaped.
pub uninterp spec fn escaped_of(s: Seq<char>) -> Seq<char>;

/// Whether `regex::Regex::new` accepts a pattern.
pub uninterp spec fn compiles(pattern: Seq<char>) -> bool;

/// Whether the regex compiled from `pattern` matches somewhere in `text`.
pub uninterp spec fn pattern_matches(pattern: Seq<char>, text: Seq<char>) -> bool;

/// `text` with every non-overlapping match of the regex compiled from
/// `pattern` removed.
pub uninterp spec fn pattern_removed(pattern: Seq<char>, text: Seq<char>) -> Seq<char>;

/// Relies on `regex::escape`: the escaped form depends on the string alone.
#[verifier::external_body]
pub(crate) fn escape(s: &str) -> (r: String)
    ensures
        r@ == escaped_of(s@),
{
    regex::escape(s)
}

/// A compiled regex together with the pattern it was compiled from. Only
/// [`compile`] builds one, so `re` is always the regex of `source`.
pub struct PhrasePattern {
    source: String,
    re: regex::Regex,
}

impl PhrasePattern {
    /// The pattern the regex was compiled from.
    pub closed spec fn source(&self) -> Seq<char> {
        self.source@
    }
}

/// Relies on `regex::Regex::new`: whether a pattern compiles depends on the
/// pattern alone (its syntax and the default size limit).
#[verifier::external_body]
pub(crate) fn compile(source: String) -> (r: Option<PhrasePattern>)
    ensures
        r is Some == compiles(source@),
        r is Some ==> r->Some_0.source() == source@,
{
    match regex::Regex::new(&source) {
        Ok(re) => Some(PhrasePattern { source, re }),
        Err(_) => None,
    }
}

/// Relies on `regex::Regex::is_match`: whether the regex matches anywhere
/// in `text`.
#[verifier::external_body]
pub(crate) fn is_match(p: &PhrasePattern, text: &str) -> (r: bool)
    ensures
        r == pattern_matches(p.source(), text@),
{
    p.re.is_match(text)
}

/// Relies on `regex::Regex::replace_all` with an empty replacement: every
/// match removed; without a match the text comes back unchanged.
#[verifier::external_body]
pub(crate) fn remove_all(p: &PhrasePattern, text: &str) -> (r: String)
    ensures
        r@ == pattern_removed(p.source(), text@),
        !pattern_matches(p.source(), text@) ==> r@ == text@,
{
    p.re.replace_all(text, "").to_string()
}

} // verus!
