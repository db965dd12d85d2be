//! Transcript handling for streaming providers.
use crate::transcript::chars_of;
use crate::voice_commands::{join_words, lower_of, lowercase, same_text, spaced, words};
use vstd::prelude::*;

verus! {

/// The punctuation removed from streamed transcripts.
pub open spec fn is_punctuation(c: char) -> bool {
    c == '.' || c == ',' || c == '/' || c == '#' || c == '!' || c == '$' || c == '%' || c == '^'
        || c == '&' || c == '*' || c == ';' || c == ':' || c == '{' || c == '}' || c == '=' || c
        == '_' || c == '\'' || c == '`' || c == '~' || c == '(' || c == ')' || c == '[' || c == ']'
        || c == '"' || c == '<' || c == '>' || c == '?' || c == '@' || c == '+' || c == '|' || c
        == '\\' || c == '-'
}

/// `s` without its punctuation.
pub open spec fn unpunctuated(s: Seq<char>) -> Seq<char>
    decreases s.len(),
{
    if s.len() == 0 {
        s
    } else if is_punctuation(s.last()) {
        unpunctuated(s.drop_last())
    } else {
        unpunctuated(s.drop_last()).push(s.last())
    }
}

/// Whether `c` is removed from streamed transcripts.
fn punctuation(c: char) -> (r: bool)
    ensures
        r == is_punctuation(c),
{
    c == '.' || c == ',' || c == '/' || c == '#' || c == '!' || c == '$' || c == '%' || c == '^'
        || c == '&' || c == '*' || c == ';' || c == ':' || c == '{' || c == '}' || c == '=' || c
        == '_' || c == '\'' || c == '`' || c == '~' || c == '(' || c == ')' || c == '[' || c == ']'
        || c == '"' || c == '<' || c == '>' || c == '?' || c == '@' || c == '+' || c == '|' || c
        == '\\' || c == '-'
}

/// A streamed transcript lowercased, without punctuation, its words joined
/// by single spaces.
pub fn normalize_whisper_transcript(text: &str) -> (r: String)
    ensures
        r@ == spaced(words(unpunctuated(lower_of(text@)))),
{
    let lower = lowercase(text);
    let cs = chars_of(lower.as_str());
    let mut cleaned = String::new();
    let mut i: usize = 0;
    while i < cs.len()
        invariant
            cs@ == lower@,
            lower@ == lower_of(text@),
            i <= cs@.len(),
            cleaned@ == unpunctuated(cs@.subrange(0, i as int)),
        decreases cs.len() - i,
    {
        let c = cs[i];
        proof {
            assert(cs@.subrange(0, i + 1).drop_last() =~= cs@.subrange(0, i as int));
        }
        if !punctuation(c) {
            cleaned.append(lower.as_str().substring_char(i, i + 1));
            assert(lower@.subrange(i as int, i + 1) =~= seq![c]);
            assert(cleaned@ =~= unpunctuated(cs@.subrange(0, i + 1)));
        }
        i = i + 1;
    }
    assert(cs@.subrange(0, cs@.len() as int) =~= cs@);
    join_words(cleaned.as_str())
}

/// The language sent to the Cartesia streaming service: none for "multi"
/// or an empty language, the language itself otherwise.
pub fn cartesia_language(language: String) -> (r: Option<String>)
    ensures
        r is None <==> (language@ == "multi"@ || language@.len() == 0),
        r is Some ==> r->Some_0@ == language@,
{
    if same_text(language.as_str(), "multi") || language.as_str().unicode_len() == 0 {
        None
    } else {
        Some(language)
    }
}

} // verus!
