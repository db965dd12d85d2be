//! The decisions taken around a transcription request: checking it, choosing
//! the provider and language, wording failures, and choosing the text to
//! insert once voice commands were applied.
use crate::transcript::{trim_text, trimmed};
use crate::voice_commands::{same_text, ProcessedText};
use vstd::prelude::*;

verus! {

/// A cloud transcription provider.
#[derive(Debug, Clone, Copy, PartialEq, Eq, Structural)]
pub enum Provider {
    Groq,
    SambaNova,
    Fireworks,
    Gemini,
    Mistral,
}

/// How transcribed text reaches the focused application.
#[derive(Debug, Clone, Copy, PartialEq, Eq, Structural)]
pub enum InsertionMethod {
    /// Typed key by key.
    Typing,
    /// Pasted through the clipboard.
    Clipboard,
}

/// The provider named by a service setting; Groq when none or an unknown
/// one is named.
pub open spec fn provider_spec(service: Option<Seq<char>>) -> Provider {
    match service {
        Some(s) => if s == "sambanova"@ {
            Provider::SambaNova
        } else if s == "fireworks"@ {
            Provider::Fireworks
        } else if s == "gemini"@ {
            Provider::Gemini
        } else if s == "mistral"@ {
            Provider::Mistral
        } else {
            Provider::Groq
        },
        None => Provider::Groq,
    }
}

/// The view of an optional string.
pub open spec fn opt_chars(o: Option<String>) -> Option<Seq<char>> {
    match o {
        Some(s) => Some(s@),
        None => None,
    }
}

/// The provider a request goes to.
pub fn provider_for(api_service: &Option<String>) -> (r: Provider)
    ensures
        r == provider_spec(opt_chars(*api_service)),
{
    match api_service {
        None => Provider::Groq,
        Some(s) => {
            let s = s.as_str();
            if same_text(s, "sambanova") {
                Provider::SambaNova
            } else if same_text(s, "fireworks") {
                Provider::Fireworks
            } else if same_text(s, "gemini") {
                Provider::Gemini
            } else if same_text(s, "mistral") {
                Provider::Mistral
            } else {
                Provider::Groq
            }
        },
    }
}

/// The insertion method named by a mode setting: "typing" types, anything
/// else pastes.
pub fn insertion_method(insertion_mode: &str) -> (r: InsertionMethod)
    ensures
        r == (if insertion_mode@ == "typing"@ {
            InsertionMethod::Typing
        } else {
            InsertionMethod::Clipboard
        }),
{
    if same_text(insertion_mode, "typing") {
        InsertionMethod::Typing
    } else {
        InsertionMethod::Clipboard
    }
}

/// The language sent to a provider: none (auto-detection) for no language,
/// an empty one or "multilingual"; the language itself otherwise.
pub fn normalize_language(language: Option<String>) -> (r: Option<String>)
    ensures
        opt_chars(r) == match opt_chars(language) {
            Some(l) => if l.len() == 0 || l == "multilingual"@ {
                None
            } else {
                Some(l)
            },
            None => None,
        },
{
    match language {
        None => None,
        Some(code) => {
            if code.as_str().unicode_len() == 0 || same_text(code.as_str(), "multilingual") {
                None
            } else {
                Some(code)
            }
        },
    }
}

/// Checks a transcription request before it is sent: audio must be present
/// and the API key must hold more than whitespace.
pub fn validate_request(audio_len: usize, api_key: &str) -> (r: Result<(), String>)
    ensures
        audio_len == 0 ==> r is Err && r->Err_0@ == "No audio data provided"@,
        audio_len > 0 && trimmed(api_key@).len() == 0 ==> r is Err && r->Err_0@
            == "API key is not set"@,
        audio_len > 0 && trimmed(api_key@).len() > 0 ==> r is Ok,
{
    if audio_len == 0 {
        return Err(String::from_str("No audio data provided"));
    }
    if trim_text(api_key).as_str().unicode_len() == 0 {
        return Err(String::from_str("API key is not set"));
    }
    Ok(())
}

/// Whether `needle` occurs in `hay`.
pub open spec fn occurs(hay: Seq<char>, needle: Seq<char>) -> bool {
    exists|i: int|
        0 <= i && i + needle.len() <= hay.len() && #[trigger] hay.subrange(i, i + needle.len())
            == needle
}

/// Whether `needle` occurs in `hay`.
pub fn contains_text(hay: &str, needle: &str) -> (r: bool)
    ensures
        r == occurs(hay@, needle@),
{
    let h = hay.unicode_len();
    let n = needle.unicode_len();
    if n > h {
        return false;
    }
    let last: usize = h - n;
    let mut i: usize = 0;
    while i <= last
        invariant
            h == hay@.len(),
            n == needle@.len(),
            n <= h,
            last == h - n,
            forall|k: int| 0 <= k < i ==> #[trigger] hay@.subrange(k, k + n) != needle@,
        decreases h - i,
    {
        let mut j: usize = 0;
        let mut same = true;
        assert(hay@.subrange(i as int, i as int) =~= needle@.subrange(0, 0));
        while j < n
            invariant
                h == hay@.len(),
                n == needle@.len(),
                i + n <= h,
                j <= n,
                same == (hay@.subrange(i as int, i + j) == needle@.subrange(0, j as int)),
            decreases n - j,
        {
            if same {
                let a = hay.get_char(i + j);
                let b = needle.get_char(j);
                proof {
                    assert(hay@.subrange(i as int, i + j + 1) =~= hay@.subrange(i as int, i + j).push(a));
                    assert(needle@.subrange(0, j + 1) =~= needle@.subrange(0, j as int).push(b));
                    if hay@.subrange(i as int, i + j + 1) == needle@.subrange(0, j + 1) {
                        assert(hay@.subrange(i as int, i + j + 1)[j as int] == needle@.subrange(0, j + 1)[j as int]);
                    }
                }
                same = a == b;
            } else {
                proof {
                    if hay@.subrange(i as int, i + j + 1) == needle@.subrange(0, j + 1) {
                        assert(hay@.subrange(i as int, i + j) =~= hay@.subrange(i as int, i + j + 1).subrange(0, j as int));
                        assert(needle@.subrange(0, j as int) =~= needle@.subrange(0, j + 1).subrange(0, j as int));
                    }
                }
            }
            j = j + 1;
        }
        assert(needle@.subrange(0, n as int) =~= needle@);
        if same {
            return true;
        }
        if i == last {
            return false;
        }
        i = i + 1;
    }
    false
}

/// The message shown when a provider failed with `error`.
pub open spec fn transcription_error_spec(error: Seq<char>) -> Seq<char> {
    if occurs(error, "rate limit"@) || occurs(error, "429"@) {
        "Rate limit exceeded. Please wait a moment."@
    } else if occurs(error, "network"@) || occurs(error, "connection"@) || occurs(
        error,
        "Connection failed"@,
    ) {
        "Network error. Check your connection."@
    } else if occurs(error, "401"@) || occurs(error, "unauthorized"@) {
        "Invalid API key."@
    } else {
        "Transcription failed: "@ + error
    }
}

/// Words a provider failure for the user: rate limits, network trouble and
/// rejected keys get a message of their own, anything else is reported as it
/// came.
pub fn transcription_error_message(error: &str) -> (r: String)
    ensures
        r@ == transcription_error_spec(error@),
{
    if contains_text(error, "rate limit") || contains_text(error, "429") {
        String::from_str("Rate limit exceeded. Please wait a moment.")
    } else if contains_text(error, "network") || contains_text(error, "connection") || contains_text(
        error,
        "Connection failed",
    ) {
        String::from_str("Network error. Check your connection.")
    } else if contains_text(error, "401") || contains_text(error, "unauthorized") {
        String::from_str("Invalid API key.")
    } else {
        String::from_str("Transcription failed: ").concat(error)
    }
}

/// The text inserted once voice commands were applied: the command output
/// alone when nothing else remains; the remaining text alone (with a
/// trailing space unless a key action ran) when commands produced nothing;
/// the remaining text followed by the command output otherwise.
pub open spec fn insert_text_spec(remaining: Seq<char>, processed: Seq<char>, had_key_action: bool) -> Seq<char> {
    if remaining.len() == 0 {
        processed
    } else if processed.len() == 0 {
        if had_key_action {
            remaining
        } else {
            remaining + " "@
        }
    } else {
        remaining + processed
    }
}

/// The text to insert for a transcript whose voice commands were applied.
pub fn text_to_insert(processed: &ProcessedText) -> (r: String)
    ensures
        r@ == insert_text_spec(
            processed.remaining_text@,
            processed.processed_text@,
            processed.had_key_action,
        ),
{
    let remaining = processed.remaining_text.as_str();
    let produced = processed.processed_text.as_str();
    if remaining.unicode_len() == 0 {
        String::from_str(produced)
    } else if produced.unicode_len() == 0 {
        if processed.had_key_action {
            String::from_str(remaining)
        } else {
            String::from_str(remaining).concat(" ")
        }
    } else {
        String::from_str(remaining).concat(produced)
    }
}

} // verus!
