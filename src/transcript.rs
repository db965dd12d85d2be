//! Post-processing of transcripts before they are inserted.
use crate::voice_commands::{lower_of, lowercase, same_text};
use vstd::prelude::*;

verus! {

/// Whether `char::is_whitespace` holds of `c` (Unicode `White_Space`).
pub uninterp spec fn is_space(c: char) -> bool;

/// Whether `char::is_alphanumeric` holds of `c`.
pub uninterp spec fn is_alnum(c: char) -> bool;

/// Relies on `char::is_whitespace`: whether `c` has the Unicode `White_Space`
/// property.
#[verifier::external_body]
pub(crate) fn whitespace(c: char) -> (r: bool)
    ensures
        r == is_space(c),
{
    c.is_whitespace()
}

/// Relies on `char::is_alphanumeric`: whether `c` is alphabetic or numeric.
#[verifier::external_body]
fn alphanumeric(c: char) -> (r: bool)
    ensures
        r == is_alnum(c),
{
    c.is_alphanumeric()
}

/// `s` without its leading whitespace.
pub open spec fn trim_start(s: Seq<char>) -> Seq<char>
    decreases s.len(),
{
    if s.len() > 0 && is_space(s[0]) {
        trim_start(s.drop_first())
    } else {
        s
    }
}

/// `s` without its trailing whitespace.
pub open spec fn trim_end(s: Seq<char>) -> Seq<char>
    decreases s.len(),
{
    if s.len() > 0 && is_space(s.last()) {
        trim_end(s.drop_last())
    } else {
        s
    }
}

/// `s` without leading and trailing whitespace.
pub open spec fn trimmed(s: Seq<char>) -> Seq<char> {
    trim_end(trim_start(s))
}

/// The letters, digits and whitespace of `s`, in order.
pub open spec fn kept(s: Seq<char>) -> Seq<char>
    decreases s.len(),
{
    if s.len() == 0 {
        s
    } else if is_alnum(s.last()) || is_space(s.last()) {
        kept(s.drop_last()).push(s.last())
    } else {
        kept(s.drop_last())
    }
}

/// The characters of a string.
pub(crate) fn chars_of(s: &str) -> (r: Vec<char>)
    ensures
        r@ == s@,
{
    let n = s.unicode_len();
    let mut out: Vec<char> = Vec::with_capacity(n);
    let mut i: usize = 0;
    while i < n
        invariant
            n == s@.len(),
            i <= n,
            out@ =~= s@.subrange(0, i as int),
        decreases n - i,
    {
        out.push(s.get_char(i));
        i = i + 1;
    }
    out
}

/// `s` without leading and trailing whitespace.
pub fn trim_text(s: &str) -> (r: String)
    ensures
        r@ == trimmed(s@),
{
    let cs = chars_of(s);
    let n = cs.len();
    let mut a: usize = 0;
    assert(s@.subrange(0, n as int) =~= s@);
    while a < n && whitespace(cs[a])
        invariant
            cs@ == s@,
            n == s@.len(),
            a <= n,
            trim_start(s@) == trim_start(s@.subrange(a as int, n as int)),
        decreases n - a,
    {
        assert(s@.subrange(a as int, n as int).drop_first() =~= s@.subrange(a + 1, n as int));
        a = a + 1;
    }
    proof {
        let t = s@.subrange(a as int, n as int);
        if a < n {
            assert(t[0] == s@[a as int]);
        }
        assert(trim_start(s@) == t);
    }
    let mut b: usize = n;
    while b > a && whitespace(cs[b - 1])
        invariant
            cs@ == s@,
            n == s@.len(),
            a <= b <= n,
            trim_end(s@.subrange(a as int, n as int)) == trim_end(s@.subrange(a as int, b as int)),
        decreases b - a,
    {
        assert(s@.subrange(a as int, b as int).drop_last() =~= s@.subrange(a as int, b - 1));
        b = b - 1;
    }
    proof {
        let t = s@.subrange(a as int, b as int);
        if a < b {
            assert(t.last() == s@[b - 1]);
        }
        assert(trim_end(t) == t);
    }
    String::from_str(s.substring_char(a, b))
}

/// `s` without trailing whitespace.
pub fn trim_end_text(s: &str) -> (r: String)
    ensures
        r@ == trim_end(s@),
{
    let cs = chars_of(s);
    let n = cs.len();
    let mut b: usize = n;
    assert(s@.subrange(0, n as int) =~= s@);
    while b > 0 && whitespace(cs[b - 1])
        invariant
            cs@ == s@,
            n == s@.len(),
            b <= n,
            trim_end(s@) == trim_end(s@.subrange(0, b as int)),
        decreases b,
    {
        assert(s@.subrange(0, b as int).drop_last() =~= s@.subrange(0, b - 1));
        b = b - 1;
    }
    proof {
        let t = s@.subrange(0, b as int);
        if 0 < b {
            assert(t.last() == s@[b - 1]);
        }
        assert(trim_end(t) == t);
    }
    String::from_str(s.substring_char(0, b))
}

/// A transcript with its formatting kept: trimmed, with a trailing space so
/// that consecutive segments flow; empty if it holds only whitespace.
pub fn format_whisper_transcript(text: &str) -> (r: String)
    ensures
        r@ == if trimmed(text@).len() == 0 {
            Seq::<char>::empty()
        } else {
            trimmed(text@) + " "@
        },
{
    let trimmed_text = trim_text(text);
    if trimmed_text.as_str().unicode_len() == 0 {
        return String::new();
    }
    trimmed_text.concat(" ")
}

/// A transcript lowercased with its punctuation removed: of the trimmed
/// text, lowercased, only letters, digits and whitespace are kept, and the
/// result is trimmed and given a trailing space; empty if the transcript
/// holds only whitespace.
pub fn normalize_whisper_transcript(text: &str) -> (r: String)
    ensures
        r@ == if trimmed(text@).len() == 0 {
            Seq::<char>::empty()
        } else {
            trimmed(kept(lower_of(trimmed(text@)))) + " "@
        },
{
    let trimmed_text = trim_text(text);
    if trimmed_text.as_str().unicode_len() == 0 {
        return String::new();
    }
    let lower = lowercase(trimmed_text.as_str());
    let cs = chars_of(lower.as_str());
    let mut cleaned = String::new();
    let mut i: usize = 0;
    while i < cs.len()
        invariant
            cs@ == lower_of(trimmed(text@)),
            cs@ == lower@,
            i <= cs@.len(),
            cleaned@ == kept(cs@.subrange(0, i as int)),
        decreases cs.len() - i,
    {
        let c = cs[i];
        proof {
            assert(cs@.subrange(0, i + 1).drop_last() =~= cs@.subrange(0, i as int));
        }
        if alphanumeric(c) || whitespace(c) {
            cleaned.append(lower.as_str().substring_char(i, i + 1));
            assert(lower@.subrange(i as int, i + 1) =~= seq![c]);
            assert(cleaned@ =~= kept(cs@.subrange(0, i + 1)));
        }
        i = i + 1;
    }
    assert(cs@.subrange(0, cs@.len() as int) =~= cs@);
    let result = trim_text(cleaned.as_str());
    result.concat(" ")
}

/// The tray menu labels (quit, settings, show/hide) for an interface
/// language: it, es, fr, de, nl, pt, zh, ja and ru have their own, any other
/// gets English.
pub open spec fn tray_labels_spec(lang: Seq<char>) -> (Seq<char>, Seq<char>, Seq<char>) {
    if lang == "it"@ {
        ("Esci"@, "Impostazioni"@, "Mostra/Nascondi"@)
    } else if lang == "es"@ {
        ("Salir"@, "Configuración"@, "Mostrar/Ocultar"@)
    } else if lang == "fr"@ {
        ("Quitter"@, "Paramètres"@, "Afficher/Masquer"@)
    } else if lang == "de"@ {
        ("Beenden"@, "Einstellungen"@, "Anzeigen/Verbergen"@)
    } else if lang == "nl"@ {
        ("Afsluiten"@, "Instellingen"@, "Weergeven/Verbergen"@)
    } else if lang == "pt"@ {
        ("Sair"@, "Configurações"@, "Mostrar/Ocultar"@)
    } else if lang == "zh"@ {
        ("退出"@, "设置"@, "显示/隐藏"@)
    } else if lang == "ja"@ {
        ("終了"@, "設定"@, "表示/非表示"@)
    } else if lang == "ru"@ {
        ("Выход"@, "Настройки"@, "Показать/Скрыть"@)
    } else {
        ("Quit"@, "Settings"@, "Show/Hide"@)
    }
}

/// The tray menu labels (quit, settings, show/hide) for an interface
/// language.
pub fn tray_labels(lang: &str) -> (r: (&'static str, &'static str, &'static str))
    ensures
        (r.0@, r.1@, r.2@) == tray_labels_spec(lang@),
{
    if same_text(lang, "it") {
        ("Esci", "Impostazioni", "Mostra/Nascondi")
    } else if same_text(lang, "es") {
        ("Salir", "Configuración", "Mostrar/Ocultar")
    } else if same_text(lang, "fr") {
        ("Quitter", "Paramètres", "Afficher/Masquer")
    } else if same_text(lang, "de") {
        ("Beenden", "Einstellungen", "Anzeigen/Verbergen")
    } else if same_text(lang, "nl") {
        ("Afsluiten", "Instellingen", "Weergeven/Verbergen")
    } else if same_text(lang, "pt") {
        ("Sair", "Configurações", "Mostrar/Ocultar")
    } else if same_text(lang, "zh") {
        ("退出", "设置", "显示/隐藏")
    } else if same_text(lang, "ja") {
        ("終了", "設定", "表示/非表示")
    } else if same_text(lang, "ru") {
        ("Выход", "Настройки", "Показать/Скрыть")
    } else {
        ("Quit", "Settings", "Show/Hide")
    }
}

} // verus!
