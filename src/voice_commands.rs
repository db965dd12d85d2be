//! Spoken voice commands: per-language phrase tables and the actions that
//! phrases stand for.
use crate::phrase_pattern::{
    compile, compiles, escape, escaped_of, is_match, pattern_matches, pattern_removed, remove_all,
};
use crate::transcript::{chars_of, is_space, trim_end, trim_end_text, trim_text, trimmed, whitespace};
use vstd::prelude::*;

pub mod de;
pub mod en;
pub mod es;
pub mod fr;
pub mod it;
pub mod ja;
pub mod nl;
pub mod pt;
pub mod ru;
pub mod zh;

verus! {

/// A phrase table as (phrase, action) pairs of character sequences.
pub open spec fn entries_view(v: Seq<(String, String)>) -> Seq<(Seq<char>, Seq<char>)> {
    v.map_values(|p: (String, String)| (p.0@, p.1@))
}

/// Whether two strings hold the same characters.
pub fn same_text(a: &str, b: &str) -> (r: bool)
    ensures
        r == (a@ == b@),
{
    String::from_str(a) == String::from_str(b)
}

/// The basic English phrase table, in the order it is built.
pub open spec fn legacy_table() -> Seq<(Seq<char>, Seq<char>)> {
    seq![
        ("period"@, "."@),
        ("comma"@, ","@),
        ("exclamation mark"@, "!"@),
        ("question mark"@, "?"@),
        ("colon"@, ":"@),
        ("semicolon"@, ";"@),
        ("dash"@, "-"@),
        ("hyphen"@, "-"@),
        ("at sign"@, "@"@),
        ("at mention"@, "@"@),
        ("open parenthesis"@, "("@),
        ("close parenthesis"@, ")"@),
        ("open quote"@, "\""@),
        ("close quote"@, "\""@),
        ("open single quote"@, "'"@),
        ("close single quote"@, "'"@),
        ("equal sign"@, "="@),
        ("backspace"@, "backspace"@),
        ("press enter"@, "enter"@),
        ("press paste"@, "ctrl+v"@),
        ("press copy"@, "ctrl+c"@),
        ("press save"@, "ctrl+s"@),
        ("press undo"@, "ctrl+z"@),
        ("press redo"@, "ctrl+y"@),
        ("press cut"@, "ctrl+x"@),
        ("select all"@, "ctrl+a"@),
        ("press space"@, "space"@),
        ("press tab"@, "tab"@),
        ("delete that"@, "delete_last_word"@),
        ("remove that"@, "delete_last_word"@),
        ("press rewrite"@, "rewrite"@),
        ("pause voice typing"@, "pause_dictation"@),
        ("pause dictation"@, "pause_dictation"@),
        ("stop voice typing"@, "pause_dictation"@),
        ("stop dictation"@, "pause_dictation"@),
        ("stop listening"@, "pause_dictation"@),
        ("stop dictating"@, "pause_dictation"@),
        ("stop voice mode"@, "pause_dictation"@),
        ("pause voice mode"@, "pause_dictation"@),
    ]
}

/// The basic English command set (without the deselect phrases).
fn legacy_commands() -> (r: Vec<(String, String)>)
    ensures
        entries_view(r@) == legacy_table(),
{
    let mut c: Vec<(String, String)> = Vec::new();
    c.push((String::from_str("period"), String::from_str(".")));
    c.push((String::from_str("comma"), String::from_str(",")));
    c.push((String::from_str("exclamation mark"), String::from_str("!")));
    c.push((String::from_str("question mark"), String::from_str("?")));
    c.push((String::from_str("colon"), String::from_str(":")));
    c.push((String::from_str("semicolon"), String::from_str(";")));
    c.push((String::from_str("dash"), String::from_str("-")));
    c.push((String::from_str("hyphen"), String::from_str("-")));
    c.push((String::from_str("at sign"), String::from_str("@")));
    c.push((String::from_str("at mention"), String::from_str("@")));
    c.push((String::from_str("open parenthesis"), String::from_str("(")));
    c.push((String::from_str("close parenthesis"), String::from_str(")")));
    c.push((String::from_str("open quote"), String::from_str("\"")));
    c.push((String::from_str("close quote"), String::from_str("\"")));
    c.push((String::from_str("open single quote"), String::from_str("'")));
    c.push((String::from_str("close single quote"), String::from_str("'")));
    c.push((String::from_str("equal sign"), String::from_str("=")));
    c.push((String::from_str("backspace"), String::from_str("backspace")));
    c.push((String::from_str("press enter"), String::from_str("enter")));
    c.push((String::from_str("press paste"), String::from_str("ctrl+v")));
    c.push((String::from_str("press copy"), String::from_str("ctrl+c")));
    c.push((String::from_str("press save"), String::from_str("ctrl+s")));
    c.push((String::from_str("press undo"), String::from_str("ctrl+z")));
    c.push((String::from_str("press redo"), String::from_str("ctrl+y")));
    c.push((String::from_str("press cut"), String::from_str("ctrl+x")));
    c.push((String::from_str("select all"), String::from_str("ctrl+a")));
    c.push((String::from_str("press space"), String::from_str("space")));
    c.push((String::from_str("press tab"), String::from_str("tab")));
    c.push((String::from_str("delete that"), String::from_str("delete_last_word")));
    c.push((String::from_str("remove that"), String::from_str("delete_last_word")));
    c.push((String::from_str("press rewrite"), String::from_str("rewrite")));
    c.push((String::from_str("pause voice typing"), String::from_str("pause_dictation")));
    c.push((String::from_str("pause dictation"), String::from_str("pause_dictation")));
    c.push((String::from_str("stop voice typing"), String::from_str("pause_dictation")));
    c.push((String::from_str("stop dictation"), String::from_str("pause_dictation")));
    c.push((String::from_str("stop listening"), String::from_str("pause_dictation")));
    c.push((String::from_str("stop dictating"), String::from_str("pause_dictation")));
    c.push((String::from_str("stop voice mode"), String::from_str("pause_dictation")));
    c.push((String::from_str("pause voice mode"), String::from_str("pause_dictation")));
    assert(entries_view(c@) =~= legacy_table());
    c
}

/// The phrase table used for a transcription language: the table of that
/// language for it, es, fr, de, pt, ja, nl, zh and ru, English otherwise
/// (including "en" and "multilingual").
pub open spec fn language_table(language: Seq<char>) -> Seq<(Seq<char>, Seq<char>)> {
    if language == "it"@ {
        it::table()
    } else if language == "es"@ {
        es::table()
    } else if language == "fr"@ {
        fr::table()
    } else if language == "de"@ {
        de::table()
    } else if language == "pt"@ {
        pt::table()
    } else if language == "ja"@ {
        ja::table()
    } else if language == "nl"@ {
        nl::table()
    } else if language == "zh"@ {
        zh::table()
    } else if language == "ru"@ {
        ru::table()
    } else {
        en::table()
    }
}

/// A set of voice commands: spoken phrases and the actions they stand for.
pub struct VoiceCommands {
    commands: Vec<(String, String)>,
}

impl View for VoiceCommands {
    type V = Seq<(Seq<char>, Seq<char>)>;

    closed spec fn view(&self) -> Seq<(Seq<char>, Seq<char>)> {
        entries_view(self.commands@)
    }
}

impl VoiceCommands {
    /// The basic English command set.
    pub fn new() -> (r: Self)
        ensures
            r@ == legacy_table(),
    {
        VoiceCommands { commands: legacy_commands() }
    }

    /// The commands for a transcription language; languages without a table
    /// of their own get the English one.
    pub fn new_with_language(language: &str) -> (r: Self)
        ensures
            r@ == language_table(language@),
    {
        let commands = if same_text(language, "it") {
            it::commands()
        } else if same_text(language, "es") {
            es::commands()
        } else if same_text(language, "fr") {
            fr::commands()
        } else if same_text(language, "de") {
            de::commands()
        } else if same_text(language, "pt") {
            pt::commands()
        } else if same_text(language, "ja") {
            ja::commands()
        } else if same_text(language, "nl") {
            nl::commands()
        } else if same_text(language, "zh") {
            zh::commands()
        } else if same_text(language, "ru") {
            ru::commands()
        } else {
            en::commands()
        };
        VoiceCommands { commands }
    }

    /// The (phrase, action) pairs.
    pub fn get_commands(&self) -> (r: &Vec<(String, String)>)
        ensures
            entries_view(r@) == self@,
    {
        &self.commands
    }
}

/// What a recognised phrase asks for.
#[derive(Debug, PartialEq, Eq)]
pub enum CommandAction {
    /// Punctuation or text to insert.
    InsertText(String),
    /// A single key (enter, backspace, space, tab).
    KeyPress(String),
    /// A modifier and a key.
    KeyCombo(String, String),
    /// Delete the last word.
    DeleteLastWord,
    /// Rewrite the text.
    Rewrite,
    /// Pause dictation.
    PauseDictation,
}

/// The mathematical value of a [`CommandAction`].
pub enum ActionSpec {
    InsertText(Seq<char>),
    KeyPress(Seq<char>),
    KeyCombo(Seq<char>, Seq<char>),
    DeleteLastWord,
    Rewrite,
    PauseDictation,
}

impl View for CommandAction {
    type V = ActionSpec;

    open spec fn view(&self) -> ActionSpec {
        match self {
            CommandAction::InsertText(t) => ActionSpec::InsertText(t@),
            CommandAction::KeyPress(k) => ActionSpec::KeyPress(k@),
            CommandAction::KeyCombo(m, k) => ActionSpec::KeyCombo(m@, k@),
            CommandAction::DeleteLastWord => ActionSpec::DeleteLastWord,
            CommandAction::Rewrite => ActionSpec::Rewrite,
            CommandAction::PauseDictation => ActionSpec::PauseDictation,
        }
    }
}

/// The lowercase form of a string, as `str::to_lowercase` computes it.
pub uninterp spec fn lower_of(s: Seq<char>) -> Seq<char>;

/// Relies on `str::to_lowercase`: its result depends on the characters alone.
#[verifier::external_body]
pub(crate) fn lowercase(s: &str) -> (r: String)
    ensures
        r@ == lower_of(s@),
{
    s.to_lowercase()
}

/// The number of '+' characters in `s`.
pub open spec fn plus_count(s: Seq<char>) -> nat
    decreases s.len(),
{
    if s.len() == 0 {
        0
    } else {
        plus_count(s.drop_last()) + if s.last() == '+' {
            1nat
        } else {
            0nat
        }
    }
}

/// The index of the first '+' in `s`, or its length if there is none.
pub open spec fn first_plus(s: Seq<char>) -> int
    decreases s.len(),
{
    if s.len() == 0 {
        0
    } else if first_plus(s.drop_last()) < s.len() - 1 {
        first_plus(s.drop_last())
    } else if s.last() == '+' {
        s.len() - 1
    } else {
        s.len() as int
    }
}

/// The action an action string stands for: the named keys and specials
/// map to themselves; `modifier+key` (exactly one '+') is a key
/// combination, both parts lowercased and "ctrl" spelled "control"; any
/// other string is text to insert.
pub open spec fn action_of(a: Seq<char>) -> ActionSpec {
    if a == "enter"@ || a == "backspace"@ || a == "space"@ || a == "tab"@ {
        ActionSpec::KeyPress(a)
    } else if a == "delete_last_word"@ {
        ActionSpec::DeleteLastWord
    } else if a == "rewrite"@ {
        ActionSpec::Rewrite
    } else if a == "pause_dictation"@ {
        ActionSpec::PauseDictation
    } else if plus_count(a) == 1 {
        let p = first_plus(a);
        let m = lower_of(a.subrange(0, p));
        ActionSpec::KeyCombo(
            if m == "ctrl"@ {
                "control"@
            } else {
                m
            },
            lower_of(a.subrange(p + 1, a.len() as int)),
        )
    } else {
        ActionSpec::InsertText(a)
    }
}

/// Counts the '+' characters of `s` and finds the first one.
fn scan_plus(s: &str) -> (r: (usize, usize))
    ensures
        r.0 == plus_count(s@),
        r.1 == first_plus(s@),
{
    let n = s.unicode_len();
    let mut count: usize = 0;
    let mut first: usize = 0;
    let mut i: usize = 0;
    while i < n
        invariant
            n == s@.len(),
            i <= n,
            count == plus_count(s@.subrange(0, i as int)),
            first == first_plus(s@.subrange(0, i as int)),
            count <= i,
            first <= i,
        decreases n - i,
    {
        let c = s.get_char(i);
        proof {
            let t = s@.subrange(0, i + 1);
            assert(t.drop_last() =~= s@.subrange(0, i as int));
            assert(t.last() == c);
        }
        if first == i {
            if c == '+' {
                first = i;
            } else {
                first = i + 1;
            }
        }
        if c == '+' {
            count = count + 1;
        }
        i = i + 1;
    }
    assert(s@.subrange(0, n as int) =~= s@);
    (count, first)
}

/// `first_plus` is an index of a '+' whenever `s` holds one.
proof fn lemma_first_plus(s: Seq<char>)
    ensures
        0 <= first_plus(s) <= s.len(),
        plus_count(s) > 0 ==> first_plus(s) < s.len() && s[first_plus(s)] == '+',
        plus_count(s) == 0 ==> first_plus(s) == s.len(),
    decreases s.len(),
{
    if s.len() > 0 {
        let t = s.drop_last();
        lemma_first_plus(t);
        if first_plus(t) < t.len() {
            assert(t[first_plus(t)] == s[first_plus(t)]);
        }
    }
}

impl CommandAction {
    /// The action that an action string from a phrase table stands for.
    pub fn from_action_string(action: &str) -> (r: CommandAction)
        ensures
            r@ == action_of(action@),
    {
        if same_text(action, "enter") || same_text(action, "backspace") || same_text(action, "space")
            || same_text(action, "tab") {
            CommandAction::KeyPress(String::from_str(action))
        } else if same_text(action, "delete_last_word") {
            CommandAction::DeleteLastWord
        } else if same_text(action, "rewrite") {
            CommandAction::Rewrite
        } else if same_text(action, "pause_dictation") {
            CommandAction::PauseDictation
        } else {
            let (count, p) = scan_plus(action);
            if count == 1 {
                proof {
                    lemma_first_plus(action@);
                }
                let n = action.unicode_len();
                let modifier = lowercase(action.substring_char(0, p));
                let key = lowercase(action.substring_char(p + 1, n));
                let modifier = if modifier == String::from_str("ctrl") {
                    String::from_str("control")
                } else {
                    modifier
                };
                CommandAction::KeyCombo(modifier, key)
            } else {
                CommandAction::InsertText(String::from_str(action))
            }
        }
    }
}

/// What is left of a transcript once voice commands are taken out of it.
pub struct ProcessedText {
    /// The transcript without the command phrases.
    pub remaining_text: String,
    /// Text produced by commands (punctuation and the like).
    pub processed_text: String,
    /// The actions to perform, in order.
    pub actions: Vec<CommandAction>,
    /// Whether any action was a key action.
    pub had_key_action: bool,
}

/// The words of `s`: its maximal runs of non-whitespace characters, in
/// order.
pub open spec fn words(s: Seq<char>) -> Seq<Seq<char>>
    decreases s.len(),
{
    if s.len() == 0 {
        Seq::empty()
    } else {
        let w = words(s.drop_last());
        let c = s.last();
        if is_space(c) {
            w
        } else if s.len() >= 2 && !is_space(s[s.len() - 2]) {
            w.update(w.len() - 1, w.last().push(c))
        } else {
            w.push(seq![c])
        }
    }
}

/// Words joined with single spaces.
pub open spec fn spaced(ws: Seq<Seq<char>>) -> Seq<char>
    decreases ws.len(),
{
    if ws.len() == 0 {
        Seq::empty()
    } else if ws.len() == 1 {
        ws[0]
    } else {
        spaced(ws.drop_last()) + " "@ + ws.last()
    }
}

/// `s` without its last word: the other words joined with single spaces,
/// followed by a space if any remain; `s` itself if it has no word.
pub open spec fn without_last_word(s: Seq<char>) -> Seq<char> {
    let ws = words(s);
    if ws.len() == 0 {
        s
    } else if spaced(ws.drop_last()).len() > 0 {
        spaced(ws.drop_last()) + " "@
    } else {
        spaced(ws.drop_last())
    }
}

/// Whether `r` holds, as character ranges, the words of the first `i`
/// characters of `cs`, the last one ending at `i` when the character before
/// `i` is not whitespace.
pub open spec fn ranges_ok(cs: Seq<char>, r: Seq<(usize, usize)>, i: int) -> bool {
    &&& r.len() == words(cs.subrange(0, i)).len()
    &&& forall|k: int|
        0 <= k < r.len() ==> r[k].0 <= r[k].1 <= i && cs.subrange(#[trigger] r[k].0 as int, r[k].1 as int)
            == words(cs.subrange(0, i))[k]
    &&& (i > 0 && !is_space(cs[i - 1]) ==> r.len() > 0 && r.last().1 == i)
}

/// The ranges after looking at character `i`.
pub open spec fn next_ranges(cs: Seq<char>, r: Seq<(usize, usize)>, i: int) -> Seq<(usize, usize)> {
    if is_space(cs[i]) {
        r
    } else if i > 0 && !is_space(cs[i - 1]) {
        r.update(r.len() - 1, (r.last().0, (i + 1) as usize))
    } else {
        r.push((i as usize, (i + 1) as usize))
    }
}

/// One range of a well-formed range sequence.
proof fn lemma_range_at(cs: Seq<char>, r: Seq<(usize, usize)>, i: int, k: int)
    requires
        ranges_ok(cs, r, i),
        0 <= k < r.len(),
    ensures
        r[k].0 <= r[k].1 <= i,
        cs.subrange(r[k].0 as int, r[k].1 as int) == words(cs.subrange(0, i))[k],
{
}

/// Looking at one more character keeps the ranges right.
proof fn lemma_next_ranges(cs: Seq<char>, r: Seq<(usize, usize)>, i: int)
    requires
        0 <= i < cs.len(),
        i + 1 <= usize::MAX,
        ranges_ok(cs, r, i),
    ensures
        ranges_ok(cs, next_ranges(cs, r, i), i + 1),
{
    let pre = cs.subrange(0, i);
    let cur = cs.subrange(0, i + 1);
    let c = cs[i];
    assert(cur.drop_last() =~= pre);
    assert(cur.last() == c);
    if i >= 1 {
        assert(cur[cur.len() - 2] == cs[i - 1]);
    }
    let w0 = words(pre);
    let n = next_ranges(cs, r, i);
    assert(cs.subrange(0, i + 1) == cur);
    if is_space(c) {
        assert(words(cur) == w0);
        assert(n == r);
        assert(n.len() == words(cur).len());
        assert forall|k: int| 0 <= k < n.len() implies n[k].0 <= n[k].1 <= i + 1 && cs.subrange(
            #[trigger] n[k].0 as int,
            n[k].1 as int,
        ) == words(cur)[k] by {
            lemma_range_at(cs, r, i, k);
        }
    } else if i > 0 && !is_space(cs[i - 1]) {
        let last = r.len() - 1;
        let start = r.last().0;
        assert(words(cur) == w0.update(w0.len() - 1, w0.last().push(c)));
        assert(n.len() == words(cur).len());
        assert(n.last() == n[last]);
        lemma_range_at(cs, r, i, last);
        assert(cs.subrange(start as int, i + 1) =~= cs.subrange(start as int, i).push(c));
        assert forall|k: int| 0 <= k < n.len() implies n[k].0 <= n[k].1 <= i + 1 && cs.subrange(
            #[trigger] n[k].0 as int,
            n[k].1 as int,
        ) == words(cur)[k] by {
            lemma_range_at(cs, r, i, k);
            if k < last {
                assert(n[k] == r[k]);
            } else {
                assert(w0.last() == w0[k]);
            }
        }
    } else {
        assert(words(cur) == w0.push(seq![c]));
        assert(n.len() == words(cur).len());
        assert(n.last() == (i as usize, (i + 1) as usize));
        assert(cs.subrange(i, i + 1) =~= seq![c]);
        assert forall|k: int| 0 <= k < n.len() implies n[k].0 <= n[k].1 <= i + 1 && cs.subrange(
            #[trigger] n[k].0 as int,
            n[k].1 as int,
        ) == words(cur)[k] by {
            if k < r.len() {
                lemma_range_at(cs, r, i, k);
                assert(n[k] == r[k]);
            }
        }
    }
}

/// The words of `s` as character ranges.
pub(crate) fn word_ranges(cs: &Vec<char>) -> (r: Vec<(usize, usize)>)
    ensures
        ranges_ok(cs@, r@, cs@.len() as int),
{
    let mut ranges: Vec<(usize, usize)> = Vec::new();
    let mut i: usize = 0;
    assert(words(cs@.subrange(0, 0)) == Seq::<Seq<char>>::empty()) by {
        assert(cs@.subrange(0, 0) =~= Seq::<char>::empty());
    }
    while i < cs.len()
        invariant
            i <= cs@.len(),
            ranges_ok(cs@, ranges@, i as int),
        decreases cs.len() - i,
    {
        let c = cs[i];
        proof {
            lemma_next_ranges(cs@, ranges@, i as int);
        }
        let ghost r0 = ranges@;
        if whitespace(c) {
        } else if i > 0 && !whitespace(cs[i - 1]) {
            let last = ranges.len() - 1;
            let start = ranges[last].0;
            ranges.set(last, (start, i + 1));
        } else {
            ranges.push((i, i + 1));
        }
        assert(ranges@ == next_ranges(cs@, r0, i as int));
        i = i + 1;
    }
    ranges
}

/// The words of `s` joined with single spaces.
pub fn join_words(s: &str) -> (r: String)
    ensures
        r@ == spaced(words(s@)),
{
    let cs = chars_of(s);
    let ranges = word_ranges(&cs);
    assert(cs@.subrange(0, cs@.len() as int) =~= cs@);
    let ghost ws = words(s@);
    let mut out = String::new();
    let mut k: usize = 0;
    assert(ws.subrange(0, 0) =~= Seq::<Seq<char>>::empty());
    while k < ranges.len()
        invariant
            cs@ == s@,
            ws == words(s@),
            ranges_ok(cs@, ranges@, cs@.len() as int),
            cs@.subrange(0, cs@.len() as int) == cs@,
            ranges@.len() == ws.len(),
            k <= ranges@.len(),
            out@ == spaced(ws.subrange(0, k as int)),
        decreases ranges.len() - k,
    {
        let (a, b) = ranges[k];
        proof {
            lemma_range_at(cs@, ranges@, cs@.len() as int, k as int);
        }
        let ghost pre = ws.subrange(0, k as int);
        let ghost cur = ws.subrange(0, k + 1);
        assert(cur.drop_last() =~= pre);
        assert(cur.last() == ws[k as int]);
        if k > 0 {
            out.append(" ");
        }
        out.append(s.substring_char(a, b));
        proof {
            if k == 0 {
                assert(out@ =~= cur[0]);
            }
        }
        k = k + 1;
    }
    assert(ws.subrange(0, ranges@.len() as int) =~= ws);
    out
}

/// `s` without its last word.
pub fn drop_last_word(s: &str) -> (r: String)
    ensures
        r@ == without_last_word(s@),
{
    let cs = chars_of(s);
    let ranges = word_ranges(&cs);
    assert(cs@.subrange(0, cs@.len() as int) =~= cs@);
    if ranges.len() == 0 {
        return String::from_str(s);
    }
    let ghost ws = words(s@);
    let keep: usize = ranges.len() - 1;
    let mut out = String::new();
    let mut k: usize = 0;
    assert(ws.drop_last().subrange(0, 0) =~= Seq::<Seq<char>>::empty());
    while k < keep
        invariant
            cs@ == s@,
            ws == words(s@),
            keep == ranges@.len() - 1,
            ranges@.len() == ws.len(),
            k <= keep,
            forall|j: int|
                0 <= j < ranges@.len() ==> ranges@[j].0 <= ranges@[j].1 <= cs@.len() && cs@.subrange(
                    #[trigger] ranges@[j].0 as int,
                    ranges@[j].1 as int,
                ) == ws[j],
            out@ == spaced(ws.drop_last().subrange(0, k as int)),
        decreases keep - k,
    {
        let (a, b) = ranges[k];
        let ghost pre = ws.drop_last().subrange(0, k as int);
        let ghost cur = ws.drop_last().subrange(0, k + 1);
        assert(cur.drop_last() =~= pre);
        assert(cur.last() == ws[k as int]);
        if k > 0 {
            out.append(" ");
        }
        out.append(s.substring_char(a, b));
        proof {
            if k == 0 {
                assert(out@ =~= cur[0]);
            }
        }
        k = k + 1;
    }
    assert(ws.drop_last().subrange(0, keep as int) =~= ws.drop_last());
    if out.as_str().unicode_len() > 0 {
        out.append(" ");
    }
    out
}

/// The regex source for a phrase: the escaped phrase between word
/// boundaries, case-insensitive.
pub open spec fn command_pattern(phrase: Seq<char>) -> Seq<char> {
    "(?i)\\b"@ + escaped_of(phrase) + "\\b"@
}

/// The regex source used to find a phrase.
pub fn phrase_regex(phrase: &str) -> (r: String)
    ensures
        r@ == command_pattern(phrase@),
{
    String::from_str("(?i)\\b").concat(escape(phrase).as_str()).concat("\\b")
}

/// What processing has produced so far.
pub struct Progress {
    pub remaining: Seq<char>,
    pub processed: Seq<char>,
    pub actions: Seq<ActionSpec>,
    pub had_key_action: bool,
}

/// The effect of one (phrase, action) entry on the progress, `text` being
/// the transcript as given. A phrase whose pattern does not compile is
/// passed over. Otherwise, where the phrase occurs:
/// deleting the last word removes the phrase and the last word produced;
/// rewrite and pause remove the phrase, trim the remaining text and the end
/// of the produced text; text insertion removes the phrase and appends the
/// text and a space to the produced text. All of these record their action,
/// and all but text insertion count as key actions. A key press or
/// combination removes the phrase from the remaining text in any case, and
/// records its action where the phrase occurs in the transcript as given.
pub open spec fn apply_command(st: Progress, phrase: Seq<char>, action: Seq<char>, text: Seq<char>) -> Progress {
    let p = command_pattern(phrase);
    let found = pattern_matches(p, st.remaining);
    let removed = pattern_removed(p, st.remaining);
    if !compiles(p) {
        st
    } else {
        match action_of(action) {
            ActionSpec::DeleteLastWord => if found {
                Progress {
                    remaining: removed,
                    processed: without_last_word(st.processed),
                    actions: st.actions.push(ActionSpec::DeleteLastWord),
                    had_key_action: true,
                }
            } else {
                st
            },
            ActionSpec::Rewrite => if found {
                Progress {
                    remaining: trimmed(removed),
                    processed: trim_end(st.processed),
                    actions: st.actions.push(ActionSpec::Rewrite),
                    had_key_action: true,
                }
            } else {
                st
            },
            ActionSpec::PauseDictation => if found {
                Progress {
                    remaining: trimmed(removed),
                    processed: trim_end(st.processed),
                    actions: st.actions.push(ActionSpec::PauseDictation),
                    had_key_action: true,
                }
            } else {
                st
            },
            ActionSpec::InsertText(t) => if found {
                Progress { remaining: removed, processed: st.processed + t + " "@, ..st }
            } else {
                st
            },
            ActionSpec::KeyPress(k) => if pattern_matches(p, text) {
                Progress {
                    remaining: removed,
                    actions: st.actions.push(ActionSpec::KeyPress(k)),
                    had_key_action: true,
                    ..st
                }
            } else {
                Progress { remaining: removed, ..st }
            },
            ActionSpec::KeyCombo(m, k) => if pattern_matches(p, text) {
                Progress {
                    remaining: removed,
                    actions: st.actions.push(ActionSpec::KeyCombo(m, k)),
                    had_key_action: true,
                    ..st
                }
            } else {
                Progress { remaining: removed, ..st }
            },
        }
    }
}

/// The progress after applying the entries in order, starting from the
/// trimmed transcript with nothing produced.
pub open spec fn apply_commands(entries: Seq<(Seq<char>, Seq<char>)>, text: Seq<char>) -> Progress
    decreases entries.len(),
{
    if entries.len() == 0 {
        Progress {
            remaining: trimmed(text),
            processed: Seq::empty(),
            actions: Seq::empty(),
            had_key_action: false,
        }
    } else {
        apply_command(
            apply_commands(entries.drop_last(), text),
            entries.last().0,
            entries.last().1,
            text,
        )
    }
}

/// The value of a processed transcript.
pub open spec fn processed_view(p: ProcessedText) -> Progress {
    Progress {
        remaining: p.remaining_text@,
        processed: p.processed_text@,
        actions: p.actions@.map_values(|a: CommandAction| a@),
        had_key_action: p.had_key_action,
    }
}

/// Takes the voice commands out of a transcript, trying each (phrase,
/// action) entry in table order; the remaining text is trimmed at the end.
pub fn process_voice_commands(text: &str, voice_commands: &VoiceCommands) -> (r: ProcessedText)
    ensures
        processed_view(r) == (Progress {
            remaining: trimmed(apply_commands(voice_commands@, text@).remaining),
            ..apply_commands(voice_commands@, text@)
        }),
{
    let cmds = voice_commands.get_commands();
    let mut remaining = trim_text(text);
    let mut processed = String::new();
    let mut actions: Vec<CommandAction> = Vec::new();
    let mut had_key_action = false;
    let mut k: usize = 0;
    assert(voice_commands@.subrange(0, 0) =~= Seq::<(Seq<char>, Seq<char>)>::empty());
    assert(actions@.map_values(|a: CommandAction| a@) =~= Seq::<ActionSpec>::empty());
    while k < cmds.len()
        invariant
            entries_view(cmds@) == voice_commands@,
            k <= cmds@.len(),
            apply_commands(voice_commands@.subrange(0, k as int), text@) == (Progress {
                remaining: remaining@,
                processed: processed@,
                actions: actions@.map_values(|a: CommandAction| a@),
                had_key_action,
            }),
        decreases cmds.len() - k,
    {
        let ghost st = apply_commands(voice_commands@.subrange(0, k as int), text@);
        let phrase = cmds[k].0.as_str();
        let action = cmds[k].1.as_str();
        proof {
            let e = voice_commands@.subrange(0, k + 1);
            assert(e.drop_last() =~= voice_commands@.subrange(0, k as int));
            assert(e.last() == voice_commands@[k as int]);
            assert(voice_commands@[k as int] == (phrase@, action@));
        }
        let pattern = phrase_regex(phrase);
        match compile(pattern) {
            None => {},
            Some(re) => {
                let found = is_match(&re, remaining.as_str());
                let cmd = CommandAction::from_action_string(action);
                let ghost old_actions = actions@;
                match cmd {
                    CommandAction::DeleteLastWord => {
                        if found {
                            remaining = remove_all(&re, remaining.as_str());
                            processed = drop_last_word(processed.as_str());
                            actions.push(CommandAction::DeleteLastWord);
                            had_key_action = true;
                        }
                    },
                    CommandAction::Rewrite => {
                        if found {
                            remaining = trim_text(remove_all(&re, remaining.as_str()).as_str());
                            processed = trim_end_text(processed.as_str());
                            actions.push(CommandAction::Rewrite);
                            had_key_action = true;
                        }
                    },
                    CommandAction::PauseDictation => {
                        if found {
                            remaining = trim_text(remove_all(&re, remaining.as_str()).as_str());
                            processed = trim_end_text(processed.as_str());
                            actions.push(CommandAction::PauseDictation);
                            had_key_action = true;
                        }
                    },
                    CommandAction::InsertText(t) => {
                        if found {
                            remaining = remove_all(&re, remaining.as_str());
                            processed.append(t.as_str());
                            processed.append(" ");
                        }
                    },
                    CommandAction::KeyPress(key) => {
                        remaining = remove_all(&re, remaining.as_str());
                        if is_match(&re, text) {
                            actions.push(CommandAction::KeyPress(key));
                            had_key_action = true;
                        }
                    },
                    CommandAction::KeyCombo(modifier, key) => {
                        remaining = remove_all(&re, remaining.as_str());
                        if is_match(&re, text) {
                            actions.push(CommandAction::KeyCombo(modifier, key));
                            had_key_action = true;
                        }
                    },
                }
                assert(actions@.map_values(|a: CommandAction| a@) =~= apply_command(
                    st,
                    phrase@,
                    action@,
                    text@,
                ).actions);
            },
        }
        k = k + 1;
    }
    assert(voice_commands@.subrange(0, cmds@.len() as int) =~= voice_commands@);
    ProcessedText {
        remaining_text: trim_text(remaining.as_str()),
        processed_text: processed,
        actions,
        had_key_action,
    }
}

/// What the host does for a command action.
#[derive(Debug, PartialEq, Eq)]
pub enum ActionEffect {
    /// Press and release one key.
    Key(String),
    /// Press a key while holding a modifier.
    Combo(String, String),
    /// Select everything and trigger a rewrite.
    TriggerRewrite,
    /// Start or stop recording.
    ToggleRecording,
    /// Nothing: inserted text is handled with the transcript.
    Nothing,
}

/// The mathematical value of an [`ActionEffect`].
pub enum EffectSpec {
    Key(Seq<char>),
    Combo(Seq<char>, Seq<char>),
    TriggerRewrite,
    ToggleRecording,
    Nothing,
}

impl View for ActionEffect {
    type V = EffectSpec;

    open spec fn view(&self) -> EffectSpec {
        match self {
            ActionEffect::Key(k) => EffectSpec::Key(k@),
            ActionEffect::Combo(m, k) => EffectSpec::Combo(m@, k@),
            ActionEffect::TriggerRewrite => EffectSpec::TriggerRewrite,
            ActionEffect::ToggleRecording => EffectSpec::ToggleRecording,
            ActionEffect::Nothing => EffectSpec::Nothing,
        }
    }
}

/// The effect of an action: keys and combinations are sent as they are,
/// deleting the last word sends control+backspace, rewrite and pause go to
/// the interface, and text insertion needs nothing here.
pub open spec fn effect_spec(a: ActionSpec) -> EffectSpec {
    match a {
        ActionSpec::KeyPress(k) => EffectSpec::Key(k),
        ActionSpec::KeyCombo(m, k) => EffectSpec::Combo(m, k),
        ActionSpec::DeleteLastWord => EffectSpec::Combo("control"@, "backspace"@),
        ActionSpec::Rewrite => EffectSpec::TriggerRewrite,
        ActionSpec::PauseDictation => EffectSpec::ToggleRecording,
        ActionSpec::InsertText(_) => EffectSpec::Nothing,
    }
}

/// What the host does to carry out `action`.
pub fn effect_of(action: &CommandAction) -> (r: ActionEffect)
    ensures
        r@ == effect_spec(action@),
{
    match action {
        CommandAction::KeyPress(k) => ActionEffect::Key(k.clone()),
        CommandAction::KeyCombo(m, k) => ActionEffect::Combo(m.clone(), k.clone()),
        CommandAction::DeleteLastWord => ActionEffect::Combo(
            String::from_str("control"),
            String::from_str("backspace"),
        ),
        CommandAction::Rewrite => ActionEffect::TriggerRewrite,
        CommandAction::PauseDictation => ActionEffect::ToggleRecording,
        CommandAction::InsertText(_) => ActionEffect::Nothing,
    }
}

} // verus!
