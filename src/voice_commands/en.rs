//! English voice commands.
use crate::voice_commands::entries_view;
use vstd::prelude::*;

verus! {

/// The English phrase table, in the order it is built.
pub open spec fn table() -> Seq<(Seq<char>, Seq<char>)> {
    seq![
        ("period"@, "."@),
        ("comma"@, ","@),
        ("exclamation mark"@, "!"@),
        ("question mark"@, "?"@),
        ("colon"@, ":"@),
        ("semicolon"@, ";"@),
        ("dash"@, "-"@),
        ("hyphen"@, "-"@),
        ("at sign"@, "@"@),
        ("at mention"@, "@"@),
        ("open parenthesis"@, "("@),
        ("close parenthesis"@, ")"@),
        ("open quote"@, "\""@),
        ("close quote"@, "\""@),
        ("open single quote"@, "'"@),
        ("close single quote"@, "'"@),
        ("equal sign"@, "="@),
        ("backspace"@, "backspace"@),
        ("press enter"@, "enter"@),
        ("press paste"@, "ctrl+v"@),
        ("press copy"@, "ctrl+c"@),
        ("press save"@, "ctrl+s"@),
        ("press undo"@, "ctrl+z"@),
        ("press redo"@, "ctrl+y"@),
        ("press cut"@, "ctrl+x"@),
        ("select all"@, "ctrl+a"@),
        ("select none"@, "right"@),
        ("deselect"@, "right"@),
        ("press space"@, "space"@),
        ("press tab"@, "tab"@),
        ("delete that"@, "delete_last_word"@),
        ("remove that"@, "delete_last_word"@),
        ("press rewrite"@, "rewrite"@),
        ("pause voice typing"@, "pause_dictation"@),
        ("pause dictation"@, "pause_dictation"@),
        ("stop voice typing"@, "pause_dictation"@),
        ("stop dictation"@, "pause_dictation"@),
        ("stop listening"@, "pause_dictation"@),
        ("stop dictating"@, "pause_dictation"@),
        ("stop voice mode"@, "pause_dictation"@),
        ("pause voice mode"@, "pause_dictation"@),
    ]
}

/// The English voice commands: each spoken phrase with the action it stands for.
pub fn commands() -> (r: Vec<(String, String)>)
    ensures
        entries_view(r@) == table(),
{
    let mut c: Vec<(String, String)> = Vec::new();
    c.push((String::from_str("period"), String::from_str(".")));
    c.push((String::from_str("comma"), String::from_str(",")));
    c.push((String::from_str("exclamation mark"), String::from_str("!")));
    c.push((String::from_str("question mark"), String::from_str("?")));
    c.push((String::from_str("colon"), String::from_str(":")));
    c.push((String::from_str("semicolon"), String::from_str(";")));
    c.push((String::from_str("dash"), String::from_str("-")));
    c.push((String::from_str("hyphen"), String::from_str("-")));
    c.push((String::from_str("at sign"), String::from_str("@")));
    c.push((String::from_str("at mention"), String::from_str("@")));
    c.push((String::from_str("open parenthesis"), String::from_str("(")));
    c.push((String::from_str("close parenthesis"), String::from_str(")")));
    c.push((String::from_str("open quote"), String::from_str("\"")));
    c.push((String::from_str("close quote"), String::from_str("\"")));
    c.push((String::from_str("open single quote"), String::from_str("'")));
    c.push((String::from_str("close single quote"), String::from_str("'")));
    c.push((String::from_str("equal sign"), String::from_str("=")));
    c.push((String::from_str("backspace"), String::from_str("backspace")));
    c.push((String::from_str("press enter"), String::from_str("enter")));
    c.push((String::from_str("press paste"), String::from_str("ctrl+v")));
    c.push((String::from_str("press copy"), String::from_str("ctrl+c")));
    c.push((String::from_str("press save"), String::from_str("ctrl+s")));
    c.push((String::from_str("press undo"), String::from_str("ctrl+z")));
    c.push((String::from_str("press redo"), String::from_str("ctrl+y")));
    c.push((String::from_str("press cut"), String::from_str("ctrl+x")));
    c.push((String::from_str("select all"), String::from_str("ctrl+a")));
    c.push((String::from_str("select none"), String::from_str("right")));
    c.push((String::from_str("deselect"), String::from_str("right")));
    c.push((String::from_str("press space"), String::from_str("space")));
    c.push((String::from_str("press tab"), String::from_str("tab")));
    c.push((String::from_str("delete that"), String::from_str("delete_last_word")));
    c.push((String::from_str("remove that"), String::from_str("delete_last_word")));
    c.push((String::from_str("press rewrite"), String::from_str("rewrite")));
    c.push((String::from_str("pause voice typing"), String::from_str("pause_dictation")));
    c.push((String::from_str("pause dictation"), String::from_str("pause_dictation")));
    c.push((String::from_str("stop voice typing"), String::from_str("pause_dictation")));
    c.push((String::from_str("stop dictation"), String::from_str("pause_dictation")));
    c.push((String::from_str("stop listening"), String::from_str("pause_dictation")));
    c.push((String::from_str("stop dictating"), String::from_str("pause_dictation")));
    c.push((String::from_str("stop voice mode"), String::from_str("pause_dictation")));
    c.push((String::from_str("pause voice mode"), String::from_str("pause_dictation")));
    assert(entries_view(c@) =~= table());
    c
}

} // verus!
