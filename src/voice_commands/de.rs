//! German voice commands.
use crate::voice_commands::entries_view;
use vstd::prelude::*;

verus! {

/// The German phrase table, in the order it is built.
pub open spec fn table() -> Seq<(Seq<char>, Seq<char>)> {
    seq![
        ("punkt"@, "."@),
        ("komma"@, ","@),
        ("ausrufezeichen"@, "!"@),
        ("fragezeichen"@, "?"@),
        ("doppelpunkt"@, ":"@),
        ("semikolon"@, ";"@),
        ("strichpunkt"@, ";"@),
        ("bindestrich"@, "-"@),
        ("gedankenstrich"@, "-"@),
        ("at zeichen"@, "@"@),
        ("klammeraffe"@, "@"@),
        ("klammer auf"@, "("@),
        ("klammer zu"@, ")"@),
        ("anführungszeichen auf"@, "\""@),
        ("anführungszeichen zu"@, "\""@),
        ("gleich zeichen"@, "="@),
        ("löschen"@, "backspace"@),
        ("rücktaste"@, "backspace"@),
        ("drücke eingabe"@, "enter"@),
        ("drücke enter"@, "enter"@),
        ("drücke neue zeile"@, "enter"@),
        ("drücke einfügen"@, "ctrl+v"@),
        ("drücke kopieren"@, "ctrl+c"@),
        ("drücke speichern"@, "ctrl+s"@),
        ("drücke rückgängig"@, "ctrl+z"@),
        ("drücke wiederholen"@, "ctrl+y"@),
        ("drücke ausschneiden"@, "ctrl+x"@),
        ("alles auswählen"@, "ctrl+a"@),
        ("alles markieren"@, "ctrl+a"@),
        ("Auswahl aufheben"@, "right"@),
        ("nichts auswählen"@, "right"@),
        ("drücke leerzeichen"@, "space"@),
        ("drücke tabulator"@, "tab"@),
        ("das löschen"@, "delete_last_word"@),
        ("entfernen"@, "delete_last_word"@),
        ("drücke umschreiben"@, "rewrite"@),
        ("drücke korrigieren"@, "rewrite"@),
        ("diktat pausieren"@, "pause_dictation"@),
        ("diktat stoppen"@, "pause_dictation"@),
        ("aufhören zu hören"@, "pause_dictation"@),
    ]
}

/// The German voice commands: each spoken phrase with the action it stands for.
pub fn commands() -> (r: Vec<(String, String)>)
    ensures
        entries_view(r@) == table(),
{
    let mut c: Vec<(String, String)> = Vec::new();
    c.push((String::from_str("punkt"), String::from_str(".")));
    c.push((String::from_str("komma"), String::from_str(",")));
    c.push((String::from_str("ausrufezeichen"), String::from_str("!")));
    c.push((String::from_str("fragezeichen"), String::from_str("?")));
    c.push((String::from_str("doppelpunkt"), String::from_str(":")));
    c.push((String::from_str("semikolon"), String::from_str(";")));
    c.push((String::from_str("strichpunkt"), String::from_str(";")));
    c.push((String::from_str("bindestrich"), String::from_str("-")));
    c.push((String::from_str("gedankenstrich"), String::from_str("-")));
    c.push((String::from_str("at zeichen"), String::from_str("@")));
    c.push((String::from_str("klammeraffe"), String::from_str("@")));
    c.push((String::from_str("klammer auf"), String::from_str("(")));
    c.push((String::from_str("klammer zu"), String::from_str(")")));
    c.push((String::from_str("anführungszeichen auf"), String::from_str("\"")));
    c.push((String::from_str("anführungszeichen zu"), String::from_str("\"")));
    c.push((String::from_str("gleich zeichen"), String::from_str("=")));
    c.push((String::from_str("löschen"), String::from_str("backspace")));
    c.push((String::from_str("rücktaste"), String::from_str("backspace")));
    c.push((String::from_str("drücke eingabe"), String::from_str("enter")));
    c.push((String::from_str("drücke enter"), String::from_str("enter")));
    c.push((String::from_str("drücke neue zeile"), String::from_str("enter")));
    c.push((String::from_str("drücke einfügen"), String::from_str("ctrl+v")));
    c.push((String::from_str("drücke kopieren"), String::from_str("ctrl+c")));
    c.push((String::from_str("drücke speichern"), String::from_str("ctrl+s")));
    c.push((String::from_str("drücke rückgängig"), String::from_str("ctrl+z")));
    c.push((String::from_str("drücke wiederholen"), String::from_str("ctrl+y")));
    c.push((String::from_str("drücke ausschneiden"), String::from_str("ctrl+x")));
    c.push((String::from_str("alles auswählen"), String::from_str("ctrl+a")));
    c.push((String::from_str("alles markieren"), String::from_str("ctrl+a")));
    c.push((String::from_str("Auswahl aufheben"), String::from_str("right")));
    c.push((String::from_str("nichts auswählen"), String::from_str("right")));
    c.push((String::from_str("drücke leerzeichen"), String::from_str("space")));
    c.push((String::from_str("drücke tabulator"), String::from_str("tab")));
    c.push((String::from_str("das löschen"), String::from_str("delete_last_word")));
    c.push((String::from_str("entfernen"), String::from_str("delete_last_word")));
    c.push((String::from_str("drücke umschreiben"), String::from_str("rewrite")));
    c.push((String::from_str("drücke korrigieren"), String::from_str("rewrite")));
    c.push((String::from_str("diktat pausieren"), String::from_str("pause_dictation")));
    c.push((String::from_str("diktat stoppen"), String::from_str("pause_dictation")));
    c.push((String::from_str("aufhören zu hören"), String::from_str("pause_dictation")));
    assert(entries_view(c@) =~= table());
    c
}

} // verus!
