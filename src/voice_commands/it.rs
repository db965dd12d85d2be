//! Italian voice commands.
use crate::voice_commands::entries_view;
use vstd::prelude::*;

verus! {

/// The Italian phrase table, in the order it is built.
pub open spec fn table() -> Seq<(Seq<char>, Seq<char>)> {
    seq![
        ("punto"@, "."@),
        ("virgola"@, ","@),
        ("punto esclamativo"@, "!"@),
        ("punto interrogativo"@, "?"@),
        ("due punti"@, ":"@),
        ("punto e virgola"@, ";"@),
        ("trattino"@, "-"@),
        ("chiocciola"@, "@"@),
        ("apri parentesi"@, "("@),
        ("chiudi parentesi"@, ")"@),
        ("apri virgolette"@, "\""@),
        ("chiudi virgolette"@, "\""@),
        ("apri apice"@, "'"@),
        ("chiudi apice"@, "'"@),
        ("segno uguale"@, "="@),
        ("cancella"@, "backspace"@),
        ("premi invio"@, "enter"@),
        ("premi a capo"@, "enter"@),
        ("premi incolla"@, "ctrl+v"@),
        ("premi copia"@, "ctrl+c"@),
        ("premi salva"@, "ctrl+s"@),
        ("premi annulla"@, "ctrl+z"@),
        ("premi ripeti"@, "ctrl+y"@),
        ("premi taglia"@, "ctrl+x"@),
        ("seleziona tutto"@, "ctrl+a"@),
        ("deseleziona"@, "right"@),
        ("seleziona nessuno"@, "right"@),
        ("premi spazio"@, "space"@),
        ("premi tab"@, "tab"@),
        ("elimina"@, "delete_last_word"@),
        ("rimuovi"@, "delete_last_word"@),
        ("premi riscrivi"@, "rewrite"@),
        ("premi correggi"@, "rewrite"@),
        ("pausa dettatura"@, "pause_dictation"@),
        ("ferma dettatura"@, "pause_dictation"@),
        ("stop dettatura"@, "pause_dictation"@),
        ("smetti di ascoltare"@, "pause_dictation"@),
    ]
}

/// The Italian voice commands: each spoken phrase with the action it stands for.
pub fn commands() -> (r: Vec<(String, String)>)
    ensures
        entries_view(r@) == table(),
{
    let mut c: Vec<(String, String)> = Vec::new();
    c.push((String::from_str("punto"), String::from_str(".")));
    c.push((String::from_str("virgola"), String::from_str(",")));
    c.push((String::from_str("punto esclamativo"), String::from_str("!")));
    c.push((String::from_str("punto interrogativo"), String::from_str("?")));
    c.push((String::from_str("due punti"), String::from_str(":")));
    c.push((String::from_str("punto e virgola"), String::from_str(";")));
    c.push((String::from_str("trattino"), String::from_str("-")));
    c.push((String::from_str("chiocciola"), String::from_str("@")));
    c.push((String::from_str("apri parentesi"), String::from_str("(")));
    c.push((String::from_str("chiudi parentesi"), String::from_str(")")));
    c.push((String::from_str("apri virgolette"), String::from_str("\"")));
    c.push((String::from_str("chiudi virgolette"), String::from_str("\"")));
    c.push((String::from_str("apri apice"), String::from_str("'")));
    c.push((String::from_str("chiudi apice"), String::from_str("'")));
    c.push((String::from_str("segno uguale"), String::from_str("=")));
    c.push((String::from_str("cancella"), String::from_str("backspace")));
    c.push((String::from_str("premi invio"), String::from_str("enter")));
    c.push((String::from_str("premi a capo"), String::from_str("enter")));
    c.push((String::from_str("premi incolla"), String::from_str("ctrl+v")));
    c.push((String::from_str("premi copia"), String::from_str("ctrl+c")));
    c.push((String::from_str("premi salva"), String::from_str("ctrl+s")));
    c.push((String::from_str("premi annulla"), String::from_str("ctrl+z")));
    c.push((String::from_str("premi ripeti"), String::from_str("ctrl+y")));
    c.push((String::from_str("premi taglia"), String::from_str("ctrl+x")));
    c.push((String::from_str("seleziona tutto"), String::from_str("ctrl+a")));
    c.push((String::from_str("deseleziona"), String::from_str("right")));
    c.push((String::from_str("seleziona nessuno"), String::from_str("right")));
    c.push((String::from_str("premi spazio"), String::from_str("space")));
    c.push((String::from_str("premi tab"), String::from_str("tab")));
    c.push((String::from_str("elimina"), String::from_str("delete_last_word")));
    c.push((String::from_str("rimuovi"), String::from_str("delete_last_word")));
    c.push((String::from_str("premi riscrivi"), String::from_str("rewrite")));
    c.push((String::from_str("premi correggi"), String::from_str("rewrite")));
    c.push((String::from_str("pausa dettatura"), String::from_str("pause_dictation")));
    c.push((String::from_str("ferma dettatura"), String::from_str("pause_dictation")));
    c.push((String::from_str("stop dettatura"), String::from_str("pause_dictation")));
    c.push((String::from_str("smetti di ascoltare"), String::from_str("pause_dictation")));
    assert(entries_view(c@) =~= table());
    c
}

} // verus!
