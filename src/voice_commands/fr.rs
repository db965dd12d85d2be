//! French voice commands.
use crate::voice_commands::entries_view;
use vstd::prelude::*;

verus! {

/// The French phrase table, in the order it is built.
pub open spec fn table() -> Seq<(Seq<char>, Seq<char>)> {
    seq![
        ("point"@, "."@),
        ("virgule"@, ","@),
        ("point d'exclamation"@, "!"@),
        ("point d'interrogation"@, "?"@),
        ("deux points"@, ":"@),
        ("point-virgule"@, ";"@),
        ("tiret"@, "-"@),
        ("trait d'union"@, "-"@),
        ("arobase"@, "@"@),
        ("ouvrir parenthèse"@, "("@),
        ("fermer parenthèse"@, ")"@),
        ("ouvrir guillemets"@, "\""@),
        ("fermer guillemets"@, "\""@),
        ("signe égal"@, "="@),
        ("effacer"@, "backspace"@),
        ("retour arrière"@, "backspace"@),
        ("appuyer sur entrée"@, "enter"@),
        ("appuyer sur nouvelle ligne"@, "enter"@),
        ("appuyer sur à la ligne"@, "enter"@),
        ("appuyer sur coller"@, "ctrl+v"@),
        ("appuyer sur copier"@, "ctrl+c"@),
        ("appuyer sur enregistrer"@, "ctrl+s"@),
        ("appuyer sur sauvegarder"@, "ctrl+s"@),
        ("appuyer sur annuler"@, "ctrl+z"@),
        ("appuyer sur rétablir"@, "ctrl+y"@),
        ("appuyer sur couper"@, "ctrl+x"@),
        ("tout sélectionner"@, "ctrl+a"@),
        ("appuyer sur espace"@, "space"@),
        ("appuyer sur tabulation"@, "tab"@),
        ("supprimer ça"@, "delete_last_word"@),
        ("effacer ça"@, "delete_last_word"@),
        ("appuyer sur réécrire"@, "rewrite"@),
        ("appuyer sur corriger"@, "rewrite"@),
        ("pause dictée"@, "pause_dictation"@),
        ("arrêter dictée"@, "pause_dictation"@),
        ("stop dictée"@, "pause_dictation"@),
        ("arrêter d'écouter"@, "pause_dictation"@),
    ]
}

/// The French voice commands: each spoken phrase with the action it stands for.
pub fn commands() -> (r: Vec<(String, String)>)
    ensures
        entries_view(r@) == table(),
{
    let mut c: Vec<(String, String)> = Vec::new();
    c.push((String::from_str("point"), String::from_str(".")));
    c.push((String::from_str("virgule"), String::from_str(",")));
    c.push((String::from_str("point d'exclamation"), String::from_str("!")));
    c.push((String::from_str("point d'interrogation"), String::from_str("?")));
    c.push((String::from_str("deux points"), String::from_str(":")));
    c.push((String::from_str("point-virgule"), String::from_str(";")));
    c.push((String::from_str("tiret"), String::from_str("-")));
    c.push((String::from_str("trait d'union"), String::from_str("-")));
    c.push((String::from_str("arobase"), String::from_str("@")));
    c.push((String::from_str("ouvrir parenthèse"), String::from_str("(")));
    c.push((String::from_str("fermer parenthèse"), String::from_str(")")));
    c.push((String::from_str("ouvrir guillemets"), String::from_str("\"")));
    c.push((String::from_str("fermer guillemets"), String::from_str("\"")));
    c.push((String::from_str("signe égal"), String::from_str("=")));
    c.push((String::from_str("effacer"), String::from_str("backspace")));
    c.push((String::from_str("retour arrière"), String::from_str("backspace")));
    c.push((String::from_str("appuyer sur entrée"), String::from_str("enter")));
    c.push((String::from_str("appuyer sur nouvelle ligne"), String::from_str("enter")));
    c.push((String::from_str("appuyer sur à la ligne"), String::from_str("enter")));
    c.push((String::from_str("appuyer sur coller"), String::from_str("ctrl+v")));
    c.push((String::from_str("appuyer sur copier"), String::from_str("ctrl+c")));
    c.push((String::from_str("appuyer sur enregistrer"), String::from_str("ctrl+s")));
    c.push((String::from_str("appuyer sur sauvegarder"), String::from_str("ctrl+s")));
    c.push((String::from_str("appuyer sur annuler"), String::from_str("ctrl+z")));
    c.push((String::from_str("appuyer sur rétablir"), String::from_str("ctrl+y")));
    c.push((String::from_str("appuyer sur couper"), String::from_str("ctrl+x")));
    c.push((String::from_str("tout sélectionner"), String::from_str("ctrl+a")));
    c.push((String::from_str("appuyer sur espace"), String::from_str("space")));
    c.push((String::from_str("appuyer sur tabulation"), String::from_str("tab")));
    c.push((String::from_str("supprimer ça"), String::from_str("delete_last_word")));
    c.push((String::from_str("effacer ça"), String::from_str("delete_last_word")));
    c.push((String::from_str("appuyer sur réécrire"), String::from_str("rewrite")));
    c.push((String::from_str("appuyer sur corriger"), String::from_str("rewrite")));
    c.push((String::from_str("pause dictée"), String::from_str("pause_dictation")));
    c.push((String::from_str("arrêter dictée"), String::from_str("pause_dictation")));
    c.push((String::from_str("stop dictée"), String::from_str("pause_dictation")));
    c.push((String::from_str("arrêter d'écouter"), String::from_str("pause_dictation")));
    assert(entries_view(c@) =~= table());
    c
}

} // verus!
