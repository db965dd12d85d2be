//! Dutch voice commands.
use crate::voice_commands::entries_view;
use vstd::prelude::*;

verus! {

/// The Dutch phrase table, in the order it is built.
pub open spec fn table() -> Seq<(Seq<char>, Seq<char>)> {
    seq![
        ("punt"@, "."@),
        ("komma"@, ","@),
        ("uitroepteken"@, "!"@),
        ("vraagteken"@, "?"@),
        ("dubbele punt"@, ":"@),
        ("puntkomma"@, ";"@),
        ("streepje"@, "-"@),
        ("koppelteken"@, "-"@),
        ("apenstaartje"@, "@"@),
        ("haakje openen"@, "("@),
        ("haakje sluiten"@, ")"@),
        ("aanhalingsteken openen"@, "\""@),
        ("aanhalingsteken sluiten"@, "\""@),
        ("is gelijk teken"@, "="@),
        ("wissen"@, "backspace"@),
        ("backspace"@, "backspace"@),
        ("druk op enter"@, "enter"@),
        ("druk op nieuwe regel"@, "enter"@),
        ("druk op plakken"@, "ctrl+v"@),
        ("druk op kopiÃ«ren"@, "ctrl+c"@),
        ("druk op opslaan"@, "ctrl+s"@),
        ("druk op ongedaan maken"@, "ctrl+z"@),
        ("druk op opnieuw"@, "ctrl+y"@),
        ("druk op knippen"@, "ctrl+x"@),
        ("alles selecteren"@, "ctrl+a"@),
        ("druk op spatie"@, "space"@),
        ("druk op tab"@, "tab"@),
        ("verwijder dat"@, "delete_last_word"@),
        ("dat verwijderen"@, "delete_last_word"@),
        ("druk op herschrijven"@, "rewrite"@),
        ("druk op corrigeren"@, "rewrite"@),
        ("dictaat pauzeren"@, "pause_dictation"@),
        ("dictaat stoppen"@, "pause_dictation"@),
        ("stop met luisteren"@, "pause_dictation"@),
    ]
}

/// The Dutch voice commands: each spoken phrase with the action it stands for.
pub fn commands() -> (r: Vec<(String, String)>)
    ensures
        entries_view(r@) == table(),
{
    let mut c: Vec<(String, String)> = Vec::new();
    c.push((String::from_str("punt"), String::from_str(".")));
    c.push((String::from_str("komma"), String::from_str(",")));
    c.push((String::from_str("uitroepteken"), String::from_str("!")));
    c.push((String::from_str("vraagteken"), String::from_str("?")));
    c.push((String::from_str("dubbele punt"), String::from_str(":")));
    c.push((String::from_str("puntkomma"), String::from_str(";")));
    c.push((String::from_str("streepje"), String::from_str("-")));
    c.push((String::from_str("koppelteken"), String::from_str("-")));
    c.push((String::from_str("apenstaartje"), String::from_str("@")));
    c.push((String::from_str("haakje openen"), String::from_str("(")));
    c.push((String::from_str("haakje sluiten"), String::from_str(")")));
    c.push((String::from_str("aanhalingsteken openen"), String::from_str("\"")));
    c.push((String::from_str("aanhalingsteken sluiten"), String::from_str("\"")));
    c.push((String::from_str("is gelijk teken"), String::from_str("=")));
    c.push((String::from_str("wissen"), String::from_str("backspace")));
    c.push((String::from_str("backspace"), String::from_str("backspace")));
    c.push((String::from_str("druk op enter"), String::from_str("enter")));
    c.push((String::from_str("druk op nieuwe regel"), String::from_str("enter")));
    c.push((String::from_str("druk op plakken"), String::from_str("ctrl+v")));
    c.push((String::from_str("druk op kopiÃ«ren"), String::from_str("ctrl+c")));
    c.push((String::from_str("druk op opslaan"), String::from_str("ctrl+s")));
    c.push((String::from_str("druk op ongedaan maken"), String::from_str("ctrl+z")));
    c.push((String::from_str("druk op opnieuw"), String::from_str("ctrl+y")));
    c.push((String::from_str("druk op knippen"), String::from_str("ctrl+x")));
    c.push((String::from_str("alles selecteren"), String::from_str("ctrl+a")));
    c.push((String::from_str("druk op spatie"), String::from_str("space")));
    c.push((String::from_str("druk op tab"), String::from_str("tab")));
    c.push((String::from_str("verwijder dat"), String::from_str("delete_last_word")));
    c.push((String::from_str("dat verwijderen"), String::from_str("delete_last_word")));
    c.push((String::from_str("druk op herschrijven"), String::from_str("rewrite")));
    c.push((String::from_str("druk op corrigeren"), String::from_str("rewrite")));
    c.push((String::from_str("dictaat pauzeren"), String::from_str("pause_dictation")));
    c.push((String::from_str("dictaat stoppen"), String::from_str("pause_dictation")));
    c.push((String::from_str("stop met luisteren"), String::from_str("pause_dictation")));
    assert(entries_view(c@) =~= table());
    c
}

} // verus!
