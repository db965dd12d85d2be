//! Spanish voice commands.
use crate::voice_commands::entries_view;
use vstd::prelude::*;

verus! {

/// The Spanish phrase table, in the order it is built.
pub open spec fn table() -> Seq<(Seq<char>, Seq<char>)> {
    seq![
        ("punto"@, "."@),
        ("coma"@, ","@),
        ("signo de exclamación"@, "!"@),
        ("exclamación"@, "!"@),
        ("signo de interrogación"@, "?"@),
        ("interrogación"@, "?"@),
        ("dos puntos"@, ":"@),
        ("punto y coma"@, ";"@),
        ("guión"@, "-"@),
        ("arroba"@, "@"@),
        ("abrir paréntesis"@, "("@),
        ("cerrar paréntesis"@, ")"@),
        ("abrir comillas"@, "\""@),
        ("cerrar comillas"@, "\""@),
        ("signo igual"@, "="@),
        ("borrar"@, "backspace"@),
        ("retroceso"@, "backspace"@),
        ("presionar enter"@, "enter"@),
        ("presionar intro"@, "enter"@),
        ("presionar nueva línea"@, "enter"@),
        ("presionar pegar"@, "ctrl+v"@),
        ("presionar copiar"@, "ctrl+c"@),
        ("presionar guardar"@, "ctrl+s"@),
        ("presionar deshacer"@, "ctrl+z"@),
        ("presionar rehacer"@, "ctrl+y"@),
        ("presionar cortar"@, "ctrl+x"@),
        ("seleccionar todo"@, "ctrl+a"@),
        ("presionar espacio"@, "space"@),
        ("presionar tabulador"@, "tab"@),
        ("eliminar eso"@, "delete_last_word"@),
        ("quitar eso"@, "delete_last_word"@),
        ("presionar reescribir"@, "rewrite"@),
        ("presionar corregir"@, "rewrite"@),
        ("pausar dictado"@, "pause_dictation"@),
        ("detener dictado"@, "pause_dictation"@),
        ("parar dictado"@, "pause_dictation"@),
        ("dejar de escuchar"@, "pause_dictation"@),
    ]
}

/// The Spanish voice commands: each spoken phrase with the action it stands for.
pub fn commands() -> (r: Vec<(String, String)>)
    ensures
        entries_view(r@) == table(),
{
    let mut c: Vec<(String, String)> = Vec::new();
    c.push((String::from_str("punto"), String::from_str(".")));
    c.push((String::from_str("coma"), String::from_str(",")));
    c.push((String::from_str("signo de exclamación"), String::from_str("!")));
    c.push((String::from_str("exclamación"), String::from_str("!")));
    c.push((String::from_str("signo de interrogación"), String::from_str("?")));
    c.push((String::from_str("interrogación"), String::from_str("?")));
    c.push((String::from_str("dos puntos"), String::from_str(":")));
    c.push((String::from_str("punto y coma"), String::from_str(";")));
    c.push((String::from_str("guión"), String::from_str("-")));
    c.push((String::from_str("arroba"), String::from_str("@")));
    c.push((String::from_str("abrir paréntesis"), String::from_str("(")));
    c.push((String::from_str("cerrar paréntesis"), String::from_str(")")));
    c.push((String::from_str("abrir comillas"), String::from_str("\"")));
    c.push((String::from_str("cerrar comillas"), String::from_str("\"")));
    c.push((String::from_str("signo igual"), String::from_str("=")));
    c.push((String::from_str("borrar"), String::from_str("backspace")));
    c.push((String::from_str("retroceso"), String::from_str("backspace")));
    c.push((String::from_str("presionar enter"), String::from_str("enter")));
    c.push((String::from_str("presionar intro"), String::from_str("enter")));
    c.push((String::from_str("presionar nueva línea"), String::from_str("enter")));
    c.push((String::from_str("presionar pegar"), String::from_str("ctrl+v")));
    c.push((String::from_str("presionar copiar"), String::from_str("ctrl+c")));
    c.push((String::from_str("presionar guardar"), String::from_str("ctrl+s")));
    c.push((String::from_str("presionar deshacer"), String::from_str("ctrl+z")));
    c.push((String::from_str("presionar rehacer"), String::from_str("ctrl+y")));
    c.push((String::from_str("presionar cortar"), String::from_str("ctrl+x")));
    c.push((String::from_str("seleccionar todo"), String::from_str("ctrl+a")));
    c.push((String::from_str("presionar espacio"), String::from_str("space")));
    c.push((String::from_str("presionar tabulador"), String::from_str("tab")));
    c.push((String::from_str("eliminar eso"), String::from_str("delete_last_word")));
    c.push((String::from_str("quitar eso"), String::from_str("delete_last_word")));
    c.push((String::from_str("presionar reescribir"), String::from_str("rewrite")));
    c.push((String::from_str("presionar corregir"), String::from_str("rewrite")));
    c.push((String::from_str("pausar dictado"), String::from_str("pause_dictation")));
    c.push((String::from_str("detener dictado"), String::from_str("pause_dictation")));
    c.push((String::from_str("parar dictado"), String::from_str("pause_dictation")));
    c.push((String::from_str("dejar de escuchar"), String::from_str("pause_dictation")));
    assert(entries_view(c@) =~= table());
    c
}

} // verus!
