//! Portuguese voice commands.
use crate::voice_commands::entries_view;
use vstd::prelude::*;

verus! {

/// The Portuguese phrase table, in the order it is built.
pub open spec fn table() -> Seq<(Seq<char>, Seq<char>)> {
    seq![
        ("ponto"@, "."@),
        ("ponto final"@, "."@),
        ("vírgula"@, ","@),
        ("ponto de exclamação"@, "!"@),
        ("exclamação"@, "!"@),
        ("ponto de interrogação"@, "?"@),
        ("interrogação"@, "?"@),
        ("dois pontos"@, ":"@),
        ("ponto e vírgula"@, ";"@),
        ("hífen"@, "-"@),
        ("travessão"@, "-"@),
        ("arroba"@, "@"@),
        ("abrir parênteses"@, "("@),
        ("fechar parênteses"@, ")"@),
        ("abrir aspas"@, "\""@),
        ("fechar aspas"@, "\""@),
        ("sinal de igual"@, "="@),
        ("apagar"@, "backspace"@),
        ("retroceder"@, "backspace"@),
        ("pressionar enter"@, "enter"@),
        ("pressionar nova linha"@, "enter"@),
        ("pressionar colar"@, "ctrl+v"@),
        ("pressionar copiar"@, "ctrl+c"@),
        ("pressionar salvar"@, "ctrl+s"@),
        ("pressionar guardar"@, "ctrl+s"@),
        ("pressionar desfazer"@, "ctrl+z"@),
        ("pressionar refazer"@, "ctrl+y"@),
        ("pressionar cortar"@, "ctrl+x"@),
        ("selecionar tudo"@, "ctrl+a"@),
        ("pressionar espaço"@, "space"@),
        ("pressionar tabulação"@, "tab"@),
        ("eliminar isso"@, "delete_last_word"@),
        ("remover isso"@, "delete_last_word"@),
        ("pressionar reescrever"@, "rewrite"@),
        ("pressionar corrigir"@, "rewrite"@),
        ("pausar ditado"@, "pause_dictation"@),
        ("parar ditado"@, "pause_dictation"@),
        ("parar de ouvir"@, "pause_dictation"@),
    ]
}

/// The Portuguese voice commands: each spoken phrase with the action it stands for.
pub fn commands() -> (r: Vec<(String, String)>)
    ensures
        entries_view(r@) == table(),
{
    let mut c: Vec<(String, String)> = Vec::new();
    c.push((String::from_str("ponto"), String::from_str(".")));
    c.push((String::from_str("ponto final"), String::from_str(".")));
    c.push((String::from_str("vírgula"), String::from_str(",")));
    c.push((String::from_str("ponto de exclamação"), String::from_str("!")));
    c.push((String::from_str("exclamação"), String::from_str("!")));
    c.push((String::from_str("ponto de interrogação"), String::from_str("?")));
    c.push((String::from_str("interrogação"), String::from_str("?")));
    c.push((String::from_str("dois pontos"), String::from_str(":")));
    c.push((String::from_str("ponto e vírgula"), String::from_str(";")));
    c.push((String::from_str("hífen"), String::from_str("-")));
    c.push((String::from_str("travessão"), String::from_str("-")));
    c.push((String::from_str("arroba"), String::from_str("@")));
    c.push((String::from_str("abrir parênteses"), String::from_str("(")));
    c.push((String::from_str("fechar parênteses"), String::from_str(")")));
    c.push((String::from_str("abrir aspas"), String::from_str("\"")));
    c.push((String::from_str("fechar aspas"), String::from_str("\"")));
    c.push((String::from_str("sinal de igual"), String::from_str("=")));
    c.push((String::from_str("apagar"), String::from_str("backspace")));
    c.push((String::from_str("retroceder"), String::from_str("backspace")));
    c.push((String::from_str("pressionar enter"), String::from_str("enter")));
    c.push((String::from_str("pressionar nova linha"), String::from_str("enter")));
    c.push((String::from_str("pressionar colar"), String::from_str("ctrl+v")));
    c.push((String::from_str("pressionar copiar"), String::from_str("ctrl+c")));
    c.push((String::from_str("pressionar salvar"), String::from_str("ctrl+s")));
    c.push((String::from_str("pressionar guardar"), String::from_str("ctrl+s")));
    c.push((String::from_str("pressionar desfazer"), String::from_str("ctrl+z")));
    c.push((String::from_str("pressionar refazer"), String::from_str("ctrl+y")));
    c.push((String::from_str("pressionar cortar"), String::from_str("ctrl+x")));
    c.push((String::from_str("selecionar tudo"), String::from_str("ctrl+a")));
    c.push((String::from_str("pressionar espaço"), String::from_str("space")));
    c.push((String::from_str("pressionar tabulação"), String::from_str("tab")));
    c.push((String::from_str("eliminar isso"), String::from_str("delete_last_word")));
    c.push((String::from_str("remover isso"), String::from_str("delete_last_word")));
    c.push((String::from_str("pressionar reescrever"), String::from_str("rewrite")));
    c.push((String::from_str("pressionar corrigir"), String::from_str("rewrite")));
    c.push((String::from_str("pausar ditado"), String::from_str("pause_dictation")));
    c.push((String::from_str("parar ditado"), String::from_str("pause_dictation")));
    c.push((String::from_str("parar de ouvir"), String::from_str("pause_dictation")));
    assert(entries_view(c@) =~= table());
    c
}

} // verus!
