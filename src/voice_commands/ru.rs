//! Russian voice commands.
use crate::voice_commands::entries_view;
use vstd::prelude::*;

verus! {

/// The Russian phrase table, in the order it is built.
pub open spec fn table() -> Seq<(Seq<char>, Seq<char>)> {
    seq![
        ("точка"@, "."@),
        ("запятая"@, ","@),
        ("восклицательный знак"@, "!"@),
        ("вопросительный знак"@, "?"@),
        ("двоеточие"@, ":"@),
        ("точка с запятой"@, ";"@),
        ("тире"@, "-"@),
        ("дефис"@, "-"@),
        ("собака"@, "@"@),
        ("открыть скобку"@, "("@),
        ("закрыть скобку"@, ")"@),
        ("открыть кавычки"@, "\""@),
        ("закрыть кавычки"@, "\""@),
        ("знак равно"@, "="@),
        ("удалить"@, "backspace"@),
        ("stereть"@, "backspace"@),
        ("стереть"@, "backspace"@),
        ("нажать ввод"@, "enter"@),
        ("нажать энтер"@, "enter"@),
        ("нажать новая строка"@, "enter"@),
        ("нажать вставить"@, "ctrl+v"@),
        ("нажать копировать"@, "ctrl+c"@),
        ("нажать сохранить"@, "ctrl+s"@),
        ("нажать отменить"@, "ctrl+z"@),
        ("нажать повторить"@, "ctrl+y"@),
        ("нажать вырезать"@, "ctrl+x"@),
        ("выделить всё"@, "ctrl+a"@),
        ("выбрать всё"@, "ctrl+a"@),
        ("нажать пробел"@, "space"@),
        ("нажать табуляция"@, "tab"@),
        ("удалить это"@, "delete_last_word"@),
        ("убрать это"@, "delete_last_word"@),
        ("нажать переписать"@, "rewrite"@),
        ("нажать исправить"@, "rewrite"@),
        ("пауза диктовки"@, "pause_dictation"@),
        ("остановить диктовку"@, "pause_dictation"@),
        ("прекратить слушать"@, "pause_dictation"@),
    ]
}

/// The Russian voice commands: each spoken phrase with the action it stands for.
pub fn commands() -> (r: Vec<(String, String)>)
    ensures
        entries_view(r@) == table(),
{
    let mut c: Vec<(String, String)> = Vec::new();
    c.push((String::from_str("точка"), String::from_str(".")));
    c.push((String::from_str("запятая"), String::from_str(",")));
    c.push((String::from_str("восклицательный знак"), String::from_str("!")));
    c.push((String::from_str("вопросительный знак"), String::from_str("?")));
    c.push((String::from_str("двоеточие"), String::from_str(":")));
    c.push((String::from_str("точка с запятой"), String::from_str(";")));
    c.push((String::from_str("тире"), String::from_str("-")));
    c.push((String::from_str("дефис"), String::from_str("-")));
    c.push((String::from_str("собака"), String::from_str("@")));
    c.push((String::from_str("открыть скобку"), String::from_str("(")));
    c.push((String::from_str("закрыть скобку"), String::from_str(")")));
    c.push((String::from_str("открыть кавычки"), String::from_str("\"")));
    c.push((String::from_str("закрыть кавычки"), String::from_str("\"")));
    c.push((String::from_str("знак равно"), String::from_str("=")));
    c.push((String::from_str("удалить"), String::from_str("backspace")));
    c.push((String::from_str("stereть"), String::from_str("backspace")));
    c.push((String::from_str("стереть"), String::from_str("backspace")));
    c.push((String::from_str("нажать ввод"), String::from_str("enter")));
    c.push((String::from_str("нажать энтер"), String::from_str("enter")));
    c.push((String::from_str("нажать новая строка"), String::from_str("enter")));
    c.push((String::from_str("нажать вставить"), String::from_str("ctrl+v")));
    c.push((String::from_str("нажать копировать"), String::from_str("ctrl+c")));
    c.push((String::from_str("нажать сохранить"), String::from_str("ctrl+s")));
    c.push((String::from_str("нажать отменить"), String::from_str("ctrl+z")));
    c.push((String::from_str("нажать повторить"), String::from_str("ctrl+y")));
    c.push((String::from_str("нажать вырезать"), String::from_str("ctrl+x")));
    c.push((String::from_str("выделить всё"), String::from_str("ctrl+a")));
    c.push((String::from_str("выбрать всё"), String::from_str("ctrl+a")));
    c.push((String::from_str("нажать пробел"), String::from_str("space")));
    c.push((String::from_str("нажать табуляция"), String::from_str("tab")));
    c.push((String::from_str("удалить это"), String::from_str("delete_last_word")));
    c.push((String::from_str("убрать это"), String::from_str("delete_last_word")));
    c.push((String::from_str("нажать переписать"), String::from_str("rewrite")));
    c.push((String::from_str("нажать исправить"), String::from_str("rewrite")));
    c.push((String::from_str("пауза диктовки"), String::from_str("pause_dictation")));
    c.push((String::from_str("остановить диктовку"), String::from_str("pause_dictation")));
    c.push((String::from_str("прекратить слушать"), String::from_str("pause_dictation")));
    assert(entries_view(c@) =~= table());
    c
}

} // verus!
