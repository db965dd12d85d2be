//! Chinese voice commands.
use crate::voice_commands::entries_view;
use vstd::prelude::*;

verus! {

/// The Chinese phrase table, in the order it is built.
pub open spec fn table() -> Seq<(Seq<char>, Seq<char>)> {
    seq![
        ("句号"@, "。"@),
        ("逗号"@, "，"@),
        ("感叹号"@, "!"@),
        ("叹号"@, "!"@),
        ("问号"@, "?"@),
        ("冒号"@, ":"@),
        ("分号"@, ";"@),
        ("破折号"@, "-"@),
        ("连字符"@, "-"@),
        ("艾特"@, "@"@),
        ("左括号"@, "("@),
        ("右括号"@, ")"@),
        ("左引号"@, "\""@),
        ("右引号"@, "\""@),
        ("等号"@, "="@),
        ("删除"@, "backspace"@),
        ("退格"@, "backspace"@),
        ("按下 回车"@, "enter"@),
        ("按下 换行"@, "enter"@),
        ("按下 粘贴"@, "ctrl+v"@),
        ("按下 复制"@, "ctrl+c"@),
        ("按下 保存"@, "ctrl+s"@),
        ("按下 撤销"@, "ctrl+z"@),
        ("按下 重做"@, "ctrl+y"@),
        ("按下 剪切"@, "ctrl+x"@),
        ("全选"@, "ctrl+a"@),
        ("取消选择"@, "right"@),
        ("不选择"@, "right"@),
        ("按下 空格"@, "space"@),
        ("按下 制表符"@, "tab"@),
        ("删除那个"@, "delete_last_word"@),
        ("移除那个"@, "delete_last_word"@),
        ("按下 重写"@, "rewrite"@),
        ("按下 修正"@, "rewrite"@),
        ("暂停听写"@, "pause_dictation"@),
        ("停止听写"@, "pause_dictation"@),
        ("停止听"@, "pause_dictation"@),
    ]
}

/// The Chinese voice commands: each spoken phrase with the action it stands for.
pub fn commands() -> (r: Vec<(String, String)>)
    ensures
        entries_view(r@) == table(),
{
    let mut c: Vec<(String, String)> = Vec::new();
    c.push((String::from_str("句号"), String::from_str("。")));
    c.push((String::from_str("逗号"), String::from_str("，")));
    c.push((String::from_str("感叹号"), String::from_str("!")));
    c.push((String::from_str("叹号"), String::from_str("!")));
    c.push((String::from_str("问号"), String::from_str("?")));
    c.push((String::from_str("冒号"), String::from_str(":")));
    c.push((String::from_str("分号"), String::from_str(";")));
    c.push((String::from_str("破折号"), String::from_str("-")));
    c.push((String::from_str("连字符"), String::from_str("-")));
    c.push((String::from_str("艾特"), String::from_str("@")));
    c.push((String::from_str("左括号"), String::from_str("(")));
    c.push((String::from_str("右括号"), String::from_str(")")));
    c.push((String::from_str("左引号"), String::from_str("\"")));
    c.push((String::from_str("右引号"), String::from_str("\"")));
    c.push((String::from_str("等号"), String::from_str("=")));
    c.push((String::from_str("删除"), String::from_str("backspace")));
    c.push((String::from_str("退格"), String::from_str("backspace")));
    c.push((String::from_str("按下 回车"), String::from_str("enter")));
    c.push((String::from_str("按下 换行"), String::from_str("enter")));
    c.push((String::from_str("按下 粘贴"), String::from_str("ctrl+v")));
    c.push((String::from_str("按下 复制"), String::from_str("ctrl+c")));
    c.push((String::from_str("按下 保存"), String::from_str("ctrl+s")));
    c.push((String::from_str("按下 撤销"), String::from_str("ctrl+z")));
    c.push((String::from_str("按下 重做"), String::from_str("ctrl+y")));
    c.push((String::from_str("按下 剪切"), String::from_str("ctrl+x")));
    c.push((String::from_str("全选"), String::from_str("ctrl+a")));
    c.push((String::from_str("取消选择"), String::from_str("right")));
    c.push((String::from_str("不选择"), String::from_str("right")));
    c.push((String::from_str("按下 空格"), String::from_str("space")));
    c.push((String::from_str("按下 制表符"), String::from_str("tab")));
    c.push((String::from_str("删除那个"), String::from_str("delete_last_word")));
    c.push((String::from_str("移除那个"), String::from_str("delete_last_word")));
    c.push((String::from_str("按下 重写"), String::from_str("rewrite")));
    c.push((String::from_str("按下 修正"), String::from_str("rewrite")));
    c.push((String::from_str("暂停听写"), String::from_str("pause_dictation")));
    c.push((String::from_str("停止听写"), String::from_str("pause_dictation")));
    c.push((String::from_str("停止听"), String::from_str("pause_dictation")));
    assert(entries_view(c@) =~= table());
    c
}

} // verus!
