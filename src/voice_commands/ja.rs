//! Japanese voice commands.
use crate::voice_commands::entries_view;
use vstd::prelude::*;

verus! {

/// The Japanese phrase table, in the order it is built.
pub open spec fn table() -> Seq<(Seq<char>, Seq<char>)> {
    seq![
        ("まる"@, "。"@),
        ("句点"@, "。"@),
        ("てん"@, "、"@),
        ("読点"@, "、"@),
        ("感嘆符"@, "!"@),
        ("びっくりマーク"@, "!"@),
        ("疑問符"@, "?"@),
        ("はてなマーク"@, "?"@),
        ("コロン"@, ":"@),
        ("セミコロン"@, ";"@),
        ("ハイフン"@, "-"@),
        ("アットマーク"@, "@"@),
        ("かっこ開く"@, "("@),
        ("括弧開く"@, "("@),
        ("かっこ閉じる"@, ")"@),
        ("括弧閉じる"@, ")"@),
        ("引用符開く"@, "\""@),
        ("引用符閉じる"@, "\""@),
        ("イコール"@, "="@),
        ("削除"@, "backspace"@),
        ("バックスペース"@, "backspace"@),
        ("改行を押す"@, "enter"@),
        ("エンターを押す"@, "enter"@),
        ("貼り付けを押す"@, "ctrl+v"@),
        ("ペーストを押す"@, "ctrl+v"@),
        ("コピーを押す"@, "ctrl+c"@),
        ("保存を押す"@, "ctrl+s"@),
        ("元に戻すを押す"@, "ctrl+z"@),
        ("やり直すを押す"@, "ctrl+y"@),
        ("切り取りを押す"@, "ctrl+x"@),
        ("すべて選択"@, "ctrl+a"@),
        ("全選択"@, "ctrl+a"@),
        ("スペースを押す"@, "space"@),
        ("タブを押す"@, "tab"@),
        ("それを削除"@, "delete_last_word"@),
        ("取り消し"@, "delete_last_word"@),
        ("書き直しを押す"@, "rewrite"@),
        ("修正を押す"@, "rewrite"@),
        ("音声入力を停止"@, "pause_dictation"@),
        ("ディクテーション停止"@, "pause_dictation"@),
        ("聞くのをやめる"@, "pause_dictation"@),
    ]
}

/// The Japanese voice commands: each spoken phrase with the action it stands for.
pub fn commands() -> (r: Vec<(String, String)>)
    ensures
        entries_view(r@) == table(),
{
    let mut c: Vec<(String, String)> = Vec::new();
    c.push((String::from_str("まる"), String::from_str("。")));
    c.push((String::from_str("句点"), String::from_str("。")));
    c.push((String::from_str("てん"), String::from_str("、")));
    c.push((String::from_str("読点"), String::from_str("、")));
    c.push((String::from_str("感嘆符"), String::from_str("!")));
    c.push((String::from_str("びっくりマーク"), String::from_str("!")));
    c.push((String::from_str("疑問符"), String::from_str("?")));
    c.push((String::from_str("はてなマーク"), String::from_str("?")));
    c.push((String::from_str("コロン"), String::from_str(":")));
    c.push((String::from_str("セミコロン"), String::from_str(";")));
    c.push((String::from_str("ハイフン"), String::from_str("-")));
    c.push((String::from_str("アットマーク"), String::from_str("@")));
    c.push((String::from_str("かっこ開く"), String::from_str("(")));
    c.push((String::from_str("括弧開く"), String::from_str("(")));
    c.push((String::from_str("かっこ閉じる"), String::from_str(")")));
    c.push((String::from_str("括弧閉じる"), String::from_str(")")));
    c.push((String::from_str("引用符開く"), String::from_str("\"")));
    c.push((String::from_str("引用符閉じる"), String::from_str("\"")));
    c.push((String::from_str("イコール"), String::from_str("=")));
    c.push((String::from_str("削除"), String::from_str("backspace")));
    c.push((String::from_str("バックスペース"), String::from_str("backspace")));
    c.push((String::from_str("改行を押す"), String::from_str("enter")));
    c.push((String::from_str("エンターを押す"), String::from_str("enter")));
    c.push((String::from_str("貼り付けを押す"), String::from_str("ctrl+v")));
    c.push((String::from_str("ペーストを押す"), String::from_str("ctrl+v")));
    c.push((String::from_str("コピーを押す"), String::from_str("ctrl+c")));
    c.push((String::from_str("保存を押す"), String::from_str("ctrl+s")));
    c.push((String::from_str("元に戻すを押す"), String::from_str("ctrl+z")));
    c.push((String::from_str("やり直すを押す"), String::from_str("ctrl+y")));
    c.push((String::from_str("切り取りを押す"), String::from_str("ctrl+x")));
    c.push((String::from_str("すべて選択"), String::from_str("ctrl+a")));
    c.push((String::from_str("全選択"), String::from_str("ctrl+a")));
    c.push((String::from_str("スペースを押す"), String::from_str("space")));
    c.push((String::from_str("タブを押す"), String::from_str("tab")));
    c.push((String::from_str("それを削除"), String::from_str("delete_last_word")));
    c.push((String::from_str("取り消し"), String::from_str("delete_last_word")));
    c.push((String::from_str("書き直しを押す"), String::from_str("rewrite")));
    c.push((String::from_str("修正を押す"), String::from_str("rewrite")));
    c.push((String::from_str("音声入力を停止"), String::from_str("pause_dictation")));
    c.push((String::from_str("ディクテーション停止"), String::from_str("pause_dictation")));
    c.push((String::from_str("聞くのをやめる"), String::from_str("pause_dictation")));
    assert(entries_view(c@) =~= table());
    c
}

} // verus!
