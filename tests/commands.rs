use dictation::voice_commands::{CommandAction, VoiceCommands};

fn lookup<'a>(vc: &'a VoiceCommands, phrase: &str) -> Option<&'a str> {
    vc.get_commands().iter().find(|(p, _)| p == phrase).map(|(_, a)| a.as_str())
}

#[test]
fn english_table_by_default() {
    for lang in ["en", "multilingual", "xx", ""] {
        let vc = VoiceCommands::new_with_language(lang);
        assert_eq!(vc.get_commands().len(), 41);
        assert_eq!(lookup(&vc, "period"), Some("."));
        assert_eq!(lookup(&vc, "press paste"), Some("ctrl+v"));
        assert_eq!(lookup(&vc, "deselect"), Some("right"));
    }
}

#[test]
fn language_tables() {
    let cases = [
        ("it", 37), ("es", 37), ("fr", 37), ("de", 40), ("pt", 38), ("ja", 41), ("nl", 34),
        ("zh", 37), ("ru", 37),
    ];
    for (lang, n) in cases {
        assert_eq!(VoiceCommands::new_with_language(lang).get_commands().len(), n, "{}", lang);
    }
    let ja = VoiceCommands::new_with_language("ja");
    assert_eq!(lookup(&ja, "まる"), Some("。"));
}

#[test]
fn legacy_table() {
    let vc = VoiceCommands::new();
    assert_eq!(vc.get_commands().len(), 39);
    assert_eq!(lookup(&vc, "select all"), Some("ctrl+a"));
    assert_eq!(lookup(&vc, "deselect"), None);
}

#[test]
fn phrases_are_unique_in_every_table() {
    for lang in ["en", "it", "es", "fr", "de", "pt", "ja", "nl", "zh", "ru"] {
        let vc = VoiceCommands::new_with_language(lang);
        let cmds = vc.get_commands();
        for i in 0..cmds.len() {
            for j in 0..i {
                assert_ne!(cmds[i].0, cmds[j].0, "{}", lang);
            }
        }
    }
}

#[test]
fn named_actions() {
    assert_eq!(CommandAction::from_action_string("enter"), CommandAction::KeyPress("enter".to_string()));
    assert_eq!(CommandAction::from_action_string("backspace"), CommandAction::KeyPress("backspace".to_string()));
    assert_eq!(CommandAction::from_action_string("space"), CommandAction::KeyPress("space".to_string()));
    assert_eq!(CommandAction::from_action_string("tab"), CommandAction::KeyPress("tab".to_string()));
    assert_eq!(CommandAction::from_action_string("delete_last_word"), CommandAction::DeleteLastWord);
    assert_eq!(CommandAction::from_action_string("rewrite"), CommandAction::Rewrite);
    assert_eq!(CommandAction::from_action_string("pause_dictation"), CommandAction::PauseDictation);
}

#[test]
fn key_combinations_are_lowercased() {
    assert_eq!(
        CommandAction::from_action_string("ctrl+v"),
        CommandAction::KeyCombo("control".to_string(), "v".to_string())
    );
    assert_eq!(
        CommandAction::from_action_string("Ctrl+Shift"),
        CommandAction::KeyCombo("control".to_string(), "shift".to_string())
    );
    assert_eq!(
        CommandAction::from_action_string("ALT+F4"),
        CommandAction::KeyCombo("alt".to_string(), "f4".to_string())
    );
}

#[test]
fn other_strings_are_text() {
    assert_eq!(CommandAction::from_action_string("."), CommandAction::InsertText(".".to_string()));
    assert_eq!(CommandAction::from_action_string("a+b+c"), CommandAction::InsertText("a+b+c".to_string()));
    assert_eq!(CommandAction::from_action_string("right"), CommandAction::InsertText("right".to_string()));
    assert_eq!(CommandAction::from_action_string(""), CommandAction::InsertText(String::new()));
}

use dictation::voice_commands::{drop_last_word, process_voice_commands};

#[test]
fn drop_last_word_normalizes_spacing() {
    assert_eq!(drop_last_word("a  b c"), "a b ");
    assert_eq!(drop_last_word(" one "), "");
    assert_eq!(drop_last_word("   "), "   ");
    assert_eq!(drop_last_word(""), "");
}

#[test]
fn punctuation_phrase_becomes_text() {
    let vc = VoiceCommands::new_with_language("en");
    let p = process_voice_commands("  hello period  ", &vc);
    assert_eq!(p.remaining_text, "hello");
    assert_eq!(p.processed_text, ". ");
    assert!(p.actions.is_empty());
    assert!(!p.had_key_action);
}

#[test]
fn phrases_match_case_insensitively_as_whole_words() {
    let vc = VoiceCommands::new_with_language("en");
    let p = process_voice_commands("Hello PERIOD", &vc);
    assert_eq!(p.remaining_text, "Hello");
    assert_eq!(p.processed_text, ". ");
    let q = process_voice_commands("periodic table", &vc);
    assert_eq!(q.remaining_text, "periodic table");
    assert_eq!(q.processed_text, "");
}

#[test]
fn key_phrase_records_key_action() {
    let vc = VoiceCommands::new_with_language("en");
    let p = process_voice_commands("send it press enter", &vc);
    assert_eq!(p.remaining_text, "send it");
    assert_eq!(p.actions, vec![CommandAction::KeyPress("enter".to_string())]);
    assert!(p.had_key_action);
    let q = process_voice_commands("select all", &vc);
    assert_eq!(q.remaining_text, "");
    assert_eq!(q.actions, vec![CommandAction::KeyCombo("control".to_string(), "a".to_string())]);
}

#[test]
fn delete_phrase_drops_produced_word() {
    let vc = VoiceCommands::new_with_language("en");
    let p = process_voice_commands("hello comma delete that", &vc);
    assert_eq!(p.remaining_text, "hello");
    assert_eq!(p.processed_text, "");
    assert_eq!(p.actions, vec![CommandAction::DeleteLastWord]);
    assert!(p.had_key_action);
}

#[test]
fn pause_phrase_records_pause() {
    let vc = VoiceCommands::new_with_language("en");
    let p = process_voice_commands("that is all stop dictation", &vc);
    assert_eq!(p.remaining_text, "that is all");
    assert_eq!(p.actions, vec![CommandAction::PauseDictation]);
    assert!(p.had_key_action);
}

#[test]
fn text_without_commands_is_left_alone() {
    let vc = VoiceCommands::new();
    let p = process_voice_commands("  just words  ", &vc);
    assert_eq!(p.remaining_text, "just words");
    assert_eq!(p.processed_text, "");
    assert!(p.actions.is_empty());
}

use dictation::voice_commands::phrase_regex;

#[test]
fn phrase_regex_escapes_meta_characters() {
    assert_eq!(phrase_regex("period"), "(?i)\\bperiod\\b");
    assert_eq!(phrase_regex("a.b (c)"), "(?i)\\ba\\.b \\(c\\)\\b");
}

use dictation::voice_commands::{effect_of, ActionEffect};

#[test]
fn action_effects() {
    assert_eq!(effect_of(&CommandAction::KeyPress("tab".to_string())), ActionEffect::Key("tab".to_string()));
    assert_eq!(
        effect_of(&CommandAction::KeyCombo("control".to_string(), "c".to_string())),
        ActionEffect::Combo("control".to_string(), "c".to_string())
    );
    assert_eq!(
        effect_of(&CommandAction::DeleteLastWord),
        ActionEffect::Combo("control".to_string(), "backspace".to_string())
    );
    assert_eq!(effect_of(&CommandAction::Rewrite), ActionEffect::TriggerRewrite);
    assert_eq!(effect_of(&CommandAction::PauseDictation), ActionEffect::ToggleRecording);
    assert_eq!(effect_of(&CommandAction::InsertText(".".to_string())), ActionEffect::Nothing);
}
