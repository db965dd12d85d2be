use dictation::settings::{default_keyboard_shortcuts, default_prompts, Settings, WindowPosition};
use dictation::transcript::{format_whisper_transcript, normalize_whisper_transcript, trim_text, tray_labels};
use dictation::transcription::{
    contains_text, insertion_method, normalize_language, provider_for, text_to_insert,
    transcription_error_message, validate_request, InsertionMethod, Provider,
};
use dictation::voice_commands::ProcessedText;
use dictation::windows_focus::{get_work_area_for_point, set_window_no_activate};

#[test]
fn format_keeps_text_and_adds_space() {
    assert_eq!(format_whisper_transcript("  Hello, World!  "), "Hello, World! ");
    assert_eq!(format_whisper_transcript("\t\n "), "");
    assert_eq!(format_whisper_transcript(""), "");
}

#[test]
fn normalize_lowercases_and_strips_punctuation() {
    assert_eq!(normalize_whisper_transcript("  Hello, World!  "), "hello world ");
    assert_eq!(normalize_whisper_transcript("Ünïcode Straße 42."), "ünïcode straße 42 ");
    assert_eq!(normalize_whisper_transcript("   "), "");
    assert_eq!(normalize_whisper_transcript("?!"), " ");
}

#[test]
fn trim_removes_unicode_whitespace() {
    assert_eq!(trim_text("\u{3000}a b\u{2003}"), "a b");
    assert_eq!(trim_text("x"), "x");
}

#[test]
fn tray_labels_by_language() {
    assert_eq!(tray_labels("it"), ("Esci", "Impostazioni", "Mostra/Nascondi"));
    assert_eq!(tray_labels("ja"), ("終了", "設定", "表示/非表示"));
    assert_eq!(tray_labels("en"), ("Quit", "Settings", "Show/Hide"));
    assert_eq!(tray_labels("other"), ("Quit", "Settings", "Show/Hide"));
}

#[test]
fn default_settings() {
    let s = Settings::default();
    assert_eq!(s.groq_api_key, "");
    assert_eq!(s.api_service, "groq");
    assert_eq!(s.rewrite_provider, "groq");
    assert_eq!(s.rewrite_mode, "grammar_correction");
    assert_eq!(s.insertion_mode, "typing");
    assert_eq!(s.language, "multilingual");
    assert!(s.text_formatted && s.voice_commands_enabled && s.audio_cues_enabled && s.dark_mode_enabled);
    assert!(!s.push_to_talk_enabled && !s.compact_mode);
    assert_eq!(s.keyboard_shortcuts.toggle_recording, "Ctrl+Shift+D");
    assert_eq!(s.keyboard_shortcuts.close_app, "Ctrl+Shift+X");
    assert_eq!(s.main_window_position, None::<WindowPosition>);
    assert_eq!(s.prompts.len(), 5);
    let prompts = default_prompts();
    let modes: Vec<&str> = prompts.iter().map(|(m, _)| m.as_str()).collect::<Vec<_>>();
    assert_eq!(modes, vec!["grammar_correction", "professional", "polite", "casual", "structured"]);
    assert_eq!(default_keyboard_shortcuts().rewrite, "Ctrl+Shift+R");
}

#[test]
fn language_normalization() {
    assert_eq!(normalize_language(None), None);
    assert_eq!(normalize_language(Some(String::new())), None);
    assert_eq!(normalize_language(Some("multilingual".to_string())), None);
    assert_eq!(normalize_language(Some("de".to_string())), Some("de".to_string()));
}

#[test]
fn provider_routing() {
    assert_eq!(provider_for(&None), Provider::Groq);
    assert_eq!(provider_for(&Some("sambanova".to_string())), Provider::SambaNova);
    assert_eq!(provider_for(&Some("fireworks".to_string())), Provider::Fireworks);
    assert_eq!(provider_for(&Some("gemini".to_string())), Provider::Gemini);
    assert_eq!(provider_for(&Some("mistral".to_string())), Provider::Mistral);
    assert_eq!(provider_for(&Some("groq".to_string())), Provider::Groq);
    assert_eq!(provider_for(&Some("unknown".to_string())), Provider::Groq);
    assert_eq!(insertion_method("typing"), InsertionMethod::Typing);
    assert_eq!(insertion_method("clipboard"), InsertionMethod::Clipboard);
    assert_eq!(insertion_method("other"), InsertionMethod::Clipboard);
}

#[test]
fn request_validation() {
    assert_eq!(validate_request(0, "key"), Err("No audio data provided".to_string()));
    assert_eq!(validate_request(10, "  "), Err("API key is not set".to_string()));
    assert_eq!(validate_request(10, "key"), Ok(()));
}

#[test]
fn substring_search() {
    assert!(contains_text("abc", ""));
    assert!(contains_text("HTTP 429 Too Many", "429"));
    assert!(!contains_text("ab", "abc"));
    assert!(!contains_text("abd", "abc"));
    assert!(contains_text("xxabc", "abc"));
}

#[test]
fn error_wording() {
    assert_eq!(transcription_error_message("HTTP 429"), "Rate limit exceeded. Please wait a moment.");
    assert_eq!(transcription_error_message("hit rate limit"), "Rate limit exceeded. Please wait a moment.");
    assert_eq!(transcription_error_message("Connection failed: x"), "Network error. Check your connection.");
    assert_eq!(transcription_error_message("network down"), "Network error. Check your connection.");
    assert_eq!(transcription_error_message("401 unauthorized"), "Invalid API key.");
    assert_eq!(transcription_error_message("boom"), "Transcription failed: boom");
}

fn processed(remaining: &str, produced: &str, key: bool) -> ProcessedText {
    ProcessedText {
        remaining_text: remaining.to_string(),
        processed_text: produced.to_string(),
        actions: Vec::new(),
        had_key_action: key,
    }
}

#[test]
fn text_to_insert_cases() {
    assert_eq!(text_to_insert(&processed("", ". ", false)), ". ");
    assert_eq!(text_to_insert(&processed("hello", "", false)), "hello ");
    assert_eq!(text_to_insert(&processed("hello", "", true)), "hello");
    assert_eq!(text_to_insert(&processed("hello", ". ", false)), "hello. ");
}

#[test]
fn window_focus_stubs() {
    assert_eq!(get_work_area_for_point(10, 20), None);
    assert_eq!(set_window_no_activate(0), Ok(()));
}

use dictation::streaming::{cartesia_language, normalize_whisper_transcript as normalize_streamed};
use dictation::voice_commands::join_words;

#[test]
fn streamed_transcript_normalization() {
    assert_eq!(normalize_streamed("Hello,   World! It's"), "hello world its");
    assert_eq!(normalize_streamed("  A-B (c)  "), "ab c");
    assert_eq!(normalize_streamed("..."), "");
}

#[test]
fn words_are_joined_with_single_spaces() {
    assert_eq!(join_words("  a \t b\n c "), "a b c");
    assert_eq!(join_words(""), "");
}

#[test]
fn cartesia_language_mapping() {
    assert_eq!(cartesia_language("multi".to_string()), None);
    assert_eq!(cartesia_language(String::new()), None);
    assert_eq!(cartesia_language("fr".to_string()), Some("fr".to_string()));
}
