//! User settings and their defaults.
use crate::voice_commands::entries_view;
use vstd::prelude::*;

verus! {

/// A saved window position, in physical pixels.
#[derive(Debug, Clone, Copy, PartialEq, Eq, Structural)]
pub struct WindowPosition {
    pub x: i32,
    pub y: i32,
}

/// Global keyboard shortcuts, in accelerator notation.
pub struct KeyboardShortcuts {
    pub toggle_recording: String,
    pub toggle_debug: String,
    pub toggle_view: String,
    pub rewrite: String,
    pub toggle_settings: String,
    pub close_app: String,
}

/// Everything the user can configure.
pub struct Settings {
    pub groq_api_key: String,
    pub sambanova_api_key: String,
    pub fireworks_api_key: String,
    pub gemini_api_key: String,
    pub mistral_api_key: String,
    pub deepgram_api_key: String,
    pub cartesia_api_key: String,
    /// Rewrite prompts by mode, as (mode, prompt) pairs with distinct modes.
    pub prompts: Vec<(String, String)>,
    pub compact_mode: bool,
    pub api_service: String,
    pub rewrite_provider: String,
    pub rewrite_mode: String,
    pub insertion_mode: String,
    pub language: String,
    pub text_formatted: bool,
    pub voice_commands_enabled: bool,
    pub audio_cues_enabled: bool,
    pub push_to_talk_enabled: bool,
    pub dark_mode_enabled: bool,
    pub keyboard_shortcuts: KeyboardShortcuts,
    pub main_window_position: Option<WindowPosition>,
}

/// The text insertion mode used unless one is chosen.
pub fn default_insertion_mode() -> (r: String)
    ensures
        r@ == "typing"@,
{
    String::from_str("typing")
}

/// The transcription language used unless one is chosen; "multilingual" lets the provider detect it.
pub fn default_language() -> (r: String)
    ensures
        r@ == "multilingual"@,
{
    String::from_str("multilingual")
}

/// The default shortcut that starts and stops recording.
pub fn default_toggle_recording() -> (r: String)
    ensures
        r@ == "Ctrl+Shift+D"@,
{
    String::from_str("Ctrl+Shift+D")
}

/// The default shortcut that shows the debug view.
pub fn default_toggle_debug() -> (r: String)
    ensures
        r@ == "Ctrl+Shift+L"@,
{
    String::from_str("Ctrl+Shift+L")
}

/// The default shortcut that toggles the compact view.
pub fn default_toggle_view() -> (r: String)
    ensures
        r@ == "Ctrl+Shift+V"@,
{
    String::from_str("Ctrl+Shift+V")
}

/// The default shortcut that rewrites the selected text.
pub fn default_rewrite() -> (r: String)
    ensures
        r@ == "Ctrl+Shift+R"@,
{
    String::from_str("Ctrl+Shift+R")
}

/// The default shortcut that opens the settings.
pub fn default_toggle_settings() -> (r: String)
    ensures
        r@ == "Ctrl+Shift+S"@,
{
    String::from_str("Ctrl+Shift+S")
}

/// The default shortcut that closes the application.
pub fn default_close_app() -> (r: String)
    ensures
        r@ == "Ctrl+Shift+X"@,
{
    String::from_str("Ctrl+Shift+X")
}

/// The transcription provider used unless one is chosen.
pub fn default_api_service() -> (r: String)
    ensures
        r@ == "groq"@,
{
    String::from_str("groq")
}

/// The rewrite provider used unless one is chosen.
pub fn default_rewrite_provider() -> (r: String)
    ensures
        r@ == "groq"@,
{
    String::from_str("groq")
}

/// The rewrite mode used unless one is chosen.
pub fn default_rewrite_mode() -> (r: String)
    ensures
        r@ == "grammar_correction"@,
{
    String::from_str("grammar_correction")
}

/// Whether transcripts keep their formatting unless chosen otherwise.
pub fn default_text_formatted() -> (r: bool)
    ensures
        r == true,
{
    true
}

/// Whether voice commands are on unless chosen otherwise.
pub fn default_voice_commands_enabled() -> (r: bool)
    ensures
        r == true,
{
    true
}

/// Whether audio cues are on unless chosen otherwise.
pub fn default_audio_cues_enabled() -> (r: bool)
    ensures
        r == true,
{
    true
}

/// Whether push-to-talk is on unless chosen otherwise (otherwise a shortcut toggles recording).
pub fn default_push_to_talk_enabled() -> (r: bool)
    ensures
        r == false,
{
    false
}

/// Whether dark mode is on unless chosen otherwise.
pub fn default_dark_mode_enabled() -> (r: bool)
    ensures
        r == true,
{
    true
}

/// The default rewrite prompts, as (mode, prompt) pairs.
pub open spec fn prompts_table() -> Seq<(Seq<char>, Seq<char>)> {
    seq![
        ("grammar_correction"@, "Correct the grammar, spelling, and punctuation of the following text. Return only the corrected text without any explanations or additional commentary."@),
        ("professional"@, "Rewrite the following text in a professional and formal tone. Maintain the core message while making it suitable for business communication. Return only the rewritten text without any explanations."@),
        ("polite"@, "Rewrite the following text in a polite and courteous tone. Make it more respectful and considerate while keeping the original meaning. Return only the rewritten text without any explanations."@),
        ("casual"@, "Rewrite the following text in a casual and friendly tone. Make it more conversational and relaxed while maintaining clarity. Return only the rewritten text without any explanations."@),
        ("structured"@, "Reformulate the following text in a well-organized and structured manner. Improve clarity, flow, and coherence while maintaining all key ideas. Organize thoughts logically and ensure smooth transitions between concepts. Return only the reformulated text without any explanations."@),
    ]
}

/// The default rewrite prompts, one per rewrite mode.
pub fn default_prompts() -> (r: Vec<(String, String)>)
    ensures
        entries_view(r@) == prompts_table(),
{
    let mut p: Vec<(String, String)> = Vec::new();
    p.push((String::from_str("grammar_correction"), String::from_str("Correct the grammar, spelling, and punctuation of the following text. Return only the corrected text without any explanations or additional commentary.")));
    p.push((String::from_str("professional"), String::from_str("Rewrite the following text in a professional and formal tone. Maintain the core message while making it suitable for business communication. Return only the rewritten text without any explanations.")));
    p.push((String::from_str("polite"), String::from_str("Rewrite the following text in a polite and courteous tone. Make it more respectful and considerate while keeping the original meaning. Return only the rewritten text without any explanations.")));
    p.push((String::from_str("casual"), String::from_str("Rewrite the following text in a casual and friendly tone. Make it more conversational and relaxed while maintaining clarity. Return only the rewritten text without any explanations.")));
    p.push((String::from_str("structured"), String::from_str("Reformulate the following text in a well-organized and structured manner. Improve clarity, flow, and coherence while maintaining all key ideas. Organize thoughts logically and ensure smooth transitions between concepts. Return only the reformulated text without any explanations.")));
    assert(entries_view(p@) =~= prompts_table());
    p
}

/// Whether `k` holds the default shortcuts.
pub open spec fn default_shortcuts_spec(k: KeyboardShortcuts) -> bool {
    &&& k.toggle_recording@ == "Ctrl+Shift+D"@
    &&& k.toggle_debug@ == "Ctrl+Shift+L"@
    &&& k.toggle_view@ == "Ctrl+Shift+V"@
    &&& k.rewrite@ == "Ctrl+Shift+R"@
    &&& k.toggle_settings@ == "Ctrl+Shift+S"@
    &&& k.close_app@ == "Ctrl+Shift+X"@
}

/// The default keyboard shortcuts.
pub fn default_keyboard_shortcuts() -> (r: KeyboardShortcuts)
    ensures
        default_shortcuts_spec(r),
{
    KeyboardShortcuts {
        toggle_recording: default_toggle_recording(),
        toggle_debug: default_toggle_debug(),
        toggle_view: default_toggle_view(),
        rewrite: default_rewrite(),
        toggle_settings: default_toggle_settings(),
        close_app: default_close_app(),
    }
}

/// Whether `s` holds the default settings: no API keys, the default
/// prompts, providers, modes, language, flags and shortcuts, the full
/// window and no saved position.
pub open spec fn default_settings_spec(s: Settings) -> bool {
    &&& s.groq_api_key@ == Seq::<char>::empty()
    &&& s.sambanova_api_key@ == Seq::<char>::empty()
    &&& s.fireworks_api_key@ == Seq::<char>::empty()
    &&& s.gemini_api_key@ == Seq::<char>::empty()
    &&& s.mistral_api_key@ == Seq::<char>::empty()
    &&& s.deepgram_api_key@ == Seq::<char>::empty()
    &&& s.cartesia_api_key@ == Seq::<char>::empty()
    &&& entries_view(s.prompts@) == prompts_table()
    &&& !s.compact_mode
    &&& s.api_service@ == "groq"@
    &&& s.rewrite_provider@ == "groq"@
    &&& s.rewrite_mode@ == "grammar_correction"@
    &&& s.insertion_mode@ == "typing"@
    &&& s.language@ == "multilingual"@
    &&& s.text_formatted
    &&& s.voice_commands_enabled
    &&& s.audio_cues_enabled
    &&& !s.push_to_talk_enabled
    &&& s.dark_mode_enabled
    &&& default_shortcuts_spec(s.keyboard_shortcuts)
    &&& s.main_window_position is None
}

impl Default for Settings {
    fn default() -> (r: Self)
        ensures
            default_settings_spec(r),
    {
        Settings {
            groq_api_key: String::new(),
            sambanova_api_key: String::new(),
            fireworks_api_key: String::new(),
            gemini_api_key: String::new(),
            mistral_api_key: String::new(),
            deepgram_api_key: String::new(),
            cartesia_api_key: String::new(),
            prompts: default_prompts(),
            compact_mode: false,
            api_service: default_api_service(),
            rewrite_provider: default_rewrite_provider(),
            rewrite_mode: default_rewrite_mode(),
            insertion_mode: default_insertion_mode(),
            language: default_language(),
            text_formatted: default_text_formatted(),
            voice_commands_enabled: default_voice_commands_enabled(),
            audio_cues_enabled: default_audio_cues_enabled(),
            push_to_talk_enabled: default_push_to_talk_enabled(),
            dark_mode_enabled: default_dark_mode_enabled(),
            keyboard_shortcuts: default_keyboard_shortcuts(),
            main_window_position: None,
        }
    }
}

} // verus!
