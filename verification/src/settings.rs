//! User settings: their defaults, where they are stored, and the
//! transcription endpoint they select.
use vstd::prelude::*;

use crate::text::{
    join_path, lemma_strip_trailing_ends_clean, path_join, same_text, PathStyle, strip_trailing, trim,
    trimmed_without_trailing,
};

verus! {

/// The user's settings, as stored in `settings.json`.
///
/// The two overlay coordinates are fractions of the screen size; they are
/// held here as the IEEE 754 bit pattern of the `f64` that stores them, so
/// that they pass through the library unchanged.
#[derive(Clone, Debug)]
pub struct AppSettings {
    /// Transcription service: `openai`, `gemini`, `kimi` or `custom`.
    pub provider: String,
    pub api_key: String,
    pub gemini_api_key: String,
    /// OpenAI-compatible API base (e.g. `https://api.example.com/v1`). Used when `provider` is `custom`.
    pub custom_api_base_url: String,
    pub model: String,
    pub language: String,
    pub shortcut: String,
    pub sound_enabled: bool,
    pub overlay_rx_bits: Option<u64>,
    pub overlay_ry_bits: Option<u64>,
}

/// The base URL of the OpenAI transcription API.
pub open spec fn openai_base() -> Seq<char> {
    "https://api.openai.com/v1"@
}

/// The base URL of the Moonshot (Kimi) transcription API.
pub open spec fn moonshot_base() -> Seq<char> {
    "https://api.moonshot.cn/v1"@
}

/// Whether `s` holds the value that every field gets when nothing is stored.
pub open spec fn is_default_settings(s: AppSettings) -> bool {
    &&& s.provider@ == "openai"@
    &&& s.api_key@ == Seq::<char>::empty()
    &&& s.gemini_api_key@ == Seq::<char>::empty()
    &&& s.custom_api_base_url@ == openai_base()
    &&& s.model@ == "gpt-4o-transcribe"@
    &&& s.language@ == "auto"@
    &&& s.shortcut@ == Seq::<char>::empty()
    &&& s.sound_enabled
    &&& s.overlay_rx_bits is None
    &&& s.overlay_ry_bits is None
}

/// The base URL for OpenAI-style `/audio/transcriptions` requests that a
/// provider and a custom base select.
pub open spec fn transcription_base(provider: Seq<char>, custom_base: Seq<char>) -> Seq<char> {
    if provider == "kimi"@ {
        moonshot_base()
    } else if provider == "custom"@ {
        strip_trailing(trim(custom_base), '/')
    } else {
        openai_base()
    }
}

/// Default transcription provider.
pub fn default_provider() -> (r: String)
    ensures
        r@ == "openai"@,
{
    String::from_str("openai")
}

/// Default OpenAI API key: none.
pub fn default_api_key() -> (r: String)
    ensures
        r@ == Seq::<char>::empty(),
{
    String::new()
}

/// Default base URL of a custom provider.
pub fn default_custom_api_base_url() -> (r: String)
    ensures
        r@ == openai_base(),
{
    String::from_str("https://api.openai.com/v1")
}

/// Default transcription model.
pub fn default_model() -> (r: String)
    ensures
        r@ == "gpt-4o-transcribe"@,
{
    String::from_str("gpt-4o-transcribe")
}

/// Default language: detect it.
pub fn default_language() -> (r: String)
    ensures
        r@ == "auto"@,
{
    String::from_str("auto")
}

/// Default global shortcut: none.
pub fn default_shortcut() -> (r: String)
    ensures
        r@ == Seq::<char>::empty(),
{
    String::new()
}

/// Sounds are on by default.
pub fn default_sound_enabled() -> (r: bool)
    ensures
        r,
{
    true
}

impl Default for AppSettings {
    fn default() -> (s: Self)
        ensures
            is_default_settings(s),
    {
        AppSettings {
            provider: default_provider(),
            api_key: default_api_key(),
            gemini_api_key: String::new(),
            custom_api_base_url: default_custom_api_base_url(),
            model: default_model(),
            language: default_language(),
            shortcut: default_shortcut(),
            sound_enabled: default_sound_enabled(),
            overlay_rx_bits: None,
            overlay_ry_bits: None,
        }
    }
}

/// The settings as the settings file gives them: a field is `None` when
/// the file does not name it. A stored overlay coordinate may itself be
/// `null`, hence the inner `Option`.
#[derive(Debug)]
pub struct StoredSettings {
    pub provider: Option<String>,
    pub api_key: Option<String>,
    pub gemini_api_key: Option<String>,
    pub custom_api_base_url: Option<String>,
    pub model: Option<String>,
    pub language: Option<String>,
    pub shortcut: Option<String>,
    pub sound_enabled: Option<bool>,
    pub overlay_rx_bits: Option<Option<u64>>,
    pub overlay_ry_bits: Option<Option<u64>>,
}

/// The stored text, or `default` when the file does not give it.
pub open spec fn text_or(stored: Option<String>, default: Seq<char>) -> Seq<char> {
    match stored {
        Some(t) => t@,
        None => default,
    }
}

/// Whether `s` is what `stored` gives, each missing field taking its
/// default value.
pub open spec fn settings_from(stored: StoredSettings, s: AppSettings) -> bool {
    &&& s.provider@ == text_or(stored.provider, "openai"@)
    &&& s.api_key@ == text_or(stored.api_key, Seq::<char>::empty())
    &&& s.gemini_api_key@ == text_or(stored.gemini_api_key, Seq::<char>::empty())
    &&& s.custom_api_base_url@ == text_or(stored.custom_api_base_url, openai_base())
    &&& s.model@ == text_or(stored.model, "gpt-4o-transcribe"@)
    &&& s.language@ == text_or(stored.language, "auto"@)
    &&& s.shortcut@ == text_or(stored.shortcut, Seq::<char>::empty())
    &&& s.sound_enabled == match stored.sound_enabled {
        Some(b) => b,
        None => true,
    }
    &&& s.overlay_rx_bits == match stored.overlay_rx_bits {
        Some(v) => v,
        None => None,
    }
    &&& s.overlay_ry_bits == match stored.overlay_ry_bits {
        Some(v) => v,
        None => None,
    }
}

/// Whether the file names no field at all, as `{}` does.
pub open spec fn names_no_field(stored: StoredSettings) -> bool {
    &&& stored.provider is None
    &&& stored.api_key is None
    &&& stored.gemini_api_key is None
    &&& stored.custom_api_base_url is None
    &&& stored.model is None
    &&& stored.language is None
    &&& stored.shortcut is None
    &&& stored.sound_enabled is None
    &&& stored.overlay_rx_bits is None
    &&& stored.overlay_ry_bits is None
}

fn text_or_default(stored: Option<String>, default: String) -> (r: String)
    ensures
        r@ == text_or(stored, default@),
{
    match stored {
        Some(t) => t,
        None => default,
    }
}

impl AppSettings {
    /// The settings a settings file gives, each field it does not name
    /// taking its default value.
    pub fn from_stored(stored: StoredSettings) -> (s: Self)
        ensures
            settings_from(stored, s),
            stored.provider matches Some(t) ==> s.provider@ == t@,
            stored.api_key matches Some(t) ==> s.api_key@ == t@,
            stored.gemini_api_key matches Some(t) ==> s.gemini_api_key@ == t@,
            stored.custom_api_base_url matches Some(t) ==> s.custom_api_base_url@ == t@,
            stored.model matches Some(t) ==> s.model@ == t@,
            stored.language matches Some(t) ==> s.language@ == t@,
            stored.shortcut matches Some(t) ==> s.shortcut@ == t@,
            stored.sound_enabled matches Some(b) ==> s.sound_enabled == b,
            stored.overlay_rx_bits matches Some(v) ==> s.overlay_rx_bits == v,
            stored.overlay_ry_bits matches Some(v) ==> s.overlay_ry_bits == v,
    {
        AppSettings {
            provider: text_or_default(stored.provider, default_provider()),
            api_key: text_or_default(stored.api_key, default_api_key()),
            gemini_api_key: text_or_default(stored.gemini_api_key, String::new()),
            custom_api_base_url: text_or_default(
                stored.custom_api_base_url,
                default_custom_api_base_url(),
            ),
            model: text_or_default(stored.model, default_model()),
            language: text_or_default(stored.language, default_language()),
            shortcut: text_or_default(stored.shortcut, default_shortcut()),
            sound_enabled: match stored.sound_enabled {
                Some(b) => b,
                None => default_sound_enabled(),
            },
            overlay_rx_bits: match stored.overlay_rx_bits {
                Some(v) => v,
                None => None,
            },
            overlay_ry_bits: match stored.overlay_ry_bits {
                Some(v) => v,
                None => None,
            },
        }
    }
}

/// Every field a settings file names keeps the value the file gives it;
/// only fields it does not name take defaults.
pub proof fn lemma_named_fields_win(stored: StoredSettings, s: AppSettings)
    requires
        settings_from(stored, s),
    ensures
        stored.provider matches Some(t) ==> s.provider@ == t@,
        stored.api_key matches Some(t) ==> s.api_key@ == t@,
        stored.gemini_api_key matches Some(t) ==> s.gemini_api_key@ == t@,
        stored.custom_api_base_url matches Some(t) ==> s.custom_api_base_url@ == t@,
        stored.model matches Some(t) ==> s.model@ == t@,
        stored.language matches Some(t) ==> s.language@ == t@,
        stored.shortcut matches Some(t) ==> s.shortcut@ == t@,
        stored.sound_enabled matches Some(b) ==> s.sound_enabled == b,
        stored.overlay_rx_bits matches Some(v) ==> s.overlay_rx_bits == v,
        stored.overlay_ry_bits matches Some(v) ==> s.overlay_ry_bits == v,
{
}

/// A settings file that names no field gives the same settings as having
/// no settings file: every field takes its default.
pub proof fn lemma_empty_file_gives_defaults(stored: StoredSettings, s: AppSettings)
    requires
        names_no_field(stored),
        settings_from(stored, s),
    ensures
        is_default_settings(s),
{
}

/// The settings file inside the data directory `data_dir`, with paths
/// written in `style`.
pub fn settings_path(data_dir: &str, style: PathStyle) -> (r: String)
    ensures
        r@ == path_join(data_dir@, "settings.json"@, style),
{
    let name = "settings.json";
    proof {
        reveal_strlit("settings.json");
    }
    join_path(data_dir, name, style)
}

/// Base URL for OpenAI-style `/v1/audio/transcriptions` (no trailing path segment).
pub fn openai_compatible_transcription_base(settings: &AppSettings) -> (r: String)
    ensures
        r@ == transcription_base(settings.provider@, settings.custom_api_base_url@),
{
    if same_text(settings.provider.as_str(), "kimi") {
        String::from_str("https://api.moonshot.cn/v1")
    } else if same_text(settings.provider.as_str(), "custom") {
        trimmed_without_trailing(settings.custom_api_base_url.as_str(), '/')
    } else {
        String::from_str("https://api.openai.com/v1")
    }
}

/// The transcription base URL never ends with a slash, whatever the
/// provider and the custom URL: appending `/audio/transcriptions` to it
/// never doubles the separator.
pub proof fn lemma_transcription_base_has_no_trailing_slash(provider: Seq<char>, custom_base: Seq<char>)
    ensures
        transcription_base(provider, custom_base).len() == 0 || transcription_base(
            provider,
            custom_base,
        ).last() != '/',
{
    reveal_strlit("https://api.moonshot.cn/v1");
    reveal_strlit("https://api.openai.com/v1");
    lemma_strip_trailing_ends_clean(trim(custom_base), '/');
}

/// Whether saving `new` in place of `old` changes the global shortcut, so
/// that the old one must be unregistered and the new one registered.
pub fn shortcut_changed(old: &AppSettings, new: &AppSettings) -> (r: bool)
    ensures
        r == (old.shortcut@ != new.shortcut@),
{
    new.shortcut != old.shortcut
}

} // verus!
