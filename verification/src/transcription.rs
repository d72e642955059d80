//! The decisions taken around a transcription request: which service is
//! called with which key, model and language, how a key is checked, and how
//! long a recording lasted.
use vstd::prelude::*;

use crate::settings::{
    moonshot_base, openai_base, openai_compatible_transcription_base, transcription_base,
    AppSettings,
};
use crate::text::{same_text, trim, trimmed};

verus! {

/// The request that checks an API key.
#[derive(Debug)]
pub enum KeyCheck {
    /// Check a Gemini key.
    Gemini,
    /// Check a key against an OpenAI-compatible API at `base_url`, using `model`.
    OpenAiCompatible { base_url: String, model: String },
}

/// The service a recording is sent to.
#[derive(Debug)]
pub enum TranscriptionService {
    Gemini { api_key: String, model: String },
    OpenAiCompatible { base_url: String, api_key: String, model: String },
}

/// The model used to check a key: the given one without surrounding
/// whitespace, or `whisper-1` when that leaves nothing.
pub open spec fn key_check_model(model: Seq<char>) -> Seq<char> {
    if trim(model).len() == 0 {
        "whisper-1"@
    } else {
        trim(model)
    }
}

/// The base URL a key check goes to for a provider other than Gemini.
pub open spec fn key_check_base(provider: Seq<char>, custom_base_url: Seq<char>) -> Seq<char> {
    if provider == "kimi"@ {
        moonshot_base()
    } else if provider == "custom"@ {
        trim(custom_base_url)
    } else {
        openai_base()
    }
}

/// How the key of `provider` is checked: Gemini keys by Gemini; a custom
/// provider needs a base URL that is not blank; every other provider is an
/// OpenAI-compatible API.
pub fn key_check(provider: &str, custom_base_url: &str, model: &str) -> (r: Result<KeyCheck, String>)
    ensures
        match r {
            Ok(KeyCheck::Gemini) => provider@ == "gemini"@,
            Ok(KeyCheck::OpenAiCompatible { base_url, model: m }) => {
                &&& provider@ != "gemini"@
                &&& !(provider@ == "custom"@ && trim(custom_base_url@).len() == 0)
                &&& base_url@ == key_check_base(provider@, custom_base_url@)
                &&& m@ == key_check_model(model@)
            },
            Err(e) => {
                &&& provider@ == "custom"@
                &&& trim(custom_base_url@).len() == 0
                &&& e@ == "API base URL is required for custom provider"@
            },
        },
{
    proof {
        reveal_strlit("gemini");
        reveal_strlit("kimi");
        reveal_strlit("custom");
    }
    let trimmed_model = trimmed(model);
    let vm = if trimmed_model.as_str().unicode_len() == 0 {
        String::from_str("whisper-1")
    } else {
        trimmed_model
    };
    if same_text(provider, "gemini") {
        Ok(KeyCheck::Gemini)
    } else if same_text(provider, "kimi") {
        assert("kimi"@.len() != "custom"@.len());
        Ok(KeyCheck::OpenAiCompatible { base_url: String::from_str("https://api.moonshot.cn/v1"), model: vm })
    } else if same_text(provider, "custom") {
        let base = trimmed(custom_base_url);
        if base.as_str().unicode_len() == 0 {
            return Err(String::from_str("API base URL is required for custom provider"));
        }
        Ok(KeyCheck::OpenAiCompatible { base_url: base, model: vm })
    } else {
        Ok(KeyCheck::OpenAiCompatible { base_url: String::from_str("https://api.openai.com/v1"), model: vm })
    }
}

/// The key of the selected provider: the Gemini key for `gemini`, the
/// OpenAI-style key otherwise.
pub open spec fn active_key(s: AppSettings) -> Seq<char> {
    if s.provider@ == "gemini"@ {
        s.gemini_api_key@
    } else {
        s.api_key@
    }
}

/// Only the `gemini` provider uses the Gemini key: every other provider,
/// `kimi` and `custom` among them, sends the OpenAI-style key.
pub proof fn lemma_only_gemini_uses_gemini_key(s: AppSettings)
    ensures
        s.provider@ != "gemini"@ ==> active_key(s) == s.api_key@,
        s.provider@ == "gemini"@ ==> active_key(s) == s.gemini_api_key@,
        s.provider@ == "kimi"@ ==> active_key(s) == s.api_key@,
        s.provider@ == "custom"@ ==> active_key(s) == s.api_key@,
{
    reveal_strlit("gemini");
    reveal_strlit("kimi");
    reveal_strlit("custom");
    assert("kimi"@.len() != "gemini"@.len());
    assert("custom"@[0] != "gemini"@[0]);
}

/// The key to send with a transcription; an error when it is empty.
pub fn active_api_key(settings: &AppSettings) -> (r: Result<String, String>)
    ensures
        match r {
            Ok(k) => active_key(*settings).len() != 0 && k@ == active_key(*settings),
            Err(e) => active_key(*settings).len() == 0 && e@ == "API key not configured"@,
        },
        settings.provider@ != "gemini"@ ==> (r is Ok <==> settings.api_key@.len() != 0),
        settings.provider@ != "gemini"@ ==> (r matches Ok(k) ==> k@ == settings.api_key@),
        settings.provider@ == "gemini"@ ==> (r is Ok <==> settings.gemini_api_key@.len() != 0),
        settings.provider@ == "gemini"@ ==> (r matches Ok(k) ==> k@ == settings.gemini_api_key@),
{
    let key = if same_text(settings.provider.as_str(), "gemini") {
        settings.gemini_api_key.as_str()
    } else {
        settings.api_key.as_str()
    };
    if key.unicode_len() == 0 {
        Err(String::from_str("API key not configured"))
    } else {
        Ok(String::from_str(key))
    }
}

/// The language sent with a transcription: none when it is to be detected.
pub fn transcription_language(settings: &AppSettings) -> (r: Option<String>)
    ensures
        match r {
            Some(l) => settings.language@ != "auto"@ && l@ == settings.language@,
            None => settings.language@ == "auto"@,
        },
{
    if same_text(settings.language.as_str(), "auto") {
        None
    } else {
        Some(String::from_str(settings.language.as_str()))
    }
}

/// The service the settings select, called with `api_key`. A custom
/// provider whose base URL comes out empty is an error.
pub fn transcription_service(settings: &AppSettings, api_key: String) -> (r: Result<
    TranscriptionService,
    String,
>)
    ensures
        match r {
            Ok(TranscriptionService::Gemini { api_key: k, model: m }) => {
                &&& settings.provider@ == "gemini"@
                &&& k == api_key
                &&& m@ == settings.model@
            },
            Ok(TranscriptionService::OpenAiCompatible { base_url: b, api_key: k, model: m }) => {
                &&& settings.provider@ != "gemini"@
                &&& !(settings.provider@ == "custom"@ && transcription_base(
                    settings.provider@,
                    settings.custom_api_base_url@,
                ).len() == 0)
                &&& b@ == transcription_base(settings.provider@, settings.custom_api_base_url@)
                &&& k == api_key
                &&& m@ == settings.model@
            },
            Err(e) => {
                &&& settings.provider@ == "custom"@
                &&& transcription_base(settings.provider@, settings.custom_api_base_url@).len() == 0
                &&& e@ == "API base URL is not configured"@
            },
        },
{
    let model = String::from_str(settings.model.as_str());
    if same_text(settings.provider.as_str(), "gemini") {
        return Ok(TranscriptionService::Gemini { api_key, model });
    }
    let base = openai_compatible_transcription_base(settings);
    if same_text(settings.provider.as_str(), "custom") && base.as_str().unicode_len() == 0 {
        return Err(String::from_str("API base URL is not configured"));
    }
    Ok(TranscriptionService::OpenAiCompatible { base_url: base, api_key, model })
}

/// What a finished recording is sent with: the OpenAI-style key, the
/// model, and the language (none to detect it).
#[derive(Debug)]
pub struct TranscriptionRequest {
    pub api_key: String,
    pub model: String,
    pub language: Option<String>,
}

/// The request for a finished recording; none when no API key is set, in
/// which case the overlay closes and the main window is shown instead.
pub fn transcription_request(settings: &AppSettings) -> (r: Option<TranscriptionRequest>)
    ensures
        match r {
            Some(q) => {
                &&& settings.api_key@.len() != 0
                &&& q.api_key@ == settings.api_key@
                &&& q.model@ == settings.model@
                &&& (q.language matches Some(l) ==> settings.language@ != "auto"@ && l@ == settings.language@)
                &&& (q.language is None ==> settings.language@ == "auto"@)
            },
            None => settings.api_key@.len() == 0,
        },
{
    if settings.api_key.as_str().unicode_len() == 0 {
        return None;
    }
    Some(
        TranscriptionRequest {
            api_key: String::from_str(settings.api_key.as_str()),
            model: String::from_str(settings.model.as_str()),
            language: transcription_language(settings),
        },
    )
}

/// How long a recording of `sample_count` samples at `sample_rate` Hz
/// lasted, in whole milliseconds; unknown when the rate is zero.
pub fn recording_duration_ms(sample_count: usize, sample_rate: u32) -> (r: Option<i64>)
    requires
        sample_count * 1000 <= i64::MAX,
    ensures
        sample_rate > 0 ==> r == Some((sample_count * 1000 / (sample_rate as int)) as i64),
        sample_rate == 0 ==> r is None,
{
    if sample_rate > 0 {
        let ms = (sample_count as i64) * 1000;
        Some(ms / (sample_rate as i64))
    } else {
        None
    }
}

} // verus!
