use nanowhisper::transcription::transcription_request;
use nanowhisper::settings::AppSettings;
use nanowhisper::transcription::{
    active_api_key, key_check, recording_duration_ms, transcription_language,
    transcription_service, KeyCheck, TranscriptionService,
};

fn openai_check(r: Result<KeyCheck, String>) -> (String, String) {
    match r {
        Ok(KeyCheck::OpenAiCompatible { base_url, model }) => (base_url, model),
        other => panic!("unexpected {:?}", other),
    }
}

#[test]
fn key_check_per_provider() {
    assert!(matches!(key_check("gemini", "", ""), Ok(KeyCheck::Gemini)));
    assert_eq!(
        openai_check(key_check("kimi", "ignored", " moonshot-v1 ")),
        ("https://api.moonshot.cn/v1".to_string(), "moonshot-v1".to_string())
    );
    assert_eq!(
        openai_check(key_check("openai", "ignored", "")),
        ("https://api.openai.com/v1".to_string(), "whisper-1".to_string())
    );
    assert_eq!(
        openai_check(key_check("custom", "  https://h.test/v1/ ", "m")),
        ("https://h.test/v1/".to_string(), "m".to_string())
    );
    assert_eq!(
        key_check("custom", " \t ", "m").unwrap_err(),
        "API base URL is required for custom provider"
    );
    assert_eq!(openai_check(key_check("other", "", "   ")).1, "whisper-1");
}

#[test]
fn active_key_follows_provider() {
    let mut s = AppSettings::default();
    assert_eq!(active_api_key(&s).unwrap_err(), "API key not configured");
    s.api_key = "sk-openai".to_string();
    assert_eq!(active_api_key(&s).unwrap(), "sk-openai");
    s.provider = "gemini".to_string();
    assert_eq!(active_api_key(&s).unwrap_err(), "API key not configured");
    s.gemini_api_key = "g-key".to_string();
    assert_eq!(active_api_key(&s).unwrap(), "g-key");
}

#[test]
fn language_auto_means_detect() {
    let mut s = AppSettings::default();
    assert_eq!(transcription_language(&s), None);
    s.language = "de".to_string();
    assert_eq!(transcription_language(&s), Some("de".to_string()));
}

#[test]
fn service_selection() {
    let mut s = AppSettings::default();
    s.provider = "gemini".to_string();
    s.model = "gemini-2.0-flash".to_string();
    match transcription_service(&s, "k".to_string()) {
        Ok(TranscriptionService::Gemini { api_key, model }) => {
            assert_eq!(api_key, "k");
            assert_eq!(model, "gemini-2.0-flash");
        }
        other => panic!("unexpected {:?}", other),
    }
    s.provider = "custom".to_string();
    s.custom_api_base_url = " https://h.test/v1/ ".to_string();
    match transcription_service(&s, "k".to_string()) {
        Ok(TranscriptionService::OpenAiCompatible { base_url, api_key, model }) => {
            assert_eq!(base_url, "https://h.test/v1");
            assert_eq!(api_key, "k");
            assert_eq!(model, "gemini-2.0-flash");
        }
        other => panic!("unexpected {:?}", other),
    }
    s.custom_api_base_url = " / ".to_string();
    assert_eq!(
        transcription_service(&s, "k".to_string()).unwrap_err(),
        "API base URL is not configured"
    );
    s.provider = "kimi".to_string();
    match transcription_service(&s, "k".to_string()) {
        Ok(TranscriptionService::OpenAiCompatible { base_url, .. }) => {
            assert_eq!(base_url, "https://api.moonshot.cn/v1")
        }
        other => panic!("unexpected {:?}", other),
    }
}

#[test]
fn duration_from_samples() {
    assert_eq!(recording_duration_ms(48_000, 16_000), Some(3_000));
    assert_eq!(recording_duration_ms(1, 3), Some(333));
    assert_eq!(recording_duration_ms(0, 44_100), Some(0));
    assert_eq!(recording_duration_ms(100, 0), None);
}

#[test]
fn request_needs_openai_key() {
    let mut s = AppSettings::default();
    assert!(transcription_request(&s).is_none());
    s.gemini_api_key = "g".to_string();
    assert!(transcription_request(&s).is_none());
    s.api_key = "sk".to_string();
    s.language = "fr".to_string();
    let q = transcription_request(&s).unwrap();
    assert_eq!(q.api_key, "sk");
    assert_eq!(q.model, "gpt-4o-transcribe");
    assert_eq!(q.language, Some("fr".to_string()));
    s.language = "auto".to_string();
    assert_eq!(transcription_request(&s).unwrap().language, None);
}
