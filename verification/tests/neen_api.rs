use neen_desktop_agent::config::AppConfig;
use neen_desktop_agent::neen_api::{ApiError, AuthHeader, NeenApiClient};

fn auth_text(a: &AuthHeader) -> String {
    match a {
        AuthHeader::Bearer(t) => format!("bearer {}", t),
        AuthHeader::AccessKey(k) => format!("key {}", k),
        AuthHeader::NoAuth => "none".to_string(),
    }
}

#[test]
fn plans_without_credentials() {
    let client = NeenApiClient::new(AppConfig::default().neen_api);
    let chat = client.chat_plan();
    assert_eq!(chat.url, "https://crmapi.9ance.com/api/ai/chat/");
    assert_eq!(auth_text(&chat.auth), "none");
    let tts = client.tts_plan();
    assert_eq!(tts.url, "https://crmapi.9ance.com/api/tts/public/synthesize/");
    assert_eq!(auth_text(&tts.auth), "none");
    match client.refresh_plan() {
        Err(e) => assert_eq!(e.message(), "No refresh token available"),
        Ok(_) => panic!("refresh without token"),
    }
}

#[test]
fn plans_with_credentials() {
    let mut cfg = AppConfig::default().neen_api;
    cfg.access_token = Some("jwt".to_string());
    cfg.ai_access_key = Some("k1".to_string());
    cfg.refresh_token = Some("r1".to_string());
    let mut client = NeenApiClient::new(cfg);
    assert_eq!(auth_text(&client.chat_plan().auth), "bearer jwt");
    let public = client.public_chat_plan();
    assert_eq!(public.url, "https://crmapi.9ance.com/api/ai/public/chat/");
    assert_eq!(auth_text(&public.auth), "key k1");
    let voice = client.voice_plan();
    assert_eq!(voice.url, "https://crmapi.9ance.com/api/voice-agent/process/");
    assert_eq!(auth_text(&voice.auth), "key k1");
    let tts = client.tts_plan();
    assert_eq!(tts.url, "https://crmapi.9ance.com/api/tts/synthesize/");
    assert_eq!(auth_text(&tts.auth), "bearer jwt");
    let (plan, token) = client.refresh_plan().unwrap();
    assert_eq!(plan.url, "https://crmapi.9ance.com/api/auth/token/refresh/");
    assert_eq!(token, "r1");
    client.apply_refreshed_token(Some("jwt2".to_string()));
    assert_eq!(client.current_config().access_token, Some("jwt2".to_string()));
    client.apply_refreshed_token(None);
    assert_eq!(client.current_config().access_token, Some("jwt2".to_string()));
}

#[test]
fn tts_public_with_key() {
    let mut cfg = AppConfig::default().neen_api;
    cfg.ai_access_key = Some("k".to_string());
    let client = NeenApiClient::new(cfg);
    assert_eq!(auth_text(&client.tts_plan().auth), "key k");
}

#[test]
fn api_error_texts() {
    assert_eq!(ApiError::Chat("boom".to_string()).message(), "Chat API error: boom");
    assert_eq!(ApiError::PublicChat("x".to_string()).message(), "Public chat API error: x");
    assert_eq!(ApiError::Voice("x".to_string()).message(), "Voice API error: x");
    assert_eq!(ApiError::Tts("x".to_string()).message(), "TTS API error: x");
    assert_eq!(ApiError::TokenRefresh("x".to_string()).message(), "Token refresh error: x");
}
