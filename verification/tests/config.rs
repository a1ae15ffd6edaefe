use neen_desktop_agent::config::{final_tunnel_token, AppConfig};

#[test]
fn default_config_values() {
    let c = AppConfig::default();
    assert_eq!(c.neen_api.base_url, "https://crmapi.9ance.com/api");
    assert!(c.neen_api.access_token.is_none());
    assert_eq!(c.voice.language, "en-US");
    assert_eq!(c.voice.voice_id, "en_US-lessac-medium");
    assert_eq!(c.voice.speed_percent, 100);
    assert_eq!(c.voice.wake_word, "Hey NeeN");
    assert_eq!(c.screen.capture_interval_ms, 5000);
    assert_eq!(c.notifications.monitored_apps, vec!["WhatsApp", "Telegram", "Slack", "Mail"]);
    assert_eq!(c.notifications.reply_delay_ms, 2000);
    assert_eq!(c.system.log_level, "info");
    assert!(!c.has_session());
}

#[test]
fn tokens_update_and_session() {
    let mut c = AppConfig::default();
    c.update_tokens("acc1".to_string(), None);
    assert_eq!(c.access_token(), Some("acc1".to_string()));
    assert!(c.neen_api.refresh_token.is_none());
    c.update_tokens("acc2".to_string(), Some("ref".to_string()));
    assert_eq!(c.neen_api.access_token, Some("acc2".to_string()));
    assert_eq!(c.neen_api.refresh_token, Some("ref".to_string()));
    assert!(c.has_session());
}

#[test]
fn login_then_logout() {
    let mut c = AppConfig::default();
    c.record_login("a".to_string(), Some("r".to_string()), "t".to_string(), "fp".to_string());
    assert!(c.has_session());
    assert_eq!(c.neen_api.tunnel_token, Some("t".to_string()));
    assert_eq!(c.neen_api.device_fingerprint, Some("fp".to_string()));
    c.clear_session();
    assert!(!c.has_session());
    assert!(c.neen_api.tunnel_token.is_none());
    assert!(c.neen_api.device_fingerprint.is_none());
    assert_eq!(c.neen_api.refresh_token, Some("r".to_string()));
    assert_eq!(c.neen_api.base_url, "https://crmapi.9ance.com/api");
}

#[test]
fn tunnel_token_choice() {
    assert_eq!(final_tunnel_token(Some("up".to_string()), "init"), "up");
    assert_eq!(final_tunnel_token(None, "init"), "init");
}
