use neen_desktop_agent::notification_monitor::{
    business_hours_at, lead_info_from_matches, Notification, NotificationMonitor, NotificationType,
};

fn notification(app: &str, title: &str, content: &str, sender: Option<&str>) -> Notification {
    Notification {
        id: "n1".to_string(),
        app_name: app.to_string(),
        title: title.to_string(),
        content: content.to_string(),
        sender: sender.map(|s| s.to_string()),
        timestamp_ms: 1_700_000_000_000,
        notification_type: NotificationType::Other,
    }
}

#[test]
fn new_monitor_has_default_templates() {
    let m = NotificationMonitor::new();
    let mail = notification("Mail", "Hi", "Hello there", None);
    assert_eq!(
        m.get_reply_template(&mail),
        Some("Thank you for your email. I'll get back to you soon.".to_string())
    );
    let wa = notification("WhatsApp", "Hi", "Hello", None);
    assert_eq!(m.get_reply_template(&wa), None);
    let slack = notification("Slack", "Hi", "Hello", None);
    assert_eq!(m.get_reply_template(&slack), None);
}

#[test]
fn auto_reply_only_in_business_hours() {
    let m = NotificationMonitor::new();
    let wa = notification("WhatsApp", "Hi", "Hello", None);
    assert!(m.should_auto_reply_at(&wa, 10, 0));
    assert!(m.should_auto_reply_at(&wa, 17, 4));
    assert!(!m.should_auto_reply_at(&wa, 18, 4));
    assert!(!m.should_auto_reply_at(&wa, 8, 2));
    assert!(!m.should_auto_reply_at(&wa, 12, 5));
    assert!(!m.should_auto_reply_at(&wa, 12, 6));
    let mail = notification("Mail", "Hi", "Hello", None);
    assert!(!m.should_auto_reply_at(&mail, 10, 0));
    let other = notification("Signal", "Hi", "Hello", None);
    assert!(!m.should_auto_reply_at(&other, 10, 0));
}

#[test]
fn business_hours_edges() {
    assert!(business_hours_at(9, 0));
    assert!(!business_hours_at(8, 0));
    assert!(business_hours_at(17, 4));
    assert!(!business_hours_at(18, 1));
    assert!(!business_hours_at(10, 5));
}

#[test]
fn disabled_handler_never_replies_now() {
    let mut m = NotificationMonitor::new();
    m.set_auto_reply("WhatsApp".to_string(), false);
    let wa = notification("WhatsApp", "Hi", "Hello", None);
    assert!(!m.should_auto_reply(&wa));
    let mail = notification("Mail", "Hi", "Hello", None);
    assert!(!m.should_auto_reply(&mail));
}

#[test]
fn set_auto_reply_keeps_template_and_creates_handler() {
    let mut m = NotificationMonitor::new();
    m.set_auto_reply("Mail".to_string(), true);
    let mail = notification("Mail", "Hi", "Hello", None);
    assert!(m.should_auto_reply_at(&mail, 10, 1));
    assert_eq!(
        m.get_reply_template(&mail),
        Some("Thank you for your email. I'll get back to you soon.".to_string())
    );
    m.set_auto_reply("Discord".to_string(), true);
    let d = notification("Discord", "x", "y", None);
    assert!(m.should_auto_reply_at(&d, 10, 1));
    assert_eq!(m.get_reply_template(&d), None);
}

#[test]
fn remove_monitored_app_forgets_handler() {
    let mut m = NotificationMonitor::new();
    m.remove_monitored_app("WhatsApp");
    let wa = notification("WhatsApp", "Hi", "Hello", None);
    assert!(!m.should_auto_reply_at(&wa, 10, 0));
    let tg = notification("Telegram", "Hi", "Hello", None);
    assert!(m.should_auto_reply_at(&tg, 10, 0));
}

#[test]
fn add_monitored_app_twice_is_harmless() {
    let mut m = NotificationMonitor::new();
    m.add_monitored_app("Discord".to_string());
    m.add_monitored_app("Discord".to_string());
    m.remove_monitored_app("Discord");
    let d = notification("Discord", "x", "y", None);
    assert!(!m.should_auto_reply_at(&d, 10, 0));
}

#[test]
fn classify_by_keywords() {
    let m = NotificationMonitor::new();
    assert_eq!(
        m.classify_notification(&notification("Slack", "Missed CALL", "see you", None)),
        NotificationType::Call
    );
    assert_eq!(
        m.classify_notification(&notification("Slack", "x", "please call me", None)),
        NotificationType::Call
    );
    assert_eq!(
        m.classify_notification(&notification("Outlook", "x", "New EMAIL arrived", None)),
        NotificationType::Email
    );
    assert_eq!(
        m.classify_notification(&notification("Mail", "x", "hello", None)),
        NotificationType::Email
    );
    assert_eq!(
        m.classify_notification(&notification("Calendar", "Reminder", "standup", None)),
        NotificationType::Reminder
    );
    assert_eq!(
        m.classify_notification(&notification("Microsoft Teams", "x", "hello", None)),
        NotificationType::Message
    );
    assert_eq!(
        m.classify_notification(&notification("Finder", "x", "hello", None)),
        NotificationType::Other
    );
}

#[test]
fn messaging_app_names() {
    let m = NotificationMonitor::new();
    assert!(m.is_messaging_app("WhatsApp Desktop"));
    assert!(m.is_messaging_app("Discord"));
    assert!(m.is_messaging_app("Microsoft Teams"));
    assert!(!m.is_messaging_app("Mail"));
    assert!(!m.is_messaging_app("whatsapp"));
}

#[test]
fn lead_with_keyword_and_phone() {
    let m = NotificationMonitor::new();
    let n = notification(
        "WhatsApp",
        "New",
        "I am INTERESTED, call me at 9876543210 or rahul@example.com",
        Some("Rahul"),
    );
    let lead = m.extract_lead_info(&n).expect("lead");
    assert_eq!(lead.phone, Some("9876543210".to_string()));
    assert_eq!(lead.email, Some("rahul@example.com".to_string()));
    assert_eq!(lead.name, Some("Rahul".to_string()));
    assert_eq!(lead.source, "WhatsApp");
    assert_eq!(lead.confidence_percent, 80);
}

#[test]
fn lead_with_contact_only() {
    let m = NotificationMonitor::new();
    let n = notification("Telegram", "x", "reach me on 12345678901", None);
    let lead = m.extract_lead_info(&n).expect("lead");
    assert_eq!(lead.phone, Some("12345678901".to_string()));
    assert_eq!(lead.email, None);
    assert_eq!(lead.confidence_percent, 50);
    let short = notification("Telegram", "x", "call 12345", None);
    assert!(m.extract_lead_info(&short).is_none());
}

#[test]
fn lead_from_matches_without_regex() {
    let n = notification("Mail", "x", "what is the price?", None);
    let lead = lead_info_from_matches(&n, None, None).expect("lead");
    assert_eq!(lead.confidence_percent, 80);
    let plain = notification("Mail", "x", "see you later", None);
    assert!(lead_info_from_matches(&plain, None, None).is_none());
    let lead2 = lead_info_from_matches(&plain, None, Some("a@b.co".to_string())).expect("lead");
    assert_eq!(lead2.confidence_percent, 50);
    assert_eq!(lead2.message, "see you later");
}

#[test]
fn remove_undoes_add() {
    let mut m = NotificationMonitor::new();
    m.add_monitored_app("Discord".to_string());
    m.remove_monitored_app("Discord");
    let wa = notification("WhatsApp", "Hi", "Hello", None);
    assert!(m.should_auto_reply_at(&wa, 10, 0));
    let mail = notification("Mail", "Hi", "Hello", None);
    assert_eq!(
        m.get_reply_template(&mail),
        Some("Thank you for your email. I'll get back to you soon.".to_string())
    );
    let d = notification("Discord", "x", "y", None);
    assert!(!m.should_auto_reply_at(&d, 10, 0));
    assert_eq!(m.get_reply_template(&d), None);
}
