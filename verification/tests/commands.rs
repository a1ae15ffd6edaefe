use neen_desktop_agent::commands::{
    analysis_excerpt, analysis_prompt, chat_command_result, chat_error_message, email_html_body, fallback_chat_reply,
    fallback_voices, mark_read_url, notification_window_height, notification_window_label,
    notification_window_url, organized_folder, path_in_folder, summary_or_default,
    voice_or_default, ws_endpoints, ws_url,
    ChatDelivery,
    voices_from_answer, VoiceList, VoicesAnswer,
    login_step, LoginAction, LoginEvent, LoginReply, LoginState, TunnelReply,
    session_credentials, whatsapp_payload_fields, ws_step, SocketAction, SocketEvent, SocketState,
};
use neen_desktop_agent::config::AppConfig;

#[test]
fn fallback_replies() {
    assert_eq!(
        fallback_chat_reply("Show my LEADS"),
        "I can help you manage leads. What specific information do you need?"
    );
    assert_eq!(
        fallback_chat_reply("Hello there"),
        "Hello! I'm your NeeN AI assistant. How can I help you today?"
    );
    assert_eq!(
        fallback_chat_reply("this is it"),
        "Hello! I'm your NeeN AI assistant. How can I help you today?"
    );
    assert_eq!(
        fallback_chat_reply("HELP"),
        "I can assist you with leads, CRM tasks, and business operations. What do you need help with?"
    );
    assert_eq!(
        fallback_chat_reply("ok"),
        "I understand. Let me help you with that. What specific assistance do you need?"
    );
}

#[test]
fn chat_errors() {
    assert_eq!(chat_error_message(401, "401 Unauthorized", "bad token"), "Session expired: bad token");
    assert_eq!(chat_error_message(403, "403 Forbidden", "no"), "Session expired: no");
    assert_eq!(
        chat_error_message(500, "500 Internal Server Error", "oops"),
        "API Error 500 Internal Server Error: oops"
    );
}

#[test]
fn email_markup() {
    assert_eq!(email_html_body("a\nb"), "<p>a</p><p>b</p>");
    assert_eq!(email_html_body(""), "<p></p>");
    assert_eq!(email_html_body("\n"), "<p></p><p></p>");
}

#[test]
fn addresses() {
    let eps = ws_endpoints();
    assert_eq!(eps.len(), 3);
    assert_eq!(eps[1].1, "ws-whatsapp");
    assert_eq!(ws_url(&eps[0].0, "tok"), "wss://crmapi.9ance.com/ws/activity/notifications/?token=tok");
    assert_eq!(mark_read_url("42"), "https://crmapi.9ance.com/api/notifications/42/mark_as_read/");
    assert_eq!(notification_window_label("7"), "notif_7");
    assert_eq!(notification_window_url("a=1"), "notification.html?a=1");
    assert_eq!(notification_window_height("type=x&channel=wa"), 320);
    assert_eq!(notification_window_height("type=x"), 180);
    assert_eq!(organized_folder("/tmp/d", "pdf"), "/tmp/d/pdf_files");
    assert_eq!(path_in_folder("/tmp/d/pdf_files", "a.pdf"), "/tmp/d/pdf_files/a.pdf");
}

#[test]
fn voices() {
    assert_eq!(voice_or_default(None), "en_US-lessac-medium");
    assert_eq!(voice_or_default(Some("x".to_string())), "x");
    let short = fallback_voices(false);
    assert_eq!(short.len(), 6);
    assert_eq!(short[5].id, "de_DE-thorsten-medium");
    let long = fallback_voices(true);
    assert_eq!(long.len(), 12);
    assert_eq!(long[11].name, "Hindi Male");
    assert_eq!(long[11].language, "hi-IN");
}

#[test]
fn file_analysis_text() {
    assert_eq!(analysis_excerpt("short"), "short");
    let long = "x".repeat(8001);
    assert_eq!(analysis_excerpt(&long), format!("{}... [truncated]", "x".repeat(8000)));
    let exact = "y".repeat(8000);
    assert_eq!(analysis_excerpt(&exact), exact);
    assert_eq!(
        analysis_prompt("a.txt", "body"),
        "Analyze this file and give a clear summary:\n\nFile: a.txt\n\nbody"
    );
    assert_eq!(summary_or_default(None), "No summary returned");
    assert_eq!(summary_or_default(Some("s".to_string())), "s");
}

#[test]
fn chat_command_outcomes() {
    assert_eq!(
        chat_command_result("hi", ChatDelivery::Answered(Some("{\"message\":\"ok\"}".to_string()))),
        Ok("{\"message\":\"ok\"}".to_string())
    );
    assert_eq!(
        chat_command_result("hi", ChatDelivery::Answered(None)),
        Ok("I understand. How can I help you further?".to_string())
    );
    assert_eq!(
        chat_command_result(
            "hi",
            ChatDelivery::Refused {
                status_code: 401,
                status_text: "401 Unauthorized".to_string(),
                error_text: "expired".to_string(),
            }
        ),
        Err("Session expired: expired".to_string())
    );
    assert_eq!(
        chat_command_result(
            "hi",
            ChatDelivery::Refused {
                status_code: 502,
                status_text: "502 Bad Gateway".to_string(),
                error_text: "down".to_string(),
            }
        ),
        Err("API Error 502 Bad Gateway: down".to_string())
    );
    assert_eq!(
        chat_command_result("Show my LEADS", ChatDelivery::Unreachable),
        Ok("I can help you manage leads. What specific information do you need?".to_string())
    );
}

#[test]
fn voice_list_by_answer_shape() {
    let items = vec!["{\"id\":\"a\"}".to_string(), "{\"id\":\"b\"}".to_string()];
    match voices_from_answer(Some(VoicesAnswer::List(items.clone()))) {
        VoiceList::FromService(v) => assert_eq!(v, items),
        VoiceList::Builtin(_) => panic!("service list expected"),
    }
    match voices_from_answer(Some(VoicesAnswer::ObjectWithVoices(items.clone()))) {
        VoiceList::FromService(v) => assert_eq!(v, items),
        VoiceList::Builtin(_) => panic!("service list expected"),
    }
    match voices_from_answer(Some(VoicesAnswer::OtherObject("{\"x\":1}".to_string()))) {
        VoiceList::FromService(v) => assert_eq!(v, vec!["{\"x\":1}".to_string()]),
        VoiceList::Builtin(_) => panic!("service list expected"),
    }
    match voices_from_answer(Some(VoicesAnswer::Other)) {
        VoiceList::Builtin(v) => assert_eq!(v.len(), 12),
        VoiceList::FromService(_) => panic!("built-in list expected"),
    }
    match voices_from_answer(None) {
        VoiceList::Builtin(v) => {
            assert_eq!(v.len(), 6);
            assert_eq!(v[0].id, "en_US-lessac-medium");
        }
        VoiceList::FromService(_) => panic!("built-in list expected"),
    }
}

#[test]
fn login_flow_success() {
    let (st, act) = login_step(LoginState::Start, LoginEvent::Begin);
    assert!(matches!(act, LoginAction::SendTunnelInit));
    let (st, act) = login_step(st, LoginEvent::Tunnel(TunnelReply::Answer(Some("t0".to_string()))));
    match act {
        LoginAction::SendLogin { tunnel } => assert_eq!(tunnel, "t0"),
        other => panic!("unexpected {:?}", other),
    }
    let (st, act) = login_step(
        st,
        LoginEvent::Login(LoginReply::Answer { access: Some("a1".to_string()), refresh: Some("r1".to_string()) }),
    );
    match act {
        LoginAction::SendUpgrade { access, tunnel } => {
            assert_eq!(access, "a1");
            assert_eq!(tunnel, "t0");
        }
        other => panic!("unexpected {:?}", other),
    }
    let (st, act) = login_step(st, LoginEvent::Upgrade(Some("t1".to_string())));
    assert!(matches!(act, LoginAction::LoadConfig));
    let (st, act) = login_step(st, LoginEvent::ConfigLoaded(Some(AppConfig::default())));
    match act {
        LoginAction::SaveConfig(c) => {
            assert_eq!(c.neen_api.access_token, Some("a1".to_string()));
            assert_eq!(c.neen_api.refresh_token, Some("r1".to_string()));
            assert_eq!(c.neen_api.tunnel_token, Some("t1".to_string()));
            assert_eq!(c.neen_api.device_fingerprint, Some("desktop_agent_fingerprint".to_string()));
        }
        other => panic!("unexpected {:?}", other),
    }
    let (_, act) = login_step(st, LoginEvent::Saved);
    assert!(matches!(act, LoginAction::Finish(Ok(true))));
}

#[test]
fn login_flow_failures() {
    let begin = || login_step(LoginState::Start, LoginEvent::Begin).0;
    let (_, act) = login_step(begin(), LoginEvent::Tunnel(TunnelReply::Unreachable("dns".to_string())));
    assert!(matches!(act, LoginAction::Finish(Err(ref m)) if m == "Tunnel init failed: dns"));
    let (_, act) = login_step(begin(), LoginEvent::Tunnel(TunnelReply::Unreadable("eof".to_string())));
    assert!(matches!(act, LoginAction::Finish(Err(ref m)) if m == "Failed to parse tunnel response: eof"));
    let (_, act) = login_step(begin(), LoginEvent::Tunnel(TunnelReply::Answer(None)));
    assert!(matches!(act, LoginAction::Finish(Err(ref m)) if m == "No tunnel token received"));
    let tunnel = || login_step(begin(), LoginEvent::Tunnel(TunnelReply::Answer(Some("t".to_string())))).0;
    let (_, act) = login_step(tunnel(), LoginEvent::Login(LoginReply::Unreachable("timeout".to_string())));
    assert!(matches!(act, LoginAction::Finish(Err(ref m)) if m == "Login request failed: timeout"));
    let (_, act) = login_step(tunnel(), LoginEvent::Login(LoginReply::Refused));
    assert!(matches!(act, LoginAction::Finish(Ok(false))));
    let (_, act) = login_step(tunnel(), LoginEvent::Login(LoginReply::Unreadable));
    assert!(matches!(act, LoginAction::Finish(Ok(false))));
    let (_, act) = login_step(tunnel(), LoginEvent::Login(LoginReply::Answer { access: None, refresh: None }));
    assert!(matches!(act, LoginAction::Finish(Ok(false))));
    let (st, _) = login_step(
        tunnel(),
        LoginEvent::Login(LoginReply::Answer { access: Some("a".to_string()), refresh: None }),
    );
    let (st, _) = login_step(st, LoginEvent::Upgrade(None));
    let mut before = AppConfig::default();
    before.neen_api.refresh_token = Some("old".to_string());
    let (st2, act) = login_step(st.clone(), LoginEvent::ConfigLoaded(Some(before)));
    match act {
        LoginAction::SaveConfig(c) => {
            assert_eq!(c.neen_api.tunnel_token, Some("t".to_string()));
            assert_eq!(c.neen_api.refresh_token, Some("old".to_string()));
        }
        other => panic!("unexpected {:?}", other),
    }
    let (_, act) = login_step(st, LoginEvent::ConfigLoaded(None));
    assert!(matches!(act, LoginAction::Finish(Ok(false))));
    let (_, act) = login_step(st2, LoginEvent::Begin);
    assert!(matches!(act, LoginAction::Ignore));
}

#[test]
fn credentials_in_order() {
    let mut c = AppConfig::default();
    assert_eq!(session_credentials(&c).unwrap_err(), "No JWT token available");
    c.neen_api.access_token = Some("a".to_string());
    assert_eq!(session_credentials(&c).unwrap_err(), "No tunnel token available");
    c.neen_api.tunnel_token = Some("t".to_string());
    assert_eq!(session_credentials(&c).unwrap_err(), "No device fingerprint available");
    c.neen_api.device_fingerprint = Some("f".to_string());
    let k = session_credentials(&c).unwrap();
    assert_eq!((k.access_token.as_str(), k.tunnel_token.as_str(), k.device_fingerprint.as_str()), ("a", "t", "f"));
}

#[test]
fn whatsapp_fields() {
    let f = whatsapp_payload_fields("+1".to_string(), "hi".to_string(), None, Some("acc".to_string()), None, Some("7".to_string()));
    assert_eq!(
        f,
        vec![
            ("to_phone".to_string(), "+1".to_string()),
            ("message".to_string(), "hi".to_string()),
            ("account_id".to_string(), "acc".to_string()),
            ("entity_id".to_string(), "7".to_string()),
        ]
    );
}

#[test]
fn socket_steps() {
    let (s, a) = ws_step(SocketState::Connecting, SocketEvent::ConnectFailed);
    assert_eq!(s, SocketState::Waiting);
    assert!(matches!(a, SocketAction::WaitMs(5000)));
    let (s, a) = ws_step(s, SocketEvent::RetryDue);
    assert_eq!(s, SocketState::Connecting);
    assert!(matches!(a, SocketAction::Connect));
    let (s, _) = ws_step(s, SocketEvent::Connected);
    assert_eq!(s, SocketState::Open);
    let (s, a) = ws_step(s, SocketEvent::Text("x".to_string()));
    assert!(matches!(a, SocketAction::Emit(ref t) if t == "x"));
    let (s, a) = ws_step(s, SocketEvent::PingDue);
    assert!(matches!(a, SocketAction::SendPing(ref p) if p == "{\"type\":\"ping\"}"));
    let (s, a) = ws_step(s, SocketEvent::OtherMessage);
    assert_eq!(s, SocketState::Open);
    assert!(matches!(a, SocketAction::Idle));
    let (s, a) = ws_step(s, SocketEvent::Closed);
    assert_eq!(s, SocketState::Waiting);
    assert!(matches!(a, SocketAction::WaitMs(5000)));
}
