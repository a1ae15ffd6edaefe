use neen_desktop_agent::ai_engine::{
    ai_action_kind, base64_text, bytes_of_base64, AIEngine, AfterChat, AiActionKind,
};
use neen_desktop_agent::config::AppConfig;
use neen_desktop_agent::neen_api::{ActionResponse, ChatResponse, VoiceResponse};

fn response(message: &str, action: Option<&str>) -> ChatResponse {
    ChatResponse {
        conversation_id: "c1".to_string(),
        message: message.to_string(),
        action: action.map(|a| ActionResponse { action_type: a.to_string(), data: None }),
        action_result: None,
    }
}

#[test]
fn conversations_read_after_write() {
    let mut e = AIEngine::new(AppConfig::default());
    assert_eq!(e.get_conversation_id("s1"), None);
    e.set_conversation_id("s1".to_string(), "c1".to_string());
    e.set_conversation_id("s2".to_string(), "c2".to_string());
    e.set_conversation_id("s1".to_string(), "c3".to_string());
    assert_eq!(e.get_conversation_id("s1"), Some("c3".to_string()));
    assert_eq!(e.get_conversation_id("s2"), Some("c2".to_string()));
    assert_eq!(e.get_conversation_id("s3"), None);
}

#[test]
fn action_kinds() {
    assert_eq!(ai_action_kind("create_lead"), AiActionKind::CreateLead);
    assert_eq!(ai_action_kind("list_leads"), AiActionKind::ListLeads);
    assert_eq!(ai_action_kind("send_whatsapp"), AiActionKind::SendWhatsapp);
    assert_eq!(ai_action_kind("create_activity"), AiActionKind::CreateActivity);
    assert_eq!(ai_action_kind("dance"), AiActionKind::Unknown);
}

#[test]
fn command_flow() {
    let e = AIEngine::new(AppConfig::default());
    let req = e.chat_request_for("list leads");
    assert_eq!(req.message, "list leads");
    assert_eq!(req.model, Some("openai/gpt-4o-mini".to_string()));
    assert!(req.conversation_id.is_none());
    match e.after_chat("list leads", Ok(response("Here", Some("list_leads")))) {
        AfterChat::Reply { message, action } => {
            assert_eq!(message, "Here");
            assert_eq!(action, Some(AiActionKind::ListLeads));
        }
        _ => panic!("expected a reply"),
    }
    match e.after_chat("list leads", Err("down".to_string())) {
        AfterChat::TryPublicChat { message } => assert_eq!(message, "list leads"),
        _ => panic!("expected the public chat"),
    }
    assert_eq!(e.after_public_chat("down", Ok(response("Hi", None))), Ok("Hi".to_string()));
    assert_eq!(
        e.after_public_chat("down", Err("also down".to_string())),
        Err("Both APIs failed: down | also down".to_string())
    );
}

#[test]
fn voice_requests() {
    let e = AIEngine::new(AppConfig::default());
    let r = e.voice_request_for(&[1, 2, 3, 4]);
    assert_eq!(r.audio, Some("AQIDBA==".to_string()));
    assert_eq!(r.encoding, Some("LINEAR16".to_string()));
    assert_eq!(r.sample_rate, Some(16000));
    assert_eq!(r.language, Some("en-US".to_string()));
    assert_eq!(r.voice, Some("en_US-lessac-medium".to_string()));
    assert_eq!(r.return_json, Some(true));
    let tts = e.tts_request_for("hello");
    assert_eq!(tts.text, "hello");
    assert_eq!(tts.speed_percent, Some(100));
}

#[test]
fn voice_reply_audio_decoding() {
    let e = AIEngine::new(AppConfig::default());
    let mut r = VoiceResponse {
        success: true,
        transcript: None,
        response_text: "ok".to_string(),
        audio_base64: Some("AQID".to_string()),
        session_id: "s".to_string(),
        voice: "v".to_string(),
        language: "en-US".to_string(),
    };
    assert_eq!(e.voice_reply_audio(&r), Ok(Some(vec![1, 2, 3])));
    r.audio_base64 = Some("***".to_string());
    assert_eq!(e.voice_reply_audio(&r), Err(()));
    r.audio_base64 = None;
    assert_eq!(e.voice_reply_audio(&r), Ok(None));
}

#[test]
fn prompts() {
    let e = AIEngine::new(AppConfig::default());
    let p = e.screen_context_prompt(&vec![0u8; 90]);
    assert_eq!(
        p,
        format!(
            "I'm looking at this screen. Please analyze what's visible and suggest relevant actions. Screen data: {}",
            "A".repeat(100)
        )
    );
    assert_eq!(
        e.notification_reply_prompt("Need a quote", "Rahul"),
        "Generate an appropriate reply to this notification from Rahul. Content: 'Need a quote'. Keep it professional and helpful. If it's a lead inquiry, capture the lead information."
    );
    assert_eq!(
        e.system_command_prompt("open excel"),
        "Execute this system command: 'open excel'. If this involves file operations, CRM actions, or application control, provide specific instructions for the system to execute."
    );
}

#[test]
fn base64_transfer_text() {
    assert_eq!(base64_text(b"hello"), "aGVsbG8=");
    assert_eq!(base64_text(&[]), "");
    assert_eq!(base64_text(&[0xff, 0x00, 0x10]), "/wAQ");
    assert_eq!(base64_text(&[0xfb, 0xff]), "+/8=");
    assert_eq!(base64_text(&[0x00]), "AA==");
    assert_eq!(base64_text(b"Many hands make light work."), "TWFueSBoYW5kcyBtYWtlIGxpZ2h0IHdvcmsu");
    assert_eq!(bytes_of_base64("aGVsbG8=").unwrap(), b"hello".to_vec());
    assert!(bytes_of_base64("not base64!").is_err());
}

#[test]
fn conversations_after_many_writes() {
    let mut e = AIEngine::new(AppConfig::default());
    let writes = [("s1", "c1"), ("s2", "c2"), ("s3", "c3"), ("s1", "c4"), ("s4", "c5"), ("s2", "c6")];
    for (s, c) in writes {
        e.set_conversation_id(s.to_string(), c.to_string());
    }
    assert_eq!(e.get_conversation_id("s1"), Some("c4".to_string()));
    assert_eq!(e.get_conversation_id("s2"), Some("c6".to_string()));
    assert_eq!(e.get_conversation_id("s3"), Some("c3".to_string()));
    assert_eq!(e.get_conversation_id("s4"), Some("c5".to_string()));
    assert_eq!(e.get_conversation_id("s5"), None);
}

#[test]
fn base64_decoding_is_strict() {
    assert_eq!(bytes_of_base64("aGk=").unwrap(), b"hi".to_vec());
    assert!(bytes_of_base64("aGk").is_err());
    assert!(bytes_of_base64("aGl=").is_err());
    assert!(bytes_of_base64("aG k=").is_err());
    assert_eq!(bytes_of_base64("").unwrap(), Vec::<u8>::new());
}
