//! The decisions behind the agent's user-facing commands: canned replies
//! when the chat service cannot be reached, error texts, message markup,
//! endpoint addresses and the voice lists offered without the service.

use vstd::prelude::*;
use vstd::utf8::{decode_utf8, encode_utf8, is_char_boundary, encode_utf8_decode_utf8};
use crate::config::{final_tunnel_token, same_api_endpoints, same_but_api, AppConfig};
use crate::text::{chars_of, contains_str, has_substring, lowercase_of, opt_view, unicode_lowercase};

verus! {

/// The reply given when the chat service cannot be reached, chosen by
/// keywords of the lowercased message.
pub open spec fn fallback_reply_spec(message: Seq<char>) -> Seq<char> {
    let m = unicode_lowercase(message);
    if has_substring(m, "lead"@) {
        "I can help you manage leads. What specific information do you need?"@
    } else if has_substring(m, "hello"@) || has_substring(m, "hi"@) {
        "Hello! I'm your NeeN AI assistant. How can I help you today?"@
    } else if has_substring(m, "help"@) {
        "I can assist you with leads, CRM tasks, and business operations. What do you need help with?"@
    } else {
        "I understand. Let me help you with that. What specific assistance do you need?"@
    }
}

/// The reply given when the chat service cannot be reached.
pub fn fallback_chat_reply(message: &str) -> (r: String)
    ensures
        r@ == fallback_reply_spec(message@),
{
    let lower = lowercase_of(message);
    let m = lower.as_str();
    if contains_str(m, "lead") {
        String::from_str("I can help you manage leads. What specific information do you need?")
    } else if contains_str(m, "hello") || contains_str(m, "hi") {
        String::from_str("Hello! I'm your NeeN AI assistant. How can I help you today?")
    } else if contains_str(m, "help") {
        String::from_str(
            "I can assist you with leads, CRM tasks, and business operations. What do you need help with?",
        )
    } else {
        String::from_str(
            "I understand. Let me help you with that. What specific assistance do you need?",
        )
    }
}

/// The error reported when the chat service answers with an error status:
/// a session error for 401 and 403, an API error with the status otherwise.
/// `status_text` is the status as displayed (code and reason).
pub fn chat_error_message(status_code: u16, status_text: &str, error_text: &str) -> (r: String)
    ensures
        r@ == chat_error_spec(status_code, status_text@, error_text@),
{
    if status_code == 401 || status_code == 403 {
        String::from_str("Session expired: ").concat(error_text)
    } else {
        String::from_str("API Error ").concat(status_text).concat(": ").concat(error_text)
    }
}

/// The error text for a chat refused with an error status.
pub open spec fn chat_error_spec(status_code: u16, status_text: Seq<char>, error_text: Seq<char>) -> Seq<char> {
    if status_code == 401 || status_code == 403 {
        "Session expired: "@ + error_text
    } else {
        "API Error "@ + status_text + ": "@ + error_text
    }
}

/// What became of a chat message sent to the chat service.
#[derive(Clone, Debug)]
pub enum ChatDelivery {
    /// The service answered with a success status: the JSON text of its
    /// answer, or `None` when the answer was not JSON.
    Answered(Option<String>),
    /// The service answered with an error status (`status_text` as
    /// displayed, code and reason) and this body.
    Refused { status_code: u16, status_text: String, error_text: String },
    /// The service could not be reached.
    Unreachable,
}

/// The result of the chat command for `message`: the service's JSON answer
/// (a canned acknowledgement when that is not JSON), the error for a
/// refusal, or the keyword reply when the service cannot be reached.
pub fn chat_command_result(message: &str, delivery: ChatDelivery) -> (r: Result<String, String>)
    ensures
        match delivery {
            ChatDelivery::Answered(Some(json)) => r matches Ok(t) && t@ == json@,
            ChatDelivery::Answered(None) => r matches Ok(t) && t@
                == "I understand. How can I help you further?"@,
            ChatDelivery::Refused { status_code, status_text, error_text } => r matches Err(e)
                && e@ == chat_error_spec(status_code, status_text@, error_text@),
            ChatDelivery::Unreachable => r matches Ok(t) && t@ == fallback_reply_spec(message@),
        },
{
    match delivery {
        ChatDelivery::Answered(Some(json)) => Ok(json),
        ChatDelivery::Answered(None) => Ok(String::from_str("I understand. How can I help you further?")),
        ChatDelivery::Refused { status_code, status_text, error_text } => Err(
            chat_error_message(status_code, status_text.as_str(), error_text.as_str()),
        ),
        ChatDelivery::Unreachable => Ok(fallback_chat_reply(message)),
    }
}

/// `text` with every newline replaced by a paragraph break.
pub open spec fn paragraph_breaks(text: Seq<char>) -> Seq<char>
    decreases text.len(),
{
    if text.len() == 0 {
        Seq::empty()
    } else {
        paragraph_breaks(text.drop_last()) + if text.last() == '\n' {
            "</p><p>"@
        } else {
            seq![text.last()]
        }
    }
}

/// The HTML body of an e-mail reply: the text in a paragraph, each newline
/// starting a new one.
pub fn email_html_body(body: &str) -> (r: String)
    ensures
        r@ == "<p>"@ + paragraph_breaks(body@) + "</p>"@,
{
    let chars = chars_of(body);
    let mut out = String::from_str("<p>");
    let n = chars.len();
    let mut i: usize = 0;
    while i < n
        invariant
            i <= n,
            n == chars@.len(),
            chars@ == body@,
            out@ == "<p>"@ + paragraph_breaks(body@.take(i as int)),
        decreases n - i,
    {
        let ghost before = out@;
        proof {
            assert(body@.take(i + 1).drop_last() =~= body@.take(i as int));
            assert(body@.take(i + 1).last() == chars@[i as int]);
        }
        if chars[i] == '\n' {
            out.append("</p><p>");
        } else {
            out.push(chars[i]);
        }
        proof {
            assert(out@ =~= "<p>"@ + paragraph_breaks(body@.take(i + 1)));
        }
        i += 1;
    }
    proof {
        assert(body@.take(n as int) =~= body@);
    }
    out.append("</p>");
    out
}

/// The live-notification channels: WebSocket address and event name.
pub fn ws_endpoints() -> (r: Vec<(String, String)>)
    ensures
        r@.len() == 3,
        r@[0].0@ == "wss://crmapi.9ance.com/ws/activity/notifications/"@,
        r@[0].1@ == "ws-activity"@,
        r@[1].0@ == "wss://crmapi.9ance.com/ws/whatsapp/tenant/notifications/"@,
        r@[1].1@ == "ws-whatsapp"@,
        r@[2].0@ == "wss://crmapi.9ance.com/ws/email/notifications/"@,
        r@[2].1@ == "ws-email"@,
{
    let mut r: Vec<(String, String)> = Vec::new();
    r.push(
        (
            String::from_str("wss://crmapi.9ance.com/ws/activity/notifications/"),
            String::from_str("ws-activity"),
        ),
    );
    r.push(
        (
            String::from_str("wss://crmapi.9ance.com/ws/whatsapp/tenant/notifications/"),
            String::from_str("ws-whatsapp"),
        ),
    );
    r.push(
        (
            String::from_str("wss://crmapi.9ance.com/ws/email/notifications/"),
            String::from_str("ws-email"),
        ),
    );
    r
}

/// The address of a live channel with the access token as query.
pub fn ws_url(base_url: &str, token: &str) -> (r: String)
    ensures
        r@ == base_url@ + "?token="@ + token@,
{
    String::from_str(base_url).concat("?token=").concat(token)
}

/// The address that marks a notification as read.
pub fn mark_read_url(notification_id: &str) -> (r: String)
    ensures
        r@ == "https://crmapi.9ance.com/api/notifications/"@ + notification_id@ + "/mark_as_read/"@,
{
    String::from_str("https://crmapi.9ance.com/api/notifications/").concat(notification_id).concat(
        "/mark_as_read/",
    )
}

/// The label of a notification window.
pub fn notification_window_label(id: &str) -> (r: String)
    ensures
        r@ == "notif_"@ + id@,
{
    String::from_str("notif_").concat(id)
}

/// The page of a notification window.
pub fn notification_window_url(query: &str) -> (r: String)
    ensures
        r@ == "notification.html?"@ + query@,
{
    String::from_str("notification.html?").concat(query)
}

/// The height of a notification window in logical pixels: taller when the
/// notification names a channel.
pub fn notification_window_height(query: &str) -> (r: u32)
    ensures
        r == if has_substring(query@, "channel="@) {
            320u32
        } else {
            180u32
        },
{
    if contains_str(query, "channel=") {
        320
    } else {
        180
    }
}

/// The voice used for speech synthesis when none is chosen.
pub fn voice_or_default(voice: Option<String>) -> (r: String)
    ensures
        r@ == match voice {
            Some(v) => v@,
            None => "en_US-lessac-medium"@,
        },
{
    match voice {
        Some(v) => v,
        None => String::from_str("en_US-lessac-medium"),
    }
}

/// A synthesis voice as offered to the user.
#[derive(Clone, Debug)]
pub struct VoiceOption {
    pub id: String,
    pub name: String,
    pub language: String,
}

/// The voices offered when the voice service cannot list any: six when the
/// service refused the request, these six and six more when its answer could
/// not be read as a list.
pub open spec fn fallback_voice_table(extended: bool) -> Seq<(Seq<char>, Seq<char>, Seq<char>)> {
    let base = seq![
        ("en_US-lessac-medium"@, "Lessac (US English)"@, "en-US"@),
        ("en_US-amy-medium"@, "Amy (US English)"@, "en-US"@),
        ("en_GB-alan-medium"@, "Alan (British English)"@, "en-GB"@),
        ("es_ES-mls_10246-low"@, "Spanish Female"@, "es-ES"@),
        ("fr_FR-siwis-medium"@, "French Female"@, "fr-FR"@),
        ("de_DE-thorsten-medium"@, "Thorsten (German)"@, "de-DE"@),
    ];
    if extended {
        base + seq![
            ("it_IT-riccardo-x_low"@, "Riccardo (Italian)"@, "it-IT"@),
            ("pt_BR-faber-medium"@, "Faber (Portuguese)"@, "pt-BR"@),
            ("ru_RU-denis-medium"@, "Denis (Russian)"@, "ru-RU"@),
            ("zh_CN-huayan-medium"@, "Huayan (Chinese)"@, "zh-CN"@),
            ("ja_JP-haruka-medium"@, "Haruka (Japanese)"@, "ja-JP"@),
            ("hi_IN-male-medium"@, "Hindi Male"@, "hi-IN"@),
        ]
    } else {
        base
    }
}

/// The view of a voice option.
pub open spec fn voice_option_view(v: VoiceOption) -> (Seq<char>, Seq<char>, Seq<char>) {
    (v.id@, v.name@, v.language@)
}

fn push_voice(list: &mut Vec<VoiceOption>, id: &str, name: &str, language: &str)
    ensures
        final(list)@ == old(list)@.push(
            VoiceOption { id: final(list)@.last().id, name: final(list)@.last().name, language: final(list)@.last().language },
        ),
        voice_option_view(final(list)@.last()) == (id@, name@, language@),
{
    list.push(
        VoiceOption {
            id: String::from_str(id),
            name: String::from_str(name),
            language: String::from_str(language),
        },
    );
}

/// The voices offered when the voice service cannot list any.
pub fn fallback_voices(extended: bool) -> (r: Vec<VoiceOption>)
    ensures
        r@.map_values(|v: VoiceOption| voice_option_view(v)) == fallback_voice_table(extended),
{
    let mut r: Vec<VoiceOption> = Vec::new();
    push_voice(&mut r, "en_US-lessac-medium", "Lessac (US English)", "en-US");
    push_voice(&mut r, "en_US-amy-medium", "Amy (US English)", "en-US");
    push_voice(&mut r, "en_GB-alan-medium", "Alan (British English)", "en-GB");
    push_voice(&mut r, "es_ES-mls_10246-low", "Spanish Female", "es-ES");
    push_voice(&mut r, "fr_FR-siwis-medium", "French Female", "fr-FR");
    push_voice(&mut r, "de_DE-thorsten-medium", "Thorsten (German)", "de-DE");
    if extended {
        push_voice(&mut r, "it_IT-riccardo-x_low", "Riccardo (Italian)", "it-IT");
        push_voice(&mut r, "pt_BR-faber-medium", "Faber (Portuguese)", "pt-BR");
        push_voice(&mut r, "ru_RU-denis-medium", "Denis (Russian)", "ru-RU");
        push_voice(&mut r, "zh_CN-huayan-medium", "Huayan (Chinese)", "zh-CN");
        push_voice(&mut r, "ja_JP-haruka-medium", "Haruka (Japanese)", "ja-JP");
        push_voice(&mut r, "hi_IN-male-medium", "Hindi Male", "hi-IN");
    }
    assert(r@.map_values(|v: VoiceOption| voice_option_view(v)) =~= fallback_voice_table(extended));
    r
}

/// The shape of a successful answer of the voice service, as far as the
/// voice list reads it; each JSON value as JSON text.
#[derive(Clone, Debug)]
pub enum VoicesAnswer {
    /// A JSON array, with its items.
    List(Vec<String>),
    /// A JSON object whose `voices` member is an array, with that array's
    /// items.
    ObjectWithVoices(Vec<String>),
    /// Any other JSON object, whole.
    OtherObject(String),
    /// Any other JSON value.
    Other,
}

/// The voices offered to the user: JSON values from the service, or the
/// built-in list.
#[derive(Clone, Debug)]
pub enum VoiceList {
    FromService(Vec<String>),
    Builtin(Vec<VoiceOption>),
}

/// The views of a list of JSON texts.
pub open spec fn texts_view(v: Seq<String>) -> Seq<Seq<char>> {
    v.map_values(|t: String| t@)
}

/// The voice list for the service's answer (`None` when it refused the
/// request): the service's list when its answer holds one, the answer
/// itself for another object, the extended built-in list for an answer of
/// another shape, and the short built-in list after a refusal.
pub fn voices_from_answer(answer: Option<VoicesAnswer>) -> (r: VoiceList)
    ensures
        match answer {
            Some(VoicesAnswer::List(items)) => r matches VoiceList::FromService(v) && texts_view(v@)
                == texts_view(items@),
            Some(VoicesAnswer::ObjectWithVoices(items)) => r matches VoiceList::FromService(v)
                && texts_view(v@) == texts_view(items@),
            Some(VoicesAnswer::OtherObject(o)) => r matches VoiceList::FromService(v)
                && texts_view(v@) == seq![o@],
            Some(VoicesAnswer::Other) => r matches VoiceList::Builtin(v) && v@.map_values(
                |x: VoiceOption| voice_option_view(x),
            ) == fallback_voice_table(true),
            None => r matches VoiceList::Builtin(v) && v@.map_values(
                |x: VoiceOption| voice_option_view(x),
            ) == fallback_voice_table(false),
        },
{
    match answer {
        Some(VoicesAnswer::List(items)) => VoiceList::FromService(items),
        Some(VoicesAnswer::ObjectWithVoices(items)) => VoiceList::FromService(items),
        Some(VoicesAnswer::OtherObject(o)) => {
            let mut v: Vec<String> = Vec::new();
            v.push(o);
            assert(texts_view(v@) =~= seq![v@[0]@]);
            VoiceList::FromService(v)
        },
        Some(VoicesAnswer::Other) => VoiceList::Builtin(fallback_voices(true)),
        None => VoiceList::Builtin(fallback_voices(false)),
    }
}

/// The part of a file's text sent for analysis: at most 8000 bytes, marked
/// when cut.
pub open spec fn excerpt_spec(content: Seq<char>) -> Seq<char> {
    let bytes = encode_utf8(content);
    if bytes.len() > 8000 {
        decode_utf8(bytes.take(8000)) + "... [truncated]"@
    } else {
        content
    }
}

/// The part of a file's text sent for analysis. The cut falls after the
/// 8000th byte, which must end a character (else the text cannot be cut
/// there).
pub fn analysis_excerpt(content: &str) -> (r: String)
    requires
        encode_utf8(content@).len() <= usize::MAX,
        encode_utf8(content@).len() <= 8000 || is_char_boundary(encode_utf8(content@), 8000),
    ensures
        r@ == excerpt_spec(content@),
{
    if content.len() > 8000 {
        let (head, _) = content.split_at(8000);
        proof {
            assert(encode_utf8(head@) =~= encode_utf8(content@).take(8000));
            encode_utf8_decode_utf8(head@);
            assert(encode_utf8(content@).len() > 8000);
            assert(decode_utf8(encode_utf8(content@).take(8000)) == head@);
        }
        String::from_str(head).concat("... [truncated]")
    } else {
        assert(encode_utf8(content@).len() <= 8000);
        String::from_str(content)
    }
}

/// The message that asks for a summary of a file.
pub fn analysis_prompt(path: &str, excerpt: &str) -> (r: String)
    ensures
        r@ == "Analyze this file and give a clear summary:\n\nFile: "@ + path@ + "\n\n"@ + excerpt@,
{
    String::from_str("Analyze this file and give a clear summary:\n\nFile: ").concat(path).concat(
        "\n\n",
    ).concat(excerpt)
}

/// The summary of an analysis answer, or a notice when it holds none.
pub fn summary_or_default(message: Option<String>) -> (r: String)
    ensures
        r@ == match message {
            Some(m) => m@,
            None => "No summary returned"@,
        },
{
    match message {
        Some(m) => m,
        None => String::from_str("No summary returned"),
    }
}

/// The folder into which `organize_files` moves the files with `extension`.
pub fn organized_folder(directory: &str, extension: &str) -> (r: String)
    ensures
        r@ == directory@ + "/"@ + extension@ + "_files"@,
{
    String::from_str(directory).concat("/").concat(extension).concat("_files")
}

/// Where a file lands in its folder.
pub fn path_in_folder(folder: &str, file_name: &str) -> (r: String)
    ensures
        r@ == folder@ + "/"@ + file_name@,
{
    String::from_str(folder).concat("/").concat(file_name)
}

/// The state of one live-notification socket.
#[derive(Clone, Copy, Debug, PartialEq, Eq, Structural)]
pub enum SocketState {
    /// A connection is being made.
    Connecting,
    /// The socket is open.
    Open,
    /// The socket is down; a new connection waits for the retry delay.
    Waiting,
}

/// What happened to a live-notification socket.
#[derive(Clone, Debug)]
pub enum SocketEvent {
    /// The connection was made.
    Connected,
    /// The connection could not be made.
    ConnectFailed,
    /// A text message arrived.
    Text(String),
    /// A message of another kind arrived.
    OtherMessage,
    /// The socket closed or failed.
    Closed,
    /// The keep-alive interval passed.
    PingDue,
    /// The retry delay passed.
    RetryDue,
}

/// What to do with a live-notification socket.
#[derive(Clone, Debug)]
pub enum SocketAction {
    /// Connect.
    Connect,
    /// Hand this text to the page under the socket's event name.
    Emit(String),
    /// Send this keep-alive message.
    SendPing(String),
    /// Wait this many milliseconds, then report `RetryDue`.
    WaitMs(u64),
    /// Nothing to do.
    Idle,
}

/// How often an open socket sends a keep-alive message, in milliseconds.
pub const WS_PING_INTERVAL_MS: u64 = 30000;

/// How long a socket that went down waits before connecting again, in
/// milliseconds.
pub const WS_RETRY_DELAY_MS: u64 = 5000;

/// One step of a live-notification socket: text messages are handed on, a
/// keep-alive `{"type":"ping"}` goes out when due, and a socket that fails to
/// connect or goes down connects again after the retry delay, for ever.
pub fn ws_step(state: SocketState, event: SocketEvent) -> (r: (SocketState, SocketAction))
    ensures
        match (state, event) {
            (SocketState::Connecting, SocketEvent::Connected) => r.0 == SocketState::Open
                && r.1 is Idle,
            (SocketState::Connecting, SocketEvent::ConnectFailed) => r.0 == SocketState::Waiting
                && r.1 == SocketAction::WaitMs(WS_RETRY_DELAY_MS),
            (SocketState::Open, SocketEvent::Text(t)) => {
                &&& r.0 == SocketState::Open
                &&& r.1 matches SocketAction::Emit(e)
                &&& e@ == t@
            },
            (SocketState::Open, SocketEvent::PingDue) => {
                &&& r.0 == SocketState::Open
                &&& r.1 matches SocketAction::SendPing(p)
                &&& p@ == "{\"type\":\"ping\"}"@
            },
            (SocketState::Open, SocketEvent::Closed) => r.0 == SocketState::Waiting && r.1
                == SocketAction::WaitMs(WS_RETRY_DELAY_MS),
            (SocketState::Waiting, SocketEvent::RetryDue) => r.0 == SocketState::Connecting
                && r.1 is Connect,
            (s, _) => r.0 == s && r.1 is Idle,
        },
{
    match (state, event) {
        (SocketState::Connecting, SocketEvent::Connected) => (SocketState::Open, SocketAction::Idle),
        (SocketState::Connecting, SocketEvent::ConnectFailed) => (
            SocketState::Waiting,
            SocketAction::WaitMs(WS_RETRY_DELAY_MS),
        ),
        (SocketState::Open, SocketEvent::Text(t)) => (SocketState::Open, SocketAction::Emit(t)),
        (SocketState::Open, SocketEvent::PingDue) => (
            SocketState::Open,
            SocketAction::SendPing(String::from_str("{\"type\":\"ping\"}")),
        ),
        (SocketState::Open, SocketEvent::Closed) => (
            SocketState::Waiting,
            SocketAction::WaitMs(WS_RETRY_DELAY_MS),
        ),
        (SocketState::Waiting, SocketEvent::RetryDue) => (SocketState::Connecting, SocketAction::Connect),
        (s, _) => (s, SocketAction::Idle),
    }
}

/// The credentials that the speech and voice-list commands send.
#[derive(Clone, Debug)]
pub struct SessionCredentials {
    pub access_token: String,
    pub tunnel_token: String,
    pub device_fingerprint: String,
}

/// The stored access token, tunnel token and device fingerprint; the first
/// of them that is missing is reported.
pub fn session_credentials(config: &AppConfig) -> (r: Result<SessionCredentials, String>)
    ensures
        match (config.neen_api.access_token, config.neen_api.tunnel_token, config.neen_api.device_fingerprint) {
            (None, _, _) => r matches Err(e) && e@ == "No JWT token available"@,
            (Some(_), None, _) => r matches Err(e) && e@ == "No tunnel token available"@,
            (Some(_), Some(_), None) => r matches Err(e) && e@ == "No device fingerprint available"@,
            (Some(a), Some(t), Some(f)) => r matches Ok(c) && c.access_token@ == a@
                && c.tunnel_token@ == t@ && c.device_fingerprint@ == f@,
        },
{
    let access_token = match &config.neen_api.access_token {
        Some(a) => a.clone(),
        None => {
            return Err(String::from_str("No JWT token available"));
        },
    };
    let tunnel_token = match &config.neen_api.tunnel_token {
        Some(t) => t.clone(),
        None => {
            return Err(String::from_str("No tunnel token available"));
        },
    };
    let device_fingerprint = match &config.neen_api.device_fingerprint {
        Some(f) => f.clone(),
        None => {
            return Err(String::from_str("No device fingerprint available"));
        },
    };
    Ok(SessionCredentials { access_token, tunnel_token, device_fingerprint })
}

/// The field `key` with the value `v`, when there is one.
pub open spec fn optional_field(key: Seq<char>, v: Option<String>) -> Seq<(Seq<char>, Seq<char>)> {
    match v {
        Some(x) => seq![(key, x@)],
        None => Seq::empty(),
    }
}

/// The fields of a WhatsApp reply: the phone number and the message, then
/// each optional field that is given.
pub open spec fn whatsapp_fields_spec(
    to_phone: Seq<char>,
    message: Seq<char>,
    to_name: Option<String>,
    account_id: Option<String>,
    entity_type: Option<String>,
    entity_id: Option<String>,
) -> Seq<(Seq<char>, Seq<char>)> {
    seq![("to_phone"@, to_phone), ("message"@, message)] + optional_field("to_name"@, to_name)
        + optional_field("account_id"@, account_id) + optional_field("entity_type"@, entity_type)
        + optional_field("entity_id"@, entity_id)
}

/// The views of a list of fields.
pub open spec fn fields_view(v: Seq<(String, String)>) -> Seq<(Seq<char>, Seq<char>)> {
    v.map_values(|f: (String, String)| (f.0@, f.1@))
}

fn push_optional(fields: &mut Vec<(String, String)>, key: &str, v: Option<String>)
    ensures
        fields_view(final(fields)@) == fields_view(old(fields)@) + optional_field(key@, v),
{
    let ghost before = fields@;
    if let Some(x) = v {
        fields.push((String::from_str(key), x));
        assert(fields_view(fields@) =~= fields_view(before) + optional_field(key@, v));
    } else {
        assert(fields_view(fields@) =~= fields_view(before) + optional_field(key@, v));
    }
}

/// The fields of the JSON body of a WhatsApp reply, in order.
pub fn whatsapp_payload_fields(
    to_phone: String,
    message: String,
    to_name: Option<String>,
    account_id: Option<String>,
    entity_type: Option<String>,
    entity_id: Option<String>,
) -> (r: Vec<(String, String)>)
    ensures
        fields_view(r@) == whatsapp_fields_spec(
            to_phone@,
            message@,
            to_name,
            account_id,
            entity_type,
            entity_id,
        ),
{
    let ghost (p, m) = (to_phone@, message@);
    let ghost (n, a, t, i) = (to_name, account_id, entity_type, entity_id);
    let mut fields: Vec<(String, String)> = Vec::new();
    fields.push((String::from_str("to_phone"), to_phone));
    fields.push((String::from_str("message"), message));
    assert(fields_view(fields@) =~= seq![("to_phone"@, p), ("message"@, m)]);
    push_optional(&mut fields, "to_name", to_name);
    push_optional(&mut fields, "account_id", account_id);
    push_optional(&mut fields, "entity_type", entity_type);
    push_optional(&mut fields, "entity_id", entity_id);
    assert(fields_view(fields@) =~= whatsapp_fields_spec(p, m, n, a, t, i));
    fields
}

/// The device fingerprint with which the agent logs in.
pub const LOGIN_FINGERPRINT: &'static str = "desktop_agent_fingerprint";

/// What the login flow waits for.
#[derive(Clone, Debug)]
pub enum LoginState {
    /// Nothing has been sent.
    Start,
    /// A tunnel was requested.
    AwaitingTunnel,
    /// The credentials were sent through `tunnel`.
    AwaitingLogin { tunnel: String },
    /// The tunnel upgrade was requested with the new access token.
    AwaitingUpgrade { tunnel: String, access: String, refresh: Option<String> },
    /// The configuration was requested, to store the tokens in it.
    AwaitingConfig { tunnel: String, access: String, refresh: Option<String> },
    /// The configuration with the tokens is being written.
    AwaitingSave,
    /// The flow has ended.
    Finished,
}

/// The tunnel service's answer.
#[derive(Clone, Debug)]
pub enum TunnelReply {
    /// The request failed, with this error.
    Unreachable(String),
    /// The answer was not JSON, with this error.
    Unreadable(String),
    /// The answer's `tunnel_token`, if it holds a string there.
    Answer(Option<String>),
}

/// The login service's answer.
#[derive(Clone, Debug)]
pub enum LoginReply {
    /// The request failed, with this error.
    Unreachable(String),
    /// The service answered with an error status.
    Refused,
    /// The answer was not JSON.
    Unreadable,
    /// The answer's `access` and `refresh` tokens, where it holds strings.
    Answer { access: Option<String>, refresh: Option<String> },
}

/// What happened since the last step of the login flow.
#[derive(Clone, Debug)]
pub enum LoginEvent {
    /// The flow begins.
    Begin,
    Tunnel(TunnelReply),
    Login(LoginReply),
    /// The upgraded tunnel token, when the upgrade answered with one.
    Upgrade(Option<String>),
    /// The stored configuration, or `None` when it could not be loaded.
    ConfigLoaded(Option<AppConfig>),
    /// The configuration was written (whether the write succeeded or not).
    Saved,
}

/// What the login flow asks the shell to do next.
#[derive(Debug)]
pub enum LoginAction {
    /// Request a tunnel for the device fingerprint.
    SendTunnelInit,
    /// Send the credentials through `tunnel`.
    SendLogin { tunnel: String },
    /// Upgrade `tunnel` with the access token.
    SendUpgrade { access: String, tunnel: String },
    /// Load the stored configuration.
    LoadConfig,
    /// Write this configuration.
    SaveConfig(AppConfig),
    /// End the login with this result: whether the user is logged in, or
    /// why the login could not be attempted.
    Finish(Result<bool, String>),
    /// The event does not belong to this state; nothing to do.
    Ignore,
}

/// `after` is `before` with the tokens of a login stored, as
/// `AppConfig::record_login` stores them.
pub open spec fn login_recorded(
    before: AppConfig,
    after: AppConfig,
    access: Seq<char>,
    refresh: Option<Seq<char>>,
    tunnel: Seq<char>,
    fingerprint: Seq<char>,
) -> bool {
    &&& opt_view(after.neen_api.access_token) == Some(access)
    &&& opt_view(after.neen_api.refresh_token) == match refresh {
        Some(t) => Some(t),
        None => opt_view(before.neen_api.refresh_token),
    }
    &&& opt_view(after.neen_api.tunnel_token) == Some(tunnel)
    &&& opt_view(after.neen_api.device_fingerprint) == Some(fingerprint)
    &&& same_api_endpoints(after.neen_api, before.neen_api)
    &&& same_but_api(after, before)
}

/// One step of the login flow: a tunnel is opened, the credentials are sent
/// through it, the tunnel is upgraded with the access token (the initial
/// tunnel token is kept when the upgrade yields none), and the tokens are
/// stored in the configuration. A failure to reach or read the tunnel
/// service, or to reach the login service, ends the login with an error; a
/// refused or unusable login, or a configuration that cannot be loaded, ends
/// it as not logged in.
pub fn login_step(state: LoginState, event: LoginEvent) -> (r: (LoginState, LoginAction))
    ensures
        match (state, event) {
            (LoginState::Start, LoginEvent::Begin) => {
                &&& r.0 is AwaitingTunnel
                &&& r.1 is SendTunnelInit
            },
            (LoginState::AwaitingTunnel, LoginEvent::Tunnel(TunnelReply::Unreachable(e))) => {
                &&& r.0 is Finished
                &&& r.1 matches LoginAction::Finish(Err(m))
                &&& m@ == "Tunnel init failed: "@ + e@
            },
            (LoginState::AwaitingTunnel, LoginEvent::Tunnel(TunnelReply::Unreadable(e))) => {
                &&& r.0 is Finished
                &&& r.1 matches LoginAction::Finish(Err(m))
                &&& m@ == "Failed to parse tunnel response: "@ + e@
            },
            (LoginState::AwaitingTunnel, LoginEvent::Tunnel(TunnelReply::Answer(None))) => {
                &&& r.0 is Finished
                &&& r.1 matches LoginAction::Finish(Err(m))
                &&& m@ == "No tunnel token received"@
            },
            (LoginState::AwaitingTunnel, LoginEvent::Tunnel(TunnelReply::Answer(Some(t)))) => {
                &&& r.0 matches LoginState::AwaitingLogin { tunnel: kept }
                &&& kept@ == t@
                &&& r.1 matches LoginAction::SendLogin { tunnel: sent }
                &&& sent@ == t@
            },
            (LoginState::AwaitingLogin { tunnel: _ }, LoginEvent::Login(LoginReply::Unreachable(e))) => {
                &&& r.0 is Finished
                &&& r.1 matches LoginAction::Finish(Err(m))
                &&& m@ == "Login request failed: "@ + e@
            },
            (LoginState::AwaitingLogin { tunnel: _ }, LoginEvent::Login(LoginReply::Refused)) => {
                &&& r.0 is Finished
                &&& r.1 matches LoginAction::Finish(Ok(false))
            },
            (LoginState::AwaitingLogin { tunnel: _ }, LoginEvent::Login(LoginReply::Unreadable)) => {
                &&& r.0 is Finished
                &&& r.1 matches LoginAction::Finish(Ok(false))
            },
            (
                LoginState::AwaitingLogin { tunnel: _ },
                LoginEvent::Login(LoginReply::Answer { access: None, refresh: _ }),
            ) => {
                &&& r.0 is Finished
                &&& r.1 matches LoginAction::Finish(Ok(false))
            },
            (
                LoginState::AwaitingLogin { tunnel: t },
                LoginEvent::Login(LoginReply::Answer { access: Some(a), refresh: rf }),
            ) => {
                &&& r.0 matches LoginState::AwaitingUpgrade { tunnel: t2, access: a2, refresh: rf2 }
                &&& t2@ == t@
                &&& a2@ == a@
                &&& opt_view(rf2) == opt_view(rf)
                &&& r.1 matches LoginAction::SendUpgrade { access: a3, tunnel: t3 }
                &&& a3@ == a@
                &&& t3@ == t@
            },
            (
                LoginState::AwaitingUpgrade { tunnel: t, access: a, refresh: rf },
                LoginEvent::Upgrade(u),
            ) => {
                &&& r.0 matches LoginState::AwaitingConfig { tunnel: t2, access: a2, refresh: rf2 }
                &&& t2@ == match u {
                    Some(v) => v@,
                    None => t@,
                }
                &&& a2@ == a@
                &&& opt_view(rf2) == opt_view(rf)
                &&& r.1 is LoadConfig
            },
            (
                LoginState::AwaitingConfig { tunnel: _, access: _, refresh: _ },
                LoginEvent::ConfigLoaded(None),
            ) => {
                &&& r.0 is Finished
                &&& r.1 matches LoginAction::Finish(Ok(false))
            },
            (
                LoginState::AwaitingConfig { tunnel: t, access: a, refresh: rf },
                LoginEvent::ConfigLoaded(Some(c)),
            ) => {
                &&& r.0 is AwaitingSave
                &&& r.1 matches LoginAction::SaveConfig(saved)
                &&& login_recorded(c, saved, a@, opt_view(rf), t@, LOGIN_FINGERPRINT@)
            },
            (LoginState::AwaitingSave, LoginEvent::Saved) => {
                &&& r.0 is Finished
                &&& r.1 matches LoginAction::Finish(Ok(true))
            },
            (s, _) => {
                &&& r.0 == s
                &&& r.1 is Ignore
            },
        },
{
    match (state, event) {
        (LoginState::Start, LoginEvent::Begin) => (LoginState::AwaitingTunnel, LoginAction::SendTunnelInit),
        (LoginState::AwaitingTunnel, LoginEvent::Tunnel(reply)) => match reply {
            TunnelReply::Unreachable(e) => (
                LoginState::Finished,
                LoginAction::Finish(Err(String::from_str("Tunnel init failed: ").concat(e.as_str()))),
            ),
            TunnelReply::Unreadable(e) => (
                LoginState::Finished,
                LoginAction::Finish(
                    Err(String::from_str("Failed to parse tunnel response: ").concat(e.as_str())),
                ),
            ),
            TunnelReply::Answer(None) => (
                LoginState::Finished,
                LoginAction::Finish(Err(String::from_str("No tunnel token received"))),
            ),
            TunnelReply::Answer(Some(t)) => {
                let sent = t.clone();
                (LoginState::AwaitingLogin { tunnel: t }, LoginAction::SendLogin { tunnel: sent })
            },
        },
        (LoginState::AwaitingLogin { tunnel }, LoginEvent::Login(reply)) => match reply {
            LoginReply::Unreachable(e) => (
                LoginState::Finished,
                LoginAction::Finish(Err(String::from_str("Login request failed: ").concat(e.as_str()))),
            ),
            LoginReply::Refused => (LoginState::Finished, LoginAction::Finish(Ok(false))),
            LoginReply::Unreadable => (LoginState::Finished, LoginAction::Finish(Ok(false))),
            LoginReply::Answer { access: None, refresh: _ } => (
                LoginState::Finished,
                LoginAction::Finish(Ok(false)),
            ),
            LoginReply::Answer { access: Some(a), refresh } => {
                let sent_access = a.clone();
                let sent_tunnel = tunnel.clone();
                (
                    LoginState::AwaitingUpgrade { tunnel, access: a, refresh },
                    LoginAction::SendUpgrade { access: sent_access, tunnel: sent_tunnel },
                )
            },
        },
        (LoginState::AwaitingUpgrade { tunnel, access, refresh }, LoginEvent::Upgrade(u)) => {
            let kept = final_tunnel_token(u, tunnel.as_str());
            (LoginState::AwaitingConfig { tunnel: kept, access, refresh }, LoginAction::LoadConfig)
        },
        (LoginState::AwaitingConfig { tunnel, access, refresh }, LoginEvent::ConfigLoaded(loaded)) => {
            match loaded {
                None => (LoginState::Finished, LoginAction::Finish(Ok(false))),
                Some(c) => {
                    let mut saved = c;
                    saved.record_login(
                        access,
                        refresh,
                        tunnel,
                        String::from_str(LOGIN_FINGERPRINT),
                    );
                    (LoginState::AwaitingSave, LoginAction::SaveConfig(saved))
                },
            }
        },
        (LoginState::AwaitingSave, LoginEvent::Saved) => (LoginState::Finished, LoginAction::Finish(Ok(true))),
        (s, _) => (s, LoginAction::Ignore),
    }
}

/// Law: when the chat service cannot be reached, a message that mentions
/// leads (in any letter case) gets the leads reply, whatever greeting or
/// request for help it also holds.
pub proof fn law_leads_reply_first(message: Seq<char>)
    requires
        has_substring(unicode_lowercase(message), "lead"@),
    ensures
        fallback_reply_spec(message)
            == "I can help you manage leads. What specific information do you need?"@,
{
}

/// Law: a message that does not mention leads but greets ("hello" or "hi")
/// gets the greeting, and one that does neither but asks for help gets the
/// help reply.
pub proof fn law_greeting_and_help_replies(message: Seq<char>)
    requires
        !has_substring(unicode_lowercase(message), "lead"@),
    ensures
        has_substring(unicode_lowercase(message), "hello"@) || has_substring(
            unicode_lowercase(message),
            "hi"@,
        ) ==> fallback_reply_spec(message)
            == "Hello! I'm your NeeN AI assistant. How can I help you today?"@,
        !has_substring(unicode_lowercase(message), "hello"@) && !has_substring(
            unicode_lowercase(message),
            "hi"@,
        ) && has_substring(unicode_lowercase(message), "help"@) ==> fallback_reply_spec(message)
            == "I can assist you with leads, CRM tasks, and business operations. What do you need help with?"@,
{
}

} // verus!
