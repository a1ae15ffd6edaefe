//! The assistant's decisions around the NeeN API: conversation bookkeeping,
//! the requests it builds, the prompts it writes, how a command falls back
//! from the authenticated chat to the public one, and which action an
//! answer carries.

use vstd::prelude::*;
use vstd::utf8::is_ascii_chars;
use crate::config::AppConfig;
use crate::keyed::{key_at, keyed_map, keys_distinct, lemma_keyed_at, lemma_keyed_push, lemma_keyed_update};
use crate::neen_api::{ChatRequest, ChatResponse, TtsRequest, VoiceRequest, VoiceResponse};
use crate::text::{opt_view, same_text};

verus! {

/// The actions the assistant may report along with an answer.
#[derive(Clone, Copy, Debug, PartialEq, Eq, Structural)]
pub enum AiActionKind {
    CreateLead,
    ListLeads,
    SendWhatsapp,
    CreateActivity,
    Unknown,
}

/// The action an action type names.
pub open spec fn action_kind_spec(t: Seq<char>) -> AiActionKind {
    if t == "create_lead"@ {
        AiActionKind::CreateLead
    } else if t == "list_leads"@ {
        AiActionKind::ListLeads
    } else if t == "send_whatsapp"@ {
        AiActionKind::SendWhatsapp
    } else if t == "create_activity"@ {
        AiActionKind::CreateActivity
    } else {
        AiActionKind::Unknown
    }
}

/// The action an action type names.
pub fn ai_action_kind(action_type: &str) -> (r: AiActionKind)
    ensures
        r == action_kind_spec(action_type@),
{
    if same_text(action_type, "create_lead") {
        AiActionKind::CreateLead
    } else if same_text(action_type, "list_leads") {
        AiActionKind::ListLeads
    } else if same_text(action_type, "send_whatsapp") {
        AiActionKind::SendWhatsapp
    } else if same_text(action_type, "create_activity") {
        AiActionKind::CreateActivity
    } else {
        AiActionKind::Unknown
    }
}

/// What to do after the authenticated chat has been tried.
#[derive(Clone, Debug)]
pub enum AfterChat {
    /// Answer with `message`, after handling the reported action, if any.
    Reply { message: String, action: Option<AiActionKind> },
    /// Try the public chat with `message`.
    TryPublicChat { message: String },
}

/// The session of a recorded entry.
pub open spec fn session_of() -> spec_fn((String, String)) -> Seq<char> {
    |e: (String, String)| e.0@
}

/// The conversation of a recorded entry.
pub open spec fn conversation_of() -> spec_fn((String, String)) -> Seq<char> {
    |e: (String, String)| e.1@
}

/// No session occurs twice.
pub open spec fn sessions_distinct(s: Seq<(String, String)>) -> bool {
    keys_distinct(s, session_of())
}

/// The conversations, keyed by session.
pub open spec fn session_map(s: Seq<(String, String)>) -> Map<Seq<char>, Seq<char>> {
    keyed_map(s, session_of(), conversation_of())
}

/// The assistant: its configuration and the conversation of each session.
#[derive(Clone, Debug)]
pub struct AIEngine {
    config: AppConfig,
    active_conversations: Vec<(String, String)>,
}

impl AIEngine {
    /// The configuration.
    pub closed spec fn config(&self) -> AppConfig {
        self.config
    }

    /// The conversation of each session.
    pub closed spec fn conversations(&self) -> Map<Seq<char>, Seq<char>> {
        session_map(self.active_conversations@)
    }

    /// No session is recorded twice.
    pub closed spec fn well_formed(&self) -> bool {
        sessions_distinct(self.active_conversations@)
    }

    /// An assistant with `config` and no conversation.
    pub fn new(config: AppConfig) -> (e: Self)
        ensures
            e.well_formed(),
            e.config() == config,
            e.conversations() == Map::<Seq<char>, Seq<char>>::empty(),
    {
        let e = AIEngine { config, active_conversations: Vec::new() };
        assert(e.conversations() =~= Map::<Seq<char>, Seq<char>>::empty());
        e
    }

    fn find_session(&self, session_id: &str) -> (r: Option<usize>)
        requires
            self.well_formed(),
        ensures
            match r {
                Some(i) => i < self.active_conversations@.len() && key_at(self.active_conversations@, session_of(), i as int) == session_id@ && self.conversations().contains_key(session_id@)
                    && self.conversations()[session_id@] == self.active_conversations@[i as int].1@,
                None => !self.conversations().contains_key(session_id@),
            },
    {
        let n = self.active_conversations.len();
        let mut i: usize = 0;
        while i < n
            invariant
                i <= n,
                n == self.active_conversations@.len(),
                self.well_formed(),
                forall|j: int|
                    0 <= j < i ==> #[trigger] key_at(self.active_conversations@, session_of(), j)
                        != session_id@,
            decreases n - i,
        {
            if same_text(self.active_conversations[i].0.as_str(), session_id) {
                proof {
                    lemma_keyed_at(self.active_conversations@, session_of(), conversation_of(), i as int);
                }
                return Some(i);
            }
            i += 1;
        }
        None
    }

    /// The conversation recorded for `session_id`, if any.
    pub fn get_conversation_id(&self, session_id: &str) -> (r: Option<String>)
        requires
            self.well_formed(),
        ensures
            opt_view(r) == if self.conversations().contains_key(session_id@) {
                Some(self.conversations()[session_id@])
            } else {
                None
            },
    {
        match self.find_session(session_id) {
            Some(i) => Some(self.active_conversations[i].1.clone()),
            None => None,
        }
    }

    /// Records `conversation_id` as the conversation of `session_id`,
    /// replacing an earlier one.
    pub fn set_conversation_id(&mut self, session_id: String, conversation_id: String)
        requires
            old(self).well_formed(),
        ensures
            final(self).well_formed(),
            final(self).conversations() == old(self).conversations().insert(
                session_id@,
                conversation_id@,
            ),
            final(self).config() == old(self).config(),
    {
        match self.find_session(session_id.as_str()) {
            Some(i) => {
                let e = (session_id, conversation_id);
                proof {
                    lemma_keyed_update(self.active_conversations@, session_of(), conversation_of(), i as int, e);
                }
                self.active_conversations.set(i, e);
            },
            None => {
                let e = (session_id, conversation_id);
                proof {
                    lemma_keyed_push(self.active_conversations@, session_of(), conversation_of(), e);
                }
                self.active_conversations.push(e);
            },
        }
    }

    /// The chat request for a command: a new conversation with the
    /// `openai/gpt-4o-mini` model.
    pub fn chat_request_for(&self, command: &str) -> (r: ChatRequest)
        ensures
            r.message@ == command@,
            r.conversation_id is None,
            opt_view(r.model) == Some("openai/gpt-4o-mini"@),
    {
        ChatRequest {
            message: String::from_str(command),
            conversation_id: None,
            model: Some(String::from_str("openai/gpt-4o-mini")),
        }
    }

    /// The decision after the authenticated chat: its answer, with the
    /// action it reports, or, on failure, a try of the public chat with the
    /// same command.
    pub fn after_chat(&self, command: &str, outcome: Result<ChatResponse, String>) -> (r: AfterChat)
        ensures
            match outcome {
                Ok(resp) => r matches AfterChat::Reply { message, action } && message@
                    == resp.message@ && action == match resp.action {
                    Some(a) => Some(action_kind_spec(a.action_type@)),
                    None => None,
                },
                Err(_) => r matches AfterChat::TryPublicChat { message } && message@ == command@,
            },
    {
        match outcome {
            Ok(resp) => {
                let action = match &resp.action {
                    Some(a) => Some(ai_action_kind(a.action_type.as_str())),
                    None => None,
                };
                AfterChat::Reply { message: resp.message, action }
            },
            Err(_) => AfterChat::TryPublicChat { message: String::from_str(command) },
        }
    }

    /// The outcome of a command after the public chat was tried: its answer,
    /// or an error that reports both failures.
    pub fn after_public_chat(&self, chat_error: &str, outcome: Result<ChatResponse, String>) -> (r: Result<String, String>)
        ensures
            match outcome {
                Ok(resp) => r matches Ok(m) && m@ == resp.message@,
                Err(e2) => r matches Err(m) && m@ == "Both APIs failed: "@ + chat_error@ + " | "@
                    + e2@,
            },
    {
        match outcome {
            Ok(resp) => Ok(resp.message),
            Err(e2) => Err(
                String::from_str("Both APIs failed: ").concat(chat_error).concat(" | ").concat(
                    e2.as_str(),
                ),
            ),
        }
    }

    /// The voice-agent request for recorded audio: 16 kHz LINEAR16 audio in
    /// Base64, the configured language and voice, a JSON answer.
    pub fn voice_request_for(&self, audio_data: &[u8]) -> (r: VoiceRequest)
        requires
            base64_len(audio_data@.len()) <= usize::MAX,
        ensures
            r.text is None,
            opt_view(r.audio) == Some(base64_standard(audio_data@)),
            opt_view(r.encoding) == Some("LINEAR16"@),
            r.sample_rate == Some(16000u32),
            opt_view(r.language) == Some(self.config().voice.language@),
            opt_view(r.voice) == Some(self.config().voice.voice_id@),
            r.session_id is None,
            r.return_json == Some(true),
    {
        VoiceRequest {
            text: None,
            audio: Some(encode_base64(audio_data)),
            encoding: Some(String::from_str("LINEAR16")),
            sample_rate: Some(16000),
            language: Some(self.config.voice.language.clone()),
            voice: Some(self.config.voice.voice_id.clone()),
            session_id: None,
            return_json: Some(true),
        }
    }

    /// The audio of a voice-agent answer: the decoded Base64 audio when the
    /// answer carries some (`Ok(None)` when it carries none and speech must
    /// be synthesized), `Err` when that audio is not valid Base64.
    pub fn voice_reply_audio(&self, response: &VoiceResponse) -> (r: Result<Option<Vec<u8>>, ()>)
        ensures
            match response.audio_base64 {
                None => r matches Ok(None),
                Some(b) => if is_base64_text(b@) {
                    r matches Ok(Some(v)) && base64_standard(v@) == b@
                } else {
                    r is Err
                },
            },
    {
        match &response.audio_base64 {
            None => Ok(None),
            Some(b) => match decode_base64(b.as_str()) {
                Ok(bytes) => Ok(Some(bytes)),
                Err(_) => Err(()),
            },
        }
    }

    /// The speech-synthesis request for `text` with the configured voice and
    /// speed.
    pub fn tts_request_for(&self, text: &str) -> (r: TtsRequest)
        ensures
            r.text@ == text@,
            opt_view(r.voice) == Some(self.config().voice.voice_id@),
            r.speed_percent == Some(self.config().voice.speed_percent),
    {
        TtsRequest {
            text: String::from_str(text),
            voice: Some(self.config.voice.voice_id.clone()),
            speed_percent: Some(self.config.voice.speed_percent),
        }
    }

    /// The prompt that asks for an analysis of the screen; it quotes the
    /// first 100 Base64 characters of the screen data.
    pub fn screen_context_prompt(&self, screen_data: &[u8]) -> (r: String)
        requires
            screen_data@.len() >= 73,
            base64_len(screen_data@.len()) <= usize::MAX,
        ensures
            r@ == "I'm looking at this screen. Please analyze what's visible and suggest relevant actions. Screen data: "@
                + base64_standard(screen_data@).take(100),
    {
        let encoded = encode_base64(screen_data);
        proof {
            assert(base64_len(screen_data@.len()) >= 100);
        }
        let head = encoded.as_str().substring_ascii(0, 100);
        String::from_str(
            "I'm looking at this screen. Please analyze what's visible and suggest relevant actions. Screen data: ",
        ).concat(head)
    }

    /// The prompt that asks for a reply to a notification.
    pub fn notification_reply_prompt(&self, notification_content: &str, sender: &str) -> (r: String)
        ensures
            r@ == "Generate an appropriate reply to this notification from "@ + sender@
                + ". Content: '"@ + notification_content@
                + "'. Keep it professional and helpful. If it's a lead inquiry, capture the lead information."@,
    {
        String::from_str("Generate an appropriate reply to this notification from ").concat(
            sender,
        ).concat(". Content: '").concat(notification_content).concat(
            "'. Keep it professional and helpful. If it's a lead inquiry, capture the lead information.",
        )
    }

    /// The prompt that asks how to carry out a system command.
    pub fn system_command_prompt(&self, command: &str) -> (r: String)
        ensures
            r@ == "Execute this system command: '"@ + command@
                + "'. If this involves file operations, CRM actions, or application control, provide specific instructions for the system to execute."@,
    {
        String::from_str("Execute this system command: '").concat(command).concat(
            "'. If this involves file operations, CRM actions, or application control, provide specific instructions for the system to execute.",
        )
    }
}

/// The length of the padded Base64 encoding of `n` bytes.
pub open spec fn base64_len(n: nat) -> nat {
    4 * ((n + 2) / 3)
}

/// The digit of the standard Base64 alphabet for the six-bit value `v`:
/// `A`-`Z`, `a`-`z`, `0`-`9`, `+`, `/`.
pub open spec fn base64_digit(v: int) -> char {
    if v < 26 {
        ('A' as int + v) as char
    } else if v < 52 {
        ('a' as int + (v - 26)) as char
    } else if v < 62 {
        ('0' as int + (v - 52)) as char
    } else if v == 62 {
        '+'
    } else {
        '/'
    }
}

/// Standard Base64 with padding: each group of three bytes becomes four
/// digits of six bits each; a last group of two bytes becomes three digits
/// and `=`, a last single byte two digits and `==`.
pub open spec fn base64_standard(bytes: Seq<u8>) -> Seq<char>
    decreases bytes.len(),
{
    if bytes.len() == 0 {
        Seq::empty()
    } else if bytes.len() == 1 {
        let a = bytes[0] as int;
        seq![base64_digit(a / 4), base64_digit((a % 4) * 16), '=', '=']
    } else if bytes.len() == 2 {
        let a = bytes[0] as int;
        let b = bytes[1] as int;
        seq![base64_digit(a / 4), base64_digit((a % 4) * 16 + b / 16), base64_digit((b % 16) * 4), '=']
    } else {
        let a = bytes[0] as int;
        let b = bytes[1] as int;
        let c = bytes[2] as int;
        seq![
            base64_digit(a / 4),
            base64_digit((a % 4) * 16 + b / 16),
            base64_digit((b % 16) * 4 + c / 64),
            base64_digit(c % 64),
        ] + base64_standard(bytes.skip(3))
    }
}

/// `text` is the standard padded Base64 of some bytes.
pub open spec fn is_base64_text(text: Seq<char>) -> bool {
    exists|bytes: Seq<u8>| #[trigger] base64_standard(bytes) == text
}

/// Encodes with `base64::engine::general_purpose::STANDARD.encode`: the
/// standard alphabet with padding, as `base64_standard` states it, whose
/// length is the padded length (`encoded_len`) and whose characters are
/// ASCII. `encode` panics when that length does not fit in `usize`, which
/// `requires` rules out.
#[verifier::external_body]
fn encode_base64(bytes: &[u8]) -> (r: String)
    requires
        base64_len(bytes@.len()) <= usize::MAX,
    ensures
        r@ == base64_standard(bytes@),
        r@.len() == base64_len(bytes@.len()),
        is_ascii_chars(r@),
{
    base64::Engine::encode(&base64::engine::general_purpose::STANDARD, bytes)
}

#[verifier::external_type_specification]
#[verifier::external_body]
pub struct ExDecodeError(base64::DecodeError);

/// Decodes with `base64::engine::general_purpose::STANDARD.decode`. That
/// engine (config `PAD`) requires canonical padding and rejects non-zero
/// trailing bits, so it accepts exactly the texts that its encoder writes,
/// and gives back the bytes that were encoded.
#[verifier::external_body]
fn decode_base64(text: &str) -> (r: Result<Vec<u8>, base64::DecodeError>)
    ensures
        match r {
            Ok(bytes) => base64_standard(bytes@) == text@,
            Err(_) => !is_base64_text(text@),
        },
{
    base64::Engine::decode(&base64::engine::general_purpose::STANDARD, text)
}

/// The Base64 text (standard alphabet, padded) in which binary data, such
/// as a screenshot or synthesized speech, is handed to the desktop shell.
pub fn base64_text(bytes: &[u8]) -> (r: String)
    requires
        base64_len(bytes@.len()) <= usize::MAX,
    ensures
        r@ == base64_standard(bytes@),
        r@.len() == base64_len(bytes@.len()),
{
    encode_base64(bytes)
}

/// The bytes of Base64 text received from the desktop shell, or the
/// decoder's error when the text is not valid Base64.
pub fn bytes_of_base64(text: &str) -> (r: Result<Vec<u8>, base64::DecodeError>)
    ensures
        match r {
            Ok(bytes) => base64_standard(bytes@) == text@,
            Err(_) => !is_base64_text(text@),
        },
{
    decode_base64(text)
}

/// Law: the conversation recorded last for a session is the one read back,
/// and recording it leaves every other session's conversation as it was.
pub proof fn law_conversation_read_after_write(
    before: AIEngine,
    after: AIEngine,
    session: Seq<char>,
    conversation: Seq<char>,
    other: Seq<char>,
)
    requires
        after.conversations() == before.conversations().insert(session, conversation),
        other != session,
    ensures
        after.conversations().contains_key(session),
        after.conversations()[session] == conversation,
        after.conversations().contains_key(other) == before.conversations().contains_key(other),
        before.conversations().contains_key(other) ==> after.conversations()[other]
            == before.conversations()[other],
{
}

/// The conversation that `writes` record last for `session`, if any.
pub open spec fn last_written(writes: Seq<(Seq<char>, Seq<char>)>, session: Seq<char>) -> Option<
    Seq<char>,
>
    decreases writes.len(),
{
    if writes.len() == 0 {
        None
    } else if writes.last().0 == session {
        Some(writes.last().1)
    } else {
        last_written(writes.drop_last(), session)
    }
}

/// Law: after any run of `set_conversation_id` calls (the `i`-th records
/// `writes[i]` and takes `engines[i]` to `engines[i + 1]`), a session reads
/// back the conversation recorded for it last; one that the run never
/// recorded reads back what it read before the run.
pub proof fn law_conversations_after_writes(
    engines: Seq<AIEngine>,
    writes: Seq<(Seq<char>, Seq<char>)>,
    session: Seq<char>,
)
    requires
        engines.len() == writes.len() + 1,
        forall|i: int|
            0 <= i < writes.len() ==> engines[i + 1].conversations() == engines[i].conversations().insert(
                #[trigger] writes[i].0,
                writes[i].1,
            ),
    ensures
        engines.last().conversations().contains_key(session) == (last_written(writes, session) is Some
            || engines[0].conversations().contains_key(session)),
        engines.last().conversations().contains_key(session) ==> engines.last().conversations()[session]
            == match last_written(writes, session) {
            Some(c) => c,
            None => engines[0].conversations()[session],
        },
    decreases writes.len(),
{
    if writes.len() > 0 {
        let n = writes.len() - 1;
        let es = engines.drop_last();
        let ws = writes.drop_last();
        assert forall|i: int| 0 <= i < ws.len() implies es[i + 1].conversations()
            == es[i].conversations().insert(#[trigger] ws[i].0, ws[i].1) by {
            assert(ws[i] == writes[i]);
            assert(es[i + 1] == engines[i + 1]);
            assert(es[i] == engines[i]);
        }
        law_conversations_after_writes(es, ws, session);
        assert(es.last() == engines[n]);
        assert(engines.last() == engines[n + 1]);
        assert(writes[n] == writes.last());
        assert(es[0] == engines[0]);
    }
}

} // verus!
