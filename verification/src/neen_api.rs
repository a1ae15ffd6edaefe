//! The NeeN API as the agent addresses it: request and response bodies,
//! which endpoint and which credentials each call uses, and the errors
//! reported when a call fails.

use vstd::prelude::*;
use crate::config::NeenApiConfig;
use crate::text::{clone_opt, opt_view};

verus! {

/// A chat request.
#[derive(Clone, Debug)]
pub struct ChatRequest {
    pub message: String,
    pub conversation_id: Option<String>,
    pub model: Option<String>,
}

/// An action that the assistant took along with its answer. `data` is the
/// action's JSON payload, as text.
#[derive(Clone, Debug)]
pub struct ActionResponse {
    pub action_type: String,
    pub data: Option<String>,
}

/// A chat answer. `action_result` is the JSON result of the action, as text.
#[derive(Clone, Debug)]
pub struct ChatResponse {
    pub conversation_id: String,
    pub message: String,
    pub action: Option<ActionResponse>,
    pub action_result: Option<String>,
}

/// A voice-agent request: recorded audio (Base64) or text.
#[derive(Clone, Debug)]
pub struct VoiceRequest {
    pub text: Option<String>,
    pub audio: Option<String>,
    pub encoding: Option<String>,
    pub sample_rate: Option<u32>,
    pub language: Option<String>,
    pub voice: Option<String>,
    pub session_id: Option<String>,
    pub return_json: Option<bool>,
}

/// The parts of a voice-agent answer that the agent uses.
#[derive(Clone, Debug)]
pub struct VoiceResponse {
    pub success: bool,
    pub transcript: Option<String>,
    pub response_text: String,
    pub audio_base64: Option<String>,
    pub session_id: String,
    pub voice: String,
    pub language: String,
}

/// A speech-synthesis request. `speed_percent` is the speed in hundredths
/// of the normal speed.
#[derive(Clone, Debug)]
pub struct TtsRequest {
    pub text: String,
    pub voice: Option<String>,
    pub speed_percent: Option<u32>,
}

/// The credentials sent with a request.
#[derive(Clone, Debug)]
pub enum AuthHeader {
    /// `Authorization: Bearer <token>`.
    Bearer(String),
    /// `X-AI-Access-Key: <key>`.
    AccessKey(String),
    /// No credentials.
    NoAuth,
}

/// The mathematical value of an `AuthHeader`.
pub enum AuthView {
    Bearer(Seq<char>),
    AccessKey(Seq<char>),
    NoAuth,
}

impl View for AuthHeader {
    type V = AuthView;

    open spec fn view(&self) -> AuthView {
        match self {
            AuthHeader::Bearer(t) => AuthView::Bearer(t@),
            AuthHeader::AccessKey(k) => AuthView::AccessKey(k@),
            AuthHeader::NoAuth => AuthView::NoAuth,
        }
    }
}

/// Where a request goes and with which credentials.
#[derive(Clone, Debug)]
pub struct RequestPlan {
    pub url: String,
    pub auth: AuthHeader,
}

/// A failed API call.
#[derive(Clone, Debug)]
pub enum ApiError {
    Chat(String),
    PublicChat(String),
    Voice(String),
    Tts(String),
    TokenRefresh(String),
    NoRefreshToken,
}

/// The mathematical value of an `ApiError`.
pub enum ApiErrorView {
    Chat(Seq<char>),
    PublicChat(Seq<char>),
    Voice(Seq<char>),
    Tts(Seq<char>),
    TokenRefresh(Seq<char>),
    NoRefreshToken,
}

impl View for ApiError {
    type V = ApiErrorView;

    open spec fn view(&self) -> ApiErrorView {
        match self {
            ApiError::Chat(s) => ApiErrorView::Chat(s@),
            ApiError::PublicChat(s) => ApiErrorView::PublicChat(s@),
            ApiError::Voice(s) => ApiErrorView::Voice(s@),
            ApiError::Tts(s) => ApiErrorView::Tts(s@),
            ApiError::TokenRefresh(s) => ApiErrorView::TokenRefresh(s@),
            ApiError::NoRefreshToken => ApiErrorView::NoRefreshToken,
        }
    }
}

/// The text with which an API error is reported; the server's error body
/// follows the prefix.
pub open spec fn api_error_text(e: ApiErrorView) -> Seq<char> {
    match e {
        ApiErrorView::Chat(s) => "Chat API error: "@ + s,
        ApiErrorView::PublicChat(s) => "Public chat API error: "@ + s,
        ApiErrorView::Voice(s) => "Voice API error: "@ + s,
        ApiErrorView::Tts(s) => "TTS API error: "@ + s,
        ApiErrorView::TokenRefresh(s) => "Token refresh error: "@ + s,
        ApiErrorView::NoRefreshToken => "No refresh token available"@,
    }
}

impl ApiError {
    /// The text with which the error is reported.
    pub fn message(&self) -> (r: String)
        ensures
            r@ == api_error_text(self@),
    {
        match self {
            ApiError::Chat(s) => String::from_str("Chat API error: ").concat(s.as_str()),
            ApiError::PublicChat(s) => String::from_str("Public chat API error: ").concat(
                s.as_str(),
            ),
            ApiError::Voice(s) => String::from_str("Voice API error: ").concat(s.as_str()),
            ApiError::Tts(s) => String::from_str("TTS API error: ").concat(s.as_str()),
            ApiError::TokenRefresh(s) => String::from_str("Token refresh error: ").concat(
                s.as_str(),
            ),
            ApiError::NoRefreshToken => String::from_str("No refresh token available"),
        }
    }
}

/// The credentials of an optional bearer token.
pub open spec fn bearer_or_none(token: Option<Seq<char>>) -> AuthView {
    match token {
        Some(t) => AuthView::Bearer(t),
        None => AuthView::NoAuth,
    }
}

/// The credentials of an optional access key.
pub open spec fn access_key_or_none(key: Option<Seq<char>>) -> AuthView {
    match key {
        Some(k) => AuthView::AccessKey(k),
        None => AuthView::NoAuth,
    }
}

/// The client's routing decisions for a configuration.
#[derive(Clone, Debug)]
pub struct NeenApiClient {
    config: NeenApiConfig,
}

impl NeenApiClient {
    /// The configuration the client works with.
    pub closed spec fn config(&self) -> NeenApiConfig {
        self.config
    }

    /// A client for `config`.
    pub fn new(config: NeenApiConfig) -> (c: Self)
        ensures
            c.config() == config,
    {
        NeenApiClient { config }
    }

    fn url(&self, path: &str) -> (r: String)
        ensures
            r@ == self.config().base_url@ + path@,
    {
        self.config.base_url.clone().concat(path)
    }

    fn bearer(&self) -> (r: AuthHeader)
        ensures
            r@ == bearer_or_none(opt_view(self.config().access_token)),
    {
        match &self.config.access_token {
            Some(t) => AuthHeader::Bearer(t.clone()),
            None => AuthHeader::NoAuth,
        }
    }

    fn access_key(&self) -> (r: AuthHeader)
        ensures
            r@ == access_key_or_none(opt_view(self.config().ai_access_key)),
    {
        match &self.config.ai_access_key {
            Some(k) => AuthHeader::AccessKey(k.clone()),
            None => AuthHeader::NoAuth,
        }
    }

    /// The authenticated chat: `/ai/chat/`, with the access token.
    pub fn chat_plan(&self) -> (r: RequestPlan)
        ensures
            r.url@ == self.config().base_url@ + "/ai/chat/"@,
            r.auth@ == bearer_or_none(opt_view(self.config().access_token)),
    {
        RequestPlan { url: self.url("/ai/chat/"), auth: self.bearer() }
    }

    /// The public chat: `/ai/public/chat/`, with the AI access key.
    pub fn public_chat_plan(&self) -> (r: RequestPlan)
        ensures
            r.url@ == self.config().base_url@ + "/ai/public/chat/"@,
            r.auth@ == access_key_or_none(opt_view(self.config().ai_access_key)),
    {
        RequestPlan { url: self.url("/ai/public/chat/"), auth: self.access_key() }
    }

    /// The voice agent: `/voice-agent/process/`, with the AI access key.
    pub fn voice_plan(&self) -> (r: RequestPlan)
        ensures
            r.url@ == self.config().base_url@ + "/voice-agent/process/"@,
            r.auth@ == access_key_or_none(opt_view(self.config().ai_access_key)),
    {
        RequestPlan { url: self.url("/voice-agent/process/"), auth: self.access_key() }
    }

    /// Speech synthesis: the authenticated endpoint with the access token
    /// when there is one, else the public endpoint with the AI access key.
    pub fn tts_plan(&self) -> (r: RequestPlan)
        ensures
            match self.config().access_token {
                Some(t) => r.url@ == self.config().base_url@ + "/tts/synthesize/"@ && r.auth@
                    == AuthView::Bearer(t@),
                None => r.url@ == self.config().base_url@ + "/tts/public/synthesize/"@ && r.auth@
                    == access_key_or_none(opt_view(self.config().ai_access_key)),
            },
    {
        match &self.config.access_token {
            Some(t) => RequestPlan {
                url: self.url("/tts/synthesize/"),
                auth: AuthHeader::Bearer(t.clone()),
            },
            None => RequestPlan { url: self.url("/tts/public/synthesize/"), auth: self.access_key() },
        }
    }

    /// The token refresh: `/auth/token/refresh/` with the refresh token as
    /// body; refused when no refresh token is stored.
    pub fn refresh_plan(&self) -> (r: Result<(RequestPlan, String), ApiError>)
        ensures
            match r {
                Ok((plan, token)) => self.config().refresh_token matches Some(t) && token@ == t@
                    && plan.url@ == self.config().base_url@ + "/auth/token/refresh/"@
                    && plan.auth@ == AuthView::NoAuth,
                Err(e) => self.config().refresh_token is None && e@ == ApiErrorView::NoRefreshToken,
            },
    {
        match &self.config.refresh_token {
            Some(t) => Ok(
                (
                    RequestPlan { url: self.url("/auth/token/refresh/"), auth: AuthHeader::NoAuth },
                    t.clone(),
                ),
            ),
            None => Err(ApiError::NoRefreshToken),
        }
    }

    /// Takes in the access token of a successful refresh; an answer without
    /// one leaves the configuration as it was.
    pub fn apply_refreshed_token(&mut self, access: Option<String>)
        ensures
            opt_view(final(self).config().access_token) == match access {
                Some(a) => Some(a@),
                None => opt_view(old(self).config().access_token),
            },
            final(self).config().base_url == old(self).config().base_url,
            final(self).config().ai_access_key == old(self).config().ai_access_key,
            final(self).config().refresh_token == old(self).config().refresh_token,
            final(self).config().tunnel_token == old(self).config().tunnel_token,
            final(self).config().device_fingerprint == old(self).config().device_fingerprint,
    {
        if let Some(a) = access {
            self.config.access_token = Some(a);
        }
    }

    /// A copy of the configuration, as the client now holds it.
    pub fn current_config(&self) -> (r: NeenApiConfig)
        ensures
            r.base_url@ == self.config().base_url@,
            opt_view(r.access_token) == opt_view(self.config().access_token),
            opt_view(r.ai_access_key) == opt_view(self.config().ai_access_key),
            opt_view(r.refresh_token) == opt_view(self.config().refresh_token),
            opt_view(r.tunnel_token) == opt_view(self.config().tunnel_token),
            opt_view(r.device_fingerprint) == opt_view(self.config().device_fingerprint),
    {
        NeenApiConfig {
            base_url: self.config.base_url.clone(),
            access_token: clone_opt(&self.config.access_token),
            ai_access_key: clone_opt(&self.config.ai_access_key),
            refresh_token: clone_opt(&self.config.refresh_token),
            tunnel_token: clone_opt(&self.config.tunnel_token),
            device_fingerprint: clone_opt(&self.config.device_fingerprint),
        }
    }
}

} // verus!
