//! The agent's settings and the session tokens it keeps.

use vstd::prelude::*;
use crate::text::{clone_opt, opt_view};

verus! {

/// How the agent reaches the NeeN API, and the tokens of the session.
#[derive(Clone, Debug)]
pub struct NeenApiConfig {
    pub base_url: String,
    pub access_token: Option<String>,
    pub ai_access_key: Option<String>,
    pub refresh_token: Option<String>,
    pub tunnel_token: Option<String>,
    pub device_fingerprint: Option<String>,
}

/// Voice settings. `speed_percent` is the speech speed in hundredths of the
/// normal speed (100 is normal).
#[derive(Clone, Debug)]
pub struct VoiceConfig {
    pub enabled: bool,
    pub language: String,
    pub voice_id: String,
    pub speed_percent: u32,
    pub wake_word: String,
}

/// Screen capture settings.
#[derive(Clone, Debug)]
pub struct ScreenConfig {
    pub capture_enabled: bool,
    pub capture_interval_ms: u64,
    pub analysis_enabled: bool,
}

/// Notification settings.
#[derive(Clone, Debug)]
pub struct NotificationConfig {
    pub auto_reply_enabled: bool,
    pub monitored_apps: Vec<String>,
    pub reply_delay_ms: u64,
}

/// System integration settings.
#[derive(Clone, Debug)]
pub struct SystemConfig {
    pub auto_start: bool,
    pub run_in_background: bool,
    pub log_level: String,
}

/// All settings of the agent.
#[derive(Clone, Debug)]
pub struct AppConfig {
    pub neen_api: NeenApiConfig,
    pub voice: VoiceConfig,
    pub screen: ScreenConfig,
    pub notifications: NotificationConfig,
    pub system: SystemConfig,
}

/// The views of a list of strings.
pub open spec fn string_list_view(v: Seq<String>) -> Seq<Seq<char>> {
    v.map_values(|s: String| s@)
}

/// The API settings of a fresh installation: the production base URL and no
/// tokens.
pub open spec fn default_api_config(c: NeenApiConfig) -> bool {
    &&& c.base_url@ == "https://crmapi.9ance.com/api"@
    &&& c.access_token is None
    &&& c.ai_access_key is None
    &&& c.refresh_token is None
    &&& c.tunnel_token is None
    &&& c.device_fingerprint is None
}

/// The settings of a fresh installation.
pub open spec fn is_default_config(c: AppConfig) -> bool {
    &&& default_api_config(c.neen_api)
    &&& c.voice.enabled
    &&& c.voice.language@ == "en-US"@
    &&& c.voice.voice_id@ == "en_US-lessac-medium"@
    &&& c.voice.speed_percent == 100
    &&& c.voice.wake_word@ == "Hey NeeN"@
    &&& c.screen.capture_enabled
    &&& c.screen.capture_interval_ms == 5000
    &&& c.screen.analysis_enabled
    &&& c.notifications.auto_reply_enabled
    &&& string_list_view(c.notifications.monitored_apps@) == seq![
        "WhatsApp"@,
        "Telegram"@,
        "Slack"@,
        "Mail"@,
    ]
    &&& c.notifications.reply_delay_ms == 2000
    &&& c.system.auto_start
    &&& c.system.run_in_background
    &&& c.system.log_level@ == "info"@
}

impl Default for AppConfig {
    /// The settings of a fresh installation.
    fn default() -> (c: Self)
        ensures
            is_default_config(c),
    {
        let mut apps: Vec<String> = Vec::new();
        apps.push(String::from_str("WhatsApp"));
        apps.push(String::from_str("Telegram"));
        apps.push(String::from_str("Slack"));
        apps.push(String::from_str("Mail"));
        let c = AppConfig {
            neen_api: NeenApiConfig {
                base_url: String::from_str("https://crmapi.9ance.com/api"),
                access_token: None,
                ai_access_key: None,
                refresh_token: None,
                tunnel_token: None,
                device_fingerprint: None,
            },
            voice: VoiceConfig {
                enabled: true,
                language: String::from_str("en-US"),
                voice_id: String::from_str("en_US-lessac-medium"),
                speed_percent: 100,
                wake_word: String::from_str("Hey NeeN"),
            },
            screen: ScreenConfig {
                capture_enabled: true,
                capture_interval_ms: 5000,
                analysis_enabled: true,
            },
            notifications: NotificationConfig {
                auto_reply_enabled: true,
                monitored_apps: apps,
                reply_delay_ms: 2000,
            },
            system: SystemConfig {
                auto_start: true,
                run_in_background: true,
                log_level: String::from_str("info"),
            },
        };
        assert(string_list_view(c.notifications.monitored_apps@) =~= seq![
            "WhatsApp"@,
            "Telegram"@,
            "Slack"@,
            "Mail"@,
        ]);
        c
    }
}

/// The API settings are those of `before` but for the tokens that a
/// session changes.
pub open spec fn same_api_endpoints(after: NeenApiConfig, before: NeenApiConfig) -> bool {
    &&& after.base_url@ == before.base_url@
    &&& opt_view(after.ai_access_key) == opt_view(before.ai_access_key)
}

/// Two configurations agree on everything but the API settings.
pub open spec fn same_but_api(after: AppConfig, before: AppConfig) -> bool {
    &&& after.voice == before.voice
    &&& after.screen == before.screen
    &&& after.notifications == before.notifications
    &&& after.system == before.system
}

impl AppConfig {
    /// Stores a new access token and, when one is given, a new refresh
    /// token; everything else is kept.
    pub fn update_tokens(&mut self, access_token: String, refresh_token: Option<String>)
        ensures
            opt_view(final(self).neen_api.access_token) == Some(access_token@),
            opt_view(final(self).neen_api.refresh_token) == match refresh_token {
                Some(t) => Some(t@),
                None => opt_view(old(self).neen_api.refresh_token),
            },
            opt_view(final(self).neen_api.tunnel_token) == opt_view(old(self).neen_api.tunnel_token),
            opt_view(final(self).neen_api.device_fingerprint) == opt_view(
                old(self).neen_api.device_fingerprint,
            ),
            same_api_endpoints(final(self).neen_api, old(self).neen_api),
            same_but_api(*final(self), *old(self)),
    {
        self.neen_api.access_token = Some(access_token);
        if let Some(t) = refresh_token {
            self.neen_api.refresh_token = Some(t);
        }
    }

    /// Stores the tokens of a successful login: the access token, the
    /// refresh token when the server sent one, the tunnel token and the
    /// device fingerprint.
    pub fn record_login(
        &mut self,
        access_token: String,
        refresh_token: Option<String>,
        tunnel_token: String,
        device_fingerprint: String,
    )
        ensures
            opt_view(final(self).neen_api.access_token) == Some(access_token@),
            opt_view(final(self).neen_api.refresh_token) == match refresh_token {
                Some(t) => Some(t@),
                None => opt_view(old(self).neen_api.refresh_token),
            },
            opt_view(final(self).neen_api.tunnel_token) == Some(tunnel_token@),
            opt_view(final(self).neen_api.device_fingerprint) == Some(device_fingerprint@),
            same_api_endpoints(final(self).neen_api, old(self).neen_api),
            same_but_api(*final(self), *old(self)),
    {
        self.update_tokens(access_token, refresh_token);
        self.neen_api.tunnel_token = Some(tunnel_token);
        self.neen_api.device_fingerprint = Some(device_fingerprint);
    }

    /// Ends the session: the access token, tunnel token and device
    /// fingerprint are dropped; the refresh token is kept.
    pub fn clear_session(&mut self)
        ensures
            final(self).neen_api.access_token is None,
            final(self).neen_api.tunnel_token is None,
            final(self).neen_api.device_fingerprint is None,
            opt_view(final(self).neen_api.refresh_token) == opt_view(old(self).neen_api.refresh_token),
            same_api_endpoints(final(self).neen_api, old(self).neen_api),
            same_but_api(*final(self), *old(self)),
    {
        self.neen_api.access_token = None;
        self.neen_api.tunnel_token = None;
        self.neen_api.device_fingerprint = None;
    }

    /// Whether a session is open: an access token is stored.
    pub fn has_session(&self) -> (r: bool)
        ensures
            r == self.neen_api.access_token is Some,
    {
        self.neen_api.access_token.is_some()
    }

    /// The stored access token, if any.
    pub fn access_token(&self) -> (r: Option<String>)
        ensures
            opt_view(r) == opt_view(self.neen_api.access_token),
    {
        clone_opt(&self.neen_api.access_token)
    }
}

/// The tunnel token to keep after login: the upgraded one when the server
/// sent one, the initial one otherwise.
pub fn final_tunnel_token(upgraded: Option<String>, initial: &str) -> (r: String)
    ensures
        r@ == match upgraded {
            Some(t) => t@,
            None => initial@,
        },
{
    match upgraded {
        Some(t) => t,
        None => String::from_str(initial),
    }
}

/// Law: a login opens a session and a logout closes it again; the refresh
/// token stored at login outlives the logout, and neither of them changes
/// the API address, the AI access key or any setting outside the API.
pub proof fn law_login_then_logout(
    before: AppConfig,
    logged_in: AppConfig,
    logged_out: AppConfig,
    access: Seq<char>,
    refresh: Option<Seq<char>>,
    tunnel: Seq<char>,
    fingerprint: Seq<char>,
)
    requires
        opt_view(logged_in.neen_api.access_token) == Some(access),
        opt_view(logged_in.neen_api.refresh_token) == match refresh {
            Some(t) => Some(t),
            None => opt_view(before.neen_api.refresh_token),
        },
        opt_view(logged_in.neen_api.tunnel_token) == Some(tunnel),
        opt_view(logged_in.neen_api.device_fingerprint) == Some(fingerprint),
        same_api_endpoints(logged_in.neen_api, before.neen_api),
        same_but_api(logged_in, before),
        logged_out.neen_api.access_token is None,
        logged_out.neen_api.tunnel_token is None,
        logged_out.neen_api.device_fingerprint is None,
        opt_view(logged_out.neen_api.refresh_token) == opt_view(logged_in.neen_api.refresh_token),
        same_api_endpoints(logged_out.neen_api, logged_in.neen_api),
        same_but_api(logged_out, logged_in),
    ensures
        logged_in.neen_api.access_token is Some,
        logged_out.neen_api.access_token is None,
        opt_view(logged_out.neen_api.refresh_token) == match refresh {
            Some(t) => Some(t),
            None => opt_view(before.neen_api.refresh_token),
        },
        same_api_endpoints(logged_out.neen_api, before.neen_api),
        same_but_api(logged_out, before),
{
}

} // verus!
