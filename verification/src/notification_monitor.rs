//! Triage of desktop notifications: which applications are watched, which
//! ones get automatic replies, how a notification is classified, and what
//! lead information a message carries.

use vstd::prelude::*;
use crate::keyed::{
    key_at, keyed_map, keys_distinct, lemma_keyed_at, lemma_keyed_push, lemma_keyed_remove,
    lemma_keyed_update,
};
use crate::text::{contains_str, has_substring, lowercase_of, opt_view, unicode_lowercase, same_text};

verus! {

/// The kind of a notification.
#[derive(Clone, Copy, Debug, PartialEq, Eq, Structural)]
pub enum NotificationType {
    Message,
    Email,
    Call,
    Reminder,
    System,
    Other,
}

/// A notification as the monitor sees it. `timestamp_ms` is the time it was
/// received, in milliseconds since the Unix epoch (UTC).
#[derive(Clone, Debug)]
pub struct Notification {
    pub id: String,
    pub app_name: String,
    pub title: String,
    pub content: String,
    pub sender: Option<String>,
    pub timestamp_ms: i64,
    pub notification_type: NotificationType,
}

/// How the monitor reacts to one application.
#[derive(Clone, Debug)]
pub struct NotificationHandler {
    pub app_name: String,
    pub auto_reply_enabled: bool,
    pub reply_template: Option<String>,
}

/// The mathematical value of a handler.
pub struct HandlerView {
    pub app_name: Seq<char>,
    pub auto_reply_enabled: bool,
    pub reply_template: Option<Seq<char>>,
}

impl View for NotificationHandler {
    type V = HandlerView;

    open spec fn view(&self) -> HandlerView {
        HandlerView {
            app_name: self.app_name@,
            auto_reply_enabled: self.auto_reply_enabled,
            reply_template: opt_view(self.reply_template),
        }
    }
}

/// The application that a handler is for.
pub open spec fn handler_app() -> spec_fn(NotificationHandler) -> Seq<char> {
    |h: NotificationHandler| h.app_name@
}

/// The view of a handler.
pub open spec fn handler_value() -> spec_fn(NotificationHandler) -> HandlerView {
    |h: NotificationHandler| h@
}

/// No two handlers of `hs` are for the same application.
pub open spec fn handler_keys_distinct(hs: Seq<NotificationHandler>) -> bool {
    keys_distinct(hs, handler_app())
}

/// The handlers of `hs`, keyed by application name.
pub open spec fn handler_map(hs: Seq<NotificationHandler>) -> Map<Seq<char>, HandlerView> {
    keyed_map(hs, handler_app(), handler_value())
}

/// The views of a list of strings.
pub open spec fn strings_view(v: Seq<String>) -> Seq<Seq<char>> {
    v.map_values(|s: String| s@)
}

/// The monitor's state: the watched applications, in the order they were
/// added, and one handler per application that has one.
#[derive(Clone, Debug)]
pub struct NotificationMonitor {
    monitored_apps: Vec<String>,
    notification_handlers: Vec<NotificationHandler>,
}

/// The handler that the monitor builds for `app` on `set_auto_reply` when it
/// has none yet.
pub open spec fn fresh_handler(app: Seq<char>, enabled: bool) -> HandlerView {
    HandlerView { app_name: app, auto_reply_enabled: enabled, reply_template: None }
}

impl NotificationMonitor {
    /// The watched applications.
    pub closed spec fn apps(&self) -> Seq<Seq<char>> {
        strings_view(self.monitored_apps@)
    }

    /// The handlers, keyed by application name.
    pub closed spec fn handlers(&self) -> Map<Seq<char>, HandlerView> {
        handler_map(self.notification_handlers@)
    }

    /// No application is watched twice and no two handlers share a key.
    pub closed spec fn well_formed(&self) -> bool {
        &&& self.apps().no_duplicates()
        &&& handler_keys_distinct(self.notification_handlers@)
    }

    /// The handler that holds for a notification of `app`, if any.
    pub open spec fn handler_for(&self, app: Seq<char>) -> Option<HandlerView> {
        if self.handlers().contains_key(app) {
            Some(self.handlers()[app])
        } else {
            None
        }
    }

    /// A monitor that watches six messaging and mail applications, replies
    /// automatically on WhatsApp and Telegram, and holds a reply template,
    /// without automatic replies, for Mail.
    pub fn new() -> (m: Self)
        ensures
            m.well_formed(),
            m.apps() == seq![
                "WhatsApp"@,
                "Telegram"@,
                "Slack"@,
                "Microsoft Teams"@,
                "Mail"@,
                "Messages"@,
            ],
            m.handlers() == Map::<Seq<char>, HandlerView>::empty().insert(
                "WhatsApp"@,
                fresh_handler("WhatsApp"@, true),
            ).insert("Telegram"@, fresh_handler("Telegram"@, true)).insert(
                "Mail"@,
                HandlerView {
                    app_name: "Mail"@,
                    auto_reply_enabled: false,
                    reply_template: Some(
                        "Thank you for your email. I'll get back to you soon."@,
                    ),
                },
            ),
    {
        let mut monitored_apps: Vec<String> = Vec::new();
        monitored_apps.push(String::from_str("WhatsApp"));
        monitored_apps.push(String::from_str("Telegram"));
        monitored_apps.push(String::from_str("Slack"));
        monitored_apps.push(String::from_str("Microsoft Teams"));
        monitored_apps.push(String::from_str("Mail"));
        monitored_apps.push(String::from_str("Messages"));
        let mut notification_handlers: Vec<NotificationHandler> = Vec::new();
        let whatsapp = NotificationHandler {
            app_name: String::from_str("WhatsApp"),
            auto_reply_enabled: true,
            reply_template: None,
        };
        let telegram = NotificationHandler {
            app_name: String::from_str("Telegram"),
            auto_reply_enabled: true,
            reply_template: None,
        };
        let mail = NotificationHandler {
            app_name: String::from_str("Mail"),
            auto_reply_enabled: false,
            reply_template: Some(
                String::from_str("Thank you for your email. I'll get back to you soon."),
            ),
        };
        proof {
            reveal_strlit("WhatsApp");
            reveal_strlit("Telegram");
            reveal_strlit("Slack");
            reveal_strlit("Microsoft Teams");
            reveal_strlit("Mail");
            reveal_strlit("Messages");
            assert("Telegram"@[0] != "WhatsApp"@[0]);
            assert("Mail"@[0] != "WhatsApp"@[0]);
            assert("Mail"@[0] != "Telegram"@[0]);
            assert(handler_map(notification_handlers@) =~= Map::empty());
            lemma_keyed_push(notification_handlers@, handler_app(), handler_value(), whatsapp);
        }
        notification_handlers.push(whatsapp);
        proof {
            lemma_keyed_push(notification_handlers@, handler_app(), handler_value(), telegram);
        }
        notification_handlers.push(telegram);
        proof {
            lemma_keyed_push(notification_handlers@, handler_app(), handler_value(), mail);
        }
        notification_handlers.push(mail);
        let m = NotificationMonitor { monitored_apps, notification_handlers };
        proof {
            assert(m.apps() =~= seq![
                "WhatsApp"@,
                "Telegram"@,
                "Slack"@,
                "Microsoft Teams"@,
                "Mail"@,
                "Messages"@,
            ]);
            assert("Slack"@[0] != "WhatsApp"@[0] && "Slack"@[0] != "Telegram"@[0]);
            assert("Microsoft Teams"@[1] != "Mail"@[1]);
            assert("Microsoft Teams"@[1] != "Messages"@[1]);
            assert("Mail"@[1] != "Messages"@[1]);
            assert("Microsoft Teams"@[0] != "WhatsApp"@[0]);
            assert("Messages"@[0] != "WhatsApp"@[0]);
            assert("Microsoft Teams"@[0] != "Telegram"@[0]);
            assert("Messages"@[0] != "Telegram"@[0]);
            assert("Microsoft Teams"@[0] != "Slack"@[0]);
            assert("Messages"@[0] != "Slack"@[0]);
            assert("Mail"@[0] != "Slack"@[0]);
            assert(m.apps().no_duplicates());
        }
        m
    }

    /// The position of the handler for `app`, if there is one.
    fn find_handler(&self, app: &str) -> (r: Option<usize>)
        requires
            self.well_formed(),
        ensures
            match r {
                Some(i) => i < self.notification_handlers@.len() && key_at(self.notification_handlers@, handler_app(), i as int) == app@ && self.handlers().contains_key(app@) && self.handlers()[app@]
                    == self.notification_handlers@[i as int]@,
                None => !self.handlers().contains_key(app@),
            },
    {
        let n = self.notification_handlers.len();
        let mut i: usize = 0;
        while i < n
            invariant
                i <= n,
                n == self.notification_handlers@.len(),
                self.well_formed(),
                forall|j: int|
                    0 <= j < i ==> #[trigger] key_at(self.notification_handlers@, handler_app(), j)
                        != app@,
            decreases n - i,
        {
            if same_text(self.notification_handlers[i].app_name.as_str(), app) {
                proof {
                    lemma_keyed_at(self.notification_handlers@, handler_app(), handler_value(), i as int);
                }
                return Some(i);
            }
            i += 1;
        }
        None
    }

    /// Whether `app` is watched.
    fn is_monitored(&self, app: &str) -> (r: bool)
        ensures
            r == self.apps().contains(app@),
    {
        let n = self.monitored_apps.len();
        let mut i: usize = 0;
        while i < n
            invariant
                i <= n,
                n == self.monitored_apps@.len(),
                forall|j: int| 0 <= j < i ==> self.apps()[j] != app@,
            decreases n - i,
        {
            if same_text(self.monitored_apps[i].as_str(), app) {
                assert(self.apps()[i as int] == app@);
                return true;
            }
            i += 1;
        }
        false
    }

    /// Starts watching `app_name`; a name already watched is not added twice.
    pub fn add_monitored_app(&mut self, app_name: String)
        requires
            old(self).well_formed(),
        ensures
            final(self).well_formed(),
            final(self).apps() == if old(self).apps().contains(app_name@) {
                old(self).apps()
            } else {
                old(self).apps().push(app_name@)
            },
            final(self).handlers() == old(self).handlers(),
    {
        if !self.is_monitored(app_name.as_str()) {
            let ghost before = self.monitored_apps@;
            self.monitored_apps.push(app_name);
            proof {
                assert(strings_view(self.monitored_apps@) =~= strings_view(before).push(
                    self.monitored_apps@.last()@,
                ));
            }
        }
    }

    /// Stops watching `app_name` and forgets its handler.
    pub fn remove_monitored_app(&mut self, app_name: &str)
        requires
            old(self).well_formed(),
        ensures
            final(self).well_formed(),
            final(self).apps() == old(self).apps().filter(other_than(app_name@)),
            final(self).handlers() == old(self).handlers().remove(app_name@),
    {
        let ghost apps = self.apps();
        let ghost pred = other_than(app_name@);
        let mut kept: Vec<String> = Vec::new();
        let n = self.monitored_apps.len();
        let mut i: usize = 0;
        proof {
            reveal(Seq::filter);
            assert(apps.take(0).filter(pred) =~= Seq::<Seq<char>>::empty());
            assert(strings_view(kept@) =~= Seq::<Seq<char>>::empty());
        }
        while i < n
            invariant
                i <= n,
                n == self.monitored_apps@.len(),
                apps == self.apps(),
                apps.no_duplicates(),
                pred == other_than(app_name@),
                strings_view(kept@) == apps.take(i as int).filter(pred),
                strings_view(kept@).no_duplicates(),
                forall|k: int|
                    0 <= k < kept@.len() ==> apps.take(i as int).contains(
                        #[trigger] strings_view(kept@)[k],
                    ),
            decreases n - i,
        {
            let ghost before = kept@;
            proof {
                lemma_take_filter_step(apps, pred, i as int);
            }
            if !same_text(self.monitored_apps[i].as_str(), app_name) {
                let item = self.monitored_apps[i].clone();
                kept.push(item);
                proof {
                    assert(strings_view(kept@) =~= strings_view(before).push(apps[i as int]));
                    assert forall|k: int| 0 <= k < strings_view(before).len() implies
                        #[trigger] strings_view(before)[k] != apps[i as int] by {
                        assert(apps.take(i as int).contains(strings_view(before)[k]));
                    }
                }
            }
            proof {
                assert forall|k: int| 0 <= k < kept@.len() implies apps.take(i + 1).contains(
                    #[trigger] strings_view(kept@)[k],
                ) by {
                    if k < before.len() {
                        assert(strings_view(kept@)[k] == strings_view(before)[k]);
                        let w = choose|w: int|
                            0 <= w < i && apps.take(i as int)[w] == strings_view(before)[k];
                        assert(apps.take(i + 1)[w] == strings_view(kept@)[k]);
                    } else {
                        assert(apps.take(i + 1)[i as int] == strings_view(kept@)[k]);
                    }
                }
            }
            i += 1;
        }
        proof {
            assert(apps.take(n as int) =~= apps);
        }
        self.monitored_apps = kept;
        match self.find_handler(app_name) {
            Some(idx) => {
                proof {
                    lemma_keyed_remove(self.notification_handlers@, handler_app(), handler_value(), idx as int);
                }
                self.notification_handlers.remove(idx);
            },
            None => {
                assert(self.handlers().remove(app_name@) =~= self.handlers());
            },
        }
    }

    /// Turns automatic replies for `app_name` on or off, creating a handler
    /// without a template if the application has none.
    pub fn set_auto_reply(&mut self, app_name: String, enabled: bool)
        requires
            old(self).well_formed(),
        ensures
            final(self).well_formed(),
            final(self).apps() == old(self).apps(),
            final(self).handlers() == handlers_after_set_auto_reply(
                old(self).handlers(),
                app_name@,
                enabled,
            ),
    {
        match self.find_handler(app_name.as_str()) {
            Some(i) => {
                let template = match &self.notification_handlers[i].reply_template {
                    Some(t) => Some(t.clone()),
                    None => None,
                };
                let h = NotificationHandler {
                    app_name,
                    auto_reply_enabled: enabled,
                    reply_template: template,
                };
                proof {
                    lemma_keyed_update(self.notification_handlers@, handler_app(), handler_value(), i as int, h);
                }
                self.notification_handlers.set(i, h);
            },
            None => {
                let h = NotificationHandler {
                    app_name,
                    auto_reply_enabled: enabled,
                    reply_template: None,
                };
                proof {
                    lemma_keyed_push(self.notification_handlers@, handler_app(), handler_value(), h);
                }
                self.notification_handlers.push(h);
            },
        }
    }

    /// The reply template of the handler for the notification's application.
    pub fn get_reply_template(&self, notification: &Notification) -> (r: Option<String>)
        requires
            self.well_formed(),
        ensures
            opt_view(r) == match self.handler_for(notification.app_name@) {
                Some(h) => h.reply_template,
                None => None,
            },
    {
        match self.find_handler(notification.app_name.as_str()) {
            Some(i) => match &self.notification_handlers[i].reply_template {
                Some(t) => Some(t.clone()),
                None => None,
            },
            None => None,
        }
    }

    /// Whether a notification of `app` gets an automatic reply at the given
    /// local hour (0 to 23) and day (0 for Monday to 6 for Sunday).
    pub open spec fn auto_reply_decision(&self, app: Seq<char>, hour: u32, days_from_monday: u32) -> bool {
        match self.handler_for(app) {
            Some(h) => h.auto_reply_enabled && business_hours_spec(hour, days_from_monday),
            None => false,
        }
    }

    /// Whether `notification` gets an automatic reply when the local clock
    /// reads `hour` on day `days_from_monday`.
    pub fn should_auto_reply_at(
        &self,
        notification: &Notification,
        hour: u32,
        days_from_monday: u32,
    ) -> (r: bool)
        requires
            self.well_formed(),
        ensures
            r == self.auto_reply_decision(notification.app_name@, hour, days_from_monday),
    {
        match self.find_handler(notification.app_name.as_str()) {
            Some(i) => self.notification_handlers[i].auto_reply_enabled && business_hours_at(
                hour,
                days_from_monday,
            ),
            None => false,
        }
    }

    /// Whether `notification` gets an automatic reply now: its application
    /// has a handler with automatic replies on, and the local clock is within
    /// business hours.
    pub fn should_auto_reply(&self, notification: &Notification) -> (r: bool)
        requires
            self.well_formed(),
        ensures
            r ==> (self.handler_for(notification.app_name@) matches Some(h)
                && h.auto_reply_enabled),
            exists|hour: u32, day: u32|
                hour < 24 && day < 7 && r == self.auto_reply_decision(
                    notification.app_name@,
                    hour,
                    day,
                ),
    {
        let (hour, day) = local_hour_and_weekday();
        let r = self.should_auto_reply_at(notification, hour, day);
        assert(hour < 24 && day < 7 && r == self.auto_reply_decision(
            notification.app_name@,
            hour,
            day,
        ));
        r
    }

    /// Whether the application name belongs to a messaging application.
    pub fn is_messaging_app(&self, app_name: &str) -> (r: bool)
        ensures
            r == is_messaging_app_name(app_name@),
    {
        contains_str(app_name, "WhatsApp") || contains_str(app_name, "Telegram")
            || contains_str(app_name, "Slack") || contains_str(app_name, "Teams")
            || contains_str(app_name, "Messages") || contains_str(app_name, "Discord")
    }

    /// The kind of `notification`, decided by keywords.
    pub fn classify_notification(&self, notification: &Notification) -> (r: NotificationType)
        ensures
            r == classify_spec(
                notification.app_name@,
                notification.title@,
                notification.content@,
            ),
    {
        let content_lower = lowercase_of(notification.content.as_str());
        let title_lower = lowercase_of(notification.title.as_str());
        if contains_str(content_lower.as_str(), "call") || contains_str(
            title_lower.as_str(),
            "call",
        ) {
            NotificationType::Call
        } else if contains_str(content_lower.as_str(), "email") || contains_str(
            notification.app_name.as_str(),
            "Mail",
        ) {
            NotificationType::Email
        } else if contains_str(content_lower.as_str(), "reminder") || contains_str(
            title_lower.as_str(),
            "reminder",
        ) {
            NotificationType::Reminder
        } else if self.is_messaging_app(notification.app_name.as_str()) {
            NotificationType::Message
        } else {
            NotificationType::Other
        }
    }

    /// The lead information in `notification`, found with the phone and
    /// e-mail patterns; `None` if either pattern is rejected by the regex
    /// engine or the message shows no sign of a lead.
    pub fn extract_lead_info(&self, notification: &Notification) -> (r: Option<LeadInfo>)
        ensures
            lead_opt_view(r) == match (
                regex_first_match(PHONE_PATTERN@, notification.content@),
                regex_first_match(EMAIL_PATTERN@, notification.content@),
            ) {
                (Some(phone), Some(email)) => lead_spec(
                    opt_view(notification.sender),
                    notification.app_name@,
                    notification.content@,
                    phone,
                    email,
                ),
                _ => None,
            },
            r matches Some(l) ==> (l.phone matches Some(p) ==> has_substring(
                notification.content@,
                p@,
            )),
            r matches Some(l) ==> (l.email matches Some(e) ==> has_substring(
                notification.content@,
                e@,
            )),
    {
        let phone = match first_regex_match(PHONE_PATTERN, notification.content.as_str()) {
            Some(m) => m,
            None => {
                return None;
            },
        };
        let email = match first_regex_match(EMAIL_PATTERN, notification.content.as_str()) {
            Some(m) => m,
            None => {
                return None;
            },
        };
        lead_info_from_matches(notification, phone, email)
    }
}

/// Monday to Friday (days 0 to 4 from Monday), from 9:00 to 17:59.
pub open spec fn business_hours_spec(hour: u32, days_from_monday: u32) -> bool {
    days_from_monday < 5 && 9 <= hour < 18
}

/// Whether the local hour and day fall within business hours.
pub fn business_hours_at(hour: u32, days_from_monday: u32) -> (r: bool)
    ensures
        r == business_hours_spec(hour, days_from_monday),
{
    days_from_monday < 5 && 9 <= hour && hour < 18
}

/// Reads the local clock with `chrono::Local::now` and returns its hour and
/// its day of the week counted from Monday. The contract states only the
/// ranges that chrono documents (hour 0 to 23, day 0 to 6): the values
/// themselves depend on the time of the call.
#[verifier::external_body]
fn local_hour_and_weekday() -> (r: (u32, u32))
    ensures
        r.0 < 24,
        r.1 < 7,
{
    let now = chrono::Local::now();
    (chrono::Timelike::hour(&now), chrono::Datelike::weekday(&now).num_days_from_monday())
}

/// The application names that count as messaging applications.
pub open spec fn is_messaging_app_name(app: Seq<char>) -> bool {
    ||| has_substring(app, "WhatsApp"@)
    ||| has_substring(app, "Telegram"@)
    ||| has_substring(app, "Slack"@)
    ||| has_substring(app, "Teams"@)
    ||| has_substring(app, "Messages"@)
    ||| has_substring(app, "Discord"@)
}

/// The kind of a notification from its application, title and content:
/// calls first, then e-mail, reminders and messaging applications.
pub open spec fn classify_spec(app: Seq<char>, title: Seq<char>, content: Seq<char>) -> NotificationType {
    let c = unicode_lowercase(content);
    let t = unicode_lowercase(title);
    if has_substring(c, "call"@) || has_substring(t, "call"@) {
        NotificationType::Call
    } else if has_substring(c, "email"@) || has_substring(app, "Mail"@) {
        NotificationType::Email
    } else if has_substring(c, "reminder"@) || has_substring(t, "reminder"@) {
        NotificationType::Reminder
    } else if is_messaging_app_name(app) {
        NotificationType::Message
    } else {
        NotificationType::Other
    }
}

/// Lead details found in a notification. `confidence_percent` is 80 when
/// the text names a buying keyword and 50 when only contact data was found.
#[derive(Clone, Debug)]
pub struct LeadInfo {
    pub name: Option<String>,
    pub phone: Option<String>,
    pub email: Option<String>,
    pub source: String,
    pub message: String,
    pub confidence_percent: u32,
}

/// The mathematical value of a `LeadInfo`.
pub struct LeadView {
    pub name: Option<Seq<char>>,
    pub phone: Option<Seq<char>>,
    pub email: Option<Seq<char>>,
    pub source: Seq<char>,
    pub message: Seq<char>,
    pub confidence_percent: u32,
}

impl View for LeadInfo {
    type V = LeadView;

    open spec fn view(&self) -> LeadView {
        LeadView {
            name: opt_view(self.name),
            phone: opt_view(self.phone),
            email: opt_view(self.email),
            source: self.source@,
            message: self.message@,
            confidence_percent: self.confidence_percent,
        }
    }
}

/// The view of an optional lead.
pub open spec fn lead_opt_view(l: Option<LeadInfo>) -> Option<LeadView> {
    match l {
        Some(x) => Some(x@),
        None => None,
    }
}

/// The phone pattern: a run of ten or more digits standing as a word.
pub const PHONE_PATTERN: &'static str = r"\b\d{10,}\b";

/// The e-mail pattern.
pub const EMAIL_PATTERN: &'static str = r"\b[A-Za-z0-9._%+-]+@[A-Za-z0-9.-]+\.[A-Z|a-z]{2,}\b";

/// The text mentions a buying intention (after lowercasing).
pub open spec fn is_potential_lead(content: Seq<char>) -> bool {
    let c = unicode_lowercase(content);
    ||| has_substring(c, "interested"@)
    ||| has_substring(c, "quote"@)
    ||| has_substring(c, "price"@)
    ||| has_substring(c, "buy"@)
    ||| has_substring(c, "purchase"@)
    ||| has_substring(c, "inquiry"@)
}

/// The lead that a notification yields, given the first phone and e-mail
/// matches in its content.
pub open spec fn lead_spec(
    sender: Option<Seq<char>>,
    app: Seq<char>,
    content: Seq<char>,
    phone: Option<Seq<char>>,
    email: Option<Seq<char>>,
) -> Option<LeadView> {
    if is_potential_lead(content) || phone is Some || email is Some {
        Some(
            LeadView {
                name: sender,
                phone,
                email,
                source: app,
                message: content,
                confidence_percent: if is_potential_lead(content) {
                    80
                } else {
                    50
                },
            },
        )
    } else {
        None
    }
}

/// Whether the lowercased content contains a buying keyword.
fn mentions_purchase(content: &str) -> (r: bool)
    ensures
        r == is_potential_lead(content@),
{
    let lower = lowercase_of(content);
    let l = lower.as_str();
    contains_str(l, "interested") || contains_str(l, "quote") || contains_str(l, "price")
        || contains_str(l, "buy") || contains_str(l, "purchase") || contains_str(l, "inquiry")
}

/// Builds the lead of `notification` from the phone and e-mail matches
/// found in its content.
pub fn lead_info_from_matches(
    notification: &Notification,
    phone: Option<String>,
    email: Option<String>,
) -> (r: Option<LeadInfo>)
    ensures
        lead_opt_view(r) == lead_spec(
            opt_view(notification.sender),
            notification.app_name@,
            notification.content@,
            opt_view(phone),
            opt_view(email),
        ),
{
    let potential = mentions_purchase(notification.content.as_str());
    if potential || phone.is_some() || email.is_some() {
        let name = match &notification.sender {
            Some(s) => Some(s.clone()),
            None => None,
        };
        Some(
            LeadInfo {
                name,
                phone,
                email,
                source: notification.app_name.clone(),
                message: notification.content.clone(),
                confidence_percent: if potential {
                    80
                } else {
                    50
                },
            },
        )
    } else {
        None
    }
}

/// The view of a nested optional string.
pub open spec fn opt_opt_view(r: Option<Option<String>>) -> Option<Option<Seq<char>>> {
    match r {
        Some(m) => Some(opt_view(m)),
        None => None,
    }
}

/// What the `regex` crate gives for `pattern` on `haystack`: `None` when
/// `Regex::new` rejects the pattern, otherwise the leftmost-first match of
/// `Regex::find`, if any.
pub uninterp spec fn regex_first_match(pattern: Seq<char>, haystack: Seq<char>) -> Option<
    Option<Seq<char>>,
>;

/// Compiles `pattern` with `regex::Regex::new` and searches `haystack` with
/// `Regex::find`. The result is named by `regex_first_match`; the one fact
/// stated beside it, from the documentation of `Match::as_str`, is that a
/// match is a piece of the haystack.
#[verifier::external_body]
fn first_regex_match(pattern: &str, haystack: &str) -> (r: Option<Option<String>>)
    ensures
        opt_opt_view(r) == regex_first_match(pattern@, haystack@),
        r matches Some(Some(m)) ==> has_substring(haystack@, m@),
{
    match regex::Regex::new(pattern) {
        Ok(re) => Some(re.find(haystack).map(|m| m.as_str().to_string())),
        Err(_) => None,
    }
}

/// The handlers after automatic replies for `app` are set to `enabled`: an
/// existing handler keeps its template, a new one has none.
pub open spec fn handlers_after_set_auto_reply(
    handlers: Map<Seq<char>, HandlerView>,
    app: Seq<char>,
    enabled: bool,
) -> Map<Seq<char>, HandlerView> {
    handlers.insert(
        app,
        if handlers.contains_key(app) {
            HandlerView { auto_reply_enabled: enabled, ..handlers[app] }
        } else {
            fresh_handler(app, enabled)
        },
    )
}

/// Law: a monitor never watches an application twice.
pub proof fn law_monitored_apps_distinct(m: NotificationMonitor)
    requires
        m.well_formed(),
    ensures
        m.apps().no_duplicates(),
{
}

/// Law: after `add_monitored_app(app)` the application is watched, every
/// application watched before still is, and adding it a second time changes
/// nothing.
pub proof fn law_add_monitored_app(
    before: NotificationMonitor,
    mid: NotificationMonitor,
    after: NotificationMonitor,
    app: Seq<char>,
)
    requires
        mid.apps() == if before.apps().contains(app) {
            before.apps()
        } else {
            before.apps().push(app)
        },
        after.apps() == if mid.apps().contains(app) {
            mid.apps()
        } else {
            mid.apps().push(app)
        },
    ensures
        mid.apps().contains(app),
        forall|a: Seq<char>| before.apps().contains(a) ==> mid.apps().contains(a),
        after.apps() == mid.apps(),
{
    if !before.apps().contains(app) {
        assert(mid.apps()[before.apps().len() as int] == app);
        assert forall|a: Seq<char>| before.apps().contains(a) implies mid.apps().contains(a) by {
            let i = choose|i: int| 0 <= i < before.apps().len() && before.apps()[i] == a;
            assert(mid.apps()[i] == a);
        }
    }
}

/// Law: after `remove_monitored_app(app)` the application is neither watched
/// nor handled, so it gets no automatic reply and no template; every other
/// application keeps its place in the watch list and its handler.
pub proof fn law_remove_monitored_app(
    before: NotificationMonitor,
    after: NotificationMonitor,
    app: Seq<char>,
    other: Seq<char>,
    hour: u32,
    day: u32,
)
    requires
        after.apps() == before.apps().filter(other_than(app)),
        after.handlers() == before.handlers().remove(app),
        other != app,
    ensures
        !after.apps().contains(app),
        after.handler_for(app) is None,
        !after.auto_reply_decision(app, hour, day),
        after.apps().contains(other) == before.apps().contains(other),
        after.handler_for(other) == before.handler_for(other),
{
    let pred = other_than(app);
    if after.apps().contains(app) {
        let i = choose|i: int| 0 <= i < after.apps().len() && after.apps()[i] == app;
        before.apps().lemma_filter_pred(pred, i);
    }
    if before.apps().contains(other) {
        let i = choose|i: int| 0 <= i < before.apps().len() && before.apps()[i] == other;
        before.apps().lemma_filter_contains(pred, i);
    }
    if after.apps().contains(other) {
        before.apps().lemma_filter_contains_rev(pred, other);
    }
}

/// Law: removing an application that was not watched, right after adding
/// it, gives back the watch list of before; the handlers come back as they
/// were when the application had none.
pub proof fn law_remove_undoes_add(
    before: NotificationMonitor,
    mid: NotificationMonitor,
    after: NotificationMonitor,
    app: Seq<char>,
)
    requires
        !before.apps().contains(app),
        mid.apps() == if before.apps().contains(app) {
            before.apps()
        } else {
            before.apps().push(app)
        },
        mid.handlers() == before.handlers(),
        after.apps() == mid.apps().filter(other_than(app)),
        after.handlers() == mid.handlers().remove(app),
    ensures
        after.apps() == before.apps(),
        !before.handlers().contains_key(app) ==> after.handlers() == before.handlers(),
{
    reveal(Seq::filter);
    let pushed = before.apps().push(app);
    assert(pushed.drop_last() =~= before.apps());
    lemma_filter_keeps_others(before.apps(), app);
    if !before.handlers().contains_key(app) {
        assert(before.handlers().remove(app) =~= before.handlers());
    }
}

/// A list without `app` passes through the filter that drops `app` whole.
proof fn lemma_filter_keeps_others(s: Seq<Seq<char>>, app: Seq<char>)
    requires
        !s.contains(app),
    ensures
        s.filter(other_than(app)) == s,
    decreases s.len(),
{
    reveal(Seq::filter);
    if s.len() > 0 {
        let rest = s.drop_last();
        assert forall|x: Seq<char>| rest.contains(x) implies s.contains(x) by {
            let i = choose|i: int| 0 <= i < rest.len() && rest[i] == x;
            assert(s[i] == x);
        }
        lemma_filter_keeps_others(rest, app);
        assert(s.last() != app) by {
            assert(s[s.len() - 1] == s.last());
        }
        assert(rest.push(s.last()) =~= s);
    } else {
        assert(s.filter(other_than(app)) =~= s);
    }
}

/// Law: after `set_auto_reply(app, enabled)` a notification of `app` gets
/// an automatic reply exactly when `enabled` holds and the clock is within
/// business hours; the decision for every other application is unchanged.
pub proof fn law_set_auto_reply_decides(
    before: NotificationMonitor,
    after: NotificationMonitor,
    app: Seq<char>,
    enabled: bool,
    other: Seq<char>,
    hour: u32,
    day: u32,
)
    requires
        after.handlers() == handlers_after_set_auto_reply(before.handlers(), app, enabled),
        other != app,
    ensures
        after.auto_reply_decision(app, hour, day) == (enabled && business_hours_spec(hour, day)),
        after.auto_reply_decision(other, hour, day) == before.auto_reply_decision(other, hour, day),
{
}

/// The predicate that keeps every name but `app`.
pub open spec fn other_than(app: Seq<char>) -> spec_fn(Seq<char>) -> bool {
    |a: Seq<char>| a != app
}

/// One more element of a prefix passes through `filter` as `pred` says.
proof fn lemma_take_filter_step<A>(s: Seq<A>, pred: spec_fn(A) -> bool, i: int)
    requires
        0 <= i < s.len(),
    ensures
        s.take(i + 1).filter(pred) == if pred(s[i]) {
            s.take(i).filter(pred).push(s[i])
        } else {
            s.take(i).filter(pred)
        },
{
    reveal(Seq::filter);
    assert(s.take(i + 1).drop_last() =~= s.take(i));
    assert(s.take(i + 1).last() == s[i]);
}

/// Law: a notification that mentions a call in its content or its title
/// (in any letter case) is classified as a call, whatever its application
/// and whatever else it mentions; and a notification is classified as a
/// call only when it mentions one.
pub proof fn law_calls_come_first(app: Seq<char>, title: Seq<char>, content: Seq<char>)
    ensures
        has_substring(unicode_lowercase(content), "call"@) || has_substring(
            unicode_lowercase(title),
            "call"@,
        ) <==> classify_spec(app, title, content) == NotificationType::Call,
{
}

/// Law: a notification that mentions no call but mentions e-mail in its
/// content, or comes from a mail application, is classified as e-mail.
pub proof fn law_email_after_calls(app: Seq<char>, title: Seq<char>, content: Seq<char>)
    requires
        !has_substring(unicode_lowercase(content), "call"@),
        !has_substring(unicode_lowercase(title), "call"@),
        has_substring(unicode_lowercase(content), "email"@) || has_substring(app, "Mail"@),
    ensures
        classify_spec(app, title, content) == NotificationType::Email,
{
}

/// Law: a message whose lowercased text names a buying intention
/// ("interested", "quote", "price", "buy", "purchase" or "inquiry") is a
/// lead with confidence 80, from its sender and application, carrying the
/// message and the phone and e-mail matches found.
pub proof fn law_buying_words_make_leads(
    sender: Option<Seq<char>>,
    app: Seq<char>,
    content: Seq<char>,
    phone: Option<Seq<char>>,
    email: Option<Seq<char>>,
)
    requires
        ({
            let c = unicode_lowercase(content);
            ||| has_substring(c, "interested"@)
            ||| has_substring(c, "quote"@)
            ||| has_substring(c, "price"@)
            ||| has_substring(c, "buy"@)
            ||| has_substring(c, "purchase"@)
            ||| has_substring(c, "inquiry"@)
        }),
    ensures
        lead_spec(sender, app, content, phone, email) == Some(
            LeadView {
                name: sender,
                phone,
                email,
                source: app,
                message: content,
                confidence_percent: 80,
            },
        ),
{
}

/// Law: a message without any buying word is a lead, with confidence 50,
/// exactly when a phone number or an e-mail address was found in it.
pub proof fn law_contact_only_leads(
    sender: Option<Seq<char>>,
    app: Seq<char>,
    content: Seq<char>,
    phone: Option<Seq<char>>,
    email: Option<Seq<char>>,
)
    requires
        ({
            let c = unicode_lowercase(content);
            &&& !has_substring(c, "interested"@)
            &&& !has_substring(c, "quote"@)
            &&& !has_substring(c, "price"@)
            &&& !has_substring(c, "buy"@)
            &&& !has_substring(c, "purchase"@)
            &&& !has_substring(c, "inquiry"@)
        }),
    ensures
        lead_spec(sender, app, content, phone, email) == if phone is Some || email is Some {
            Some(
                LeadView {
                    name: sender,
                    phone,
                    email,
                    source: app,
                    message: content,
                    confidence_percent: 50,
                },
            )
        } else {
            None
        },
{
}

} // verus!
