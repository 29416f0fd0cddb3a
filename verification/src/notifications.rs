//! Notifications of platform events: the template each event is rendered
//! with, who receives it, and how a user's preferences decide between an
//! in-app notification and an email.

use vstd::prelude::*;

use crate::auth::AuthenticatedUser;
use crate::json::{
    entry, int_value, is_int, is_object_of, is_text, is_uuid, key_at, text_value, uuid_value,
    value_at, JsonEntry, JsonValue,
};
use crate::platform::{new_uuid, now_micros};
use crate::records::{Contribution, Notification, NotificationPreference, PayoutRequest, SavingsVault};
use crate::repos::PersistenceError;
use crate::scholarship_services::ScholarshipReviewDecision;
use crate::status::{NotificationStatus, NotificationType};
use crate::text::{int_text, owned, push_int_text, push_text};

verus! {

/// Failures of the notification services.
#[derive(Debug)]
pub enum NotificationError {
    Validation(String),
    Forbidden,
    NotFound,
    Repository(String),
}

impl NotificationError {
    /// The service error for a storage failure: conflicts are reported as
    /// validation failures.
    pub fn from_persistence(value: PersistenceError) -> (e: NotificationError)
        ensures
            match value {
                PersistenceError::NotFound => e is NotFound,
                PersistenceError::Conflict(m) => e matches NotificationError::Validation(n) && n == m,
                PersistenceError::Validation(m) => e matches NotificationError::Validation(n) && n == m,
                PersistenceError::Repository(m) => e matches NotificationError::Repository(n) && n == m,
            },
    {
        match value {
            PersistenceError::NotFound => NotificationError::NotFound,
            PersistenceError::Conflict(m) => NotificationError::Validation(m),
            PersistenceError::Validation(m) => NotificationError::Validation(m),
            PersistenceError::Repository(m) => NotificationError::Repository(m),
        }
    }
}

/// An email to send to a user.
#[derive(Debug)]
pub struct EmailMessage {
    pub to_user_id: u128,
    pub notification_type: NotificationType,
    pub subject: String,
    pub body: String,
    pub metadata: JsonValue,
}

/// Sends emails; implemented by the application that delivers them.
pub trait EmailSender {
    fn send(&self, message: EmailMessage) -> Result<(), NotificationError>;
}

/// An event of the platform that a user is told about.
#[derive(Debug)]
pub enum ApplicationEvent {
    ContributionReceived {
        recipient_user_id: u128,
        contribution_id: u128,
        vault_id: u128,
        amount_minor: i64,
        currency: String,
    },
    MilestoneDueSoon {
        recipient_user_id: u128,
        milestone_id: u128,
        vault_id: u128,
        due_date: String,
        title: String,
    },
    MilestoneUnderfunded {
        recipient_user_id: u128,
        milestone_id: u128,
        vault_id: u128,
        shortfall_minor: i64,
        currency: String,
        title: String,
    },
    PayoutApproved {
        recipient_user_id: u128,
        payout_id: u128,
        vault_id: u128,
        amount_minor: i64,
        currency: String,
    },
    PayoutCompleted {
        recipient_user_id: u128,
        payout_id: u128,
        vault_id: u128,
        amount_minor: i64,
        currency: String,
    },
    ScholarshipAwarded {
        recipient_user_id: u128,
        award_id: u128,
        application_id: u128,
        amount_minor: i64,
        currency: String,
    },
    KycActionRequired { recipient_user_id: u128, reason: String },
}

/// The type, title, body and metadata a notification is shown with.
#[derive(Debug)]
pub struct RenderedNotificationTemplate {
    pub notification_type: NotificationType,
    pub title: String,
    pub body: String,
    pub metadata: JsonValue,
}

/// `prefix`, the amount in decimal, a space, the currency and `suffix`.
pub open spec fn spec_amount_sentence(
    prefix: Seq<char>,
    amount: i64,
    currency: Seq<char>,
    suffix: Seq<char>,
) -> Seq<char> {
    prefix + int_text(amount as int) + " "@ + currency + suffix
}

fn amount_sentence(prefix: &str, amount: i64, currency: &str, suffix: &str) -> (s: String)
    ensures
        s@ == spec_amount_sentence(prefix@, amount, currency@, suffix@),
{
    let mut s = String::new();
    push_text(&mut s, prefix);
    push_int_text(&mut s, amount);
    push_text(&mut s, " ");
    push_text(&mut s, currency);
    push_text(&mut s, suffix);
    assert(s@ =~= spec_amount_sentence(prefix@, amount, currency@, suffix@));
    s
}

/// `prefix`, the quoted title, `middle`, `tail` and `suffix`.
pub open spec fn spec_title_sentence(
    title: Seq<char>,
    middle: Seq<char>,
    tail: Seq<char>,
    suffix: Seq<char>,
) -> Seq<char> {
    "Milestone \""@ + title + middle + tail + suffix
}

fn title_sentence(title: &str, middle: &str, tail: &str, suffix: &str) -> (s: String)
    ensures
        s@ == spec_title_sentence(title@, middle@, tail@, suffix@),
{
    let mut s = String::new();
    push_text(&mut s, "Milestone \"");
    push_text(&mut s, title);
    push_text(&mut s, middle);
    push_text(&mut s, tail);
    push_text(&mut s, suffix);
    assert(s@ =~= spec_title_sentence(title@, middle@, tail@, suffix@));
    s
}

/// `t` is the rendering of an amount event: its type, title, body, and the
/// metadata naming the two identifiers, the amount and the currency.
pub open spec fn spec_amount_render(
    t: RenderedNotificationTemplate,
    kind: NotificationType,
    title: Seq<char>,
    prefix: Seq<char>,
    suffix: Seq<char>,
    first_key: Seq<char>,
    first_id: u128,
    second_key: Seq<char>,
    second_id: u128,
    amount: i64,
    currency: Seq<char>,
) -> bool {
    &&& t.notification_type == kind
    &&& t.title@ == title
    &&& t.body@ == spec_amount_sentence(prefix, amount, currency, suffix)
    &&& is_object_of(t.metadata, 4)
    &&& key_at(t.metadata, 0) == first_key && is_uuid(value_at(t.metadata, 0), first_id)
    &&& key_at(t.metadata, 1) == second_key && is_uuid(value_at(t.metadata, 1), second_id)
    &&& key_at(t.metadata, 2) == "amount_minor"@ && is_int(value_at(t.metadata, 2), amount as int)
    &&& key_at(t.metadata, 3) == "currency"@ && is_text(value_at(t.metadata, 3), currency)
}

/// The template of each event.
pub open spec fn spec_rendered(event: ApplicationEvent, t: RenderedNotificationTemplate) -> bool {
    match event {
        ApplicationEvent::ContributionReceived { contribution_id, vault_id, amount_minor, currency, .. } =>
            spec_amount_render(
            t,
            NotificationType::ContributionReceived,
            "Contribution received"@,
            "A contribution of "@,
            " was received."@,
            "contribution_id"@,
            contribution_id,
            "vault_id"@,
            vault_id,
            amount_minor,
            currency@,
        ),
        ApplicationEvent::MilestoneDueSoon { milestone_id, vault_id, due_date, title, .. } => {
            &&& t.notification_type == NotificationType::MilestoneDueSoon
            &&& t.title@ == "Milestone due soon"@
            &&& t.body@ == spec_title_sentence(title@, "\" is due on "@, due_date@, "."@)
            &&& is_object_of(t.metadata, 4)
            &&& key_at(t.metadata, 0) == "milestone_id"@ && is_uuid(value_at(t.metadata, 0), milestone_id)
            &&& key_at(t.metadata, 1) == "vault_id"@ && is_uuid(value_at(t.metadata, 1), vault_id)
            &&& key_at(t.metadata, 2) == "due_date"@ && is_text(value_at(t.metadata, 2), due_date@)
            &&& key_at(t.metadata, 3) == "milestone_title"@ && is_text(value_at(t.metadata, 3), title@)
        },
        ApplicationEvent::MilestoneUnderfunded { milestone_id, vault_id, shortfall_minor, currency, title, .. } => {
            &&& t.notification_type == NotificationType::MilestoneUnderfunded
            &&& t.title@ == "Milestone underfunded"@
            &&& t.body@ == spec_title_sentence(
                title@,
                "\" is short by "@,
                int_text(shortfall_minor as int) + " "@ + currency@,
                "."@,
            )
            &&& is_object_of(t.metadata, 5)
            &&& key_at(t.metadata, 0) == "milestone_id"@ && is_uuid(value_at(t.metadata, 0), milestone_id)
            &&& key_at(t.metadata, 1) == "vault_id"@ && is_uuid(value_at(t.metadata, 1), vault_id)
            &&& key_at(t.metadata, 2) == "shortfall_minor"@ && is_int(value_at(t.metadata, 2), shortfall_minor as int)
            &&& key_at(t.metadata, 3) == "currency"@ && is_text(value_at(t.metadata, 3), currency@)
            &&& key_at(t.metadata, 4) == "milestone_title"@ && is_text(value_at(t.metadata, 4), title@)
        },
        ApplicationEvent::PayoutApproved { payout_id, vault_id, amount_minor, currency, .. } =>
            spec_amount_render(
            t,
            NotificationType::PayoutApproved,
            "Payout approved"@,
            "Payout of "@,
            " has been approved."@,
            "payout_id"@,
            payout_id,
            "vault_id"@,
            vault_id,
            amount_minor,
            currency@,
        ),
        ApplicationEvent::PayoutCompleted { payout_id, vault_id, amount_minor, currency, .. } =>
            spec_amount_render(
            t,
            NotificationType::PayoutCompleted,
            "Payout completed"@,
            "Payout of "@,
            " has completed."@,
            "payout_id"@,
            payout_id,
            "vault_id"@,
            vault_id,
            amount_minor,
            currency@,
        ),
        ApplicationEvent::ScholarshipAwarded { award_id, application_id, amount_minor, currency, .. } =>
            spec_amount_render(
            t,
            NotificationType::ScholarshipAwarded,
            "Scholarship awarded"@,
            "A scholarship award of "@,
            " has been approved."@,
            "award_id"@,
            award_id,
            "application_id"@,
            application_id,
            amount_minor,
            currency@,
        ),
        ApplicationEvent::KycActionRequired { reason, .. } => {
            &&& t.notification_type == NotificationType::KycActionRequired
            &&& t.title@ == "KYC action required"@
            &&& t.body@ == reason@
            &&& is_object_of(t.metadata, 1)
            &&& key_at(t.metadata, 0) == "reason"@ && is_text(value_at(t.metadata, 0), reason@)
        },
    }
}

fn amount_render(
    kind: NotificationType,
    title: &str,
    prefix: &str,
    suffix: &str,
    first_key: &str,
    first_id: u128,
    second_key: &str,
    second_id: u128,
    amount: i64,
    currency: &str,
) -> (t: RenderedNotificationTemplate)
    ensures
        spec_amount_render(t, kind, title@, prefix@, suffix@, first_key@, first_id, second_key@, second_id, amount, currency@),
{
    let mut m: Vec<JsonEntry> = Vec::new();
    m.push(entry(first_key, uuid_value(first_id)));
    m.push(entry(second_key, uuid_value(second_id)));
    m.push(entry("amount_minor", int_value(amount)));
    m.push(entry("currency", text_value(currency)));
    RenderedNotificationTemplate {
        notification_type: kind,
        title: owned(title),
        body: amount_sentence(prefix, amount, currency, suffix),
        metadata: JsonValue::Object(m),
    }
}

/// The template an event is shown with.
pub fn render_notification_template(event: &ApplicationEvent) -> (t: RenderedNotificationTemplate)
    ensures
        spec_rendered(*event, t),
{
    match event {
        ApplicationEvent::ContributionReceived { contribution_id, vault_id, amount_minor, currency, .. } =>
            amount_render(
            NotificationType::ContributionReceived,
            "Contribution received",
            "A contribution of ",
            " was received.",
            "contribution_id",
            *contribution_id,
            "vault_id",
            *vault_id,
            *amount_minor,
            currency.as_str(),
        ),
        ApplicationEvent::MilestoneDueSoon { milestone_id, vault_id, due_date, title, .. } => {
            let mut m: Vec<JsonEntry> = Vec::new();
            m.push(entry("milestone_id", uuid_value(*milestone_id)));
            m.push(entry("vault_id", uuid_value(*vault_id)));
            m.push(entry("due_date", text_value(due_date.as_str())));
            m.push(entry("milestone_title", text_value(title.as_str())));
            RenderedNotificationTemplate {
                notification_type: NotificationType::MilestoneDueSoon,
                title: owned("Milestone due soon"),
                body: title_sentence(title.as_str(), "\" is due on ", due_date.as_str(), "."),
                metadata: JsonValue::Object(m),
            }
        },
        ApplicationEvent::MilestoneUnderfunded { milestone_id, vault_id, shortfall_minor, currency, title, .. } => {
            let mut tail = String::new();
            push_int_text(&mut tail, *shortfall_minor);
            push_text(&mut tail, " ");
            push_text(&mut tail, currency.as_str());
            let mut m: Vec<JsonEntry> = Vec::new();
            m.push(entry("milestone_id", uuid_value(*milestone_id)));
            m.push(entry("vault_id", uuid_value(*vault_id)));
            m.push(entry("shortfall_minor", int_value(*shortfall_minor)));
            m.push(entry("currency", text_value(currency.as_str())));
            m.push(entry("milestone_title", text_value(title.as_str())));
            assert(tail@ =~= int_text(*shortfall_minor as int) + " "@ + currency@);
            RenderedNotificationTemplate {
                notification_type: NotificationType::MilestoneUnderfunded,
                title: owned("Milestone underfunded"),
                body: title_sentence(title.as_str(), "\" is short by ", tail.as_str(), "."),
                metadata: JsonValue::Object(m),
            }
        },
        ApplicationEvent::PayoutApproved { payout_id, vault_id, amount_minor, currency, .. } => amount_render(
            NotificationType::PayoutApproved,
            "Payout approved",
            "Payout of ",
            " has been approved.",
            "payout_id",
            *payout_id,
            "vault_id",
            *vault_id,
            *amount_minor,
            currency.as_str(),
        ),
        ApplicationEvent::PayoutCompleted { payout_id, vault_id, amount_minor, currency, .. } => amount_render(
            NotificationType::PayoutCompleted,
            "Payout completed",
            "Payout of ",
            " has completed.",
            "payout_id",
            *payout_id,
            "vault_id",
            *vault_id,
            *amount_minor,
            currency.as_str(),
        ),
        ApplicationEvent::ScholarshipAwarded { award_id, application_id, amount_minor, currency, .. } =>
            amount_render(
            NotificationType::ScholarshipAwarded,
            "Scholarship awarded",
            "A scholarship award of ",
            " has been approved.",
            "award_id",
            *award_id,
            "application_id",
            *application_id,
            *amount_minor,
            currency.as_str(),
        ),
        ApplicationEvent::KycActionRequired { reason, .. } => {
            let mut m: Vec<JsonEntry> = Vec::new();
            m.push(entry("reason", text_value(reason.as_str())));
            RenderedNotificationTemplate {
                notification_type: NotificationType::KycActionRequired,
                title: owned("KYC action required"),
                body: reason.clone(),
                metadata: JsonValue::Object(m),
            }
        },
    }
}

/// The user an event is for.
pub open spec fn spec_event_recipient(event: ApplicationEvent) -> u128 {
    match event {
        ApplicationEvent::ContributionReceived { recipient_user_id, .. } => recipient_user_id,
        ApplicationEvent::MilestoneDueSoon { recipient_user_id, .. } => recipient_user_id,
        ApplicationEvent::MilestoneUnderfunded { recipient_user_id, .. } => recipient_user_id,
        ApplicationEvent::PayoutApproved { recipient_user_id, .. } => recipient_user_id,
        ApplicationEvent::PayoutCompleted { recipient_user_id, .. } => recipient_user_id,
        ApplicationEvent::ScholarshipAwarded { recipient_user_id, .. } => recipient_user_id,
        ApplicationEvent::KycActionRequired { recipient_user_id, .. } => recipient_user_id,
    }
}

pub fn event_recipient(event: &ApplicationEvent) -> (id: u128)
    ensures
        id == spec_event_recipient(*event),
{
    match event {
        ApplicationEvent::ContributionReceived { recipient_user_id, .. } => *recipient_user_id,
        ApplicationEvent::MilestoneDueSoon { recipient_user_id, .. } => *recipient_user_id,
        ApplicationEvent::MilestoneUnderfunded { recipient_user_id, .. } => *recipient_user_id,
        ApplicationEvent::PayoutApproved { recipient_user_id, .. } => *recipient_user_id,
        ApplicationEvent::PayoutCompleted { recipient_user_id, .. } => *recipient_user_id,
        ApplicationEvent::ScholarshipAwarded { recipient_user_id, .. } => *recipient_user_id,
        ApplicationEvent::KycActionRequired { recipient_user_id, .. } => *recipient_user_id,
    }
}


/// The preference of a user who never set one: in-app notifications, no email.
pub fn default_preference(user_id: u128, notification_type: NotificationType) -> (p: NotificationPreference)
    ensures
        p.user_id == user_id,
        p.notification_type == notification_type,
        p.in_app_enabled,
        !p.email_enabled,
        p.created_at == p.updated_at,
{
    let now = now_micros();
    NotificationPreference {
        id: new_uuid(),
        user_id,
        notification_type,
        in_app_enabled: true,
        email_enabled: false,
        created_at: now,
        updated_at: now,
    }
}

/// What delivering an event comes to: the notification to store, if the
/// recipient wants them in the app, and the email to send, if they want email.
#[derive(Debug)]
pub struct DeliveryPlan {
    pub recipient_user_id: u128,
    pub notification: Option<Notification>,
    pub email: Option<EmailMessage>,
}

/// Whether the recipient gets the event in the app and by email: by their
/// stored preference for its type, or else in the app only.
pub open spec fn spec_channels(preference: Option<NotificationPreference>) -> (bool, bool) {
    match preference {
        Some(p) => (p.in_app_enabled, p.email_enabled),
        None => (true, false),
    }
}

/// Delivery follows the recipient's stored preference channel by channel: an
/// in-app notification exactly when in-app delivery is on and an e-mail
/// exactly when e-mail is on; without a stored preference only the in-app
/// notification goes out.
pub proof fn lemma_delivery_follows_preference(preference: Option<NotificationPreference>)
    ensures
        preference matches Some(p) ==> spec_channels(preference) == (p.in_app_enabled, p.email_enabled),
        preference is None ==> spec_channels(preference) == (true, false),
{
}

/// Plans the delivery of an event to its recipient, given the recipient's
/// stored preference for the event's type, if any. The notification is
/// pending and unread; it and the email carry the rendered template.
pub fn plan_delivery(event: &ApplicationEvent, preference: Option<NotificationPreference>) -> (d:
    DeliveryPlan)
    ensures
        d.recipient_user_id == spec_event_recipient(*event),
        d.notification is Some == spec_channels(preference).0,
        d.email is Some == spec_channels(preference).1,
        preference matches Some(p) ==> (d.notification is Some <==> p.in_app_enabled) && (d.email is Some
            <==> p.email_enabled),
        preference is None ==> d.notification is Some && d.email is None,
        d.notification matches Some(n) ==> ({
            &&& n.user_id == d.recipient_user_id
            &&& n.status == NotificationStatus::Pending
            &&& n.read_at is None
            &&& n.created_at == n.updated_at
            &&& spec_rendered(
                *event,
                RenderedNotificationTemplate {
                    notification_type: n.notification_type,
                    title: n.title,
                    body: n.body,
                    metadata: n.metadata,
                },
            )
        }),
        d.email matches Some(m) ==> ({
            &&& m.to_user_id == d.recipient_user_id
            &&& spec_rendered(
                *event,
                RenderedNotificationTemplate {
                    notification_type: m.notification_type,
                    title: m.subject,
                    body: m.body,
                    metadata: m.metadata,
                },
            )
        }),
{
    let recipient_user_id = event_recipient(event);
    let rendered = render_notification_template(event);
    let preference = match preference {
        Some(p) => p,
        None => default_preference(recipient_user_id, rendered.notification_type),
    };
    let notification = if preference.in_app_enabled {
        let shown = render_notification_template(event);
        let now = now_micros();
        Some(Notification {
            id: new_uuid(),
            user_id: recipient_user_id,
            notification_type: shown.notification_type,
            title: shown.title,
            body: shown.body,
            metadata: shown.metadata,
            status: NotificationStatus::Pending,
            read_at: None,
            created_at: now,
            updated_at: now,
        })
    } else {
        None
    };
    let email = if preference.email_enabled {
        Some(EmailMessage {
            to_user_id: recipient_user_id,
            notification_type: rendered.notification_type,
            subject: rendered.title,
            body: rendered.body,
            metadata: rendered.metadata,
        })
    } else {
        None
    };
    DeliveryPlan { recipient_user_id, notification, email }
}

/// Only the user a notification is for may mark it read or unread.
pub fn check_notification_owner(actor: &AuthenticatedUser, notification: Option<&Notification>) -> (r: Result<
    (),
    NotificationError,
>)
    ensures
        match notification {
            None => r matches Err(e) && e is NotFound,
            Some(n) => if n.user_id == actor.user_id {
                r is Ok
            } else {
                r matches Err(e) && e is Forbidden
            },
        },
{
    match notification {
        None => Err(NotificationError::NotFound),
        Some(n) => {
            if n.user_id != actor.user_id {
                return Err(NotificationError::Forbidden);
            }
            Ok(())
        },
    }
}

/// A notification as storage keeps it once it is marked read at `now`.
pub open spec fn spec_marked_read(n: Notification, now: i64) -> Notification {
    Notification { status: NotificationStatus::Read, read_at: Some(now), ..n }
}

/// A notification as storage keeps it once it is marked unread: pending
/// again, with no time of reading.
pub open spec fn spec_marked_unread(n: Notification) -> Notification {
    Notification { status: NotificationStatus::Pending, read_at: None, ..n }
}

/// Marks a notification read at `now`.
pub fn mark_read(n: Notification, now: i64) -> (r: Notification)
    ensures
        r == spec_marked_read(n, now),
{
    Notification { status: NotificationStatus::Read, read_at: Some(now), ..n }
}

/// Marks a notification unread.
pub fn mark_unread(n: Notification) -> (r: Notification)
    ensures
        r == spec_marked_unread(n),
{
    Notification { status: NotificationStatus::Pending, read_at: None, ..n }
}

/// Marking a notification read and then unread gives back the notification
/// as it was before it was read, when it had not been read.
pub proof fn lemma_unread_undoes_read(n: Notification, now: i64)
    requires
        n.status == NotificationStatus::Pending,
        n.read_at is None,
    ensures
        spec_marked_unread(spec_marked_read(n, now)) == n,
        spec_marked_read(n, now).status == NotificationStatus::Read,
{
}

/// The preference a user sets for a type of notification; it keeps the
/// identifier and creation time of the one it replaces.
pub fn decide_preference(
    actor: &AuthenticatedUser,
    notification_type: NotificationType,
    in_app_enabled: bool,
    email_enabled: bool,
    existing: Option<&NotificationPreference>,
) -> (p: NotificationPreference)
    ensures
        p.user_id == actor.user_id,
        p.notification_type == notification_type,
        p.in_app_enabled == in_app_enabled,
        p.email_enabled == email_enabled,
        match existing {
            Some(x) => p.id == x.id && p.created_at == x.created_at,
            None => p.created_at == p.updated_at,
        },
{
    let now = now_micros();
    let (id, created_at) = match existing {
        Some(x) => (x.id, x.created_at),
        None => (new_uuid(), now),
    };
    NotificationPreference {
        id,
        user_id: actor.user_id,
        notification_type,
        in_app_enabled,
        email_enabled,
        created_at,
        updated_at: now,
    }
}

/// A received contribution, told to the owner of the vault it went into.
pub fn contribution_received_event(vault: Option<&SavingsVault>, contribution: &Contribution) -> (r: Result<
    ApplicationEvent,
    NotificationError,
>)
    ensures
        match vault {
            None => r matches Err(e) && e is NotFound,
            Some(v) => r matches Ok(ApplicationEvent::ContributionReceived {
                recipient_user_id,
                contribution_id,
                vault_id,
                amount_minor,
                currency,
            }) && recipient_user_id == v.owner_user_id && contribution_id == contribution.id
                && vault_id == contribution.vault_id && amount_minor == contribution.amount.amount_minor
                && currency@ == contribution.amount.currency.spec_text(),
        },
{
    match vault {
        None => Err(NotificationError::NotFound),
        Some(v) => Ok(ApplicationEvent::ContributionReceived {
            recipient_user_id: v.owner_user_id,
            contribution_id: contribution.id,
            vault_id: contribution.vault_id,
            amount_minor: contribution.amount.amount_minor,
            currency: owned(contribution.amount.currency.as_str()),
        }),
    }
}

/// An approved payout, told to the parent who requested it.
pub fn payout_approved_event(payout: &PayoutRequest) -> (e: ApplicationEvent)
    ensures
        e matches ApplicationEvent::PayoutApproved { recipient_user_id, payout_id, vault_id, amount_minor, currency }
            && recipient_user_id == payout.requested_by && payout_id == payout.id && vault_id
            == payout.vault_id && amount_minor == payout.amount.amount_minor && currency@
            == payout.amount.currency.spec_text(),
{
    ApplicationEvent::PayoutApproved {
        recipient_user_id: payout.requested_by,
        payout_id: payout.id,
        vault_id: payout.vault_id,
        amount_minor: payout.amount.amount_minor,
        currency: owned(payout.amount.currency.as_str()),
    }
}

/// A completed payout, told to the parent who requested it.
pub fn payout_completed_event(payout: &PayoutRequest) -> (e: ApplicationEvent)
    ensures
        e matches ApplicationEvent::PayoutCompleted { recipient_user_id, payout_id, vault_id, amount_minor, currency }
            && recipient_user_id == payout.requested_by && payout_id == payout.id && vault_id
            == payout.vault_id && amount_minor == payout.amount.amount_minor && currency@
            == payout.amount.currency.spec_text(),
{
    ApplicationEvent::PayoutCompleted {
        recipient_user_id: payout.requested_by,
        payout_id: payout.id,
        vault_id: payout.vault_id,
        amount_minor: payout.amount.amount_minor,
        currency: owned(payout.amount.currency.as_str()),
    }
}

/// An awarded scholarship, told to the applicant.
pub fn scholarship_awarded_event(decision: &ScholarshipReviewDecision) -> (e: ApplicationEvent)
    ensures
        e matches ApplicationEvent::ScholarshipAwarded { recipient_user_id, award_id, application_id, amount_minor, currency }
            && recipient_user_id == decision.application.applicant_user_id && award_id == decision.award.id
            && application_id == decision.application.id && amount_minor == decision.award.amount.amount_minor
            && currency@ == decision.award.amount.currency.spec_text(),
{
    ApplicationEvent::ScholarshipAwarded {
        recipient_user_id: decision.application.applicant_user_id,
        award_id: decision.award.id,
        application_id: decision.application.id,
        amount_minor: decision.award.amount.amount_minor,
        currency: owned(decision.award.amount.currency.as_str()),
    }
}

/// Sends events to a store of notifications, a store of preferences and an email sender.
pub struct NotificationEventDispatcher<'a, R, P, E> {
    pub notifications: &'a R,
    pub preferences: &'a P,
    pub email_sender: &'a E,
}

impl<'a, R, P, E> NotificationEventDispatcher<'a, R, P, E> {
    pub fn new(notifications: &'a R, preferences: &'a P, email_sender: &'a E) -> (d: Self)
        ensures
            d.notifications == notifications,
            d.preferences == preferences,
            d.email_sender == email_sender,
    {
        NotificationEventDispatcher { notifications, preferences, email_sender }
    }
}

} // verus!
