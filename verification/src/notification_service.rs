//! Push notifications: who is subscribed, what a notification says, and when
//! one is sent at all.
use vstd::prelude::*;
use crate::errors::AppError;
use crate::errors::ErrorView;
use crate::fresh::fresh_id;
use crate::fresh::is_random_uuid_text;
use crate::text::concat2;
use crate::text::concat3;
use crate::text::contains_text;
use crate::text::has_substring;
use crate::text::owned;

verus! {

/// A subscription of a user's browser.
#[derive(Debug, Clone)]
pub struct PushSubscription {
    pub id: String,
    pub user_id: String,
    pub endpoint: String,
    pub p256dh: String,
    pub auth: String,
}

/// The request to subscribe.
#[derive(Debug)]
pub struct CreatePushSubscription {
    pub endpoint: String,
    pub keys: PushSubscriptionKeys,
}

/// The keys of a browser's subscription.
#[derive(Debug)]
pub struct PushSubscriptionKeys {
    pub p256dh: String,
    pub auth: String,
}

/// The request to end a subscription.
#[derive(Debug)]
pub struct UnsubscribeRequest {
    pub endpoint: String,
}

/// What a notification carries for the page that opens it: its kind and
/// the place to go to.
#[derive(Debug, Clone)]
pub struct NotificationData {
    pub kind: String,
    pub url: String,
}

/// A notification as it is shown.
#[derive(Debug, Clone)]
pub struct PushNotificationPayload {
    pub title: String,
    pub body: String,
    pub icon: Option<String>,
    pub badge: Option<String>,
    pub data: Option<NotificationData>,
}

/// The keys that sign notifications.
#[derive(Debug)]
pub struct VapidKeys {
    pub private_key: String,
    pub public_key: String,
    pub subject: String,
}

/// Whether a notification is sent.
#[derive(Debug)]
pub enum Delivery {
    /// Nothing is sent and nothing is recorded: the user has no subscription,
    /// or the keys are not all there.
    Skip,
    /// The notification is sent to every subscription, signed with these
    /// keys, and recorded.
    Send(VapidKeys),
}

/// The service that notifies users.
pub struct NotificationService {
    vapid_private_key: Option<String>,
    vapid_public_key: Option<String>,
    vapid_subject: Option<String>,
}

/// The icon of every notification.
pub open spec fn icon_spec() -> Seq<char> {
    "/icon-192.png"@
}

/// The badge of every notification.
pub open spec fn badge_spec() -> Seq<char> {
    "/badge-72.png"@
}

impl PushNotificationPayload {
    /// The payload has this title and body, the kind and the place, and the
    /// icon and the badge that every notification has.
    pub open spec fn shows(
        &self,
        title: Seq<char>,
        body: Seq<char>,
        kind: Seq<char>,
        url: Seq<char>,
    ) -> bool {
        &&& self.title@ == title
        &&& self.body@ == body
        &&& self.icon matches Some(icon) && icon@ == icon_spec()
        &&& self.badge matches Some(badge) && badge@ == badge_spec()
        &&& self.data matches Some(data) && data.kind@ == kind && data.url@ == url
    }
}

fn payload(title: String, body: String, kind: &str, url: &str) -> (p: PushNotificationPayload)
    ensures
        p.shows(title@, body@, kind@, url@),
{
    PushNotificationPayload {
        title,
        body,
        icon: Some(owned("/icon-192.png")),
        badge: Some(owned("/badge-72.png")),
        data: Some(NotificationData { kind: owned(kind), url: owned(url) }),
    }
}

impl NotificationService {
    /// The private key, if there is one.
    pub closed spec fn private_key(&self) -> Option<String> {
        self.vapid_private_key
    }

    /// The public key, if there is one.
    pub closed spec fn public_key(&self) -> Option<String> {
        self.vapid_public_key
    }

    /// The subject, if there is one.
    pub closed spec fn subject(&self) -> Option<String> {
        self.vapid_subject
    }

    /// A service with these keys.
    pub fn new(
        vapid_private_key: Option<String>,
        vapid_public_key: Option<String>,
        vapid_subject: Option<String>,
    ) -> (service: Self)
        ensures
            service.private_key() == vapid_private_key,
            service.public_key() == vapid_public_key,
            service.subject() == vapid_subject,
    {
        Self { vapid_private_key, vapid_public_key, vapid_subject }
    }

    /// Whether a notification for a user with this many subscriptions is
    /// sent: it is when there is a subscription and all three keys are there.
    pub fn delivery(&self, subscriptions: usize) -> (d: Delivery)
        ensures
            d is Send <==> (subscriptions > 0 && self.private_key() is Some
                && self.public_key() is Some && self.subject() is Some),
            d matches Delivery::Send(keys) ==> Some(keys.private_key) == self.private_key() && Some(
                keys.public_key,
            ) == self.public_key() && Some(keys.subject) == self.subject(),
    {
        if subscriptions == 0 {
            return Delivery::Skip;
        }
        match (&self.vapid_private_key, &self.vapid_public_key, &self.vapid_subject) {
            (Some(private_key), Some(public_key), Some(subject)) => Delivery::Send(
                VapidKeys {
                    private_key: private_key.clone(),
                    public_key: public_key.clone(),
                    subject: subject.clone(),
                },
            ),
            _ => Delivery::Skip,
        }
    }

    /// The record of a new subscription of a user, under a new identifier.
    pub fn subscription(user_id: &str, subscription: CreatePushSubscription) -> (record:
        PushSubscription)
        ensures
            is_random_uuid_text(record.id@),
            record.user_id@ == user_id@,
            record.endpoint == subscription.endpoint,
            record.p256dh == subscription.keys.p256dh,
            record.auth == subscription.keys.auth,
    {
        PushSubscription {
            id: fresh_id(),
            user_id: owned(user_id),
            endpoint: subscription.endpoint,
            p256dh: subscription.keys.p256dh,
            auth: subscription.keys.auth,
        }
    }

    /// The notification of a new match.
    pub fn match_notification(match_name: &str) -> (p: PushNotificationPayload)
        ensures
            p.shows(
                "New Match! \u{1F389}"@,
                "You matched with "@ + match_name@ + "!"@,
                "match"@,
                "/matches"@,
            ),
    {
        payload(
            owned("New Match! \u{1F389}"),
            concat3("You matched with ", match_name, "!"),
            "match",
            "/matches",
        )
    }

    /// The notification of a new message.
    pub fn message_notification(sender_name: &str, message_preview: &str) -> (p:
        PushNotificationPayload)
        ensures
            p.shows(
                "New message from "@ + sender_name@,
                message_preview@,
                "message"@,
                "/chat"@,
            ),
    {
        payload(
            concat2("New message from ", sender_name),
            owned(message_preview),
            "message",
            "/chat",
        )
    }

    /// The notification of a new like. It does not say who likes.
    pub fn like_notification() -> (p: PushNotificationPayload)
        ensures
            p.shows(
                "Someone liked you! \u{1F49C}"@,
                "Check who's interested in your profile"@,
                "like"@,
                "/discover"@,
            ),
    {
        payload(
            owned("Someone liked you! \u{1F49C}"),
            owned("Check who's interested in your profile"),
            "like",
            "/discover",
        )
    }

    /// Whether a subscription is dropped after a failure to send to it: it
    /// is when the failure says that the endpoint is gone (status 410).
    pub fn endpoint_gone(failure: &str) -> (gone: bool)
        ensures
            gone == has_substring(failure@, "410"@),
    {
        contains_text(failure, "410")
    }

    /// What a caller is told when a step of sending failed.
    pub fn failure(step: &str, reason: &str) -> (e: AppError)
        ensures
            e@ == ErrorView::Internal(step@ + ": "@ + reason@),
    {
        AppError::Internal(concat3(step, ": ", reason))
    }
}

} // verus!
