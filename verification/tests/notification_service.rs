use lastfm_dating_backend::errors::AppError;
use lastfm_dating_backend::notification_service::CreatePushSubscription;
use lastfm_dating_backend::notification_service::Delivery;
use lastfm_dating_backend::notification_service::NotificationService;
use lastfm_dating_backend::notification_service::PushNotificationPayload;
use lastfm_dating_backend::notification_service::PushSubscriptionKeys;

fn some(s: &str) -> Option<String> {
    Some(s.to_string())
}

fn assert_frame(p: &PushNotificationPayload, kind: &str, url: &str) {
    assert_eq!(p.icon.as_deref(), Some("/icon-192.png"));
    assert_eq!(p.badge.as_deref(), Some("/badge-72.png"));
    let data = p.data.as_ref().unwrap();
    assert_eq!(data.kind, kind);
    assert_eq!(data.url, url);
}

#[test]
fn notification_is_sent_with_a_subscription_and_all_keys() {
    let full = NotificationService::new(some("priv"), some("pub"), some("mailto:x"));
    match full.delivery(2) {
        Delivery::Send(keys) => {
            assert_eq!(keys.private_key, "priv");
            assert_eq!(keys.public_key, "pub");
            assert_eq!(keys.subject, "mailto:x");
        }
        other => panic!("unexpected: {:?}", other),
    }
    assert!(matches!(full.delivery(0), Delivery::Skip));
    for service in [
        NotificationService::new(None, some("pub"), some("s")),
        NotificationService::new(some("priv"), None, some("s")),
        NotificationService::new(some("priv"), some("pub"), None),
        NotificationService::new(None, None, None),
    ] {
        assert!(matches!(service.delivery(1), Delivery::Skip));
    }
}

#[test]
fn notifications_say_what_happened() {
    let p = NotificationService::match_notification("Zoe");
    assert_eq!(p.title, "New Match! 🎉");
    assert_eq!(p.body, "You matched with Zoe!");
    assert_frame(&p, "match", "/matches");
    let p = NotificationService::message_notification("Adam", "hi there");
    assert_eq!(p.title, "New message from Adam");
    assert_eq!(p.body, "hi there");
    assert_frame(&p, "message", "/chat");
    let p = NotificationService::like_notification();
    assert_eq!(p.title, "Someone liked you! 💜");
    assert_eq!(p.body, "Check who's interested in your profile");
    assert_frame(&p, "like", "/discover");
}

#[test]
fn subscription_is_recorded_under_a_new_identifier() {
    let request = CreatePushSubscription {
        endpoint: "https://push.example/1".to_string(),
        keys: PushSubscriptionKeys { p256dh: "p".to_string(), auth: "a".to_string() },
    };
    let record = NotificationService::subscription("u1", request);
    assert_eq!(record.id.len(), 36);
    assert_eq!(record.user_id, "u1");
    assert_eq!(record.endpoint, "https://push.example/1");
    assert_eq!(record.p256dh, "p");
    assert_eq!(record.auth, "a");
}

#[test]
fn gone_endpoint_is_told_by_its_status() {
    assert!(NotificationService::endpoint_gone("endpoint returned 410 Gone"));
    assert!(NotificationService::endpoint_gone("410"));
    assert!(!NotificationService::endpoint_gone("endpoint returned 404"));
    assert!(!NotificationService::endpoint_gone("41 0"));
    assert!(!NotificationService::endpoint_gone(""));
    match NotificationService::failure("Invalid VAPID keys", "bad base64") {
        AppError::Internal(text) => assert_eq!(text, "Invalid VAPID keys: bad base64"),
        other => panic!("unexpected: {:?}", other),
    }
}
