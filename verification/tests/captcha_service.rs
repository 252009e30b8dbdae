use lastfm_dating_backend::captcha_service::challenge_for;
use lastfm_dating_backend::captcha_service::is_expired;
use lastfm_dating_backend::captcha_service::CaptchaService;
use lastfm_dating_backend::captcha_service::Moment;

fn at(seconds: i64) -> Moment {
    Moment { seconds, nanos: 0 }
}

fn solve(challenge: &str) -> String {
    let sum = challenge.strip_prefix("What is ").unwrap().strip_suffix("?").unwrap();
    let parts: Vec<&str> = sum.split(' ').collect();
    assert_eq!(parts.len(), 3);
    let a: i64 = parts[0].parse().unwrap();
    let b: i64 = parts[2].parse().unwrap();
    assert!((1..=20).contains(&a));
    assert!((1..=20).contains(&b));
    match parts[1] {
        "+" => (a + b).to_string(),
        "-" => {
            assert!(a >= b);
            (a - b).to_string()
        }
        other => panic!("unexpected operation {}", other),
    }
}

#[test]
fn test_captcha_generation() {
    let mut service = CaptchaService::new();
    let captcha = service.generate("hash of 127.0.0.1".to_string(), at(1000));

    assert!(!captcha.id.is_empty());
    assert!(captcha.challenge.starts_with("What is "));
    assert_eq!(service.len(), 1);
}

#[test]
fn test_captcha_validation_wrong_answer() {
    let mut service = CaptchaService::new();
    let captcha = service.generate("hash of 127.0.0.1".to_string(), at(1000));

    // Wrong answer should fail
    let valid = service.validate(&captcha.id, "999", "hash of 127.0.0.1", at(1001));
    assert!(!valid);
}

#[test]
fn test_captcha_validation_wrong_ip() {
    let mut service = CaptchaService::new();
    let captcha = service.generate("hash of 127.0.0.1".to_string(), at(1000));

    // Different IP should fail even with potentially correct answer
    let valid = service.validate(&captcha.id, "15", "hash of 192.168.1.1", at(1001));
    assert!(!valid);
    let mut service = CaptchaService::new();
    let captcha = service.generate("hash of 127.0.0.1".to_string(), at(1000));
    let answer = solve(&captcha.challenge);
    assert!(!service.validate(&captcha.id, &answer, "hash of 192.168.1.1", at(1001)));
}

#[test]
fn test_captcha_one_per_ip() {
    let mut service = CaptchaService::new();

    // Generate first captcha
    let captcha1 = service.generate("hash of 127.0.0.1".to_string(), at(1000));

    // Generate second captcha for same IP
    let _captcha2 = service.generate("hash of 127.0.0.1".to_string(), at(1000));

    // First captcha should be invalidated (removed from store)
    let valid1 = service.validate(&captcha1.id, "anything", "hash of 127.0.0.1", at(1001));
    assert!(!valid1);
}

#[test]
fn right_answer_is_accepted_once() {
    for _ in 0..50 {
        let mut service = CaptchaService::new();
        let captcha = service.generate("h".to_string(), at(1000));
        let answer = format!("  {}\n", solve(&captcha.challenge));
        assert!(service.validate(&captcha.id, &answer, "h", at(1599)));
        assert_eq!(service.len(), 0);
        assert!(!service.validate(&captcha.id, &answer, "h", at(1599)));
    }
}

#[test]
fn challenge_ends_after_ten_minutes() {
    let mut service = CaptchaService::new();
    let captcha = service.generate_with("h".to_string(), at(1000), "id-1".to_string(), 7, 8, false);
    assert_eq!(captcha.id, "id-1");
    assert_eq!(captcha.challenge, "What is 7 + 8?");
    assert!(!service.validate("id-1", "15", "h", at(1600)));
    assert_eq!(service.len(), 0);

    let mut service = CaptchaService::new();
    service.generate_with("h".to_string(), at(1000), "id-1".to_string(), 7, 8, false);
    assert!(service.validate("id-1", "15", "h", Moment { seconds: 1599, nanos: 999_999_999 }));

    assert!(!is_expired(at(1000), at(1599)));
    assert!(is_expired(at(1000), at(1600)));
    assert!(!is_expired(Moment { seconds: 1000, nanos: 1 }, at(1600)));
    assert!(is_expired(Moment { seconds: 1000, nanos: 1 }, Moment { seconds: 1600, nanos: 1 }));
    assert!(!is_expired(at(1000), at(0)));
    assert!(is_expired(at(i64::MIN), at(i64::MAX)));
    assert!(!is_expired(at(i64::MAX), at(i64::MIN)));
}

#[test]
fn expired_challenges_are_dropped_when_one_is_made() {
    let mut service = CaptchaService::new();
    service.generate_with("h".to_string(), at(0), "old".to_string(), 1, 1, false);
    service.generate_with("h".to_string(), at(300), "mid".to_string(), 1, 1, false);
    assert_eq!(service.len(), 2);
    service.generate_with("h".to_string(), at(600), "new".to_string(), 1, 1, false);
    assert_eq!(service.len(), 2);
    assert!(!service.validate("old", "2", "h", at(601)));
    assert!(service.validate("mid", "2", "h", at(601)));
    assert!(service.validate("new", "2", "h", at(601)));
    assert_eq!(service.len(), 0);
    // A challenge under an identifier that is out takes its place.
    service.generate_with("h".to_string(), at(700), "same".to_string(), 1, 1, false);
    service.generate_with("h".to_string(), at(700), "same".to_string(), 5, 2, true);
    assert_eq!(service.len(), 1);
    assert!(service.validate("same", "3", "h", at(701)));
    service.purge_expired(at(10_000));
    assert!(service.take("same").is_none());
}

#[test]
fn sums_are_spelled_in_decimal() {
    assert_eq!(challenge_for(3, 4, false), ("3 + 4".to_string(), "7".to_string()));
    assert_eq!(challenge_for(20, 20, false), ("20 + 20".to_string(), "40".to_string()));
    assert_eq!(challenge_for(3, 14, true), ("14 - 3".to_string(), "11".to_string()));
    assert_eq!(challenge_for(14, 3, true), ("14 - 3".to_string(), "11".to_string()));
    assert_eq!(challenge_for(5, 5, true), ("5 - 5".to_string(), "0".to_string()));
    assert_eq!(
        challenge_for(u32::MAX, u32::MAX, false),
        ("4294967295 + 4294967295".to_string(), "8589934590".to_string())
    );
}
