use lastfm_dating_backend::config::Config;
use lastfm_dating_backend::config::ConfigError;

fn vars(pairs: &[(&str, &str)]) -> Vec<(String, String)> {
    pairs.iter().map(|(k, v)| (k.to_string(), v.to_string())).collect()
}

fn required() -> Vec<(&'static str, &'static str)> {
    vec![
        ("DATABASE_URL", "mysql://db"),
        ("JWT_SECRET", "SECRET-REDACTED"),
        ("LASTFM_API_KEY", "key"),
        ("LASTFM_API_SECRET", "shh"),
    ]
}

#[test]
fn config_has_defaults() {
    let config = Config::from_vars(&vars(&required())).unwrap();
    assert_eq!(config.database_url, "mysql://db");
    assert_eq!(config.jwt_secret, "SECRET-REDACTED");
    assert_eq!(config.lastfm_api_key, "key");
    assert_eq!(config.lastfm_api_secret, "shh");
    assert_eq!(config.s3_endpoint, "http://localhost:9000");
    assert_eq!(config.s3_bucket, "lastfm-photos");
    assert_eq!(config.s3_region, "us-east-1");
    assert_eq!(config.s3_access_key, "");
    assert_eq!(config.s3_secret_key, "");
    assert_eq!(config.redis_url, "redis://localhost:6379");
    assert_eq!(config.vapid_private_key, None);
    assert_eq!(config.vapid_public_key, None);
    assert_eq!(config.vapid_subject, None);
    assert_eq!(config.host, "0.0.0.0");
    assert_eq!(config.port, 8000);
    assert_eq!(config.allowed_origins, vec!["http://localhost:3000"]);
}

#[test]
fn config_reads_what_is_given() {
    let mut pairs = required();
    pairs.extend([
        ("S3_ENDPOINT", "https://s3.example"),
        ("S3_BUCKET", "b"),
        ("S3_REGION", "eu-west-1"),
        ("S3_ACCESS_KEY", "ak"),
        ("S3_SECRET_KEY", "sk"),
        ("REDIS_URL", "redis://r"),
        ("VAPID_PRIVATE_KEY", "priv"),
        ("VAPID_PUBLIC_KEY", ""),
        ("VAPID_SUBJECT", "mailto:a@b.c"),
        ("HOST", "127.0.0.1"),
        ("PORT", "+9090"),
        ("ALLOWED_ORIGINS", " https://a.example ,https://b.example,, "),
        ("PORT", "1"),
    ]);
    let config = Config::from_vars(&vars(&pairs)).unwrap();
    assert_eq!(config.s3_endpoint, "https://s3.example");
    assert_eq!(config.s3_bucket, "b");
    assert_eq!(config.s3_region, "eu-west-1");
    assert_eq!(config.s3_access_key, "ak");
    assert_eq!(config.s3_secret_key, "sk");
    assert_eq!(config.redis_url, "redis://r");
    assert_eq!(config.vapid_private_key.as_deref(), Some("priv"));
    assert_eq!(config.vapid_public_key, None);
    assert_eq!(config.vapid_subject.as_deref(), Some("mailto:a@b.c"));
    assert_eq!(config.host, "127.0.0.1");
    assert_eq!(config.port, 9090);
    assert_eq!(config.allowed_origins, vec!["https://a.example", "https://b.example", "", ""]);
}

#[test]
fn config_names_the_first_missing_value() {
    let all = required();
    for skip in 0..4 {
        let pairs: Vec<(&str, &str)> =
            all.iter().enumerate().filter(|(i, _)| *i >= skip + 1 || *i < skip).map(|(_, p)| *p).collect();
        match Config::from_vars(&vars(&pairs)) {
            Err(ConfigError::Missing(name)) => assert_eq!(name, all[skip].0),
            other => panic!("unexpected: {:?}", other),
        }
    }
    match Config::from_vars(&vars(&[("PORT", "x")])) {
        Err(ConfigError::Missing(name)) => assert_eq!(name, "DATABASE_URL"),
        other => panic!("unexpected: {:?}", other),
    }
}

#[test]
fn config_refuses_a_port_that_is_none() {
    for port in ["", "http", "65536", "-1", "80 "] {
        let mut pairs = required();
        pairs.push(("PORT", port));
        assert!(matches!(Config::from_vars(&vars(&pairs)), Err(ConfigError::InvalidPort)));
    }
}
