use lastfm_dating_backend::keys::compatibility;
use lastfm_dating_backend::keys::discover_profiles;
use lastfm_dating_backend::keys::lastfm_api;
use lastfm_dating_backend::keys::music_dna;
use lastfm_dating_backend::keys::rate_limit;
use lastfm_dating_backend::keys::user_top_artists;

#[test]
fn user_top_artists_key_holds_the_limit_in_decimal() {
    assert_eq!(user_top_artists("u1", 50), "user:u1:top_artists:50");
    assert_eq!(user_top_artists("u1", 0), "user:u1:top_artists:0");
    assert_eq!(user_top_artists("", 7), "user::top_artists:7");
    assert_eq!(user_top_artists("x", 1234567890), "user:x:top_artists:1234567890");
    assert_eq!(
        user_top_artists("x", usize::MAX),
        format!("user:x:top_artists:{}", usize::MAX)
    );
}

#[test]
fn compatibility_key_orders_the_users() {
    assert_eq!(compatibility("alice", "bob"), "compatibility:alice:bob");
    assert_eq!(compatibility("bob", "alice"), "compatibility:alice:bob");
    assert_eq!(compatibility("a", "a"), "compatibility:a:a");
    assert_eq!(compatibility("ab", "a"), "compatibility:a:ab");
    assert_eq!(compatibility("B", "a"), "compatibility:B:a");
    assert_eq!(compatibility("é", "z"), "compatibility:z:é");
}

#[test]
fn other_keys_have_their_form() {
    assert_eq!(lastfm_api("user.gettopartists", "user=x"), "lastfm:user.gettopartists:user=x");
    assert_eq!(music_dna("u9"), "user:u9:music_dna");
    assert_eq!(discover_profiles("u9"), "user:u9:discover_profiles");
    assert_eq!(rate_limit("1.2.3.4", "/likes"), "rate_limit:1.2.3.4:/likes");
}
