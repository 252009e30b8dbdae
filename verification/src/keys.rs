//! The keys under which values are cached. A key is built from its parts in
//! one way only, so the part of the program that writes a value and the part
//! that reads it agree.
use vstd::prelude::*;
use vstd::string::StringExecFns;
use crate::lex::canonical_pair;
use crate::lex::lemma_canonical_pair;
use crate::lex::str_lt;
use crate::text::concat3;
use crate::text::decimal;
use crate::text::decimal_string;

verus! {

/// The key of a user's top artists: `user:<id>:top_artists:<limit>`.
pub open spec fn user_top_artists_key(user_id: Seq<char>, limit: nat) -> Seq<char> {
    "user:"@ + user_id + ":top_artists:"@ + decimal(limit)
}

/// The key of the score of two users: `compatibility:<first>:<second>`, the
/// two in ascending order.
pub open spec fn compatibility_key(user1_id: Seq<char>, user2_id: Seq<char>) -> Seq<char> {
    "compatibility:"@ + canonical_pair(user1_id, user2_id).0 + ":"@ + canonical_pair(
        user1_id,
        user2_id,
    ).1
}

/// The key of a response of the listening-history service:
/// `lastfm:<endpoint>:<params>`.
pub open spec fn lastfm_api_key(endpoint: Seq<char>, params: Seq<char>) -> Seq<char> {
    "lastfm:"@ + endpoint + ":"@ + params
}

/// The key of a user's music profile: `user:<id>:music_dna`.
pub open spec fn music_dna_key(user_id: Seq<char>) -> Seq<char> {
    "user:"@ + user_id + ":music_dna"@
}

/// The key of the profiles shown to a user: `user:<id>:discover_profiles`.
pub open spec fn discover_profiles_key(user_id: Seq<char>) -> Seq<char> {
    "user:"@ + user_id + ":discover_profiles"@
}

/// The key of a request counter: `rate_limit:<identifier>:<endpoint>`.
pub open spec fn rate_limit_key(identifier: Seq<char>, endpoint: Seq<char>) -> Seq<char> {
    "rate_limit:"@ + identifier + ":"@ + endpoint
}

/// The score of two users is cached under one key, whichever of the two is
/// named first.
pub proof fn lemma_compatibility_key_symmetric(user1_id: Seq<char>, user2_id: Seq<char>)
    ensures
        compatibility_key(user1_id, user2_id) == compatibility_key(user2_id, user1_id),
{
    lemma_canonical_pair(user1_id, user2_id);
}

/// Cache key for a user's top artists.
pub fn user_top_artists(user_id: &str, limit: usize) -> (key: String)
    ensures
        key@ == user_top_artists_key(user_id@, limit as nat),
{
    let mut key = concat3("user:", user_id, ":top_artists:");
    let number = decimal_string(limit as u64);
    key.append(number.as_str());
    key
}

/// Cache key for the compatibility score of two users.
pub fn compatibility(user1_id: &str, user2_id: &str) -> (key: String)
    ensures
        key@ == compatibility_key(user1_id@, user2_id@),
{
    let (first, second) = if str_lt(user1_id, user2_id) {
        (user1_id, user2_id)
    } else {
        (user2_id, user1_id)
    };
    let mut key = concat3("compatibility:", first, ":");
    key.append(second);
    key
}

/// Cache key for data of the listening-history service.
pub fn lastfm_api(endpoint: &str, params: &str) -> (key: String)
    ensures
        key@ == lastfm_api_key(endpoint@, params@),
{
    let mut key = concat3("lastfm:", endpoint, ":");
    key.append(params);
    key
}

/// Cache key for a user's music profile.
pub fn music_dna(user_id: &str) -> (key: String)
    ensures
        key@ == music_dna_key(user_id@),
{
    concat3("user:", user_id, ":music_dna")
}

/// Cache key for the profiles shown to a user.
pub fn discover_profiles(user_id: &str) -> (key: String)
    ensures
        key@ == discover_profiles_key(user_id@),
{
    concat3("user:", user_id, ":discover_profiles")
}

/// Cache key for a request counter.
pub fn rate_limit(identifier: &str, endpoint: &str) -> (key: String)
    ensures
        key@ == rate_limit_key(identifier@, endpoint@),
{
    let mut key = concat3("rate_limit:", identifier, ":");
    key.append(endpoint);
    key
}

} // verus!
