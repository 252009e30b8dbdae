//! The records that the rules speak of.
use vstd::prelude::*;
use crate::fresh::fresh_id;
use crate::fresh::is_random_uuid_text;
use crate::fresh::now_utc;
use crate::lex::canonical_pair;
use crate::lex::lemma_canonical_pair;
use crate::lex::str_eq;
use crate::lex::name_le;
use crate::lex::str_lt;
use crate::scoring::Score;

verus! {

/// One artist in a user's listening profile. The place of an artist in the
/// list is its rank: index 0 is the most played.
#[derive(Debug, Clone)]
pub struct Artist {
    pub name: String,
    pub mbid: Option<String>,
    pub play_count: i32,
    pub listeners: i32,
}

/// One user's like of another.
#[derive(Debug, Clone)]
pub struct Like {
    pub id: String,
    pub from_user_id: String,
    pub to_user_id: String,
    pub created_at: chrono::NaiveDateTime,
}

/// The request to like a user.
#[derive(Debug)]
pub struct CreateLike {
    pub to_user_id: String,
}

impl Like {
    /// A like made now, under a new identifier.
    pub fn new(from_user_id: String, to_user_id: String) -> (like: Like)
        ensures
            like.from_user_id == from_user_id,
            like.to_user_id == to_user_id,
            is_random_uuid_text(like.id@),
    {
        Like { id: fresh_id(), from_user_id, to_user_id, created_at: now_utc() }
    }
}

/// Two users who like each other. The two are held in ascending order of
/// their identifiers, so that a pair has one form only.
#[derive(Debug, Clone)]
pub struct Match {
    pub id: String,
    pub user1_id: String,
    pub user2_id: String,
    pub compatibility_score: Option<Score>,
    pub created_at: chrono::NaiveDateTime,
}

impl Match {
    /// The first user is not after the second.
    pub open spec fn is_canonical(&self) -> bool {
        name_le(self.user1_id@, self.user2_id@)
    }

    /// The two users, as a pair of names.
    pub open spec fn pair(&self) -> (Seq<char>, Seq<char>) {
        (self.user1_id@, self.user2_id@)
    }

    /// The user is one of the two.
    pub open spec fn spec_involves(&self, user_id: Seq<char>) -> bool {
        self.user1_id@ == user_id || self.user2_id@ == user_id
    }

    /// A match of the two users made now, under a new identifier. The users
    /// may be given in either order.
    pub fn new(user1_id: String, user2_id: String, compatibility_score: Option<Score>) -> (m: Match)
        ensures
            m.pair() == canonical_pair(user1_id@, user2_id@),
            m.is_canonical(),
            m.compatibility_score == compatibility_score,
            is_random_uuid_text(m.id@),
    {
        proof {
            lemma_canonical_pair(user1_id@, user2_id@);
        }
        let (user1, user2) = if str_lt(user1_id.as_str(), user2_id.as_str()) {
            (user1_id, user2_id)
        } else {
            (user2_id, user1_id)
        };
        Match {
            id: fresh_id(),
            user1_id: user1,
            user2_id: user2,
            compatibility_score,
            created_at: now_utc(),
        }
    }

    /// A copy of the match.
    pub fn duplicate(&self) -> (m: Match)
        ensures
            m == *self,
    {
        Match {
            id: self.id.clone(),
            user1_id: self.user1_id.clone(),
            user2_id: self.user2_id.clone(),
            compatibility_score: self.compatibility_score,
            created_at: self.created_at,
        }
    }

    /// Whether the user is one of the two.
    pub fn involves(&self, user_id: &str) -> (r: bool)
        ensures
            r == self.spec_involves(user_id@),
    {
        str_eq(self.user1_id.as_str(), user_id) || str_eq(self.user2_id.as_str(), user_id)
    }

    /// The other user of the match, as seen by `user_id`: the second user if
    /// `user_id` is the first, else the first.
    pub fn other_user(&self, user_id: &str) -> (other: &String)
        ensures
            *other == if self.user1_id@ == user_id@ {
                self.user2_id
            } else {
                self.user1_id
            },
    {
        if str_eq(self.user1_id.as_str(), user_id) {
            &self.user2_id
        } else {
            &self.user1_id
        }
    }
}

/// A chat message within a match.
#[derive(Debug, Clone)]
pub struct Message {
    pub id: String,
    pub match_id: String,
    pub sender_id: String,
    pub content: String,
    pub read_at: Option<chrono::NaiveDateTime>,
    pub created_at: chrono::NaiveDateTime,
}

/// The request to send a message.
#[derive(Debug)]
pub struct CreateMessage {
    pub content: String,
}

impl Message {
    /// An unread message sent now, under a new identifier.
    pub fn new(match_id: String, sender_id: String, content: String) -> (message: Message)
        ensures
            message.match_id == match_id,
            message.sender_id == sender_id,
            message.content == content,
            message.read_at is None,
            is_random_uuid_text(message.id@),
    {
        Message {
            id: fresh_id(),
            match_id,
            sender_id,
            content,
            read_at: None,
            created_at: now_utc(),
        }
    }
}

/// A photo of a user.
#[derive(Debug, Clone)]
pub struct Photo {
    pub id: String,
    pub user_id: String,
    pub url: String,
    pub position: i32,
    pub created_at: chrono::NaiveDateTime,
}

/// The request to add a photo.
#[derive(Debug)]
pub struct CreatePhoto {
    pub url: String,
    pub position: i32,
}

impl Photo {
    /// A photo added now, under a new identifier.
    pub fn new(user_id: String, url: String, position: i32) -> (photo: Photo)
        ensures
            photo.user_id == user_id,
            photo.url == url,
            photo.position == position,
            is_random_uuid_text(photo.id@),
    {
        Photo { id: fresh_id(), user_id, url, position, created_at: now_utc() }
    }
}

/// One artist of a user's listening history, as it is cached.
#[derive(Debug, Clone)]
pub struct Scrobble {
    pub id: String,
    pub user_id: String,
    pub artist_name: String,
    pub artist_mbid: Option<String>,
    pub track_name: Option<String>,
    pub play_count: i32,
    pub listeners: i32,
    pub period: String,
    pub last_synced_at: chrono::NaiveDateTime,
}

impl Scrobble {
    /// A cache entry synced now, under a new identifier, for no track.
    pub fn new(
        user_id: String,
        artist_name: String,
        artist_mbid: Option<String>,
        play_count: i32,
        listeners: i32,
        period: String,
    ) -> (scrobble: Scrobble)
        ensures
            scrobble.user_id == user_id,
            scrobble.artist_name == artist_name,
            scrobble.artist_mbid == artist_mbid,
            scrobble.track_name is None,
            scrobble.play_count == play_count,
            scrobble.listeners == listeners,
            scrobble.period == period,
            is_random_uuid_text(scrobble.id@),
    {
        Scrobble {
            id: fresh_id(),
            user_id,
            artist_name,
            artist_mbid,
            track_name: None,
            play_count,
            listeners,
            period,
            last_synced_at: now_utc(),
        }
    }

    /// The artist of the entry, as a profile holds it.
    pub fn into_artist(self) -> (artist: Artist)
        ensures
            artist.name == self.artist_name,
            artist.mbid == self.artist_mbid,
            artist.play_count == self.play_count,
            artist.listeners == self.listeners,
    {
        Artist {
            name: self.artist_name,
            mbid: self.artist_mbid,
            play_count: self.play_count,
            listeners: self.listeners,
        }
    }
}

} // verus!
