//! Events that users want to go to.
use vstd::prelude::*;
use vstd::string::StringExecFns;
use crate::text::owned;

verus! {

/// A user's interest in an event.
#[derive(Debug, Clone)]
pub struct EventInterest {
    pub id: String,
    pub user_id: String,
    pub event_id: String,
    pub event_name: String,
    pub artist_name: Option<String>,
    pub venue_name: Option<String>,
    pub event_date: Option<chrono::NaiveDateTime>,
    pub city: Option<String>,
    pub country: Option<String>,
    pub external_url: Option<String>,
    pub interested_at: chrono::NaiveDateTime,
}

/// The request to note an interest.
#[derive(Debug, Clone)]
pub struct CreateEventInterest {
    pub event_id: String,
    pub event_name: String,
    pub artist_name: Option<String>,
    pub venue_name: Option<String>,
    pub event_date: Option<chrono::NaiveDateTime>,
    pub city: Option<String>,
    pub country: Option<String>,
    pub external_url: Option<String>,
}

/// An event with the users who want to go.
#[derive(Debug, Clone)]
pub struct EventWithCommonUsers {
    pub event_id: String,
    pub event_name: String,
    pub artist_name: Option<String>,
    pub venue_name: Option<String>,
    pub event_date: Option<chrono::NaiveDateTime>,
    pub city: Option<String>,
    pub country: Option<String>,
    pub external_url: Option<String>,
    pub common_user_count: i32,
    pub common_user_names: Vec<String>,
}

/// Where to look for events.
#[derive(Debug)]
pub struct NearbyEventsQuery {
    pub city: Option<String>,
    pub country: Option<String>,
}

/// The rules of events.
pub struct EventService;

/// The start of the query for events near a user: the events of others.
pub open spec fn nearby_select() -> Seq<char> {
    "SELECT DISTINCT event_id, event_name, artist_name, venue_name, event_date, city, country, external_url FROM event_interests WHERE user_id != ?"@
}

/// The end of the query for events near a user: the next fifty.
pub open spec fn nearby_order() -> Seq<char> {
    " ORDER BY event_date ASC LIMIT 50"@
}

/// The query for events near a user, with one condition for the city and one
/// for the country where they are given. The user is bound first, then the
/// city, then the country.
pub open spec fn nearby_query_spec(by_city: bool, by_country: bool) -> Seq<char> {
    nearby_select() + (if by_city && by_country {
        " AND city = ? AND country = ?"@
    } else if by_city {
        " AND city = ?"@
    } else if by_country {
        " AND country = ?"@
    } else {
        ""@
    }) + nearby_order()
}

impl EventService {
    /// The query for events near a user.
    pub fn nearby_events_query(by_city: bool, by_country: bool) -> (query: String)
        ensures
            query@ == nearby_query_spec(by_city, by_country),
    {
        let mut query = owned(
            "SELECT DISTINCT event_id, event_name, artist_name, venue_name, event_date, city, country, external_url FROM event_interests WHERE user_id != ?",
        );
        if by_city && by_country {
            query.append(" AND city = ? AND country = ?");
        } else if by_city {
            query.append(" AND city = ?");
        } else if by_country {
            query.append(" AND country = ?");
        } else {
            query.append("");
        }
        query.append(" ORDER BY event_date ASC LIMIT 50");
        query
    }

    /// The events recommended to a user for these artists. No source of
    /// events is connected, so there are none.
    pub fn recommended_events(top_artists: &Vec<String>) -> (events: Vec<EventInterest>)
        ensures
            events@.len() == 0,
    {
        Vec::new()
    }

    /// An event with the users who want to go.
    pub fn with_common_users(
        event: CreateEventInterest,
        common_user_count: i32,
        common_user_names: Vec<String>,
    ) -> (r: EventWithCommonUsers)
        ensures
            r.event_id == event.event_id,
            r.event_name == event.event_name,
            r.artist_name == event.artist_name,
            r.venue_name == event.venue_name,
            r.event_date == event.event_date,
            r.city == event.city,
            r.country == event.country,
            r.external_url == event.external_url,
            r.common_user_count == common_user_count,
            r.common_user_names == common_user_names,
    {
        EventWithCommonUsers {
            event_id: event.event_id,
            event_name: event.event_name,
            artist_name: event.artist_name,
            venue_name: event.venue_name,
            event_date: event.event_date,
            city: event.city,
            country: event.country,
            external_url: event.external_url,
            common_user_count,
            common_user_names,
        }
    }
}

} // verus!
