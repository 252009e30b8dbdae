//! The listening-history service: how it is asked, and how its answer
//! becomes a profile.
use vstd::prelude::*;
use vstd::string::StringExecFns;
use crate::errors::AppError;
use crate::errors::ErrorView;
use crate::models::Artist;
use crate::numbers::numeral_value;
use crate::numbers::parse_i32;
use crate::text::concat2;
use crate::text::decimal;
use crate::text::decimal_string;
use crate::text::owned;

verus! {

/// The span of listening history that profiles are made from.
pub open spec fn sync_period_spec() -> Seq<char> {
    "6month"@
}

/// How many artists a profile has at most.
pub const PROFILE_LIMIT: u32 = 50;

/// The request to connect an account of the service.
#[derive(Debug)]
pub struct ConnectLastFmRequest {
    pub username: String,
}

/// The span of listening history that profiles are made from.
pub fn sync_period() -> (period: &'static str)
    ensures
        period@ == sync_period_spec(),
{
    "6month"
}

/// The address that lists the top artists of a user. The parts are put in
/// as they are.
pub open spec fn top_artists_url_spec(
    username: Seq<char>,
    period: Seq<char>,
    limit: u32,
    api_key: Seq<char>,
) -> Seq<char> {
    "https://ws.audioscrobbler.com/2.0/?method=user.gettopartists&user="@ + username + "&period="@
        + period + "&limit="@ + decimal(limit as nat) + "&api_key="@ + api_key + "&format=json"@
}

/// The address that lists the top artists of a user.
pub fn top_artists_url(username: &str, period: &str, limit: u32, api_key: &str) -> (url: String)
    ensures
        url@ == top_artists_url_spec(username@, period@, limit, api_key@),
{
    let mut url = concat2(
        "https://ws.audioscrobbler.com/2.0/?method=user.gettopartists&user=",
        username,
    );
    url.append("&period=");
    url.append(period);
    url.append("&limit=");
    let number = decimal_string(limit as u64);
    url.append(number.as_str());
    url.append("&api_key=");
    url.append(api_key);
    url.append("&format=json");
    url
}

/// The count that a text of the service stands for: the number it spells,
/// or 0 where it spells none that a count can hold.
pub open spec fn count_spec(text: Seq<char>) -> int {
    match numeral_value(text, true) {
        Some(v) => if i32::MIN <= v <= i32::MAX {
            v
        } else {
            0
        },
        None => 0,
    }
}

/// The identifier of an artist in the open music database, where the
/// service gives one that is not empty.
pub open spec fn mbid_spec(mbid: Option<String>) -> Option<String> {
    match mbid {
        Some(id) => if id@.len() == 0 {
            None
        } else {
            Some(id)
        },
        None => None,
    }
}

/// One artist of a listing of the service as an entry of a profile.
pub fn artist_from_listing(name: String, mbid: Option<String>, playcount: &str, listeners: &str) -> (artist:
    Artist)
    ensures
        artist.name == name,
        artist.mbid == mbid_spec(mbid),
        artist.play_count == count_spec(playcount@),
        artist.listeners == count_spec(listeners@),
{
    let mbid = match mbid {
        Some(id) => if id.as_str().is_empty() {
            None
        } else {
            Some(id)
        },
        None => None,
    };
    let play_count = match parse_i32(playcount) {
        Some(n) => n,
        None => 0,
    };
    let listeners = match parse_i32(listeners) {
        Some(n) => n,
        None => 0,
    };
    Artist { name, mbid, play_count, listeners }
}

/// What a caller is told when the service could not be reached.
pub fn fetch_failed(reason: &str) -> (e: AppError)
    ensures
        e@ == ErrorView::ExternalApi("Failed to fetch Last.fm data: "@ + reason@),
{
    AppError::ExternalApi(concat2("Failed to fetch Last.fm data: ", reason))
}

/// What a caller is told when the service answered with a failure.
pub fn status_failed(status: &str) -> (e: AppError)
    ensures
        e@ == ErrorView::ExternalApi("Last.fm API returned status: "@ + status@),
{
    AppError::ExternalApi(concat2("Last.fm API returned status: ", status))
}

/// What a caller is told when the answer of the service could not be read.
pub fn parse_failed(reason: &str) -> (e: AppError)
    ensures
        e@ == ErrorView::ExternalApi("Failed to parse Last.fm response: "@ + reason@),
{
    AppError::ExternalApi(concat2("Failed to parse Last.fm response: ", reason))
}

/// What a caller is told who syncs without a connected account.
pub fn not_connected() -> (e: AppError)
    ensures
        e@ == ErrorView::Validation("Last.fm account not connected"@),
{
    AppError::Validation(owned("Last.fm account not connected"))
}

} // verus!
