//! How many requests a caller may make in a window of time.
use vstd::prelude::*;
use crate::text::before_first;
use crate::text::chars_of;
use crate::text::find_char;
use crate::text::owned;
use crate::text::take_chars;
use crate::text::trim_chars;
use crate::text::trimmed;

verus! {

/// The answer to one request: whether it may pass, how many more may follow
/// in the window, and in how many seconds the window ends.
#[derive(Debug, Clone, Copy, PartialEq, Eq, Structural)]
pub struct RateDecision {
    pub allowed: bool,
    pub remaining: u32,
    pub reset_in: i64,
}

/// The limit of a kind of request.
#[derive(Debug, Clone, Copy, PartialEq, Eq, Structural)]
pub struct RateLimit {
    pub max_requests: u32,
    pub window_secs: u64,
}

/// The count of requests as the limit sees it: its low 32 bits.
pub open spec fn seen_count(count: i64) -> u32 {
    count as u32
}

/// The seconds of a window as a span of time that may be negative: the low
/// 64 bits of the number, read with a sign.
pub open spec fn window_span(window_secs: u64) -> i64 {
    window_secs as i64
}

impl RateLimit {
    /// The answer to the request that is the `count`th of its window. It may
    /// pass while the count has not gone beyond the limit. `ttl` is what the
    /// counter says of the end of the window, where it could be asked.
    pub fn decide(&self, count: i64, ttl: Option<i64>) -> (d: RateDecision)
        ensures
            d.allowed == (seen_count(count) <= self.max_requests),
            d.remaining == if seen_count(count) <= self.max_requests {
                self.max_requests - seen_count(count)
            } else {
                0
            },
            d.reset_in == match ttl {
                Some(t) => t,
                None => window_span(self.window_secs),
            },
    {
        let seen: u32 = #[verifier::truncate]
        (count as u32);
        let allowed = seen <= self.max_requests;
        let remaining: u32 = if allowed {
            self.max_requests - seen
        } else {
            0
        };
        let reset_in: i64 = match ttl {
            Some(t) => t,
            None => #[verifier::truncate]
            (self.window_secs as i64),
        };
        RateDecision { allowed, remaining, reset_in }
    }

    /// The answer where the counter could not be asked: the request passes,
    /// so that a failure of the counter does not keep callers out.
    pub fn decide_unknown(&self) -> (d: RateDecision)
        ensures
            d.allowed,
            d.remaining == self.max_requests,
            d.reset_in == window_span(self.window_secs),
    {
        RateDecision {
            allowed: true,
            remaining: self.max_requests,
            reset_in: #[verifier::truncate]
            (self.window_secs as i64),
        }
    }
}

/// Whether a counter was made by the increment that gave this value: it
/// was if the value is 1. The window of a counter begins when it is made.
pub fn begins_window(value: i64) -> (r: bool)
    ensures
        r == (value == 1),
{
    value == 1
}

/// The address of the client behind proxies: the first of the addresses
/// that the `x-forwarded-for` header lists, without the white space around
/// it, or `unknown` without the header.
pub open spec fn client_ip_spec(forwarded: Option<Seq<char>>) -> Seq<char> {
    match forwarded {
        Some(list) => trimmed(before_first(list, ',')),
        None => "unknown"@,
    }
}

/// The address of the client behind proxies.
pub fn client_ip(forwarded: Option<&str>) -> (ip: String)
    ensures
        ip@ == client_ip_spec(
            match forwarded {
                Some(list) => Some(list@),
                None => None,
            },
        ),
{
    match forwarded {
        Some(list) => {
            let chars = chars_of(list);
            let comma = find_char(&chars, ',');
            let first = take_chars(&chars, comma);
            trim_chars(&first)
        },
        None => owned("unknown"),
    }
}

} // verus!
