//! What every call makes anew: identifiers and the time of day.
use vstd::prelude::*;

verus! {

/// `chrono::NaiveDateTime`, a date and time of day without a zone. The crate
/// carries such values and looks into none.
#[verifier::external_type_specification]
#[verifier::external_body]
pub struct ExNaiveDateTime(chrono::NaiveDateTime);

/// `Clone` of `chrono::NaiveDateTime`, which chrono derives beside `Copy`.
/// Trusted: the clone is the value itself.
pub assume_specification[ <chrono::NaiveDateTime as Clone>::clone ](
    t: &chrono::NaiveDateTime,
) -> (r: chrono::NaiveDateTime)
    ensures
        r == *t,
;

/// `chrono::NaiveDate`, a day of the calendar. The crate carries such values
/// and looks into none.
#[verifier::external_type_specification]
#[verifier::external_body]
pub struct ExNaiveDate(chrono::NaiveDate);

/// `Clone` of `chrono::NaiveDate`, which chrono derives beside `Copy`.
/// Trusted: the clone is the value itself.
pub assume_specification[ <chrono::NaiveDate as Clone>::clone ](d: &chrono::NaiveDate) -> (r:
    chrono::NaiveDate)
    ensures
        r == *d,
;

/// A lower-case hexadecimal digit.
pub open spec fn is_lower_hex(c: char) -> bool {
    ('0' <= c && c <= '9') || ('a' <= c && c <= 'f')
}

/// The text of a random UUID in its hyphenated form: 36 characters, hyphens
/// after the 8th, 12th, 16th and 20th digit, lower-case hexadecimal digits
/// elsewhere, and the version digit 4.
pub open spec fn is_random_uuid_text(s: Seq<char>) -> bool {
    &&& s.len() == 36
    &&& forall|i: int|
        0 <= i < 36 ==> if i == 8 || i == 13 || i == 18 || i == 23 {
            #[trigger] s[i] == '-'
        } else {
            is_lower_hex(s[i])
        }
    &&& s[14] == '4'
}

/// A new random identifier.
///
/// Calls `uuid::Uuid::new_v4` and writes the result as `Display` does. Trusted:
/// the text has the hyphenated form of a version 4 UUID. Which identifier
/// comes is not stated: it is random. The call panics where the operating
/// system gives no random numbers.
#[verifier::external_body]
pub(crate) fn fresh_id() -> (id: String)
    ensures
        is_random_uuid_text(id@),
{
    uuid::Uuid::new_v4().to_string()
}

/// The current time in UTC, without its zone.
///
/// Calls `chrono::Utc::now` and `DateTime::naive_utc`. Nothing is stated of
/// the result: it is the time of the call. The call panics where the clock
/// of the system stands before 1970.
#[verifier::external_body]
pub(crate) fn now_utc() -> (now: chrono::NaiveDateTime) {
    chrono::Utc::now().naive_utc()
}

/// A random number from `low` to `high`, both included.
///
/// Calls `rand::thread_rng` and `Rng::gen_range` with the inclusive range.
/// Trusted: the number lies in the range. Which number comes is not stated:
/// it is random. An empty range, on which `gen_range` panics, is left out.
/// The call panics where the generator of the thread cannot be seeded.
#[verifier::external_body]
pub(crate) fn random_between(low: u32, high: u32) -> (n: u32)
    requires
        low <= high,
    ensures
        low <= n <= high,
{
    rand::Rng::gen_range(&mut rand::thread_rng(), low..=high)
}

} // verus!
