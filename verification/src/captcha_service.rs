//! Challenges that keep scripts out: a small sum to work out, bound to the
//! address that asked for it and good for ten minutes and one answer.
use vstd::prelude::*;
use crate::fresh::fresh_id;
use crate::fresh::is_random_uuid_text;
use crate::fresh::random_between;
use crate::lex::str_eq;
use crate::text::concat3;
use crate::text::decimal;
use crate::text::decimal_string;
use crate::text::trim;
use crate::text::trimmed;

verus! {

/// A challenge is good for this long: ten minutes, in nanoseconds.
pub const CHALLENGE_LIFETIME_NANOS: i128 = 600_000_000_000;

/// A point in time: seconds since 1970 and the nanoseconds after them.
#[derive(Debug, Clone, Copy, PartialEq, Eq, Structural)]
pub struct Moment {
    pub seconds: i64,
    pub nanos: u32,
}

/// A challenge as it is sent out.
#[derive(Debug, Clone)]
pub struct CaptchaResponse {
    pub id: String,
    pub challenge: String,
}

/// An answer that is sent in.
#[derive(Debug)]
pub struct ValidateCaptchaRequest {
    pub id: String,
    pub answer: String,
}

/// Whether an answer was right.
#[derive(Debug)]
pub struct ValidateCaptchaResponse {
    pub valid: bool,
}

/// A challenge as it is kept: the right answer, the hash of the address that
/// asked, and the time it was made.
#[derive(Debug, Clone)]
pub struct CaptchaEntry {
    pub answer: String,
    pub ip_hash: String,
    pub created_at: Moment,
}

/// The nanoseconds from one moment to another.
pub open spec fn elapsed_nanos(from: Moment, to: Moment) -> int {
    (to.seconds - from.seconds) * 1_000_000_000 + (to.nanos - from.nanos)
}

/// A challenge made at `created` is no longer good at `now`: ten whole
/// minutes have passed.
pub open spec fn expired(created: Moment, now: Moment) -> bool {
    elapsed_nanos(created, now) >= CHALLENGE_LIFETIME_NANOS
}

/// The challenges that are still good at `now`, in their order.
pub open spec fn unexpired(entries: Seq<(String, CaptchaEntry)>, now: Moment) -> Seq<
    (String, CaptchaEntry),
>
    decreases entries.len(),
{
    if entries.len() == 0 {
        entries
    } else if expired(entries.last().1.created_at, now) {
        unexpired(entries.drop_last(), now)
    } else {
        unexpired(entries.drop_last(), now).push(entries.last())
    }
}

/// The challenges but those with this identifier, in their order.
pub open spec fn without_id(entries: Seq<(String, CaptchaEntry)>, id: Seq<char>) -> Seq<
    (String, CaptchaEntry),
>
    decreases entries.len(),
{
    if entries.len() == 0 {
        entries
    } else if entries.last().0@ == id {
        without_id(entries.drop_last(), id)
    } else {
        without_id(entries.drop_last(), id).push(entries.last())
    }
}

/// The first challenge with this identifier.
pub open spec fn entry_of(entries: Seq<(String, CaptchaEntry)>, id: Seq<char>) -> Option<
    CaptchaEntry,
>
    decreases entries.len(),
{
    if entries.len() == 0 {
        None
    } else if entries[0].0@ == id {
        Some(entries[0].1)
    } else {
        entry_of(entries.drop_first(), id)
    }
}

/// The sum to work out and its answer. An addition is `a + b`; a
/// subtraction takes the smaller number from the greater, so that no answer
/// is negative.
pub open spec fn challenge_spec(num1: u32, num2: u32, subtract: bool) -> (Seq<char>, Seq<char>) {
    if !subtract {
        (
            decimal(num1 as nat) + " + "@ + decimal(num2 as nat),
            decimal((num1 + num2) as nat),
        )
    } else {
        let larger = if num1 > num2 {
            num1
        } else {
            num2
        };
        let smaller = if num1 > num2 {
            num2
        } else {
            num1
        };
        (
            decimal(larger as nat) + " - "@ + decimal(smaller as nat),
            decimal((larger - smaller) as nat),
        )
    }
}

/// The question that is sent out for a sum.
pub open spec fn question_spec(sum: Seq<char>) -> Seq<char> {
    "What is "@ + sum + "?"@
}

/// Whether an answer is right for an entry: the entry is still good, the
/// address is the one that asked, and the answers agree but for the white
/// space around them.
pub open spec fn answer_accepted(
    entry: CaptchaEntry,
    answer: Seq<char>,
    ip_hash: Seq<char>,
    now: Moment,
) -> bool {
    &&& !expired(entry.created_at, now)
    &&& entry.ip_hash@ == ip_hash
    &&& trimmed(entry.answer@) == trimmed(answer)
}

/// Whether a challenge made at `created` is no longer good at `now`.
pub fn is_expired(created: Moment, now: Moment) -> (r: bool)
    ensures
        r == expired(created, now),
{
    let seconds: i128 = now.seconds as i128 - created.seconds as i128;
    let nanos: i128 = now.nanos as i128 - created.nanos as i128;
    seconds * 1_000_000_000 + nanos >= CHALLENGE_LIFETIME_NANOS
}

/// The sum to work out and its answer.
pub fn challenge_for(num1: u32, num2: u32, subtract: bool) -> (r: (String, String))
    ensures
        (r.0@, r.1@) == challenge_spec(num1, num2, subtract),
{
    if !subtract {
        let a = decimal_string(num1 as u64);
        let b = decimal_string(num2 as u64);
        let total: u64 = num1 as u64 + num2 as u64;
        let sum = concat3(a.as_str(), " + ", b.as_str());
        (sum, decimal_string(total))
    } else {
        let (larger, smaller) = if num1 > num2 {
            (num1, num2)
        } else {
            (num2, num1)
        };
        let a = decimal_string(larger as u64);
        let b = decimal_string(smaller as u64);
        let sum = concat3(a.as_str(), " - ", b.as_str());
        (sum, decimal_string((larger - smaller) as u64))
    }
}

/// The challenges that are out. The caller shares one among its requests.
pub struct CaptchaService {
    store: Vec<(String, CaptchaEntry)>,
}

impl CaptchaService {
    /// The challenges that are out, oldest first.
    pub closed spec fn entries(&self) -> Seq<(String, CaptchaEntry)> {
        self.store@
    }

    /// A service with no challenge out.
    pub fn new() -> (service: Self)
        ensures
            service.entries().len() == 0,
    {
        Self { store: Vec::new() }
    }

    /// How many challenges are out.
    pub fn len(&self) -> (n: usize)
        ensures
            n == self.entries().len(),
    {
        self.store.len()
    }

    /// Drops the challenges that are no longer good.
    pub fn purge_expired(&mut self, now: Moment)
        ensures
            final(self).entries() == unexpired(old(self).entries(), now),
    {
        let mut kept: Vec<(String, CaptchaEntry)> = Vec::new();
        let mut i: usize = 0;
        while i < self.store.len()
            invariant
                i <= self.store@.len(),
                self.store@ == old(self).store@,
                kept@ == unexpired(self.store@.take(i as int), now),
            decreases self.store@.len() - i,
        {
            assert(self.store@.take(i + 1).drop_last() =~= self.store@.take(i as int));
            if !is_expired(self.store[i].1.created_at, now) {
                let id = self.store[i].0.clone();
                let entry = CaptchaEntry {
                    answer: self.store[i].1.answer.clone(),
                    ip_hash: self.store[i].1.ip_hash.clone(),
                    created_at: self.store[i].1.created_at,
                };
                kept.push((id, entry));
            }
            i += 1;
        }
        assert(self.store@.take(self.store@.len() as int) =~= self.store@);
        self.store = kept;
    }

    /// Takes the challenge with this identifier out of the store.
    pub fn take(&mut self, id: &str) -> (entry: Option<CaptchaEntry>)
        ensures
            final(self).entries() == without_id(old(self).entries(), id@),
            entry == entry_of(old(self).entries(), id@),
    {
        let mut kept: Vec<(String, CaptchaEntry)> = Vec::new();
        let mut found: Option<CaptchaEntry> = None;
        let mut i: usize = 0;
        assert(self.store@.skip(0) =~= self.store@);
        while i < self.store.len()
            invariant
                i <= self.store@.len(),
                self.store@ == old(self).store@,
                kept@ == without_id(self.store@.take(i as int), id@),
                match found {
                    Some(e) => entry_of(self.store@, id@) == Some(e),
                    None => entry_of(self.store@, id@) == entry_of(
                        self.store@.skip(i as int),
                        id@,
                    ),
                },
            decreases self.store@.len() - i,
        {
            assert(self.store@.take(i + 1).drop_last() =~= self.store@.take(i as int));
            assert(self.store@.skip(i as int).drop_first() =~= self.store@.skip(i + 1));
            let entry = CaptchaEntry {
                answer: self.store[i].1.answer.clone(),
                ip_hash: self.store[i].1.ip_hash.clone(),
                created_at: self.store[i].1.created_at,
            };
            if str_eq(self.store[i].0.as_str(), id) {
                if found.is_none() {
                    found = Some(entry);
                }
            } else {
                kept.push((self.store[i].0.clone(), entry));
            }
            i += 1;
        }
        assert(self.store@.take(self.store@.len() as int) =~= self.store@);
        self.store = kept;
        found
    }

    /// Puts a challenge out at `now`, for the address with this hash: the
    /// sum of the two numbers, or their difference, under the identifier
    /// `id`. Challenges that are no longer good are dropped first, and so is
    /// one that has this identifier.
    pub fn generate_with(
        &mut self,
        ip_hash: String,
        now: Moment,
        id: String,
        num1: u32,
        num2: u32,
        subtract: bool,
    ) -> (response: CaptchaResponse)
        ensures
            response.id == id,
            response.challenge@ == question_spec(challenge_spec(num1, num2, subtract).0),
            final(self).entries().len() == without_id(
                unexpired(old(self).entries(), now),
                id@,
            ).len() + 1,
            final(self).entries().drop_last() == without_id(
                unexpired(old(self).entries(), now),
                id@,
            ),
            final(self).entries().last().0 == id,
            final(self).entries().last().1.answer@ == challenge_spec(num1, num2, subtract).1,
            final(self).entries().last().1.ip_hash == ip_hash,
            final(self).entries().last().1.created_at == now,
    {
        self.purge_expired(now);
        let _ = self.take(id.as_str());
        let (sum, answer) = challenge_for(num1, num2, subtract);
        let ghost before = self.store@;
        self.store.push((id.clone(), CaptchaEntry { answer, ip_hash, created_at: now }));
        assert(self.store@.drop_last() =~= before);
        CaptchaResponse { id, challenge: concat3("What is ", sum.as_str(), "?") }
    }

    /// Puts a new challenge out at `now`, for the address with this hash:
    /// two random numbers from 1 to 20, to add or to subtract, under a new
    /// identifier.
    pub fn generate(&mut self, ip_hash: String, now: Moment) -> (response: CaptchaResponse)
        ensures
            is_random_uuid_text(response.id@),
            final(self).entries().len() >= 1,
            final(self).entries().last().0 == response.id,
            final(self).entries().last().1.ip_hash == ip_hash,
            final(self).entries().last().1.created_at == now,
            exists|num1: u32, num2: u32, subtract: bool|
                1 <= num1 <= 20 && 1 <= num2 <= 20 && response.challenge@ == question_spec(
                    #[trigger] challenge_spec(num1, num2, subtract).0,
                ) && final(self).entries().last().1.answer@ == challenge_spec(
                    num1,
                    num2,
                    subtract,
                ).1,
    {
        let num1 = random_between(1, 20);
        let num2 = random_between(1, 20);
        let subtract = random_between(0, 1) == 1;
        let id = fresh_id();
        self.generate_with(ip_hash, now, id, num1, num2, subtract)
    }

    /// Checks an answer at `now`. The challenge is taken out of the store
    /// whatever the answer: it can be tried once.
    pub fn validate(&mut self, id: &str, answer: &str, ip_hash: &str, now: Moment) -> (valid: bool)
        ensures
            final(self).entries() == without_id(old(self).entries(), id@),
            valid == match entry_of(old(self).entries(), id@) {
                Some(entry) => answer_accepted(entry, answer@, ip_hash@, now),
                None => false,
            },
    {
        match self.take(id) {
            Some(entry) => {
                if is_expired(entry.created_at, now) {
                    return false;
                }
                let expected = trim(entry.answer.as_str());
                let given = trim(answer);
                str_eq(entry.ip_hash.as_str(), ip_hash) && str_eq(
                    expected.as_str(),
                    given.as_str(),
                )
            },
            None => false,
        }
    }
}

} // verus!
