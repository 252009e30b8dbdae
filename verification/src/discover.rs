//! Which profiles a user is shown, and in what order.
use vstd::prelude::*;
use crate::models::Artist;
use crate::scoring::below_spec;
use crate::scoring::Score;

verus! {

/// A profile is shown only with a score of this at least.
pub const MIN_SCORE_SHOWN: i32 = 10;

/// How many shared artists a profile shows.
pub const COMMON_ARTISTS_SHOWN: usize = 3;

/// How many of its top artists a profile shows.
pub const TOP_ARTISTS_SHOWN: usize = 5;

/// Whether a candidate of this age passes the bounds on age. A candidate
/// whose age is not known passes.
pub open spec fn age_allowed_spec(age: Option<u32>, min_age: Option<u32>, max_age: Option<u32>) -> bool {
    match age {
        Some(a) => (min_age matches Some(min) ==> a >= min) && (max_age matches Some(max) ==> a
            <= max),
        None => true,
    }
}

/// Whether a candidate of this age passes the bounds on age.
pub fn age_allowed(age: Option<u32>, min_age: Option<u32>, max_age: Option<u32>) -> (r: bool)
    ensures
        r == age_allowed_spec(age, min_age, max_age),
{
    match age {
        Some(a) => {
            let above = match min_age {
                Some(min) => a >= min,
                None => true,
            };
            let below = match max_age {
                Some(max) => a <= max,
                None => true,
            };
            above && below
        },
        None => true,
    }
}

/// Whether a candidate with this score is shown: the score is 10 at least.
pub fn score_shown(score: Score) -> (r: bool)
    ensures
        r == !below_spec(score.spec_bits(), MIN_SCORE_SHOWN as int),
{
    !score.below(MIN_SCORE_SHOWN)
}

/// `a` is shown before `b`: its score is greater, or the scores are the same
/// and it came first.
pub open spec fn shown_before(scores: Seq<Score>, a: usize, b: usize) -> bool {
    scores[a as int].spec_bits() > scores[b as int].spec_bits() || (scores[a as int].spec_bits()
        == scores[b as int].spec_bits() && a < b)
}

/// `order` lists the first `n` places of `scores`, each once, the greatest
/// score first and equal scores in the order in which they came.
pub open spec fn is_ranking(order: Seq<usize>, scores: Seq<Score>, n: int) -> bool {
    &&& order.len() == n
    &&& forall|i: int| 0 <= i < order.len() ==> (#[trigger] order[i]) < n
    &&& forall|i: int, j: int|
        0 <= i < j < order.len() ==> shown_before(scores, #[trigger] order[i], #[trigger] order[j])
}

/// The order in which candidates with these scores are shown: the places
/// of the scores, the greatest score first and equal scores in the order in
/// which they came.
pub fn rank_by_score(scores: &Vec<Score>) -> (order: Vec<usize>)
    ensures
        is_ranking(order@, scores@, scores@.len() as int),
{
    let mut order: Vec<usize> = Vec::new();
    let mut k: usize = 0;
    while k < scores.len()
        invariant
            k <= scores@.len(),
            is_ranking(order@, scores@, k as int),
        decreases scores@.len() - k,
    {
        let bits = scores[k].bits();
        let mut p: usize = 0;
        while p < order.len() && scores[order[p]].bits() >= bits
            invariant
                p <= order@.len(),
                k < scores@.len(),
                bits == scores@[k as int].spec_bits(),
                is_ranking(order@, scores@, k as int),
                forall|i: int|
                    0 <= i < p ==> scores@[(#[trigger] order@[i]) as int].spec_bits() >= bits,
            decreases order@.len() - p,
        {
            p += 1;
        }
        let ghost before = order@;
        order.insert(p, k);
        proof {
            assert forall|i: int| 0 <= i < order@.len() implies (#[trigger] order@[i]) < k + 1 by {
                if i < p {
                    assert(order@[i] == before[i]);
                } else if i > p {
                    assert(order@[i] == before[i - 1]);
                }
            }
            assert forall|i: int, j: int| 0 <= i < j < order@.len() implies shown_before(
                scores@,
                #[trigger] order@[i],
                #[trigger] order@[j],
            ) by {
                if j < p {
                    assert(shown_before(scores@, before[i], before[j]));
                } else if j == p {
                    assert(order@[i] == before[i]);
                    assert(before[i] < k);
                } else if i < p {
                    assert(shown_before(scores@, before[i], before[j - 1]));
                } else if i == p {
                    assert(order@[j] == before[j - 1]);
                    if j - 1 > p {
                        assert(shown_before(scores@, before[p as int], before[j - 1]));
                    }
                } else {
                    assert(shown_before(scores@, before[i - 1], before[j - 1]));
                }
            }
        }
        k += 1;
    }
    order
}

/// The names of the first `limit` artists of a profile.
pub fn top_artist_names(artists: &Vec<Artist>, limit: usize) -> (top: Vec<String>)
    ensures
        top@.len() == if artists@.len() <= limit {
            artists@.len()
        } else {
            limit as nat
        },
        forall|i: int| 0 <= i < top@.len() ==> (#[trigger] top@[i]) == artists@[i].name,
{
    let mut top: Vec<String> = Vec::new();
    let mut i: usize = 0;
    while i < artists.len() && i < limit
        invariant
            i <= artists@.len(),
            i <= limit,
            top@.len() == i,
            forall|j: int| 0 <= j < i ==> (#[trigger] top@[j]) == artists@[j].name,
        decreases artists@.len() - i,
    {
        top.push(artists[i].name.clone());
        i += 1;
    }
    top
}

/// A day of the calendar.
#[derive(Debug, Clone, Copy, PartialEq, Eq, Structural)]
pub struct CalendarDay {
    pub year: i32,
    pub month: u32,
    pub day: u32,
}

/// The day `a` comes before the day `b` within a year.
pub open spec fn earlier_in_year(a: CalendarDay, b: CalendarDay) -> bool {
    a.month < b.month || (a.month == b.month && a.day < b.day)
}

/// The whole years from a day of birth to a day: the difference of the
/// years, less one before the birthday of the year; 0 for a day before the
/// birth.
pub open spec fn age_spec(birth: CalendarDay, today: CalendarDay) -> int {
    let years = today.year - birth.year - if earlier_in_year(today, birth) {
        1int
    } else {
        0int
    };
    if years >= 0 {
        years
    } else {
        0
    }
}

/// The age on `today` of someone born on `birth`, in whole years.
pub fn age_in_years(birth: CalendarDay, today: CalendarDay) -> (age: u32)
    ensures
        age == age_spec(birth, today),
{
    let mut years: i64 = today.year as i64 - birth.year as i64;
    if today.month < birth.month || (today.month == birth.month && today.day < birth.day) {
        years = years - 1;
    }
    if years >= 0 {
        years as u32
    } else {
        0
    }
}

} // verus!
