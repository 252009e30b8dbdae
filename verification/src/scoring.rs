//! The layout of a compatibility score.
//!
//! Two ranked artist lists are compared as vectors over the universe of the
//! artist names that occur in either. This module decides everything about
//! those vectors that is exact: which names form the universe and in which
//! order, which entry of a profile speaks for a name, when a score is
//! settled without any arithmetic (0 for an empty profile, 99 for two equal
//! vectors), and how a raw number is brought into the range of a score.
//! What is left is the weight of an entry, the norms and the dot product,
//! which are real-valued and computed by the caller from the `ScorePlan`.
use vstd::prelude::*;
use crate::lex::lemma_name_lt_irreflexive;
use crate::lex::lemma_name_lt_total;
use crate::lex::lemma_name_lt_transitive;
use crate::lex::name_lt;
use crate::lex::str_lt;
use crate::models::Artist;
use crate::text::views;

verus! {

/// Only this many leading entries of a profile carry weight.
pub const RANKED_LIMIT: usize = 50;

/// What the weight of one vector coordinate is computed from: the rank of
/// the entry in its profile and the two counts of the artist.
#[derive(Debug, Clone, Copy, PartialEq, Eq, Structural)]
pub struct WeightTerm {
    pub rank: usize,
    pub play_count: i32,
    pub listeners: i32,
}

/// The artist names of a profile, in rank order.
pub open spec fn names_of(p: Seq<Artist>) -> Seq<Seq<char>> {
    Seq::new(p.len(), |i: int| p[i].name@)
}

/// How many leading entries of a profile carry weight.
pub open spec fn ranked_len(p: Seq<Artist>) -> int {
    if p.len() < RANKED_LIMIT {
        p.len() as int
    } else {
        RANKED_LIMIT as int
    }
}

/// The greatest rank below `upto` at which `name` stands in `p`.
pub open spec fn last_rank(p: Seq<Artist>, name: Seq<char>, upto: int) -> Option<int>
    decreases upto,
{
    if upto <= 0 {
        None
    } else if p[upto - 1].name@ == name {
        Some(upto - 1)
    } else {
        last_rank(p, name, upto - 1)
    }
}

/// The entry that speaks for `name` in `p`: the last one among the ranked
/// entries that bears the name. A name without such an entry has weight zero.
pub open spec fn term_of(p: Seq<Artist>, name: Seq<char>) -> Option<WeightTerm> {
    match last_rank(p, name, ranked_len(p)) {
        Some(i) => Some(
            WeightTerm { rank: i as usize, play_count: p[i].play_count, listeners: p[i].listeners },
        ),
        None => None,
    }
}

/// The vector of a profile over a universe of names.
pub open spec fn terms_over(p: Seq<Artist>, u: Seq<Seq<char>>) -> Seq<Option<WeightTerm>> {
    Seq::new(u.len(), |k: int| term_of(p, u[k]))
}

/// Each name comes before every later one.
pub open spec fn strictly_sorted(u: Seq<Seq<char>>) -> bool {
    forall|i: int, j: int| 0 <= i < j < u.len() ==> name_lt(#[trigger] u[i], #[trigger] u[j])
}

/// `u` is the universe of two profiles: the names that occur in either, each
/// once, in ascending order.
pub open spec fn is_universe(u: Seq<Seq<char>>, a: Seq<Artist>, b: Seq<Artist>) -> bool {
    &&& strictly_sorted(u)
    &&& forall|n: Seq<char>| #[trigger]
        u.contains(n) <==> (names_of(a).contains(n) || names_of(b).contains(n))
}

/// `last_rank` finds a rank that bears the name, and only where one exists.
pub proof fn lemma_last_rank(p: Seq<Artist>, name: Seq<char>, upto: int)
    requires
        0 <= upto <= p.len(),
    ensures
        match last_rank(p, name, upto) {
            Some(i) => 0 <= i < upto && p[i].name@ == name && forall|j: int|
                i < j < upto ==> (#[trigger] p[j]).name@ != name,
            None => forall|j: int| 0 <= j < upto ==> (#[trigger] p[j]).name@ != name,
        },
    decreases upto,
{
    if upto > 0 && p[upto - 1].name@ != name {
        lemma_last_rank(p, name, upto - 1);
    }
}

/// Two strictly sorted sequences with the same names are the same sequence.
pub proof fn lemma_sorted_unique(u: Seq<Seq<char>>, v: Seq<Seq<char>>)
    requires
        strictly_sorted(u),
        strictly_sorted(v),
        forall|n: Seq<char>| u.contains(n) <==> v.contains(n),
    ensures
        u == v,
    decreases u.len(),
{
    if u.len() == 0 {
        if v.len() > 0 {
            assert(v.contains(v[0]));
            assert(u.contains(v[0]));
        }
        assert(u =~= v);
    } else {
        assert(u.contains(u[0]));
        assert(v.contains(u[0]));
        let j = choose|j: int| 0 <= j < v.len() && v[j] == u[0];
        assert(v.contains(v[0]));
        assert(u.contains(v[0]));
        let i = choose|i: int| 0 <= i < u.len() && u[i] == v[0];
        if j > 0 {
            // v[0] < v[j] == u[0] <= u[i] == v[0]
            if i > 0 {
                lemma_name_lt_transitive(v[0], u[0], u[i]);
            }
            lemma_name_lt_irreflexive(v[0]);
        }
        assert(v[0] == u[0]);
        let ut = u.drop_first();
        let vt = v.drop_first();
        assert forall|n: Seq<char>| ut.contains(n) <==> vt.contains(n) by {
            if ut.contains(n) {
                let k = choose|k: int| 0 <= k < ut.len() && ut[k] == n;
                assert(u[k + 1] == n);
                assert(u.contains(n));
                let m = choose|m: int| 0 <= m < v.len() && v[m] == n;
                if m == 0 {
                    lemma_name_lt_irreflexive(u[0]);
                    assert(name_lt(u[0], u[k + 1]));
                }
                assert(vt[m - 1] == n);
            }
            if vt.contains(n) {
                let k = choose|k: int| 0 <= k < vt.len() && vt[k] == n;
                assert(v[k + 1] == n);
                assert(v.contains(n));
                let m = choose|m: int| 0 <= m < u.len() && u[m] == n;
                if m == 0 {
                    lemma_name_lt_irreflexive(v[0]);
                    assert(name_lt(v[0], v[k + 1]));
                }
                assert(ut[m - 1] == n);
            }
        }
        assert(strictly_sorted(ut)) by {
            assert forall|i: int, j: int| 0 <= i < j < ut.len() implies name_lt(
                #[trigger] ut[i],
                #[trigger] ut[j],
            ) by {
                assert(name_lt(u[i + 1], u[j + 1]));
            }
        }
        assert(strictly_sorted(vt)) by {
            assert forall|i: int, j: int| 0 <= i < j < vt.len() implies name_lt(
                #[trigger] vt[i],
                #[trigger] vt[j],
            ) by {
                assert(name_lt(v[i + 1], v[j + 1]));
            }
        }
        lemma_sorted_unique(ut, vt);
        assert(u =~= seq![u[0]] + ut);
        assert(v =~= seq![v[0]] + vt);
    }
}

/// The vectors of two profiles over their universe. A plan exists only for
/// two profiles that both carry weight, so both vectors have a coordinate that
/// is not zero and their norms can be divided by.
#[derive(Debug, Clone)]
pub struct ScorePlan {
    pub universe: Vec<String>,
    pub left: Vec<Option<WeightTerm>>,
    pub right: Vec<Option<WeightTerm>>,
}

impl ScorePlan {
    /// The plan is the layout of `a` against `b`.
    pub open spec fn describes(&self, a: Seq<Artist>, b: Seq<Artist>) -> bool {
        &&& is_universe(views(self.universe@), a, b)
        &&& self.left@ == terms_over(a, views(self.universe@))
        &&& self.right@ == terms_over(b, views(self.universe@))
    }

    /// Both vectors have a coordinate that is not zero.
    pub open spec fn has_weight(&self) -> bool {
        &&& exists|k: int| 0 <= k < self.left@.len() && (#[trigger] self.left@[k]) is Some
        &&& exists|k: int| 0 <= k < self.right@.len() && (#[trigger] self.right@[k]) is Some
    }
}

/// Puts `name` at its place in a sorted list of names, unless it is there.
fn insert_name(u: &mut Vec<String>, name: &String)
    requires
        strictly_sorted(views(old(u)@)),
    ensures
        strictly_sorted(views(final(u)@)),
        forall|n: Seq<char>| #[trigger]
            views(final(u)@).contains(n) <==> (views(old(u)@).contains(n) || n == name@),
{
    let ghost before = views(u@);
    let mut i: usize = 0;
    while i < u.len() && str_lt(u[i].as_str(), name.as_str())
        invariant
            i <= u@.len(),
            u@ == old(u)@,
            before == views(u@),
            forall|j: int| 0 <= j < i ==> name_lt(#[trigger] before[j], name@),
        decreases u@.len() - i,
    {
        i += 1;
    }
    if i < u.len() && u[i] == *name {
        assert(before[i as int] == name@);
        assert(before.contains(name@));
        return ;
    }
    proof {
        if i < before.len() {
            lemma_name_lt_total(before[i as int], name@);
        }
        assert forall|j: int| i <= j < before.len() implies name_lt(name@, #[trigger] before[j]) by {
            if j > i {
                lemma_name_lt_transitive(name@, before[i as int], before[j]);
            }
        }
    }
    u.insert(i, name.clone());
    proof {
        let after = views(u@);
        assert(after =~= before.insert(i as int, name@));
        assert forall|x: int, y: int| 0 <= x < y < after.len() implies name_lt(
            #[trigger] after[x],
            #[trigger] after[y],
        ) by {
            if y < i {
                assert(name_lt(before[x], before[y]));
            } else if y == i {
            } else if x < i {
                assert(name_lt(before[x], before[y - 1]));
            } else if x == i {
            } else {
                assert(name_lt(before[x - 1], before[y - 1]));
            }
        }
        assert forall|n: Seq<char>| #[trigger]
            after.contains(n) <==> (before.contains(n) || n == name@) by {
            if after.contains(n) {
                let k = choose|k: int| 0 <= k < after.len() && after[k] == n;
                if k < i {
                    assert(before[k] == n);
                } else if k > i {
                    assert(before[k - 1] == n);
                }
            }
            if before.contains(n) {
                let k = choose|k: int| 0 <= k < before.len() && before[k] == n;
                if k < i {
                    assert(after[k] == n);
                } else {
                    assert(after[k + 1] == n);
                }
            }
            if n == name@ {
                assert(after[i as int] == n);
            }
        }
    }
}

/// The universe of two profiles: every artist name of either, once, in
/// ascending order. The order depends on the names alone, so it is the same
/// whichever profile is named first.
pub fn artist_universe(a: &Vec<Artist>, b: &Vec<Artist>) -> (u: Vec<String>)
    ensures
        is_universe(views(u@), a@, b@),
{
    let mut u: Vec<String> = Vec::new();
    let mut i: usize = 0;
    while i < a.len()
        invariant
            i <= a@.len(),
            strictly_sorted(views(u@)),
            forall|n: Seq<char>| #[trigger]
                views(u@).contains(n) <==> names_of(a@).take(i as int).contains(n),
        decreases a@.len() - i,
    {
        let ghost seen = names_of(a@).take(i as int);
        insert_name(&mut u, &a[i].name);
        proof {
            let next = names_of(a@).take(i + 1);
            assert(next =~= seen.push(a@[i as int].name@));
            assert forall|n: Seq<char>| #[trigger]
                views(u@).contains(n) <==> next.contains(n) by {
                if next.contains(n) {
                    let k = choose|k: int| 0 <= k < next.len() && next[k] == n;
                    if k < i {
                        assert(seen[k] == n);
                    }
                }
                if seen.contains(n) {
                    let k = choose|k: int| 0 <= k < seen.len() && seen[k] == n;
                    assert(next[k] == n);
                }
                if n == a@[i as int].name@ {
                    assert(next[i as int] == n);
                }
            }
        }
        i += 1;
    }
    assert(names_of(a@).take(a@.len() as int) =~= names_of(a@));
    let mut j: usize = 0;
    while j < b.len()
        invariant
            j <= b@.len(),
            strictly_sorted(views(u@)),
            forall|n: Seq<char>| #[trigger]
                views(u@).contains(n) <==> (names_of(a@).contains(n) || names_of(b@).take(
                    j as int,
                ).contains(n)),
        decreases b@.len() - j,
    {
        let ghost seen = names_of(b@).take(j as int);
        insert_name(&mut u, &b[j].name);
        proof {
            let next = names_of(b@).take(j + 1);
            assert(next =~= seen.push(b@[j as int].name@));
            assert forall|n: Seq<char>| #[trigger]
                views(u@).contains(n) <==> (names_of(a@).contains(n) || next.contains(n)) by {
                if next.contains(n) {
                    let k = choose|k: int| 0 <= k < next.len() && next[k] == n;
                    if k < j {
                        assert(seen[k] == n);
                    }
                }
                if seen.contains(n) {
                    let k = choose|k: int| 0 <= k < seen.len() && seen[k] == n;
                    assert(next[k] == n);
                }
                if n == b@[j as int].name@ {
                    assert(next[j as int] == n);
                }
            }
        }
        j += 1;
    }
    assert(names_of(b@).take(b@.len() as int) =~= names_of(b@));
    u
}

/// The entry of `p` that speaks for `name`, if any of its ranked entries
/// bears the name.
pub fn weight_term(p: &Vec<Artist>, name: &String) -> (t: Option<WeightTerm>)
    ensures
        t == term_of(p@, name@),
{
    let n: usize = if p.len() < RANKED_LIMIT {
        p.len()
    } else {
        RANKED_LIMIT
    };
    let mut found: Option<WeightTerm> = None;
    let mut i: usize = 0;
    while i < n
        invariant
            i <= n,
            n == ranked_len(p@),
            found == match last_rank(p@, name@, i as int) {
                Some(r) => Some(
                    WeightTerm {
                        rank: r as usize,
                        play_count: p@[r].play_count,
                        listeners: p@[r].listeners,
                    },
                ),
                None => None,
            },
        decreases n - i,
    {
        if p[i].name == *name {
            found = Some(
                WeightTerm { rank: i, play_count: p[i].play_count, listeners: p[i].listeners },
            );
        }
        i += 1;
    }
    found
}

/// The vector of `p` over the universe `u`, coordinate by coordinate.
pub fn weight_terms(p: &Vec<Artist>, u: &Vec<String>) -> (v: Vec<Option<WeightTerm>>)
    ensures
        v@ == terms_over(p@, views(u@)),
{
    let mut v: Vec<Option<WeightTerm>> = Vec::new();
    let mut k: usize = 0;
    while k < u.len()
        invariant
            k <= u@.len(),
            v@ == terms_over(p@, views(u@)).take(k as int),
        decreases u@.len() - k,
    {
        let t = weight_term(p, &u[k]);
        v.push(t);
        assert(v@ =~= terms_over(p@, views(u@)).take(k + 1));
        k += 1;
    }
    assert(v@ =~= terms_over(p@, views(u@)));
    v
}

/// A profile that is not empty has a coordinate that is not zero in every
/// universe that holds its names.
pub proof fn lemma_profile_has_weight(p: Seq<Artist>, u: Seq<Seq<char>>)
    requires
        p.len() > 0,
        forall|n: Seq<char>| names_of(p).contains(n) ==> #[trigger] u.contains(n),
    ensures
        exists|k: int| 0 <= k < u.len() && (#[trigger] terms_over(p, u)[k]) is Some,
{
    let n = p[0].name@;
    assert(names_of(p)[0] == n);
    assert(names_of(p).contains(n));
    assert(u.contains(n));
    let k = choose|k: int| 0 <= k < u.len() && u[k] == n;
    lemma_last_rank(p, n, ranked_len(p));
    assert(terms_over(p, u)[k] is Some);
}

/// Lays out the score of `a` against `b`.
///
/// There is no plan when either profile is empty: the score is then zero.
/// Otherwise the plan holds the universe of both profiles and the vector of
/// each over it, and neither vector is all zero.
pub fn score_plan(a: &Vec<Artist>, b: &Vec<Artist>) -> (r: Option<ScorePlan>)
    ensures
        r is None <==> (a@.len() == 0 || b@.len() == 0),
        r matches Some(p) ==> p.describes(a@, b@) && p.has_weight(),
{
    if a.len() == 0 || b.len() == 0 {
        return None;
    }
    let universe = artist_universe(a, b);
    let left = weight_terms(a, &universe);
    let right = weight_terms(b, &universe);
    proof {
        lemma_profile_has_weight(a@, views(universe@));
        lemma_profile_has_weight(b@, views(universe@));
    }
    Some(ScorePlan { universe, left, right })
}

/// The layout of a score does not depend on which profile is named first:
/// the universe is the same and the two vectors change places. A score
/// computed from the plan coordinate by coordinate is therefore symmetric.
pub proof fn lemma_score_plan_symmetric(p: ScorePlan, q: ScorePlan, a: Seq<Artist>, b: Seq<Artist>)
    requires
        p.describes(a, b),
        q.describes(b, a),
    ensures
        views(p.universe@) == views(q.universe@),
        p.left@ == q.right@,
        p.right@ == q.left@,
{
    lemma_sorted_unique(views(p.universe@), views(q.universe@));
}

/// The layout of a profile against itself has the same vector twice, so the
/// cosine of the two is one and the score is the greatest there is.
pub proof fn lemma_score_plan_of_self(p: ScorePlan, a: Seq<Artist>)
    requires
        p.describes(a, a),
    ensures
        p.left@ == p.right@,
{
}

/// The layout of a score is determined by the two profiles.
pub proof fn lemma_score_plan_deterministic(
    p: ScorePlan,
    q: ScorePlan,
    a: Seq<Artist>,
    b: Seq<Artist>,
)
    requires
        p.describes(a, b),
        q.describes(a, b),
    ensures
        views(p.universe@) == views(q.universe@),
        p.left@ == q.left@,
        p.right@ == q.right@,
{
    lemma_sorted_unique(views(p.universe@), views(q.universe@));
}

/// The bit pattern of 99.0, the greatest score.
pub const SCORE_MAX_BITS: u64 = 0x4058_C000_0000_0000;

/// The bit pattern of positive infinity. Patterns above it are not numbers,
/// or have the sign bit set.
pub const POSITIVE_INFINITY_BITS: u64 = 0x7FF0_0000_0000_0000;

/// A compatibility score: a binary64 number from 0 to 99, held by its bit
/// pattern. Among the numbers that are not negative the order of the bit
/// patterns is the order of the numbers, so the range is a bound on the
/// pattern.
#[derive(Debug, Clone, Copy, PartialEq, Eq, Structural)]
pub struct Score {
    bits: u64,
}

/// The pattern of a raw number brought into the range of a score: a number
/// within the range stays, one above it (infinity too) becomes 99, and a
/// negative number, a negative zero and what is not a number become 0.
pub open spec fn clamp_bits(raw: u64) -> u64 {
    if raw <= SCORE_MAX_BITS {
        raw
    } else if raw <= POSITIVE_INFINITY_BITS {
        SCORE_MAX_BITS
    } else {
        0
    }
}

/// Whatever the raw number, the clamped one lies between 0 and 99.
pub proof fn lemma_clamp_in_range(raw: u64)
    ensures
        0 <= clamp_bits(raw) <= SCORE_MAX_BITS,
        raw <= SCORE_MAX_BITS ==> clamp_bits(raw) == raw,
{
}

/// The bit pattern of a whole number from 1 to 127: the exponent of the
/// greatest power of two in it, and below that what is left of the number,
/// moved up to the top of the 52 bits of the fraction.
pub open spec fn whole_bits(v: int) -> int {
    if v < 2 {
        1023 * 0x10_0000_0000_0000 + (v - 1) * 0x10_0000_0000_0000
    } else if v < 4 {
        1024 * 0x10_0000_0000_0000 + (v - 2) * 0x8_0000_0000_0000
    } else if v < 8 {
        1025 * 0x10_0000_0000_0000 + (v - 4) * 0x4_0000_0000_0000
    } else if v < 16 {
        1026 * 0x10_0000_0000_0000 + (v - 8) * 0x2_0000_0000_0000
    } else if v < 32 {
        1027 * 0x10_0000_0000_0000 + (v - 16) * 0x1_0000_0000_0000
    } else if v < 64 {
        1028 * 0x10_0000_0000_0000 + (v - 32) * 0x8000_0000_0000
    } else {
        1029 * 0x10_0000_0000_0000 + (v - 64) * 0x4000_0000_0000
    }
}

/// Whether a score with this bit pattern is the whole number `v` at least.
/// Every score is 0 at least, and none is more than 99.
pub open spec fn at_least_spec(bits: u64, v: int) -> bool {
    if v <= 0 {
        true
    } else if v > 99 {
        false
    } else {
        bits >= whole_bits(v)
    }
}

/// Whether a score with this bit pattern is less than the whole number `v`.
pub open spec fn below_spec(bits: u64, v: int) -> bool {
    !at_least_spec(bits, v)
}

fn bits_of_whole(v: u64) -> (b: u64)
    requires
        1 <= v <= 99,
    ensures
        b == whole_bits(v as int),
{
    if v < 2 {
        1023 * 0x10_0000_0000_0000 + (v - 1) * 0x10_0000_0000_0000
    } else if v < 4 {
        1024 * 0x10_0000_0000_0000 + (v - 2) * 0x8_0000_0000_0000
    } else if v < 8 {
        1025 * 0x10_0000_0000_0000 + (v - 4) * 0x4_0000_0000_0000
    } else if v < 16 {
        1026 * 0x10_0000_0000_0000 + (v - 8) * 0x2_0000_0000_0000
    } else if v < 32 {
        1027 * 0x10_0000_0000_0000 + (v - 16) * 0x1_0000_0000_0000
    } else if v < 64 {
        1028 * 0x10_0000_0000_0000 + (v - 32) * 0x8000_0000_0000
    } else {
        1029 * 0x10_0000_0000_0000 + (v - 64) * 0x4000_0000_0000
    }
}

impl Score {
    #[verifier::type_invariant]
    spec fn in_range(self) -> bool {
        self.bits <= SCORE_MAX_BITS
    }

    /// The bit pattern of the score.
    pub closed spec fn spec_bits(self) -> u64 {
        self.bits
    }

    /// The score 0.
    pub fn zero() -> (s: Score)
        ensures
            s.spec_bits() == 0,
    {
        Score { bits: 0 }
    }

    /// The score with this bit pattern, if the pattern is that of a number
    /// from 0 to 99.
    pub fn from_bits(bits: u64) -> (r: Option<Score>)
        ensures
            r is Some <==> bits <= SCORE_MAX_BITS,
            r matches Some(s) ==> s.spec_bits() == bits,
    {
        if bits <= SCORE_MAX_BITS {
            Some(Score { bits })
        } else {
            None
        }
    }

    /// The score nearest to a raw number, given by its bit pattern.
    pub fn clamp(raw: u64) -> (s: Score)
        ensures
            s.spec_bits() == clamp_bits(raw),
    {
        if raw <= SCORE_MAX_BITS {
            Score { bits: raw }
        } else if raw <= POSITIVE_INFINITY_BITS {
            Score { bits: SCORE_MAX_BITS }
        } else {
            Score { bits: 0 }
        }
    }

    /// Whether the score is the whole number `v` at least.
    pub fn at_least(&self, v: i32) -> (r: bool)
        ensures
            r == at_least_spec(self.spec_bits(), v as int),
    {
        if v <= 0 {
            true
        } else if v > 99 {
            false
        } else {
            self.bits >= bits_of_whole(v as u64)
        }
    }

    /// Whether the score is less than the whole number `v`.
    pub fn below(&self, v: i32) -> (r: bool)
        ensures
            r == below_spec(self.spec_bits(), v as int),
    {
        !self.at_least(v)
    }

    /// The bit pattern of the score.
    pub fn bits(&self) -> (b: u64)
        ensures
            b == self.spec_bits(),
            b <= SCORE_MAX_BITS,
    {
        proof {
            use_type_invariant(self);
        }
        self.bits
    }
}

/// The names among the first `n` of `a` that `b` has too, each once, in the
/// order in which `a` first has them.
pub open spec fn common_upto(a: Seq<Artist>, b: Seq<Artist>, n: int) -> Seq<Seq<char>>
    decreases n,
{
    if n <= 0 {
        Seq::empty()
    } else {
        let before = common_upto(a, b, n - 1);
        let name = a[n - 1].name@;
        if names_of(b).contains(name) && !before.contains(name) {
            before.push(name)
        } else {
            before
        }
    }
}

/// The artists that two profiles share, in the rank order of the first.
pub open spec fn common_names(a: Seq<Artist>, b: Seq<Artist>) -> Seq<Seq<char>> {
    common_upto(a, b, a.len() as int)
}

/// The common names are the intersection of the two sets of names, and none
/// of them is listed twice.
pub proof fn lemma_common_upto(a: Seq<Artist>, b: Seq<Artist>, n: int)
    requires
        0 <= n <= a.len(),
    ensures
        forall|x: Seq<char>| #[trigger]
            common_upto(a, b, n).contains(x) <==> (names_of(a).take(n).contains(x) && names_of(
                b,
            ).contains(x)),
        common_upto(a, b, n).no_duplicates(),
        common_upto(a, b, n).len() <= n,
    decreases n,
{
    if n > 0 {
        lemma_common_upto(a, b, n - 1);
        let before = common_upto(a, b, n - 1);
        let now = common_upto(a, b, n);
        let name = a[n - 1].name@;
        let seen = names_of(a).take(n - 1);
        let next = names_of(a).take(n);
        assert(next =~= seen.push(name));
        assert forall|x: Seq<char>| #[trigger]
            now.contains(x) <==> (next.contains(x) && names_of(b).contains(x)) by {
            if now.contains(x) {
                let k = choose|k: int| 0 <= k < now.len() && now[k] == x;
                if k < before.len() {
                    assert(before[k] == x);
                    assert(before.contains(x));
                    let m = choose|m: int| 0 <= m < seen.len() && seen[m] == x;
                    assert(next[m] == x);
                } else {
                    assert(next[n - 1] == x);
                }
            }
            if next.contains(x) && names_of(b).contains(x) {
                let m = choose|m: int| 0 <= m < next.len() && next[m] == x;
                if m < n - 1 {
                    assert(seen[m] == x);
                    assert(seen.contains(x));
                    assert(before.contains(x));
                    let k = choose|k: int| 0 <= k < before.len() && before[k] == x;
                    assert(now[k] == x);
                } else if before.contains(x) {
                    let k = choose|k: int| 0 <= k < before.len() && before[k] == x;
                    assert(now[k] == x);
                } else {
                    assert(now[before.len() as int] == x);
                }
            }
        }
    } else {
        assert(names_of(a).take(0) =~= Seq::<Seq<char>>::empty());
    }
}

/// The common names are exactly the names that both profiles have.
pub proof fn lemma_common_names_is_intersection(a: Seq<Artist>, b: Seq<Artist>)
    ensures
        forall|x: Seq<char>| #[trigger]
            common_names(a, b).contains(x) <==> (names_of(a).contains(x) && names_of(b).contains(
                x,
            )),
        common_names(a, b).no_duplicates(),
{
    lemma_common_upto(a, b, a.len() as int);
    assert(names_of(a).take(a.len() as int) =~= names_of(a));
}

/// Whether a profile has an artist of this name.
fn has_artist(p: &Vec<Artist>, name: &String) -> (r: bool)
    ensures
        r == names_of(p@).contains(name@),
{
    let mut i: usize = 0;
    while i < p.len()
        invariant
            i <= p@.len(),
            forall|j: int| 0 <= j < i ==> names_of(p@)[j] != name@,
        decreases p@.len() - i,
    {
        if p[i].name == *name {
            assert(names_of(p@)[i as int] == name@);
            return true;
        }
        i += 1;
    }
    false
}

/// Whether a list of names has this name.
fn has_name(v: &Vec<String>, name: &String) -> (r: bool)
    ensures
        r == views(v@).contains(name@),
{
    let mut i: usize = 0;
    while i < v.len()
        invariant
            i <= v@.len(),
            forall|j: int| 0 <= j < i ==> views(v@)[j] != name@,
        decreases v@.len() - i,
    {
        if v[i] == *name {
            assert(views(v@)[i as int] == name@);
            return true;
        }
        i += 1;
    }
    false
}

/// The artists that both profiles have, each once, in the rank order of the
/// first profile, and no more than `limit` of them.
pub fn get_common_artists(user1_artists: &Vec<Artist>, user2_artists: &Vec<Artist>, limit: usize) -> (common: Vec<String>)
    ensures
        views(common@) == if common_names(user1_artists@, user2_artists@).len() <= limit {
            common_names(user1_artists@, user2_artists@)
        } else {
            common_names(user1_artists@, user2_artists@).take(limit as int)
        },
{
    let mut common: Vec<String> = Vec::new();
    let mut i: usize = 0;
    while i < user1_artists.len() && common.len() < limit
        invariant
            i <= user1_artists@.len(),
            common@.len() <= limit,
            views(common@) == common_upto(user1_artists@, user2_artists@, i as int),
        decreases user1_artists@.len() - i,
    {
        let name = &user1_artists[i].name;
        if has_artist(user2_artists, name) && !has_name(&common, name) {
            let ghost before = views(common@);
            common.push(name.clone());
            assert(views(common@) =~= before.push(name@));
        }
        i += 1;
    }
    proof {
        let full = common_names(user1_artists@, user2_artists@);
        if i < user1_artists@.len() {
            lemma_common_upto_prefix(user1_artists@, user2_artists@, i as int, user1_artists@.len() as int);
            assert(views(common@) =~= full.take(limit as int));
        }
    }
    common
}

/// The common names grow at the end as more of the first profile is read.
pub proof fn lemma_common_upto_prefix(a: Seq<Artist>, b: Seq<Artist>, m: int, n: int)
    requires
        0 <= m <= n <= a.len(),
    ensures
        common_upto(a, b, m).len() <= common_upto(a, b, n).len(),
        common_upto(a, b, m) == common_upto(a, b, n).take(common_upto(a, b, m).len() as int),
    decreases n - m,
{
    if m < n {
        lemma_common_upto_prefix(a, b, m, n - 1);
        let short = common_upto(a, b, m);
        let before = common_upto(a, b, n - 1);
        let now = common_upto(a, b, n);
        assert(short =~= now.take(short.len() as int));
    } else {
        assert(common_upto(a, b, m) =~= common_upto(a, b, n).take(common_upto(a, b, m).len() as int));
    }
}

/// The universe of two profiles.
pub open spec fn universe_of(a: Seq<Artist>, b: Seq<Artist>) -> Seq<Seq<char>> {
    choose|u: Seq<Seq<char>>| is_universe(u, a, b)
}

/// Two profiles have one universe.
pub proof fn lemma_universe_of(u: Seq<Seq<char>>, a: Seq<Artist>, b: Seq<Artist>)
    requires
        is_universe(u, a, b),
    ensures
        u == universe_of(a, b),
{
    let w = universe_of(a, b);
    assert(is_universe(w, a, b));
    assert forall|n: Seq<char>| u.contains(n) <==> w.contains(n) by {
        assert(u.contains(n) <==> (names_of(a).contains(n) || names_of(b).contains(n)));
        assert(w.contains(n) <==> (names_of(a).contains(n) || names_of(b).contains(n)));
    }
    lemma_sorted_unique(u, w);
}

/// The bit pattern of a score that may be absent.
pub open spec fn score_view(score: Option<Score>) -> Option<u64> {
    match score {
        Some(s) => Some(s.spec_bits()),
        None => None,
    }
}

/// The two profiles have the same vector: every name has the same entry to
/// speak for it in both, or none in either.
pub open spec fn same_vectors(a: Seq<Artist>, b: Seq<Artist>) -> bool {
    forall|n: Seq<char>| #[trigger] term_of(a, n) == term_of(b, n)
}

/// The score of two profiles where it needs no arithmetic: 0 where either is
/// empty, and 99 where both have the same vector, whose cosine is one.
pub open spec fn settled_bits(a: Seq<Artist>, b: Seq<Artist>) -> Option<u64> {
    if a.len() == 0 || b.len() == 0 {
        Some(0)
    } else if same_vectors(a, b) {
        Some(SCORE_MAX_BITS)
    } else {
        None
    }
}

/// The score of two profiles, given the raw number that their plan
/// evaluates to.
pub open spec fn score_bits(a: Seq<Artist>, b: Seq<Artist>, raw: u64) -> u64 {
    match settled_bits(a, b) {
        Some(bits) => bits,
        None => clamp_bits(raw),
    }
}

/// How far the score of two profiles is known.
#[derive(Debug, Clone)]
pub enum Scoring {
    /// The score is this.
    Settled(Score),
    /// The score is the clamped value of what this plan evaluates to.
    Open(ScorePlan),
}

/// A name that has an entry to speak for it is a name of the profile.
pub proof fn lemma_term_has_name(p: Seq<Artist>, name: Seq<char>)
    requires
        term_of(p, name) is Some,
    ensures
        names_of(p).contains(name),
{
    lemma_last_rank(p, name, ranked_len(p));
    let i = last_rank(p, name, ranked_len(p))->0;
    assert(names_of(p)[i] == name);
}

/// Two profiles have the same vector exactly if their vectors over a
/// universe of theirs are the same.
pub proof fn lemma_same_vectors_over_universe(a: Seq<Artist>, b: Seq<Artist>, u: Seq<Seq<char>>)
    requires
        is_universe(u, a, b),
    ensures
        same_vectors(a, b) <==> terms_over(a, u) == terms_over(b, u),
{
    if terms_over(a, u) == terms_over(b, u) {
        assert forall|n: Seq<char>| #[trigger] term_of(a, n) == term_of(b, n) by {
            if u.contains(n) {
                let k = choose|k: int| 0 <= k < u.len() && u[k] == n;
                assert(terms_over(a, u)[k] == terms_over(b, u)[k]);
            } else {
                if term_of(a, n) is Some {
                    lemma_term_has_name(a, n);
                }
                if term_of(b, n) is Some {
                    lemma_term_has_name(b, n);
                }
            }
        }
    }
    if same_vectors(a, b) {
        assert(terms_over(a, u) =~= terms_over(b, u));
    }
}

fn same_terms(left: &Vec<Option<WeightTerm>>, right: &Vec<Option<WeightTerm>>) -> (r: bool)
    requires
        left@.len() == right@.len(),
    ensures
        r == (left@ == right@),
{
    let mut i: usize = 0;
    while i < left.len()
        invariant
            i <= left@.len(),
            left@.len() == right@.len(),
            forall|j: int| 0 <= j < i ==> left@[j] == right@[j],
        decreases left@.len() - i,
    {
        let same = match (left[i], right[i]) {
            (Some(x), Some(y)) => x.rank == y.rank && x.play_count == y.play_count && x.listeners
                == y.listeners,
            (None, None) => true,
            _ => false,
        };
        if !same {
            return false;
        }
        i += 1;
    }
    assert(left@ =~= right@);
    true
}

/// Begins the score of `a` against `b`.
///
/// The score is settled at 0 where either profile is empty, and at 99 where
/// both have the same vector. Otherwise it is open: the caller evaluates the
/// plan, whose two vectors differ and are both not zero, and clamps the
/// result.
pub fn begin_score(a: &Vec<Artist>, b: &Vec<Artist>) -> (r: Scoring)
    ensures
        match r {
            Scoring::Settled(score) => settled_bits(a@, b@) == Some(score.spec_bits()),
            Scoring::Open(plan) => settled_bits(a@, b@) is None && plan.describes(a@, b@)
                && plan.has_weight() && plan.left@ != plan.right@,
        },
{
    match score_plan(a, b) {
        None => Scoring::Settled(Score::zero()),
        Some(plan) => {
            proof {
                lemma_same_vectors_over_universe(a@, b@, views(plan.universe@));
            }
            if same_terms(&plan.left, &plan.right) {
                Scoring::Settled(Score { bits: SCORE_MAX_BITS })
            } else {
                Scoring::Open(plan)
            }
        },
    }
}

/// The score of a profile that is not empty against itself is 99.
pub proof fn lemma_score_of_self(a: Seq<Artist>, raw: u64)
    requires
        a.len() > 0,
    ensures
        score_bits(a, a, raw) == SCORE_MAX_BITS,
{
}

/// The score of an empty profile against any other is 0.
pub proof fn lemma_score_of_empty(a: Seq<Artist>, b: Seq<Artist>, raw: u64)
    requires
        a.len() == 0 || b.len() == 0,
    ensures
        score_bits(a, b, raw) == 0,
{
}

/// Every score lies between 0 and 99.
pub proof fn lemma_score_in_range(a: Seq<Artist>, b: Seq<Artist>, raw: u64)
    ensures
        0 <= score_bits(a, b, raw) <= SCORE_MAX_BITS,
{
}

/// The score does not depend on which profile is named first, where the raw
/// number does not: what is settled for one order is settled for the other,
/// and the plans of the two orders are one plan with its vectors exchanged.
pub proof fn lemma_score_symmetric(a: Seq<Artist>, b: Seq<Artist>, raw: u64)
    ensures
        settled_bits(a, b) == settled_bits(b, a),
        score_bits(a, b, raw) == score_bits(b, a, raw),
{
    if same_vectors(a, b) {
        assert forall|n: Seq<char>| #[trigger] term_of(b, n) == term_of(a, n) by {
            assert(term_of(a, n) == term_of(b, n));
        }
    }
    if same_vectors(b, a) {
        assert forall|n: Seq<char>| #[trigger] term_of(a, n) == term_of(b, n) by {
            assert(term_of(b, n) == term_of(a, n));
        }
    }
}

/// The outcome of comparing two profiles.
#[derive(Debug, Clone)]
pub struct CompatibilityResult {
    pub score: Score,
    pub common_artists: Vec<String>,
}

/// The outcome for two profiles, given the raw number that the caller
/// computed from their plan. Where the score is settled the raw number is
/// not looked at. Where either profile is empty, the score is 0 and no
/// artist is shared.
pub fn compatibility_result(a: &Vec<Artist>, b: &Vec<Artist>, limit: usize, raw: u64) -> (r:
    CompatibilityResult)
    ensures
        r.score.spec_bits() == score_bits(a@, b@, raw),
        views(r.common_artists@) == if common_names(a@, b@).len() <= limit {
            common_names(a@, b@)
        } else {
            common_names(a@, b@).take(limit as int)
        },
        (a@.len() == 0 || b@.len() == 0) ==> r.common_artists@.len() == 0,
{
    let score = match begin_score(a, b) {
        Scoring::Settled(score) => score,
        Scoring::Open(_) => Score::clamp(raw),
    };
    let common_artists = get_common_artists(a, b, limit);
    proof {
        lemma_common_names_is_intersection(a@, b@);
        let full = common_names(a@, b@);
        if full.len() > 0 {
            assert(full.contains(full[0]));
            assert(names_of(a@).contains(full[0]));
            assert(names_of(b@).contains(full[0]));
        }
    }
    CompatibilityResult { score, common_artists }
}

} // verus!
