//! From a like to a match.
//!
//! A like is recorded once. When the liked user has liked back already, the
//! two are matched: their profiles are fetched and scored, and a match is
//! recorded for the pair. The store, the source of the profiles and the
//! arithmetic of a score are outside this crate, so the rules are a state
//! machine: `LikeFlow` says what to ask next, the caller asks it and hands
//! back what came.
use vstd::prelude::*;
use vstd::multiset::Multiset;
use crate::errors::AppError;
use crate::errors::ErrorView;
use crate::fresh::is_random_uuid_text;
use crate::lex::canonical_pair;
use crate::lex::lemma_canonical_pair;
use crate::lex::name_le;
use crate::lex::name_lt;
use crate::lex::str_eq;
use crate::models::Artist;
use crate::models::Like;
use crate::models::Match;
use crate::scoring::begin_score;
use crate::scoring::clamp_bits;
use crate::scoring::lemma_score_symmetric;
use crate::scoring::lemma_universe_of;
use crate::scoring::score_bits;
use crate::scoring::score_view;
use crate::scoring::settled_bits;
use crate::scoring::terms_over;
use crate::scoring::universe_of;
use crate::scoring::Score;
use crate::scoring::ScorePlan;
use crate::scoring::Scoring;
use crate::scoring::WeightTerm;
use crate::text::owned;
use crate::text::views;

verus! {

/// How far a like has come.
pub enum Phase {
    /// Asked whether this like is recorded already.
    CheckingExisting,
    /// Asked whether this like is recorded, to make the match that it did
    /// not make when it was recorded.
    ConfirmingLike,
    /// Asked the store to record the like.
    RecordingLike,
    /// Asked whether the liked user has liked back.
    CheckingMutual,
    /// Asked for the profiles of the two users.
    FetchingProfiles,
    /// Asked for the raw number of the plan of the two profiles.
    Evaluating,
    /// Asked the store to record the match with this score.
    RecordingMatch(Option<u64>),
    /// Nothing is left to do.
    Done,
}

/// What came back from the store, from the source of the profiles or from
/// the arithmetic.
#[derive(Debug)]
pub enum LikeEvent {
    /// The like that was looked up exists, or not.
    LikeLookup(bool),
    /// The like was recorded.
    LikeInserted,
    /// The store knows no user with the identifier of the liked user.
    UnknownUser,
    /// The profiles of the user who likes and of the user who is liked.
    Profiles(Vec<Artist>, Vec<Artist>),
    /// The bit pattern of the raw number that the plan evaluates to.
    Evaluated(u64),
    /// The match was recorded.
    MatchInserted,
    /// The store holds a match of the pair already and kept it.
    MatchExists,
    /// The request failed.
    Failed(AppError),
}

/// An event as a value of specifications.
pub enum EventView {
    LikeLookup(bool),
    LikeInserted,
    UnknownUser,
    Profiles(Seq<Artist>, Seq<Artist>),
    Evaluated(u64),
    MatchInserted,
    MatchExists,
    Failed(ErrorView),
}

impl View for LikeEvent {
    type V = EventView;

    open spec fn view(&self) -> EventView {
        match self {
            LikeEvent::LikeLookup(found) => EventView::LikeLookup(*found),
            LikeEvent::LikeInserted => EventView::LikeInserted,
            LikeEvent::UnknownUser => EventView::UnknownUser,
            LikeEvent::Profiles(a, b) => EventView::Profiles(a@, b@),
            LikeEvent::Evaluated(raw) => EventView::Evaluated(*raw),
            LikeEvent::MatchInserted => EventView::MatchInserted,
            LikeEvent::MatchExists => EventView::MatchExists,
            LikeEvent::Failed(e) => EventView::Failed(e@),
        }
    }
}

/// How a like ended.
pub enum Outcome {
    /// The like stands and there is no new match.
    NoMatch,
    /// The two users are matched, with the score of this bit pattern.
    Matched { user1: Seq<char>, user2: Seq<char>, score: Option<u64> },
    /// The operation failed.
    Failed(ErrorView),
}

/// What the flow asks for next, as a value of specifications.
pub enum Request {
    FindLike { from: Seq<char>, to: Seq<char> },
    InsertLike { from: Seq<char>, to: Seq<char> },
    FetchProfiles { user1: Seq<char>, user2: Seq<char> },
    Evaluate { left: Seq<Option<WeightTerm>>, right: Seq<Option<WeightTerm>> },
    InsertMatch { user1: Seq<char>, user2: Seq<char>, score: Option<u64> },
    Finish(Outcome),
}

/// What the flow asks for next.
#[derive(Debug)]
pub enum LikeAction {
    /// Look up the like of `from_user_id` for `to_user_id`.
    FindLike { from_user_id: String, to_user_id: String },
    /// Record this like.
    InsertLike(Like),
    /// Fetch the profiles of the two users, that of `user1_id` first.
    FetchProfiles { user1_id: String, user2_id: String },
    /// Evaluate this plan: weigh its entries, and take the cosine of the two
    /// vectors to the range of scores.
    Evaluate(ScorePlan),
    /// Record this match, unless the store holds one of the pair.
    InsertMatch(Match),
    /// Return this to the caller.
    Finish(Result<Option<Match>, AppError>),
}

impl View for LikeAction {
    type V = Request;

    open spec fn view(&self) -> Request {
        match self {
            LikeAction::FindLike { from_user_id, to_user_id } => Request::FindLike {
                from: from_user_id@,
                to: to_user_id@,
            },
            LikeAction::InsertLike(like) => Request::InsertLike {
                from: like.from_user_id@,
                to: like.to_user_id@,
            },
            LikeAction::FetchProfiles { user1_id, user2_id } => Request::FetchProfiles {
                user1: user1_id@,
                user2: user2_id@,
            },
            LikeAction::Evaluate(plan) => Request::Evaluate { left: plan.left@, right: plan.right@ },
            LikeAction::InsertMatch(m) => Request::InsertMatch {
                user1: m.user1_id@,
                user2: m.user2_id@,
                score: score_view(m.compatibility_score),
            },
            LikeAction::Finish(Ok(None)) => Request::Finish(Outcome::NoMatch),
            LikeAction::Finish(Ok(Some(m))) => Request::Finish(
                Outcome::Matched {
                    user1: m.user1_id@,
                    user2: m.user2_id@,
                    score: score_view(m.compatibility_score),
                },
            ),
            LikeAction::Finish(Err(e)) => Request::Finish(Outcome::Failed(e@)),
        }
    }
}

/// The failure that answers an event that the phase does not wait for.
pub open spec fn out_of_turn() -> ErrorView {
    ErrorView::Internal("like flow: event out of turn"@)
}

/// The failure that answers the like of a user that the store does not know.
pub open spec fn unknown_user() -> ErrorView {
    ErrorView::Validation("Cannot like a user that does not exist"@)
}

/// The request to record the match of the pair with a score.
pub open spec fn record_match(from: Seq<char>, to: Seq<char>, bits: u64) -> (Phase, Request) {
    (
        Phase::RecordingMatch(Some(bits)),
        Request::InsertMatch {
            user1: canonical_pair(from, to).0,
            user2: canonical_pair(from, to).1,
            score: Some(bits),
        },
    )
}

/// The rule of the flow: the phase and the request that follow an event.
///
/// A like that exists ends the flow without a match. A new like is recorded,
/// then the like in the other direction is looked up: without it the flow
/// ends without a match. With it the profiles of the two users are fetched
/// and scored: where the score is settled by the profiles alone the match is
/// recorded at once, else the plan of the two profiles is evaluated first
/// and the raw number brought into the range of a score. The match holds the
/// two users in ascending order and is returned once it is recorded. A match
/// that the store holds already is no failure: the flow ends without a new
/// match. A like of a user that the store does not know is not acceptable.
/// A failure ends the flow at once with that failure; nothing that was
/// recorded before is taken back.
///
/// A flow that was begun to make the match of a like that stands looks the
/// like up first, and goes on as after recording it where it is there.
pub open spec fn plan_step(from: Seq<char>, to: Seq<char>, phase: Phase, event: EventView) -> (
    Phase,
    Request,
) {
    match (phase, event) {
        (Phase::Done, _) => (Phase::Done, Request::Finish(Outcome::Failed(out_of_turn()))),
        (_, EventView::Failed(e)) => (Phase::Done, Request::Finish(Outcome::Failed(e))),
        (Phase::CheckingExisting, EventView::LikeLookup(found)) => if found {
            (Phase::Done, Request::Finish(Outcome::NoMatch))
        } else {
            (Phase::RecordingLike, Request::InsertLike { from, to })
        },
        (Phase::ConfirmingLike, EventView::LikeLookup(found)) => if found {
            (Phase::CheckingMutual, Request::FindLike { from: to, to: from })
        } else {
            (Phase::Done, Request::Finish(Outcome::NoMatch))
        },
        (Phase::RecordingLike, EventView::LikeInserted) => (
            Phase::CheckingMutual,
            Request::FindLike { from: to, to: from },
        ),
        (Phase::RecordingLike, EventView::UnknownUser) => (
            Phase::Done,
            Request::Finish(Outcome::Failed(unknown_user())),
        ),
        (Phase::CheckingMutual, EventView::LikeLookup(found)) => if found {
            (Phase::FetchingProfiles, Request::FetchProfiles { user1: from, user2: to })
        } else {
            (Phase::Done, Request::Finish(Outcome::NoMatch))
        },
        (Phase::FetchingProfiles, EventView::Profiles(a, b)) => match settled_bits(a, b) {
            Some(bits) => record_match(from, to, bits),
            None => (
                Phase::Evaluating,
                Request::Evaluate {
                    left: terms_over(a, universe_of(a, b)),
                    right: terms_over(b, universe_of(a, b)),
                },
            ),
        },
        (Phase::Evaluating, EventView::Evaluated(raw)) => record_match(from, to, clamp_bits(raw)),
        (Phase::RecordingMatch(score), EventView::MatchInserted) => (
            Phase::Done,
            Request::Finish(
                Outcome::Matched {
                    user1: canonical_pair(from, to).0,
                    user2: canonical_pair(from, to).1,
                    score,
                },
            ),
        ),
        (Phase::RecordingMatch(_), EventView::MatchExists) => (
            Phase::Done,
            Request::Finish(Outcome::NoMatch),
        ),
        _ => (Phase::Done, Request::Finish(Outcome::Failed(out_of_turn()))),
    }
}

enum LikeState {
    CheckingExisting,
    ConfirmingLike,
    RecordingLike,
    CheckingMutual,
    FetchingProfiles,
    Evaluating,
    RecordingMatch(Match),
    Done,
}

/// One like on its way: who likes whom, and how far it has come.
pub struct LikeFlow {
    from_user_id: String,
    to_user_id: String,
    state: LikeState,
}

impl LikeFlow {
    #[verifier::type_invariant]
    spec fn inv(self) -> bool {
        match self.state {
            LikeState::RecordingMatch(m) => m.pair() == canonical_pair(
                self.from_user_id@,
                self.to_user_id@,
            ),
            _ => true,
        }
    }

    /// The user who likes.
    pub closed spec fn from_user(&self) -> Seq<char> {
        self.from_user_id@
    }

    /// The user who is liked.
    pub closed spec fn to_user(&self) -> Seq<char> {
        self.to_user_id@
    }

    /// How far the like has come.
    pub closed spec fn phase(&self) -> Phase {
        match self.state {
            LikeState::CheckingExisting => Phase::CheckingExisting,
            LikeState::ConfirmingLike => Phase::ConfirmingLike,
            LikeState::RecordingLike => Phase::RecordingLike,
            LikeState::CheckingMutual => Phase::CheckingMutual,
            LikeState::FetchingProfiles => Phase::FetchingProfiles,
            LikeState::Evaluating => Phase::Evaluating,
            LikeState::RecordingMatch(m) => Phase::RecordingMatch(
                score_view(m.compatibility_score),
            ),
            LikeState::Done => Phase::Done,
        }
    }

    /// The match that is being recorded, while one is.
    pub closed spec fn pending(&self) -> Option<Match> {
        match self.state {
            LikeState::RecordingMatch(m) => Some(m),
            _ => None,
        }
    }

    /// Begins the like of `to_user_id` by `from_user_id`. The first request
    /// looks the like up. Nobody likes oneself: such a like would find itself
    /// liked back, so it is turned away before it gets here (see
    /// `ensure_distinct_users`).
    pub fn start(from_user_id: &str, to_user_id: &str) -> (r: (LikeFlow, LikeAction))
        requires
            from_user_id@ != to_user_id@,
        ensures
            r.0.from_user() == from_user_id@,
            r.0.to_user() == to_user_id@,
            r.0.phase() == Phase::CheckingExisting,
            r.1@ == (Request::FindLike { from: from_user_id@, to: to_user_id@ }),
    {
        let flow = LikeFlow {
            from_user_id: owned(from_user_id),
            to_user_id: owned(to_user_id),
            state: LikeState::CheckingExisting,
        };
        let action = LikeAction::FindLike {
            from_user_id: owned(from_user_id),
            to_user_id: owned(to_user_id),
        };
        (flow, action)
    }

    /// Begins anew the making of a match for a like that stands: when the
    /// profiles could not be fetched or scored, the like stayed and its match
    /// is still to be made. The first request looks the like up.
    pub fn retry(from_user_id: &str, to_user_id: &str) -> (r: (LikeFlow, LikeAction))
        requires
            from_user_id@ != to_user_id@,
        ensures
            r.0.from_user() == from_user_id@,
            r.0.to_user() == to_user_id@,
            r.0.phase() == Phase::ConfirmingLike,
            r.1@ == (Request::FindLike { from: from_user_id@, to: to_user_id@ }),
    {
        let flow = LikeFlow {
            from_user_id: owned(from_user_id),
            to_user_id: owned(to_user_id),
            state: LikeState::ConfirmingLike,
        };
        let action = LikeAction::FindLike {
            from_user_id: owned(from_user_id),
            to_user_id: owned(to_user_id),
        };
        (flow, action)
    }

    /// Whether nothing is left to do.
    pub fn is_done(&self) -> (done: bool)
        ensures
            done == (self.phase() == Phase::Done),
    {
        match self.state {
            LikeState::Done => true,
            _ => false,
        }
    }

    /// Takes what came back and says what to do next, by the rule
    /// `plan_step`. A like or a match that is to be recorded is made here,
    /// under a new identifier and with the time of the call; the match that
    /// is returned in the end is the one that was recorded.
    pub fn step(self, event: LikeEvent) -> (r: (LikeFlow, LikeAction))
        ensures
            r.0.from_user() == self.from_user(),
            r.0.to_user() == self.to_user(),
            (r.0.phase(), r.1@) == plan_step(
                self.from_user(),
                self.to_user(),
                self.phase(),
                event@,
            ),
            r.1 matches LikeAction::InsertLike(like) ==> is_random_uuid_text(like.id@),
            r.1 matches LikeAction::Evaluate(plan) ==> event matches LikeEvent::Profiles(a, b)
                && plan.describes(a@, b@) && plan.has_weight() && plan.left@ != plan.right@,
            r.1 matches LikeAction::InsertMatch(m) ==> m.is_canonical() && is_random_uuid_text(
                m.id@,
            ) && r.0.pending() == Some(m),
            r.1 matches LikeAction::Finish(Ok(Some(m))) ==> m.is_canonical() && self.pending()
                == Some(m),
    {
        proof {
            use_type_invariant(&self);
            lemma_canonical_pair(self.from_user_id@, self.to_user_id@);
        }
        let LikeFlow { from_user_id, to_user_id, state } = self;
        let (next, action) = match (state, event) {
            (LikeState::Done, _) => (LikeState::Done, LikeAction::Finish(Err(out_of_turn_error()))),
            (_, LikeEvent::Failed(e)) => (LikeState::Done, LikeAction::Finish(Err(e))),
            (LikeState::CheckingExisting, LikeEvent::LikeLookup(found)) => {
                if found {
                    (LikeState::Done, LikeAction::Finish(Ok(None)))
                } else {
                    let like = Like::new(from_user_id.clone(), to_user_id.clone());
                    (LikeState::RecordingLike, LikeAction::InsertLike(like))
                }
            },
            (LikeState::ConfirmingLike, LikeEvent::LikeLookup(found)) => {
                if found {
                    (
                        LikeState::CheckingMutual,
                        LikeAction::FindLike {
                            from_user_id: to_user_id.clone(),
                            to_user_id: from_user_id.clone(),
                        },
                    )
                } else {
                    (LikeState::Done, LikeAction::Finish(Ok(None)))
                }
            },
            (LikeState::RecordingLike, LikeEvent::LikeInserted) => (
                LikeState::CheckingMutual,
                LikeAction::FindLike {
                    from_user_id: to_user_id.clone(),
                    to_user_id: from_user_id.clone(),
                },
            ),
            (LikeState::RecordingLike, LikeEvent::UnknownUser) => (
                LikeState::Done,
                LikeAction::Finish(Err(unknown_user_error())),
            ),
            (LikeState::CheckingMutual, LikeEvent::LikeLookup(found)) => {
                if found {
                    (
                        LikeState::FetchingProfiles,
                        LikeAction::FetchProfiles {
                            user1_id: from_user_id.clone(),
                            user2_id: to_user_id.clone(),
                        },
                    )
                } else {
                    (LikeState::Done, LikeAction::Finish(Ok(None)))
                }
            },
            (LikeState::FetchingProfiles, LikeEvent::Profiles(a, b)) => {
                match begin_score(&a, &b) {
                    Scoring::Settled(score) => {
                        let record = Match::new(
                            from_user_id.clone(),
                            to_user_id.clone(),
                            Some(score),
                        );
                        let copy = record.duplicate();
                        (LikeState::RecordingMatch(record), LikeAction::InsertMatch(copy))
                    },
                    Scoring::Open(plan) => {
                        proof {
                            lemma_universe_of(views(plan.universe@), a@, b@);
                        }
                        (LikeState::Evaluating, LikeAction::Evaluate(plan))
                    },
                }
            },
            (LikeState::Evaluating, LikeEvent::Evaluated(raw)) => {
                let record = Match::new(
                    from_user_id.clone(),
                    to_user_id.clone(),
                    Some(Score::clamp(raw)),
                );
                let copy = record.duplicate();
                (LikeState::RecordingMatch(record), LikeAction::InsertMatch(copy))
            },
            (LikeState::RecordingMatch(record), LikeEvent::MatchInserted) => (
                LikeState::Done,
                LikeAction::Finish(Ok(Some(record))),
            ),
            (LikeState::RecordingMatch(_), LikeEvent::MatchExists) => (
                LikeState::Done,
                LikeAction::Finish(Ok(None)),
            ),
            _ => (LikeState::Done, LikeAction::Finish(Err(out_of_turn_error()))),
        };
        (LikeFlow { from_user_id, to_user_id, state: next }, action)
    }
}

/// The failure that answers the like of a user that the store does not know.
fn unknown_user_error() -> (e: AppError)
    ensures
        e@ == unknown_user(),
{
    AppError::Validation(owned("Cannot like a user that does not exist"))
}

/// The failure that answers an event out of turn.
fn out_of_turn_error() -> (e: AppError)
    ensures
        e@ == out_of_turn(),
{
    AppError::Internal(owned("like flow: event out of turn"))
}

/// Turns away the like of oneself.
pub fn ensure_distinct_users(from_user_id: &str, to_user_id: &str) -> (r: Result<(), AppError>)
    ensures
        r is Ok <==> from_user_id@ != to_user_id@,
        r matches Err(e) ==> e@ == ErrorView::Validation("Cannot like yourself"@),
{
    if str_eq(from_user_id, to_user_id) {
        Err(AppError::Validation(owned("Cannot like yourself")))
    } else {
        Ok(())
    }
}

/// Decides whether `user_id` may delete a match that was looked up.
///
/// Only one of the two users of a match may delete it. To anyone else the
/// match is not there: the answer is the same Not Found as for a match that
/// does not exist, so that it tells nothing of the match.
pub fn authorize_match_deletion(found: Option<&Match>, user_id: &str) -> (r: Result<(), AppError>)
    ensures
        r is Ok <==> (found matches Some(m) && m.spec_involves(user_id@)),
        r matches Err(e) ==> e@ == ErrorView::NotFound("Match not found"@),
{
    match found {
        Some(m) => {
            if m.involves(user_id) {
                Ok(())
            } else {
                Err(AppError::NotFound(owned("Match not found")))
            }
        },
        None => Err(AppError::NotFound(owned("Match not found"))),
    }
}

/// A store as the rules see it: the likes and the matches that were
/// recorded, row by row. The store keeps one match of a pair at most; of
/// likes it keeps whatever it is given. Every user that is liked is known
/// to it.
pub struct StoreModel {
    pub likes: Multiset<(Seq<char>, Seq<char>)>,
    pub matches: Multiset<(Seq<char>, Seq<char>)>,
}

/// What is outside the store: the profiles that the source gives for the
/// user who likes and the user who is liked, or its failure, and the raw
/// number that the arithmetic gives for their plan.
pub struct Source {
    pub profiles: Result<(Seq<Artist>, Seq<Artist>), ErrorView>,
    pub raw: u64,
}

/// Every matched pair has liked each other. Matches are made at the moment
/// the second like arrives, and likes are never taken back, so a store that
/// only this flow writes to stays so.
pub open spec fn matches_are_mutual(store: StoreModel) -> bool {
    forall|u: Seq<char>, v: Seq<char>|
        #[trigger] store.matches.count((u, v)) > 0 ==> store.likes.count((u, v)) > 0
            && store.likes.count((v, u)) > 0
}

/// Every match holds its two users in ascending order.
pub open spec fn matches_are_canonical(store: StoreModel) -> bool {
    forall|u: Seq<char>, v: Seq<char>| #[trigger] store.matches.count((u, v)) > 0 ==> name_le(u, v)
}

/// No pair has two likes in one direction, and none has two matches.
pub open spec fn rows_are_single(store: StoreModel) -> bool {
    &&& forall|u: Seq<char>, v: Seq<char>| #[trigger] store.likes.count((u, v)) <= 1
    &&& forall|u: Seq<char>, v: Seq<char>| #[trigger] store.matches.count((u, v)) <= 1
}

/// What a store and a source that work answer to a request, and what the
/// store holds after.
pub open spec fn respond(store: StoreModel, request: Request, source: Source) -> (
    StoreModel,
    EventView,
) {
    match request {
        Request::FindLike { from, to } => (
            store,
            EventView::LikeLookup(store.likes.count((from, to)) > 0),
        ),
        Request::InsertLike { from, to } => (
            StoreModel { likes: store.likes.insert((from, to)), matches: store.matches },
            EventView::LikeInserted,
        ),
        Request::FetchProfiles { user1, user2 } => (
            store,
            match source.profiles {
                Ok(profiles) => EventView::Profiles(profiles.0, profiles.1),
                Err(e) => EventView::Failed(e),
            },
        ),
        Request::Evaluate { left, right } => (store, EventView::Evaluated(source.raw)),
        Request::InsertMatch { user1, user2, score } => if store.matches.count((user1, user2))
            > 0 {
            (store, EventView::MatchExists)
        } else {
            (
                StoreModel { likes: store.likes, matches: store.matches.insert((user1, user2)) },
                EventView::MatchInserted,
            )
        },
        Request::Finish(_) => (store, EventView::LikeInserted),
    }
}

/// Runs the flow against a store and a source that work, for `fuel`
/// requests at most.
pub open spec fn drive(
    store: StoreModel,
    from: Seq<char>,
    to: Seq<char>,
    phase: Phase,
    request: Request,
    source: Source,
    fuel: nat,
) -> (StoreModel, Outcome)
    decreases fuel,
{
    match request {
        Request::Finish(outcome) => (store, outcome),
        _ => if fuel == 0 {
            (store, Outcome::Failed(out_of_turn()))
        } else {
            let (after, event) = respond(store, request, source);
            let (next_phase, next_request) = plan_step(from, to, phase, event);
            drive(after, from, to, next_phase, next_request, source, (fuel - 1) as nat)
        },
    }
}

/// One whole like of `to` by `from` against a store and a source that work:
/// the store after it, and how it ended. A flow makes six requests at most.
pub open spec fn create_like_model(
    store: StoreModel,
    from: Seq<char>,
    to: Seq<char>,
    source: Source,
) -> (StoreModel, Outcome) {
    drive(store, from, to, Phase::CheckingExisting, Request::FindLike { from, to }, source, 6)
}

/// One whole retry of the match of a like against a store and a source that
/// work.
pub open spec fn retry_match_model(
    store: StoreModel,
    from: Seq<char>,
    to: Seq<char>,
    source: Source,
) -> (StoreModel, Outcome) {
    drive(store, from, to, Phase::ConfirmingLike, Request::FindLike { from, to }, source, 6)
}

/// What the making of a match does to a store in which the like stands and
/// is liked back, case by case: nothing where the profiles cannot be had or
/// the pair is matched already, and else the match of the pair is added,
/// with the score of the two profiles.
pub open spec fn match_made(store: StoreModel, from: Seq<char>, to: Seq<char>, source: Source) -> (
    StoreModel,
    Outcome,
) {
    let pair = canonical_pair(from, to);
    match source.profiles {
        Err(e) => (store, Outcome::Failed(e)),
        Ok(profiles) => if store.matches.count(pair) > 0 {
            (store, Outcome::NoMatch)
        } else {
            (
                StoreModel { likes: store.likes, matches: store.matches.insert(pair) },
                Outcome::Matched {
                    user1: pair.0,
                    user2: pair.1,
                    score: Some(score_bits(profiles.0, profiles.1, source.raw)),
                },
            )
        },
    }
}

/// What a like does to a store, case by case.
///
/// A like that is recorded already changes nothing and ends without a match.
/// A new like is recorded whatever follows; the match of the pair is added
/// when the liked user had liked back, the profiles could be had and the
/// store held no match of the pair.
pub proof fn lemma_create_like_cases(
    store: StoreModel,
    from: Seq<char>,
    to: Seq<char>,
    source: Source,
)
    ensures
        create_like_model(store, from, to, source) == ({
            let liked = StoreModel { likes: store.likes.insert((from, to)), matches: store.matches };
            if store.likes.count((from, to)) > 0 {
                (store, Outcome::NoMatch)
            } else if liked.likes.count((to, from)) == 0 {
                (liked, Outcome::NoMatch)
            } else {
                match_made(liked, from, to, source)
            }
        }),
{
    reveal_with_fuel(drive, 7);
}

/// What a retry does to a store, case by case: nothing where the like does
/// not stand or is not liked back, and else what the like would have done
/// after it was recorded.
pub proof fn lemma_retry_cases(store: StoreModel, from: Seq<char>, to: Seq<char>, source: Source)
    ensures
        retry_match_model(store, from, to, source) == (if store.likes.count((from, to)) > 0
            && store.likes.count((to, from)) > 0 {
            match_made(store, from, to, source)
        } else {
            (store, Outcome::NoMatch)
        }),
{
    reveal_with_fuel(drive, 7);
}

/// A like is recorded whether or not the match could be made: after the
/// flow the store holds the like, and it holds every like it held before.
pub proof fn lemma_like_persists(store: StoreModel, from: Seq<char>, to: Seq<char>, source: Source)
    ensures
        create_like_model(store, from, to, source).0.likes.count((from, to)) > 0,
        forall|u: Seq<char>, v: Seq<char>|
            store.likes.count((u, v)) <= #[trigger] create_like_model(
                store,
                from,
                to,
                source,
            ).0.likes.count((u, v)),
{
    lemma_create_like_cases(store, from, to, source);
}

/// When the profiles could not be had for a like in return, the match can
/// be made later: the like stays, and a retry for which the source works
/// makes the match that the like would have made.
pub proof fn lemma_retry_makes_the_match(
    store: StoreModel,
    from: Seq<char>,
    to: Seq<char>,
    failure: ErrorView,
    source: Source,
)
    requires
        matches_are_mutual(store),
        store.likes.count((from, to)) == 0,
        store.likes.count((to, from)) > 0,
        from != to,
        source.profiles is Ok,
    ensures
        ({
            let broken = Source { profiles: Err(failure), raw: source.raw };
            let failed = create_like_model(store, from, to, broken);
            let retried = retry_match_model(failed.0, from, to, source);
            &&& failed.1 == Outcome::Failed(failure)
            &&& failed.0.likes.count((from, to)) == 1
            &&& failed.0.matches == store.matches
            &&& retried == create_like_model(store, from, to, source)
            &&& retried.1 is Matched
        }),
{
    let broken = Source { profiles: Err(failure), raw: source.raw };
    lemma_create_like_cases(store, from, to, broken);
    lemma_create_like_cases(store, from, to, source);
    let failed = create_like_model(store, from, to, broken);
    lemma_retry_cases(failed.0, from, to, source);
    let pair = canonical_pair(from, to);
    if store.matches.count(pair) > 0 {
        assert(store.likes.count((pair.0, pair.1)) > 0 && store.likes.count((pair.1, pair.0)) > 0);
    }
}

/// Liking twice is liking once: the second like of the same user records
/// nothing, changes nothing and ends without a match. A pair that had one
/// like row at most before has one after both.
pub proof fn lemma_create_like_idempotent(
    store: StoreModel,
    from: Seq<char>,
    to: Seq<char>,
    first: Source,
    second: Source,
)
    ensures
        ({
            let once = create_like_model(store, from, to, first).0;
            let twice = create_like_model(once, from, to, second);
            &&& twice.0 == once
            &&& twice.1 == Outcome::NoMatch
            &&& store.likes.count((from, to)) <= 1 ==> twice.0.likes.count((from, to)) == 1
        }),
{
    lemma_create_like_cases(store, from, to, first);
    let once = create_like_model(store, from, to, first).0;
    lemma_create_like_cases(once, from, to, second);
}

/// A like keeps a store in order: no like and no match is recorded twice,
/// every match holds its users in ascending order, and every matched pair
/// has liked each other.
pub proof fn lemma_store_stays_in_order(
    store: StoreModel,
    from: Seq<char>,
    to: Seq<char>,
    source: Source,
)
    ensures
        rows_are_single(store) ==> rows_are_single(create_like_model(store, from, to, source).0),
        matches_are_canonical(store) ==> matches_are_canonical(
            create_like_model(store, from, to, source).0,
        ),
        matches_are_mutual(store) ==> matches_are_mutual(
            create_like_model(store, from, to, source).0,
        ),
{
    lemma_create_like_cases(store, from, to, source);
    lemma_canonical_pair(from, to);
    let after = create_like_model(store, from, to, source).0;
    let pair = canonical_pair(from, to);
    if rows_are_single(store) {
        assert forall|u: Seq<char>, v: Seq<char>| #[trigger] after.likes.count((u, v)) <= 1 by {
            assert(store.likes.count((u, v)) <= 1);
        }
        assert forall|u: Seq<char>, v: Seq<char>| #[trigger] after.matches.count((u, v)) <= 1 by {
            assert(store.matches.count((u, v)) <= 1);
        }
    }
    if matches_are_canonical(store) {
        assert forall|u: Seq<char>, v: Seq<char>| #[trigger]
            after.matches.count((u, v)) > 0 implies name_le(u, v) by {
            if store.matches.count((u, v)) == 0 {
                assert((u, v) == pair);
            }
        }
    }
    if matches_are_mutual(store) {
        assert forall|u: Seq<char>, v: Seq<char>| #[trigger]
            after.matches.count((u, v)) > 0 implies after.likes.count((u, v)) > 0
            && after.likes.count((v, u)) > 0 by {
            if store.matches.count((u, v)) == 0 {
                assert((u, v) == pair);
            } else {
                assert(store.likes.count((u, v)) > 0 && store.likes.count((v, u)) > 0);
            }
        }
    }
}

/// When a like ended without a match and the liked user had not liked back
/// before, the like in return makes the match: the two users in ascending
/// order, the first strictly before the second, with the score of their two
/// profiles, whichever of the two is named first.
pub proof fn lemma_reciprocal_like_matches(
    store: StoreModel,
    x: Seq<char>,
    y: Seq<char>,
    first: Source,
    profile_x: Seq<Artist>,
    profile_y: Seq<Artist>,
    raw: u64,
)
    requires
        matches_are_mutual(store),
        store.likes.count((y, x)) == 0,
        create_like_model(store, x, y, first).1 == Outcome::NoMatch,
    ensures
        ({
            let after_first = create_like_model(store, x, y, first).0;
            let second = create_like_model(
                after_first,
                y,
                x,
                Source { profiles: Ok((profile_y, profile_x)), raw },
            );
            let pair = canonical_pair(x, y);
            &&& x != y
            &&& second.1 == (Outcome::Matched {
                user1: pair.0,
                user2: pair.1,
                score: Some(score_bits(profile_x, profile_y, raw)),
            })
            &&& name_lt(pair.0, pair.1)
            &&& (pair == (x, y) || pair == (y, x))
            &&& second.0.matches.count(pair) == 1
        }),
{
    let second_source = Source { profiles: Ok((profile_y, profile_x)), raw };
    lemma_create_like_cases(store, x, y, first);
    let after_first = create_like_model(store, x, y, first).0;
    lemma_create_like_cases(after_first, y, x, second_source);
    lemma_canonical_pair(x, y);
    lemma_canonical_pair(y, x);
    lemma_score_symmetric(profile_x, profile_y, raw);
    let pair = canonical_pair(x, y);
    if store.matches.count(pair) > 0 {
        assert(store.likes.count((pair.0, pair.1)) > 0 && store.likes.count((pair.1, pair.0)) > 0);
    }
    if x == y {
        // The like of oneself finds itself liked back, so it cannot have
        // ended without a match.
        assert(store.likes.insert((x, y)).count((y, x)) > 0);
    }
}

} // verus!
