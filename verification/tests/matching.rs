use lastfm_dating_backend::errors::AppError;
use lastfm_dating_backend::matching::authorize_match_deletion;
use lastfm_dating_backend::matching::ensure_distinct_users;
use lastfm_dating_backend::matching::LikeAction;
use lastfm_dating_backend::matching::LikeEvent;
use lastfm_dating_backend::matching::LikeFlow;
use lastfm_dating_backend::models::Artist;
use lastfm_dating_backend::models::Like;
use lastfm_dating_backend::models::Match;
use lastfm_dating_backend::scoring::compatibility_result;
use lastfm_dating_backend::scoring::score_plan;
use lastfm_dating_backend::scoring::ScorePlan;
use lastfm_dating_backend::scoring::WeightTerm;

fn artist(name: &str, play_count: i32, listeners: i32) -> Artist {
    Artist { name: name.to_string(), mbid: None, play_count, listeners }
}

fn weight(term: &Option<WeightTerm>) -> f64 {
    match term {
        None => 0.0,
        Some(t) => {
            let position = 1.0 - (t.rank as f64 / 50.0);
            let play = if t.play_count > 0 { (t.play_count as f64).ln().max(1.0) } else { 1.0 };
            let popularity = if t.listeners > 0 {
                1.0 / (t.listeners as f64).log10().max(1.0)
            } else {
                1.0
            };
            position * play * popularity
        }
    }
}

fn raw_score(plan: &ScorePlan) -> f64 {
    let left: Vec<f64> = plan.left.iter().map(weight).collect();
    let right: Vec<f64> = plan.right.iter().map(weight).collect();
    let norm1 = left.iter().map(|x| x * x).sum::<f64>().sqrt();
    let norm2 = right.iter().map(|x| x * x).sum::<f64>().sqrt();
    let dot: f64 = left.iter().zip(right.iter()).map(|(a, b)| (a / norm1) * (b / norm2)).sum();
    (dot + 1.0) / 2.0 * 99.0
}

fn score(a: &Vec<Artist>, b: &Vec<Artist>) -> f64 {
    let raw = match score_plan(a, b) {
        None => 0.0,
        Some(plan) => raw_score(&plan),
    };
    f64::from_bits(compatibility_result(a, b, 3, raw.to_bits()).score.bits())
}

fn profile(user: &str) -> Vec<Artist> {
    match user {
        "adam" | "x" => vec![artist("Burial", 300, 700_000), artist("Grouper", 100, 200_000)],
        "zoe" | "y" => vec![artist("Grouper", 500, 200_000), artist("Low", 40, 400_000)],
        "twin" => vec![artist("Burial", 300, 700_000), artist("Grouper", 100, 200_000)],
        "quiet" => vec![],
        _ => vec![artist(user, 1, 1)],
    }
}

/// A store in memory, with the uniqueness of matches that the flow relies on.
struct Store {
    likes: Vec<Like>,
    matches: Vec<Match>,
    source_down: bool,
    fail_like_insert: bool,
    evaluations: usize,
}

impl Store {
    fn new() -> Store {
        Store {
            likes: Vec::new(),
            matches: Vec::new(),
            source_down: false,
            fail_like_insert: false,
            evaluations: 0,
        }
    }

    fn has_like(&self, from: &str, to: &str) -> bool {
        self.likes.iter().any(|l| l.from_user_id == from && l.to_user_id == to)
    }

    fn count_likes(&self, from: &str, to: &str) -> usize {
        self.likes.iter().filter(|l| l.from_user_id == from && l.to_user_id == to).count()
    }

    fn answer(&mut self, action: LikeAction) -> Result<LikeEvent, Result<Option<Match>, AppError>> {
        match action {
            LikeAction::FindLike { from_user_id, to_user_id } => {
                Ok(LikeEvent::LikeLookup(self.has_like(&from_user_id, &to_user_id)))
            }
            LikeAction::InsertLike(like) => {
                if like.to_user_id.starts_with("ghost") {
                    Ok(LikeEvent::UnknownUser)
                } else if self.fail_like_insert {
                    Ok(LikeEvent::Failed(AppError::Database("down".to_string())))
                } else {
                    self.likes.push(like);
                    Ok(LikeEvent::LikeInserted)
                }
            }
            LikeAction::FetchProfiles { user1_id, user2_id } => {
                if self.source_down {
                    Ok(LikeEvent::Failed(AppError::ExternalApi(
                        "profile source is down".to_string(),
                    )))
                } else {
                    Ok(LikeEvent::Profiles(profile(&user1_id), profile(&user2_id)))
                }
            }
            LikeAction::Evaluate(plan) => {
                self.evaluations += 1;
                Ok(LikeEvent::Evaluated(raw_score(&plan).to_bits()))
            }
            LikeAction::InsertMatch(m) => {
                if self
                    .matches
                    .iter()
                    .any(|x| x.user1_id == m.user1_id && x.user2_id == m.user2_id)
                {
                    Ok(LikeEvent::MatchExists)
                } else {
                    self.matches.push(m);
                    Ok(LikeEvent::MatchInserted)
                }
            }
            LikeAction::Finish(result) => Err(result),
        }
    }

    fn create_like(&mut self, from: &str, to: &str) -> Result<Option<Match>, AppError> {
        ensure_distinct_users(from, to)?;
        let (flow, action) = LikeFlow::start(from, to);
        self.run(flow, action)
    }

    fn retry_match(&mut self, from: &str, to: &str) -> Result<Option<Match>, AppError> {
        ensure_distinct_users(from, to)?;
        let (flow, action) = LikeFlow::retry(from, to);
        self.run(flow, action)
    }

    fn run(&mut self, mut flow: LikeFlow, mut action: LikeAction) -> Result<Option<Match>, AppError> {
        for _ in 0..10 {
            match self.answer(action) {
                Ok(event) => {
                    let (next, act) = flow.step(event);
                    flow = next;
                    action = act;
                }
                Err(result) => {
                    assert!(flow.is_done());
                    return result;
                }
            }
        }
        panic!("the flow did not end");
    }
}

fn score_of(m: &Match) -> Option<f64> {
    m.compatibility_score.map(|s| f64::from_bits(s.bits()))
}

#[test]
fn one_sided_like_makes_no_match() {
    let mut store = Store::new();
    let r = store.create_like("x", "y").unwrap();
    assert!(r.is_none());
    assert_eq!(store.count_likes("x", "y"), 1);
    assert_eq!(store.count_likes("y", "x"), 0);
    assert!(store.matches.is_empty());
    let like = &store.likes[0];
    assert_eq!(like.from_user_id, "x");
    assert_eq!(like.to_user_id, "y");
    assert_eq!(like.id.len(), 36);
}

#[test]
fn liking_twice_is_liking_once() {
    let mut store = Store::new();
    assert!(store.create_like("x", "y").unwrap().is_none());
    assert!(store.create_like("x", "y").unwrap().is_none());
    assert_eq!(store.count_likes("x", "y"), 1);
    assert!(store.matches.is_empty());
    // Also after the match was made.
    assert!(store.create_like("y", "x").unwrap().is_some());
    assert!(store.create_like("y", "x").unwrap().is_none());
    assert!(store.create_like("x", "y").unwrap().is_none());
    assert_eq!(store.count_likes("x", "y"), 1);
    assert_eq!(store.count_likes("y", "x"), 1);
    assert_eq!(store.matches.len(), 1);
}

#[test]
fn like_in_return_makes_the_match() {
    let expected = score(&profile("adam"), &profile("zoe"));
    assert!(expected > 49.5 && expected < 99.0);
    assert_eq!(expected, score(&profile("zoe"), &profile("adam")));

    let mut store = Store::new();
    assert!(store.create_like("zoe", "adam").unwrap().is_none());
    let m = store.create_like("adam", "zoe").unwrap().unwrap();
    assert_eq!(m.user1_id, "adam");
    assert_eq!(m.user2_id, "zoe");
    assert!(m.user1_id < m.user2_id);
    assert_eq!(score_of(&m), Some(expected));
    assert_eq!(store.matches.len(), 1);
    assert_eq!(store.matches[0].id, m.id);
    assert_eq!(store.evaluations, 1);

    let mut store = Store::new();
    assert!(store.create_like("adam", "zoe").unwrap().is_none());
    let m = store.create_like("zoe", "adam").unwrap().unwrap();
    assert_eq!(m.user1_id, "adam");
    assert_eq!(m.user2_id, "zoe");
    assert_eq!(score_of(&m), Some(expected));
}

#[test]
fn settled_scores_need_no_evaluation() {
    let mut store = Store::new();
    assert!(store.create_like("adam", "twin").unwrap().is_none());
    let m = store.create_like("twin", "adam").unwrap().unwrap();
    assert_eq!(score_of(&m), Some(99.0));
    assert!(store.create_like("adam", "quiet").unwrap().is_none());
    let m = store.create_like("quiet", "adam").unwrap().unwrap();
    assert_eq!(score_of(&m), Some(0.0));
    assert_eq!((m.user1_id.as_str(), m.user2_id.as_str()), ("adam", "quiet"));
    assert_eq!(store.evaluations, 0);
    // Two users with nothing in common are at the midpoint.
    assert!(store.create_like("adam", "stranger").unwrap().is_none());
    let m = store.create_like("stranger", "adam").unwrap().unwrap();
    assert!((score_of(&m).unwrap() - 49.5).abs() < 1e-12);
    assert_eq!(store.evaluations, 1);
}

#[test]
fn like_stays_when_the_source_fails() {
    let mut store = Store::new();
    assert!(store.create_like("x", "y").unwrap().is_none());
    store.source_down = true;
    let r = store.create_like("y", "x");
    match r {
        Err(AppError::ExternalApi(text)) => assert_eq!(text, "profile source is down"),
        other => panic!("unexpected: {:?}", other),
    }
    assert_eq!(store.count_likes("y", "x"), 1);
    assert!(store.matches.is_empty());
}

#[test]
fn store_failure_ends_the_flow() {
    let mut store = Store::new();
    store.fail_like_insert = true;
    match store.create_like("x", "y") {
        Err(AppError::Database(text)) => assert_eq!(text, "down"),
        other => panic!("unexpected: {:?}", other),
    }
    assert_eq!(store.count_likes("x", "y"), 0);
}

#[test]
fn match_that_exists_is_no_failure() {
    let mut store = Store::new();
    assert!(store.create_like("x", "y").unwrap().is_none());
    store.matches.push(Match::new("y".to_string(), "x".to_string(), None));
    let r = store.create_like("y", "x").unwrap();
    assert!(r.is_none());
    assert_eq!(store.matches.len(), 1);
    assert_eq!(store.count_likes("y", "x"), 1);
}

#[test]
fn event_out_of_turn_is_an_internal_failure() {
    let (flow, _) = LikeFlow::start("x", "y");
    let (flow, action) = flow.step(LikeEvent::MatchInserted);
    assert!(flow.is_done());
    match action {
        LikeAction::Finish(Err(AppError::Internal(text))) => {
            assert_eq!(text, "like flow: event out of turn")
        }
        other => panic!("unexpected: {:?}", other),
    }
    let (flow, action) = flow.step(LikeEvent::LikeLookup(false));
    assert!(flow.is_done());
    assert!(matches!(action, LikeAction::Finish(Err(AppError::Internal(_)))));
    let (flow, _) = LikeFlow::start("x", "y");
    let (flow, action) = flow.step(LikeEvent::Evaluated(0));
    assert!(flow.is_done());
    assert!(matches!(action, LikeAction::Finish(Err(AppError::Internal(_)))));
}

#[test]
fn flow_asks_in_order() {
    let (flow, action) = LikeFlow::start("b", "a");
    assert!(!flow.is_done());
    match action {
        LikeAction::FindLike { from_user_id, to_user_id } => {
            assert_eq!(from_user_id, "b");
            assert_eq!(to_user_id, "a");
        }
        other => panic!("unexpected: {:?}", other),
    }
    let (flow, action) = flow.step(LikeEvent::LikeLookup(false));
    assert!(matches!(action, LikeAction::InsertLike(_)));
    let (flow, action) = flow.step(LikeEvent::LikeInserted);
    match action {
        LikeAction::FindLike { from_user_id, to_user_id } => {
            assert_eq!(from_user_id, "a");
            assert_eq!(to_user_id, "b");
        }
        other => panic!("unexpected: {:?}", other),
    }
    let (flow, action) = flow.step(LikeEvent::LikeLookup(true));
    match action {
        LikeAction::FetchProfiles { user1_id, user2_id } => {
            assert_eq!(user1_id, "b");
            assert_eq!(user2_id, "a");
        }
        other => panic!("unexpected: {:?}", other),
    }
    let (flow, action) = flow.step(LikeEvent::Profiles(profile("adam"), profile("zoe")));
    let plan = match action {
        LikeAction::Evaluate(plan) => plan,
        other => panic!("unexpected: {:?}", other),
    };
    assert_eq!(plan.universe, vec!["Burial", "Grouper", "Low"]);
    assert_eq!(
        plan.left,
        vec![
            Some(WeightTerm { rank: 0, play_count: 300, listeners: 700_000 }),
            Some(WeightTerm { rank: 1, play_count: 100, listeners: 200_000 }),
            None,
        ]
    );
    assert_eq!(
        plan.right,
        vec![
            None,
            Some(WeightTerm { rank: 0, play_count: 500, listeners: 200_000 }),
            Some(WeightTerm { rank: 1, play_count: 40, listeners: 400_000 }),
        ]
    );
    let (flow, action) = flow.step(LikeEvent::Evaluated(150.0f64.to_bits()));
    let inserted = match action {
        LikeAction::InsertMatch(m) => m,
        other => panic!("unexpected: {:?}", other),
    };
    assert_eq!(inserted.user1_id, "a");
    assert_eq!(inserted.user2_id, "b");
    assert_eq!(score_of(&inserted), Some(99.0));
    let (flow, action) = flow.step(LikeEvent::MatchInserted);
    assert!(flow.is_done());
    match action {
        LikeAction::Finish(Ok(Some(m))) => {
            assert_eq!(m.id, inserted.id);
            assert_eq!(m.user1_id, "a");
            assert_eq!(m.user2_id, "b");
            assert_eq!(score_of(&m), Some(99.0));
        }
        other => panic!("unexpected: {:?}", other),
    }
}

#[test]
fn only_a_participant_may_delete_a_match() {
    let m = Match::new("u2".to_string(), "u1".to_string(), None);
    assert!(authorize_match_deletion(Some(&m), "u1").is_ok());
    assert!(authorize_match_deletion(Some(&m), "u2").is_ok());
    match authorize_match_deletion(Some(&m), "u3") {
        Err(AppError::NotFound(text)) => assert_eq!(text, "Match not found"),
        other => panic!("unexpected: {:?}", other),
    }
    match authorize_match_deletion(None, "u1") {
        Err(AppError::NotFound(text)) => assert_eq!(text, "Match not found"),
        other => panic!("unexpected: {:?}", other),
    }
    assert_eq!(authorize_match_deletion(Some(&m), "u3").unwrap_err().status_code(), 404);
}

#[test]
fn nobody_likes_oneself() {
    let mut store = Store::new();
    match store.create_like("x", "x") {
        Err(AppError::Validation(text)) => assert_eq!(text, "Cannot like yourself"),
        other => panic!("unexpected: {:?}", other),
    }
    assert!(store.likes.is_empty());
    assert!(store.matches.is_empty());
    assert!(ensure_distinct_users("x", "y").is_ok());
    assert!(ensure_distinct_users("", "x").is_ok());
    assert!(ensure_distinct_users("", "").is_err());
}

#[test]
fn match_can_be_made_after_the_source_failed() {
    let mut store = Store::new();
    assert!(store.create_like("x", "y").unwrap().is_none());
    store.source_down = true;
    assert!(store.create_like("y", "x").is_err());
    // Liking again does not make the match: the like stands.
    assert!(store.create_like("y", "x").unwrap().is_none());
    assert!(store.retry_match("y", "x").is_err());
    store.source_down = false;
    let m = store.retry_match("y", "x").unwrap().unwrap();
    assert_eq!((m.user1_id.as_str(), m.user2_id.as_str()), ("x", "y"));
    assert_eq!(score_of(&m), Some(score(&profile("x"), &profile("y"))));
    assert_eq!(store.matches.len(), 1);
    assert_eq!(store.count_likes("y", "x"), 1);
    // A second retry finds the match made.
    assert!(store.retry_match("y", "x").unwrap().is_none());
    assert!(store.retry_match("x", "y").unwrap().is_none());
    assert_eq!(store.matches.len(), 1);
}

#[test]
fn retry_makes_nothing_of_a_like_that_does_not_stand() {
    let mut store = Store::new();
    assert!(store.retry_match("x", "y").unwrap().is_none());
    assert!(store.likes.is_empty());
    assert!(store.create_like("x", "y").unwrap().is_none());
    // The like stands, but it is not liked back.
    assert!(store.retry_match("x", "y").unwrap().is_none());
    assert!(store.retry_match("y", "x").unwrap().is_none());
    assert_eq!(store.likes.len(), 1);
    assert!(store.matches.is_empty());
}

#[test]
fn like_of_an_unknown_user_is_not_acceptable() {
    let mut store = Store::new();
    match store.create_like("x", "ghost-1") {
        Err(AppError::Validation(text)) => {
            assert_eq!(text, "Cannot like a user that does not exist")
        }
        other => panic!("unexpected: {:?}", other),
    }
    assert!(store.likes.is_empty());
    assert_eq!(
        AppError::Validation("Cannot like a user that does not exist".to_string()).status_code(),
        400
    );
}
