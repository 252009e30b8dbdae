use lastfm_dating_backend::achievement_service::Achievement;
use lastfm_dating_backend::achievement_service::AchievementService;
use lastfm_dating_backend::achievement_service::StreakChange;
use lastfm_dating_backend::achievement_service::UserAchievement;
use lastfm_dating_backend::achievement_service::UserStats;
use lastfm_dating_backend::models::Like;
use lastfm_dating_backend::scoring::Score;

fn achievement(id: &str, kind: &str, value: i32) -> Achievement {
    Achievement {
        id: id.to_string(),
        name: format!("name of {}", id),
        description: String::new(),
        icon: None,
        points: 10,
        category: None,
        requirement_type: kind.to_string(),
        requirement_value: value,
    }
}

fn stats(matches: i32, messages: i32, streak: i32, likes: i32) -> UserStats {
    UserStats {
        user_id: "u".to_string(),
        total_matches: matches,
        total_likes_sent: 0,
        total_likes_received: likes,
        messages_sent: messages,
        messages_received: 0,
        profile_views: 0,
        current_streak_days: streak,
        longest_streak_days: streak,
        last_message_date: None,
        total_points: 0,
        level: 1,
    }
}

fn score(x: f64) -> Score {
    Score::from_bits(x.to_bits()).unwrap()
}

#[test]
fn requirement_looks_at_its_count() {
    let s = stats(3, 20, 5, 7);
    let zero = Score::zero();
    assert!(AchievementService::should_unlock(&achievement("a", "matches", 3), &s, zero));
    assert!(!AchievementService::should_unlock(&achievement("a", "matches", 4), &s, zero));
    assert!(AchievementService::should_unlock(&achievement("a", "messages_sent", 20), &s, zero));
    assert!(!AchievementService::should_unlock(&achievement("a", "messages_sent", 21), &s, zero));
    assert!(AchievementService::should_unlock(&achievement("a", "streak_days", 5), &s, zero));
    assert!(!AchievementService::should_unlock(&achievement("a", "streak_days", 6), &s, zero));
    assert!(AchievementService::should_unlock(&achievement("a", "likes_received", 7), &s, zero));
    assert!(!AchievementService::should_unlock(&achievement("a", "likes_received", 8), &s, zero));
    assert!(!AchievementService::should_unlock(&achievement("a", "likes_sent", 0), &s, zero));
    assert!(!AchievementService::should_unlock(&achievement("a", "", -5), &s, zero));
    assert!(AchievementService::should_unlock(&achievement("a", "matches", -1), &s, zero));
}

#[test]
fn high_compatibility_looks_at_the_score() {
    let s = stats(0, 0, 0, 0);
    let a = achievement("a", "high_compatibility", 90);
    assert!(AchievementService::should_unlock(&a, &s, score(90.0)));
    assert!(AchievementService::should_unlock(&a, &s, score(98.5)));
    assert!(!AchievementService::should_unlock(&a, &s, score(89.99999)));
    assert!(!AchievementService::should_unlock(&a, &s, Score::zero()));
    assert!(AchievementService::should_unlock(&achievement("a", "high_compatibility", 0), &s, Score::zero()));
    assert!(!AchievementService::should_unlock(&achievement("a", "high_compatibility", 100), &s, score(99.0)));
}

#[test]
fn locked_achievements_that_are_met_are_due() {
    let all = vec![
        achievement("a", "matches", 1),
        achievement("b", "matches", 5),
        achievement("c", "messages_sent", 1),
        achievement("d", "high_compatibility", 50),
        achievement("e", "unknown", 0),
        achievement("f", "likes_received", 0),
    ];
    let s = stats(2, 1, 0, 0);
    let locked = vec![true, true, false, true, true, true];
    assert_eq!(AchievementService::to_unlock(&all, &locked, &s, score(60.0)), vec![0, 3, 5]);
    assert_eq!(AchievementService::to_unlock(&all, &locked, &s, score(10.0)), vec![0, 5]);
    let none = vec![false; 6];
    assert!(AchievementService::to_unlock(&all, &none, &s, score(60.0)).is_empty());
    assert!(AchievementService::to_unlock(&vec![], &vec![], &s, score(60.0)).is_empty());
}

#[test]
fn level_is_one_more_than_the_hundreds() {
    for (points, level) in [(0, 1), (99, 1), (100, 2), (250, 3), (-1, 1), (-99, 1), (-100, 0), (-250, -1), (i32::MAX, 21474837), (i32::MIN, -21474835)] {
        assert_eq!(AchievementService::level_for(points), level);
        assert_eq!(AchievementService::level_for(points), points / 100 + 1);
    }
}

#[test]
fn streak_goes_on_the_next_day() {
    assert_eq!(
        AchievementService::streak_change(Some(1), 4, 10),
        StreakChange::Extend { current: 5, longest: 10 }
    );
    assert_eq!(
        AchievementService::streak_change(Some(1), 10, 10),
        StreakChange::Extend { current: 11, longest: 11 }
    );
    assert_eq!(
        AchievementService::streak_change(Some(1), 9, 10),
        StreakChange::Extend { current: 10, longest: 10 }
    );
    assert_eq!(AchievementService::streak_change(Some(2), 4, 10), StreakChange::Restart);
    assert_eq!(AchievementService::streak_change(Some(400), 4, 10), StreakChange::Restart);
    assert_eq!(AchievementService::streak_change(Some(0), 4, 10), StreakChange::Keep);
    assert_eq!(AchievementService::streak_change(Some(-3), 4, 10), StreakChange::Keep);
    assert_eq!(AchievementService::streak_change(None, 4, 10), StreakChange::Restart);
}

#[test]
fn progress_is_that_of_the_first_record() {
    let when = Like::new("a".to_string(), "b".to_string()).created_at;
    let record = |id: &str, achievement_id: &str, progress: i32| UserAchievement {
        id: id.to_string(),
        user_id: "u".to_string(),
        achievement_id: achievement_id.to_string(),
        unlocked_at: when,
        progress,
    };
    let unlocked = vec![record("1", "x", 100), record("2", "y", 70), record("3", "y", 80)];
    let seen = AchievementService::with_progress(achievement("y", "matches", 1), &unlocked, 33);
    assert!(seen.unlocked);
    assert_eq!(seen.unlocked_at, Some(when));
    assert_eq!(seen.progress, 70);
    assert_eq!(seen.achievement.id, "y");
    let seen = AchievementService::with_progress(achievement("z", "matches", 1), &unlocked, 33);
    assert!(!seen.unlocked);
    assert_eq!(seen.unlocked_at, None);
    assert_eq!(seen.progress, 33);
    let seen = AchievementService::with_progress(achievement("x", "matches", 1), &vec![], 1);
    assert!(!seen.unlocked);
}
