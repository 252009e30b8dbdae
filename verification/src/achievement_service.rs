//! Achievements: what a user has done, what that unlocks, and the level that
//! the points of the unlocked achievements give.
use vstd::prelude::*;
use crate::lex::str_eq;
use crate::scoring::at_least_spec;
use crate::scoring::Score;

verus! {

/// Something a user can achieve.
#[derive(Debug, Clone)]
pub struct Achievement {
    pub id: String,
    pub name: String,
    pub description: String,
    pub icon: Option<String>,
    pub points: i32,
    pub category: Option<String>,
    pub requirement_type: String,
    pub requirement_value: i32,
}

/// An achievement that a user has unlocked.
#[derive(Debug, Clone)]
pub struct UserAchievement {
    pub id: String,
    pub user_id: String,
    pub achievement_id: String,
    pub unlocked_at: chrono::NaiveDateTime,
    pub progress: i32,
}

/// An achievement as one user sees it.
#[derive(Debug, Clone)]
pub struct AchievementWithProgress {
    pub achievement: Achievement,
    pub unlocked: bool,
    pub unlocked_at: Option<chrono::NaiveDateTime>,
    pub progress: i32,
}

/// The counts of what a user has done.
#[derive(Debug, Clone)]
pub struct UserStats {
    pub user_id: String,
    pub total_matches: i32,
    pub total_likes_sent: i32,
    pub total_likes_received: i32,
    pub messages_sent: i32,
    pub messages_received: i32,
    pub profile_views: i32,
    pub current_streak_days: i32,
    pub longest_streak_days: i32,
    pub last_message_date: Option<chrono::NaiveDate>,
    pub total_points: i32,
    pub level: i32,
}

/// What becomes of a streak of days with a message.
#[derive(Debug, Clone, Copy, PartialEq, Eq, Structural)]
pub enum StreakChange {
    /// The streak goes on: it is set to these numbers.
    Extend { current: i32, longest: i32 },
    /// The streak begins anew at one day.
    Restart,
    /// The streak stays as it is.
    Keep,
}

/// The rules of achievements.
pub struct AchievementService;

/// The count that a kind of requirement looks at. A kind that is not known
/// looks at nothing.
pub open spec fn counted(requirement_type: Seq<char>, stats: UserStats) -> Option<i32> {
    if requirement_type == "matches"@ {
        Some(stats.total_matches)
    } else if requirement_type == "messages_sent"@ {
        Some(stats.messages_sent)
    } else if requirement_type == "streak_days"@ {
        Some(stats.current_streak_days)
    } else if requirement_type == "likes_received"@ {
        Some(stats.total_likes_received)
    } else {
        None
    }
}

/// Whether the requirement of an achievement is met: the count that it looks
/// at has reached its value, or, for `high_compatibility`, the score has. A
/// requirement of a kind that is not known is never met.
pub open spec fn requirement_met(achievement: Achievement, stats: UserStats, score: Score) -> bool {
    if achievement.requirement_type@ == "high_compatibility"@ {
        at_least_spec(score.spec_bits(), achievement.requirement_value as int)
    } else {
        match counted(achievement.requirement_type@, stats) {
            Some(count) => count >= achievement.requirement_value,
            None => false,
        }
    }
}

/// The level of a user with these points: one more than the hundreds in
/// them, counted towards zero.
pub open spec fn level_spec(total_points: i32) -> int {
    if total_points >= 0 {
        total_points / 100 + 1
    } else {
        1 - (-total_points) / 100
    }
}

/// What becomes of a streak when a message is sent `days_since_last` days
/// after the last one: the next day extends it, a later day begins it anew,
/// the same day (or an earlier one) leaves it. The first message begins it.
pub open spec fn streak_change_spec(days_since_last: Option<i64>, current: i32, longest: i32) -> StreakChange {
    match days_since_last {
        Some(days) => if days == 1 {
            StreakChange::Extend {
                current: (current + 1) as i32,
                longest: if current + 1 >= longest {
                    (current + 1) as i32
                } else {
                    longest
                },
            }
        } else if days > 1 {
            StreakChange::Restart
        } else {
            StreakChange::Keep
        },
        None => StreakChange::Restart,
    }
}

/// The place of the unlocked achievement with this identifier.
pub open spec fn unlocked_index(unlocked: Seq<UserAchievement>, id: Seq<char>, upto: int) -> Option<int>
    decreases upto,
{
    if upto <= 0 {
        None
    } else {
        match unlocked_index(unlocked, id, upto - 1) {
            Some(i) => Some(i),
            None => if unlocked[upto - 1].achievement_id@ == id {
                Some(upto - 1)
            } else {
                None
            },
        }
    }
}

/// The places of the achievements that are to be unlocked among the first
/// `n`: those that are still locked and whose requirement is met, in order.
pub open spec fn due(
    achievements: Seq<Achievement>,
    locked: Seq<bool>,
    stats: UserStats,
    score: Score,
    n: int,
) -> Seq<usize>
    decreases n,
{
    if n <= 0 {
        Seq::empty()
    } else {
        let before = due(achievements, locked, stats, score, n - 1);
        if locked[n - 1] && requirement_met(achievements[n - 1], stats, score) {
            before.push((n - 1) as usize)
        } else {
            before
        }
    }
}

impl AchievementService {
    /// Whether the requirement of an achievement is met.
    pub fn should_unlock(achievement: &Achievement, stats: &UserStats, compatibility_score: Score) -> (r: bool)
        ensures
            r == requirement_met(*achievement, *stats, compatibility_score),
    {
        let kind = achievement.requirement_type.as_str();
        if str_eq(kind, "high_compatibility") {
            compatibility_score.at_least(achievement.requirement_value)
        } else if str_eq(kind, "matches") {
            stats.total_matches >= achievement.requirement_value
        } else if str_eq(kind, "messages_sent") {
            stats.messages_sent >= achievement.requirement_value
        } else if str_eq(kind, "streak_days") {
            stats.current_streak_days >= achievement.requirement_value
        } else if str_eq(kind, "likes_received") {
            stats.total_likes_received >= achievement.requirement_value
        } else {
            false
        }
    }

    /// The achievements to unlock now: of those that are still locked, the
    /// ones whose requirement is met, by their places and in order.
    /// `locked` says of each achievement whether it is still locked.
    pub fn to_unlock(
        achievements: &Vec<Achievement>,
        locked: &Vec<bool>,
        stats: &UserStats,
        compatibility_score: Score,
    ) -> (places: Vec<usize>)
        requires
            locked@.len() == achievements@.len(),
        ensures
            places@ == due(
                achievements@,
                locked@,
                *stats,
                compatibility_score,
                achievements@.len() as int,
            ),
    {
        let mut places: Vec<usize> = Vec::new();
        let mut i: usize = 0;
        while i < achievements.len()
            invariant
                i <= achievements@.len(),
                locked@.len() == achievements@.len(),
                places@ == due(achievements@, locked@, *stats, compatibility_score, i as int),
            decreases achievements@.len() - i,
        {
            if locked[i] && Self::should_unlock(&achievements[i], stats, compatibility_score) {
                places.push(i);
            }
            i += 1;
        }
        places
    }

    /// The level of a user with these points.
    pub fn level_for(total_points: i32) -> (level: i32)
        ensures
            level == level_spec(total_points),
    {
        if total_points >= 0 {
            total_points / 100 + 1
        } else {
            let positive: i64 = 0 - (total_points as i64);
            (1 - positive / 100) as i32
        }
    }

    /// What becomes of a streak when a message is sent.
    pub fn streak_change(days_since_last: Option<i64>, current: i32, longest: i32) -> (change: StreakChange)
        requires
            current < i32::MAX,
        ensures
            change == streak_change_spec(days_since_last, current, longest),
    {
        match days_since_last {
            Some(days) => {
                if days == 1 {
                    let next: i32 = current + 1;
                    let best: i32 = if next >= longest {
                        next
                    } else {
                        longest
                    };
                    StreakChange::Extend { current: next, longest: best }
                } else if days > 1 {
                    StreakChange::Restart
                } else {
                    StreakChange::Keep
                }
            },
            None => StreakChange::Restart,
        }
    }

    /// An achievement as a user sees it: unlocked, with the time and the
    /// progress of the first record that unlocks it, or locked, with the
    /// progress that the counts of the user give.
    pub fn with_progress(
        achievement: Achievement,
        unlocked: &Vec<UserAchievement>,
        counted_progress: i32,
    ) -> (seen: AchievementWithProgress)
        ensures
            seen.achievement == achievement,
            match unlocked_index(unlocked@, achievement.id@, unlocked@.len() as int) {
                Some(i) => seen.unlocked && seen.unlocked_at == Some(unlocked@[i].unlocked_at)
                    && seen.progress == unlocked@[i].progress,
                None => !seen.unlocked && seen.unlocked_at is None && seen.progress
                    == counted_progress,
            },
    {
        let mut i: usize = 0;
        while i < unlocked.len()
            invariant
                i <= unlocked@.len(),
                unlocked_index(unlocked@, achievement.id@, i as int) is None,
            decreases unlocked@.len() - i,
        {
            if str_eq(unlocked[i].achievement_id.as_str(), achievement.id.as_str()) {
                proof {
                    lemma_unlocked_index_stable(
                        unlocked@,
                        achievement.id@,
                        i as int,
                        unlocked@.len() as int,
                    );
                }
                return AchievementWithProgress {
                    achievement,
                    unlocked: true,
                    unlocked_at: Some(unlocked[i].unlocked_at),
                    progress: unlocked[i].progress,
                };
            }
            i += 1;
        }
        AchievementWithProgress {
            achievement,
            unlocked: false,
            unlocked_at: None,
            progress: counted_progress,
        }
    }
}

/// The first record with an identifier stays the first as more are read.
pub proof fn lemma_unlocked_index_stable(unlocked: Seq<UserAchievement>, id: Seq<char>, i: int, n: int)
    requires
        0 <= i < n <= unlocked.len(),
        unlocked_index(unlocked, id, i) is None,
        unlocked[i].achievement_id@ == id,
    ensures
        unlocked_index(unlocked, id, n) == Some(i),
    decreases n - i,
{
    if n > i + 1 {
        lemma_unlocked_index_stable(unlocked, id, i, n - 1);
    }
}

} // verus!
