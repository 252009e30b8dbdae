use lastfm_dating_backend::discover::age_allowed;
use lastfm_dating_backend::discover::rank_by_score;
use lastfm_dating_backend::discover::score_shown;
use lastfm_dating_backend::discover::top_artist_names;
use lastfm_dating_backend::models::Artist;
use lastfm_dating_backend::scoring::Score;

fn score(x: f64) -> Score {
    Score::from_bits(x.to_bits()).unwrap()
}

#[test]
fn age_is_held_to_the_bounds() {
    assert!(age_allowed(Some(30), Some(18), Some(40)));
    assert!(age_allowed(Some(18), Some(18), Some(18)));
    assert!(!age_allowed(Some(17), Some(18), None));
    assert!(!age_allowed(Some(41), None, Some(40)));
    assert!(age_allowed(Some(41), Some(18), None));
    assert!(age_allowed(Some(0), None, None));
    assert!(age_allowed(None, Some(18), Some(40)));
}

#[test]
fn low_scores_are_not_shown() {
    assert!(score_shown(score(10.0)));
    assert!(score_shown(score(99.0)));
    assert!(!score_shown(score(9.999999999)));
    assert!(!score_shown(Score::zero()));
}

#[test]
fn candidates_are_ranked_by_score() {
    let scores: Vec<Score> = [49.5, 99.0, 10.0, 49.5, 0.0, 99.0, 75.25].iter().map(|x| score(*x)).collect();
    assert_eq!(rank_by_score(&scores), vec![1, 5, 6, 0, 3, 2, 4]);
    assert!(rank_by_score(&vec![]).is_empty());
    assert_eq!(rank_by_score(&vec![score(1.0)]), vec![0]);
    // The order is that of a stable sort by descending score.
    let values = [3.5, 3.5, 80.0, 0.25, 42.0, 42.0, 0.25, 99.0];
    let scores: Vec<Score> = values.iter().map(|x| score(*x)).collect();
    let mut expected: Vec<usize> = (0..values.len()).collect();
    expected.sort_by(|a, b| values[*b].partial_cmp(&values[*a]).unwrap());
    assert_eq!(rank_by_score(&scores), expected);
}

#[test]
fn top_artists_are_the_first_of_the_profile() {
    let artists: Vec<Artist> = ["a", "b", "c"]
        .iter()
        .map(|n| Artist { name: n.to_string(), mbid: None, play_count: 1, listeners: 1 })
        .collect();
    assert_eq!(top_artist_names(&artists, 5), vec!["a", "b", "c"]);
    assert_eq!(top_artist_names(&artists, 2), vec!["a", "b"]);
    assert!(top_artist_names(&artists, 0).is_empty());
    assert!(top_artist_names(&vec![], 5).is_empty());
}
