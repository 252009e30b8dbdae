use lastfm_dating_backend::discover::age_in_years;
use lastfm_dating_backend::discover::CalendarDay;
use lastfm_dating_backend::errors::AppError;
use lastfm_dating_backend::rate_limit::begins_window;
use lastfm_dating_backend::rate_limit::client_ip;
use lastfm_dating_backend::users::column_name;
use lastfm_dating_backend::users::update_plan;
use lastfm_dating_backend::users::UpdateFields;
use lastfm_dating_backend::users::UserField;

fn day(year: i32, month: u32, day: u32) -> CalendarDay {
    CalendarDay { year, month, day }
}

fn none() -> UpdateFields {
    UpdateFields {
        name: false,
        bio: false,
        birth_date: false,
        gender: false,
        looking_for: false,
        latitude: false,
        longitude: false,
    }
}

#[test]
fn update_changes_the_given_fields_in_order() {
    match update_plan(none()) {
        Err(AppError::Validation(text)) => assert_eq!(text, "No fields to update"),
        other => panic!("unexpected: {:?}", other),
    }
    let mut fields = none();
    fields.longitude = true;
    fields.bio = true;
    assert_eq!(update_plan(fields).unwrap(), vec![UserField::Bio, UserField::Longitude]);
    let all = UpdateFields {
        name: true,
        bio: true,
        birth_date: true,
        gender: true,
        looking_for: true,
        latitude: true,
        longitude: true,
    };
    let plan = update_plan(all).unwrap();
    assert_eq!(
        plan,
        vec![
            UserField::Name,
            UserField::Bio,
            UserField::BirthDate,
            UserField::Gender,
            UserField::LookingFor,
            UserField::Latitude,
            UserField::Longitude,
        ]
    );
    let columns: Vec<&str> = plan.iter().map(|f| column_name(*f)).collect();
    assert_eq!(
        columns,
        vec!["name", "bio", "birth_date", "gender", "looking_for", "latitude", "longitude"]
    );
}

#[test]
fn age_counts_whole_years() {
    assert_eq!(age_in_years(day(1990, 6, 15), day(2024, 6, 15)), 34);
    assert_eq!(age_in_years(day(1990, 6, 15), day(2024, 6, 14)), 33);
    assert_eq!(age_in_years(day(1990, 6, 15), day(2024, 5, 30)), 33);
    assert_eq!(age_in_years(day(1990, 6, 15), day(2024, 7, 1)), 34);
    assert_eq!(age_in_years(day(2024, 2, 29), day(2025, 2, 28)), 0);
    assert_eq!(age_in_years(day(2024, 2, 29), day(2025, 3, 1)), 1);
    assert_eq!(age_in_years(day(2030, 1, 1), day(2024, 1, 1)), 0);
    assert_eq!(age_in_years(day(2024, 1, 2), day(2024, 1, 1)), 0);
    assert_eq!(age_in_years(day(i32::MIN, 1, 1), day(i32::MAX, 12, 31)), u32::MAX);
    // As chrono counts them.
    let days = [(1990, 6, 15), (2000, 2, 29), (2024, 2, 28), (2024, 12, 31), (1970, 1, 1), (2025, 3, 1)];
    for b in days {
        for t in days {
            let birth = chrono::NaiveDate::from_ymd_opt(b.0, b.1, b.2).unwrap();
            let today = chrono::NaiveDate::from_ymd_opt(t.0, t.1, t.2).unwrap();
            assert_eq!(
                age_in_years(day(b.0, b.1, b.2), day(t.0, t.1, t.2)),
                today.years_since(birth).unwrap_or(0)
            );
        }
    }
}

#[test]
fn client_ip_is_the_first_forwarded_address() {
    assert_eq!(client_ip(Some("1.2.3.4")), "1.2.3.4");
    assert_eq!(client_ip(Some(" 1.2.3.4 , 5.6.7.8")), "1.2.3.4");
    assert_eq!(client_ip(Some(",5.6.7.8")), "");
    assert_eq!(client_ip(Some("")), "");
    assert_eq!(client_ip(None), "unknown");
    assert!(begins_window(1));
    assert!(!begins_window(0));
    assert!(!begins_window(2));
}

#[test]
fn failures_are_made_with_their_words() {
    match AppError::internal("Redis get error", "closed") {
        AppError::Internal(text) => assert_eq!(text, "Redis get error: closed"),
        other => panic!("unexpected: {:?}", other),
    }
    match AppError::database("pool timed out") {
        AppError::Database(text) => assert_eq!(text, "pool timed out"),
        other => panic!("unexpected: {:?}", other),
    }
    match AppError::not_found("User") {
        AppError::NotFound(text) => assert_eq!(text, "User not found"),
        other => panic!("unexpected: {:?}", other),
    }
}
