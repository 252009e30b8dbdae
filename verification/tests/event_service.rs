use lastfm_dating_backend::event_service::CreateEventInterest;
use lastfm_dating_backend::event_service::EventService;

#[test]
fn nearby_query_has_a_condition_for_each_place() {
    let select = "SELECT DISTINCT event_id, event_name, artist_name, venue_name, event_date, city, country, external_url FROM event_interests WHERE user_id != ?";
    let order = " ORDER BY event_date ASC LIMIT 50";
    assert_eq!(EventService::nearby_events_query(false, false), format!("{}{}", select, order));
    assert_eq!(
        EventService::nearby_events_query(true, false),
        format!("{} AND city = ?{}", select, order)
    );
    assert_eq!(
        EventService::nearby_events_query(false, true),
        format!("{} AND country = ?{}", select, order)
    );
    assert_eq!(
        EventService::nearby_events_query(true, true),
        format!("{} AND city = ? AND country = ?{}", select, order)
    );
}

#[test]
fn no_events_are_recommended() {
    assert!(EventService::recommended_events(&vec!["Burial".to_string()]).is_empty());
    assert!(EventService::recommended_events(&vec![]).is_empty());
}

#[test]
fn event_is_shown_with_its_users() {
    let event = CreateEventInterest {
        event_id: "e1".to_string(),
        event_name: "Festival".to_string(),
        artist_name: Some("Burial".to_string()),
        venue_name: None,
        event_date: None,
        city: Some("Berlin".to_string()),
        country: Some("DE".to_string()),
        external_url: None,
    };
    let shown = EventService::with_common_users(event, 2, vec!["a".to_string(), "b".to_string()]);
    assert_eq!(shown.event_id, "e1");
    assert_eq!(shown.event_name, "Festival");
    assert_eq!(shown.artist_name.as_deref(), Some("Burial"));
    assert_eq!(shown.venue_name, None);
    assert_eq!(shown.event_date, None);
    assert_eq!(shown.city.as_deref(), Some("Berlin"));
    assert_eq!(shown.country.as_deref(), Some("DE"));
    assert_eq!(shown.external_url, None);
    assert_eq!(shown.common_user_count, 2);
    assert_eq!(shown.common_user_names, vec!["a", "b"]);
}
