use lastfm_dating_backend::errors::AppError;

#[test]
fn errors_have_their_status_and_text() {
    let cases = vec![
        (AppError::Database("x".to_string()), 500, "Database error occurred", "Database error: x"),
        (AppError::Auth("x".to_string()), 401, "x", "Authentication error: x"),
        (AppError::Validation("x".to_string()), 400, "x", "Validation error: x"),
        (AppError::NotFound("x".to_string()), 404, "x", "Not found: x"),
        (AppError::ExternalApi("x".to_string()), 502, "x", "External API error: x"),
        (AppError::Internal("x".to_string()), 500, "Internal server error", "Internal server error: x"),
        (AppError::Unauthorized, 401, "Unauthorized", "Unauthorized"),
        (AppError::Forbidden, 403, "Forbidden", "Forbidden"),
    ];
    for (e, status, shown, full) in cases {
        assert_eq!(e.status_code(), status);
        assert_eq!(e.client_message(), shown);
        assert_eq!(e.message(), full);
    }
}
