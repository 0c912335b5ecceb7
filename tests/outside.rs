use argon2::password_hash::SaltString;
use argon2::{Argon2, PasswordHasher};
use portfolio_server::authentication::{
    credentials_outcome, password_outcome, validate_credentials, verify_password_hash,
};
use portfolio_server::errors::AuthError;
use portfolio_server::metrics::{
    counts_as_page_view, extract_domain, hash_session_id, page_visit_row, PageVisitRequest,
};
use sha2::Digest;

fn hash_of(password: &str) -> String {
    let salt = SaltString::from_b64("c29tZXNhbHR2YWx1ZQ").unwrap();
    Argon2::default().hash_password(password.as_bytes(), &salt).unwrap().to_string()
}

#[test]
fn password_check_outcomes() {
    let h = hash_of("correct horse");
    assert_eq!(verify_password_hash(&h, "correct horse"), Ok(()));
    assert_eq!(verify_password_hash(&h, "wrong horse"), Err(AuthError::InvalidCredentials));
    assert_eq!(verify_password_hash("not a phc string", "x"), Err(AuthError::UnexpectedError));
    assert_eq!(password_outcome(None), Err(AuthError::UnexpectedError));
    assert_eq!(password_outcome(Some(false)), Err(AuthError::InvalidCredentials));
}

#[test]
fn login_decisions() {
    let h = hash_of("pw-1234");
    assert_eq!(validate_credentials(Some((7, h.clone())), "pw-1234"), Ok(7));
    assert_eq!(validate_credentials(Some((7, h)), "pw-12345"), Err(AuthError::InvalidCredentials));
    assert_eq!(validate_credentials(None, "pw-1234"), Err(AuthError::InvalidCredentials));
    assert_eq!(credentials_outcome(None, Some(true)), Err(AuthError::InvalidCredentials));
    assert_eq!(credentials_outcome(Some(3), Some(true)), Ok(3));
    assert_eq!(credentials_outcome(Some(3), None), Err(AuthError::UnexpectedError));
}

#[test]
fn session_hash_uses_uuid_bytes() {
    let id = uuid::Uuid::new_v4();
    let expected = format!("{:x}", sha2::Sha256::digest(id.as_bytes()));
    assert_eq!(hash_session_id(id.as_u128()), expected);
    assert_eq!(hash_session_id(0).len(), 64);
    assert_ne!(hash_session_id(1), hash_session_id(1 << 120));
}

#[test]
fn referrer_domains() {
    assert_eq!(extract_domain("https://example.com/a?b=c").as_deref(), Some("example.com"));
    assert_eq!(extract_domain(""), None);
    assert_eq!(extract_domain("no scheme here"), None);
    let row = page_visit_row(&PageVisitRequest {
        page_path: "/blog".to_string(),
        referrer: Some("http://news.example.org/x".to_string()),
        session_id: 42,
        duration_ms: Some(1500),
    });
    assert_eq!(row.page_path, "/blog");
    assert_eq!(row.referrer_domain.as_deref(), Some("news.example.org"));
    assert_eq!(row.session_hash, hash_session_id(42));
    assert_eq!(row.duration_ms, Some(1500));
    let none = page_visit_row(&PageVisitRequest {
        page_path: "/".to_string(),
        referrer: Some(String::new()),
        session_id: 1,
        duration_ms: None,
    });
    assert!(none.referrer_domain.is_none());
}

#[test]
fn page_view_filter() {
    assert!(counts_as_page_view("GET", "/blog/my-post"));
    assert!(!counts_as_page_view("POST", "/blog"));
    assert!(!counts_as_page_view("GET", "/api/messages"));
    assert!(!counts_as_page_view("GET", "/metrics/summary"));
    assert!(counts_as_page_view("GET", "/api"));
}
