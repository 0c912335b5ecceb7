use portfolio_server::configuration::{
    default_login_rate_limit, default_message_rate_limit, Environment, RateLimitSettings,
};
use portfolio_server::errors::{
    AuthError, BlogDeleteError, BlogError, BlogPostError, ContactSubmissionError, ErrorMessage,
    MessagePatchError, MetricsError,
};
use portfolio_server::metrics::sanitize_route;
use portfolio_server::pagination::{
    default_page, default_page_size, PaginatedResponse, PaginationMeta, PaginationQuery,
};
use portfolio_server::routes::blog::{
    blog_delete_outcome, blog_update_outcome, classify_post_insert_error, get_blog_post_slug,
    BlogEditRequest,
};
use portfolio_server::routes::contact::{check_message_length, check_name_length, validate_parts, MessageForm};
use portfolio_server::routes::messages::{
    classify_message_insert_error, message_patch_outcome, rate_limit_outcome, MessageQuery,
};

#[test]
fn blog_post_slug() {
    let title = "New Blog Title".to_string();
    let slug = get_blog_post_slug(&title);
    assert_eq!(slug, "new-blog-title".to_string())
}

#[test]
fn message_form_validation_works() {
    let form_with_bad_email = MessageForm {
        email: "bademail".to_string(),
        sender_name: "John Doe".to_string(),
        message_text: "This is a test message.".to_string(),
    };

    let mut result = form_with_bad_email.validate();
    assert!(matches!(result, Err(ContactSubmissionError::InvalidEmail)));

    let form_with_bad_name = MessageForm {
        email: "test@email.com".to_string(),
        sender_name: "N".to_string(),
        message_text: "This is a test message".to_string(),
    };

    result = form_with_bad_name.validate();
    assert!(matches!(result, Err(ContactSubmissionError::NameLength)));

    let form_with_whitespace_name = MessageForm {
        email: "test@email.com".to_string(),
        sender_name: "   ".to_string(),
        message_text: "This is a test message".to_string(),
    };

    result = form_with_whitespace_name.validate();
    assert!(matches!(result, Err(ContactSubmissionError::NameLength)));

    let form_with_bad_message = MessageForm {
        email: "test@email.com".to_string(),
        sender_name: "John Doe".to_string(),
        message_text: "T".to_string(),
    };

    result = form_with_bad_message.validate();
    assert!(matches!(result, Err(ContactSubmissionError::MessageLength)));

    let good_form = MessageForm {
        email: "test@email.com".to_string(),
        sender_name: "John Doe".to_string(),
        message_text: "This is a test message".to_string(),
    }
    .validate();

    assert!(good_form.is_ok());
}

#[test]
fn validated_form_is_trimmed() {
    let form = MessageForm {
        email: "test@email.com".to_string(),
        sender_name: "  John Doe ".to_string(),
        message_text: "\tThis is a test message\n".to_string(),
    };
    let v = form.validate().unwrap();
    assert_eq!(v.email, "test@email.com");
    assert_eq!(v.sender_name, "John Doe");
    assert_eq!(v.message_text, "This is a test message");
    assert_eq!(form.validate_name().unwrap(), "John Doe");
    assert_eq!(form.validate_message().unwrap(), "This is a test message");
    let unicode_spaces = MessageForm {
        email: "test@email.com".to_string(),
        sender_name: "\u{2003}Jo\u{3000}".to_string(),
        message_text: "\u{a0}This is a test message\u{85}".to_string(),
    };
    let v = unicode_spaces.validate().unwrap();
    assert_eq!(v.sender_name, "Jo");
    assert_eq!(v.message_text, "This is a test message");
}

#[test]
fn length_bounds_of_contact_fields() {
    assert!(check_name_length("ab").is_ok());
    assert_eq!(check_name_length("a").unwrap_err(), ContactSubmissionError::NameLength);
    assert!(check_name_length(&"n".repeat(100)).is_ok());
    assert_eq!(check_name_length(&"n".repeat(101)).unwrap_err(), ContactSubmissionError::NameLength);
    assert!(check_message_length("0123456789").is_ok());
    assert_eq!(check_message_length("012345678").unwrap_err(), ContactSubmissionError::MessageLength);
    assert!(check_message_length(&"m".repeat(5000)).is_ok());
    assert_eq!(check_message_length(&"m".repeat(5001)).unwrap_err(), ContactSubmissionError::MessageLength);
    // two bytes, one character
    assert!(check_name_length("é").is_ok());
    assert_eq!(
        validate_parts(None, "John", "long enough text").unwrap_err(),
        ContactSubmissionError::InvalidEmail
    );
}

#[test]
fn contact_error_bodies() {
    let text = |e: ContactSubmissionError| e.to_message_error().and_then(|m| m.message);
    assert_eq!(text(ContactSubmissionError::InvalidEmail).unwrap(), "Invalid email");
    assert_eq!(
        text(ContactSubmissionError::MessageLength).unwrap(),
        "Message must be between 10 and 5000 characters"
    );
    assert_eq!(
        text(ContactSubmissionError::NameLength).unwrap(),
        "Name must be between 2 and 100 characters."
    );
    assert!(ContactSubmissionError::RateLimitExceeded.to_message_error().is_none());
    assert!(ContactSubmissionError::DuplicateMessage.to_message_error().is_none());
    assert!(ContactSubmissionError::UnexpectedError.to_message_error().is_none());
    assert!(ErrorMessage::new(None).message.is_none());
}

#[test]
fn error_status_codes() {
    assert_eq!(ContactSubmissionError::InvalidEmail.status_code(), 400);
    assert_eq!(ContactSubmissionError::RateLimitExceeded.status_code(), 429);
    assert_eq!(ContactSubmissionError::DuplicateMessage.status_code(), 409);
    assert_eq!(ContactSubmissionError::UnexpectedError.status_code(), 500);
    assert_eq!(AuthError::RateLimitExceeded.status_code(), 429);
    assert_eq!(AuthError::InvalidCredentials.status_code(), 401);
    assert_eq!(AuthError::UnexpectedError.status_code(), 500);
    assert_eq!(BlogError::PostNotFound.status_code(), 404);
    assert_eq!(BlogError::InvalidContent("x".to_string()).status_code(), 400);
    assert_eq!(BlogError::SlugConflict.status_code(), 409);
    assert_eq!(BlogError::QueryFailed.status_code(), 500);
    assert_eq!(BlogPostError::DuplicatePost.status_code(), 409);
    assert_eq!(BlogDeleteError::PostNotFound.status_code(), 404);
    assert_eq!(MessagePatchError::MessageNotFound.status_code(), 404);
    assert_eq!(MetricsError::UnexpectedError.status_code(), 500);
}

#[test]
fn row_count_outcomes() {
    assert!(blog_update_outcome(1).is_ok());
    assert!(matches!(blog_update_outcome(0), Err(BlogError::PostNotFound)));
    assert!(matches!(blog_update_outcome(2), Err(BlogError::UnexpectedError)));
    assert_eq!(blog_delete_outcome(0), Err(BlogDeleteError::PostNotFound));
    assert_eq!(blog_delete_outcome(3), Err(BlogDeleteError::UnexpectedError));
    assert_eq!(message_patch_outcome(1), Ok(()));
    assert_eq!(message_patch_outcome(0), Err(MessagePatchError::MessageNotFound));
    assert_eq!(rate_limit_outcome(Some(true)), Ok(()));
    assert_eq!(rate_limit_outcome(Some(false)), Err(ContactSubmissionError::RateLimitExceeded));
    assert_eq!(rate_limit_outcome(None), Err(ContactSubmissionError::RateLimitExceeded));
}

#[test]
fn duplicates_reported_by_the_store() {
    let e = "error returned from database: Duplicate message detected (trigger)";
    assert_eq!(classify_post_insert_error(e), BlogPostError::DuplicatePost);
    assert_eq!(classify_message_insert_error(e), ContactSubmissionError::DuplicateMessage);
    assert_eq!(classify_post_insert_error("connection reset"), BlogPostError::UnexpectedError);
    assert_eq!(classify_message_insert_error("duplicate"), ContactSubmissionError::UnexpectedError);
}

#[test]
fn pagination_bounds() {
    assert_eq!(default_page(), 1);
    assert_eq!(default_page_size(), 20);
    let q = PaginationQuery { page: 0, page_size: 100 };
    assert_eq!((q.page(), q.page_size(), q.limit(), q.offset()), (1, 20, 20, 0));
    let q = PaginationQuery { page: 3, page_size: 0 };
    assert_eq!((q.page(), q.page_size(), q.offset()), (3, 1, 2));
    let q = PaginationQuery { page: 4, page_size: 15 };
    assert_eq!(q.offset(), 45);
    let m = PaginationMeta::from_total(0, &q);
    assert_eq!((m.page, m.page_size, m.total_items, m.total_pages), (4, 15, 0, 0));
    assert_eq!(PaginationMeta::from_total(15, &q).total_pages, 1);
    assert_eq!(PaginationMeta::from_total(16, &q).total_pages, 2);
    assert_eq!(PaginationMeta::from_total(i64::MAX, &PaginationQuery { page: 1, page_size: 1 }).total_pages, i64::MAX);
    let two = PaginationQuery { page: 1, page_size: 2 };
    assert_eq!(PaginationMeta::from_total(-5, &two).total_pages, -2);
    assert_eq!(PaginationMeta::from_total(-1, &PaginationQuery { page: 1, page_size: 3 }).total_pages, 0);
    assert_eq!(PaginationMeta::from_total(i64::MIN, &PaginationQuery { page: 1, page_size: 1 }).total_pages, i64::MIN);
    let page: PaginatedResponse<u8> = PaginatedResponse { data: vec![1], pagination: m };
    assert_eq!(page.data.len(), 1);
}

#[test]
fn message_query_window() {
    assert_eq!(MessageQuery { page: -2, page_size: 50 }.window(), (0, 20, 0));
    assert_eq!(MessageQuery { page: 2, page_size: 10 }.window(), (2, 10, 20));
    assert_eq!(MessageQuery { page: 1, page_size: -1 }.window(), (1, 1, 1));
    assert_eq!(portfolio_server::routes::messages::default_page_size(), 20);
}

#[test]
fn environments_and_defaults() {
    assert_eq!(Environment::Local.as_str(), "local");
    assert_eq!(Environment::Production.as_str(), "production");
    assert_eq!(Environment::try_from("LOCAL".to_string()), Ok(Environment::Local));
    assert_eq!(Environment::try_from("Production".to_string()), Ok(Environment::Production));
    assert_eq!(
        Environment::try_from("Staging".to_string()).unwrap_err(),
        "staging is not a supported environment. Use either `local` or `production`."
    );
    let l = default_login_rate_limit();
    assert_eq!((l.max_requests, l.window_secs), (3, 10));
    let m = default_message_rate_limit();
    assert_eq!((m.max_messages, m.window_minutes), (3, 60));
    let d = RateLimitSettings::default();
    assert_eq!((d.login.max_requests, d.message.window_minutes), (3, 60));
}

#[test]
fn route_labels_hide_ids() {
    assert_eq!(sanitize_route("/api/blog/42"), "/api/blog/{id}");
    assert_eq!(
        sanitize_route("/api/messages/550e8400-e29b-41d4-a716-446655440000/read"),
        "/api/messages/{id}/read"
    );
    assert_eq!(sanitize_route("/about-me"), "/about-me");
    assert_eq!(sanitize_route("/v2x/7/"), "/v2x/{id}/");
    assert_eq!(sanitize_route(""), "");
    assert_eq!(sanitize_route("12"), "{id}");
}

#[test]
fn blog_edit_columns() {
    let none = BlogEditRequest { post_id: 1, title: None, content: None, excerpt: None, author: None };
    assert!(matches!(none.edit_fields(), Err(BlogError::UnexpectedError)));
    let some = BlogEditRequest {
        post_id: 1,
        title: Some("T".to_string()),
        content: None,
        excerpt: Some("E".to_string()),
        author: Some("A".to_string()),
    };
    let fields = some.edit_fields().unwrap();
    assert_eq!(
        fields,
        vec![
            ("title".to_string(), "T".to_string()),
            ("excerpt".to_string(), "E".to_string()),
            ("author".to_string(), "A".to_string()),
        ]
    );
}
