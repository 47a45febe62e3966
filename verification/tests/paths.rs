use boosty_api::api_client::bundle::{bundle_posts_path, bundles_path};
use boosty_api::api_client::dialog::{dialog_messages_path, dialogs_path};
use boosty_api::api_client::post::{post_path, posts_page_path};
use boosty_api::api_client::subscriber::subscribers_path;
use boosty_api::api_client::{
    check_access_token, classify_status, encode_segment, status_error, StatusClass,
};
use boosty_api::error::ApiError;
use reqwest::StatusCode;
use boosty_api::error::AuthError;
use boosty_api::text::u64_to_decimal;

#[test]
fn dialogs_path_with_limit() {
    assert_eq!(dialogs_path(Some(20), None), "dialog/?limit=20");
    assert_eq!(dialogs_path(Some(5), None), "dialog/?limit=5");
}

#[test]
fn dialogs_path_without_params() {
    assert_eq!(dialogs_path(None, None), "dialog/");
}

#[test]
fn dialogs_path_puts_offset_first() {
    assert_eq!(dialogs_path(Some(3), Some(7)), "dialog/?offset=7&limit=3");
    assert_eq!(dialogs_path(None, Some(0)), "dialog/?offset=0");
}

#[test]
fn dialog_messages_paths() {
    assert_eq!(
        dialog_messages_path(3323943, Some(30), None),
        "dialog/3323943/message/?limit=30"
    );
    assert_eq!(dialog_messages_path(42, Some(30), None), "dialog/42/message/?limit=30");
    assert_eq!(
        dialog_messages_path(42, Some(30), Some(1001)),
        "dialog/42/message/?offset=1001&limit=30"
    );
    assert_eq!(dialog_messages_path(1, None, None), "dialog/1/message/");
}

#[test]
fn subscribers_paths() {
    let blog = "ninitux";
    assert_eq!(
        subscribers_path(blog, Some(5), None, Some("on_time"), Some("gt")),
        format!("blog/{blog}/subscribers?limit=5&sort_by=on_time&order=gt")
    );
    assert_eq!(
        subscribers_path(blog, Some(100), Some(0), None, None),
        format!("blog/{blog}/subscribers?offset=0&limit=100")
    );
    assert_eq!(subscribers_path("b", Some(5), None, None, None), "blog/b/subscribers?limit=5");
    assert_eq!(subscribers_path("b", None, None, None, None), "blog/b/subscribers");
    assert_eq!(
        subscribers_path("b", None, None, Some("a&b"), Some("=")),
        "blog/b/subscribers?sort_by=a%26b&order=%3D"
    );
}

#[test]
fn post_paths() {
    assert_eq!(post_path("b", "1"), "blog/b/post/1");
    assert_eq!(posts_page_path("b", 1, None), "blog/b/post/?limit=1");
    assert_eq!(
        posts_page_path("b", 20, Some("1700000000:42")),
        "blog/b/post/?limit=20&offset=1700000000%3A42"
    );
}

#[test]
fn bundle_paths() {
    assert_eq!(bundles_path("my blog"), "blog/my%20blog/bundle/");
    assert_eq!(
        bundle_posts_path("b", "0f1e-2d", "limit=10&offset=x"),
        "blog/b/bundle/0f1e-2d/post/?limit=10&offset=x"
    );
}

#[test]
fn probe_path_segments_are_percent_encoded() {
    assert_eq!(encode_segment("a/b?c#d"), "a%2Fb%3Fc%23d");
}

#[test]
fn encode_segment_keeps_unreserved_bytes() {
    assert_eq!(
        encode_segment("AZaz09-._~"),
        "AZaz09-._~"
    );
    assert_eq!(encode_segment(""), "");
}

#[test]
fn encode_segment_escapes_every_utf8_byte() {
    assert_eq!(encode_segment("é"), "%C3%A9");
    assert_eq!(encode_segment("a b%"), "a%20b%25");
}

#[test]
fn decimal_formatting() {
    assert_eq!(u64_to_decimal(0), "0");
    assert_eq!(u64_to_decimal(9), "9");
    assert_eq!(u64_to_decimal(10), "10");
    assert_eq!(u64_to_decimal(u64::MAX), u64::MAX.to_string());
}

#[test]
fn status_classes() {
    assert_eq!(classify_status(200), StatusClass::Success);
    assert_eq!(classify_status(204), StatusClass::Success);
    assert_eq!(classify_status(299), StatusClass::Success);
    assert_eq!(classify_status(401), StatusClass::Unauthorized);
    assert_eq!(classify_status(500), StatusClass::Failure);
    assert_eq!(classify_status(403), StatusClass::Failure);
    assert_eq!(classify_status(301), StatusClass::Failure);
    assert_eq!(classify_status(199), StatusClass::Failure);
}

#[test]
fn empty_access_token_is_refused() {
    assert!(matches!(check_access_token(""), Err(AuthError::EmptyAccessToken)));
    assert!(check_access_token("SUPER_SECRET_TOKEN_XYZ").is_ok());
}

#[test]
fn status_errors() {
    assert!(status_error(StatusCode::OK, 200, "dialog/".to_string()).is_none());
    assert!(matches!(
        status_error(StatusCode::UNAUTHORIZED, 401, "dialog/?limit=5".to_string()),
        Some(ApiError::Unauthorized)
    ));
    match status_error(StatusCode::INTERNAL_SERVER_ERROR, 500, "target/456".to_string()) {
        Some(ApiError::HttpStatus { status, endpoint }) => {
            assert_eq!(status, StatusCode::INTERNAL_SERVER_ERROR);
            assert_eq!(endpoint, "target/456");
        }
        other => panic!("expected HttpStatus, got {other:?}"),
    }
}
