use apol::http::{bearer_header, body_kind, is_success};
use apol::ApolError;
use apol::Body;
use apol::BodyKind;
use apol::HttpResponse;

#[test]
fn success_is_200_to_299() {
    assert!(!is_success(0));
    assert!(!is_success(199));
    assert!(is_success(200));
    assert!(is_success(250));
    assert!(is_success(299));
    assert!(!is_success(300));
    assert!(!is_success(u16::MAX));
}

#[test]
fn body_kind_follows_the_status() {
    assert_eq!(body_kind(200), BodyKind::Json);
    assert_eq!(body_kind(299), BodyKind::Json);
    assert_eq!(body_kind(403), BodyKind::Text);
    assert_eq!(body_kind(100), BodyKind::Text);
}

#[test]
fn page_is_the_text_of_a_success() {
    let ok = HttpResponse { status: 200, body: Body::Text("x".to_string()) };
    assert_eq!(ok.page(), Some("x"));
    let refused = HttpResponse { status: 404, body: Body::Text("x".to_string()) };
    assert_eq!(refused.page(), None);
    let unreadable = HttpResponse { status: 200, body: Body::Unreadable };
    assert_eq!(unreadable.page(), None);
}

#[test]
fn bearer_header_accepts_what_a_header_may_hold() {
    assert_eq!(bearer_header("abc"), Ok("Bearer abc".to_string()));
    assert_eq!(bearer_header(""), Ok("Bearer ".to_string()));
    assert_eq!(bearer_header("a\tb ~"), Ok("Bearer a\tb ~".to_string()));
    assert_eq!(bearer_header("é日本"), Ok("Bearer é日本".to_string()));
    assert_eq!(bearer_header("a\u{80}"), Ok("Bearer a\u{80}".to_string()));
}

#[test]
fn bearer_header_refuses_control_characters() {
    for bad in ["\u{0}", "a\nb", "a\rb", "\u{1f}", "\u{7f}", "a\u{8}"] {
        assert_eq!(bearer_header(bad), Err(ApolError::InvalidHeaderValue));
    }
}
