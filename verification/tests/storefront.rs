use apol::storefront::read_storefront_ids;
use apol::ApolError;
use apol::Body;
use apol::HttpResponse;
use apol::Json;
use apol::{get_storefront, storefront_request};

fn object(members: Vec<(&str, Json)>) -> Json {
    Json::Object(members.into_iter().map(|(name, value)| (name.to_string(), value)).collect())
}

fn text(s: &str) -> Json {
    Json::Text(s.to_string())
}

fn reply(json: Json) -> HttpResponse {
    HttpResponse { status: 200, body: Body::Json(json) }
}

#[test]
fn storefront_request_adds_bearer_and_user_token_to_the_browser_headers() {
    let request = storefront_request("eyJhabc", "user-token").unwrap();
    assert_eq!(request.url, "https://amp-api.music.apple.com/v1/me/storefront");
    assert_eq!(request.headers.len(), 9);
    assert_eq!(request.headers[0], ("Content-Type".to_string(), "application/json;charset=utf-8".to_string()));
    assert_eq!(request.headers[3], ("Origin".to_string(), "https://music.apple.com".to_string()));
    assert_eq!(request.headers[7], ("Authorization".to_string(), "Bearer eyJhabc".to_string()));
    assert_eq!(request.headers[8], ("media-user-token".to_string(), "user-token".to_string()));
}

#[test]
fn storefront_request_refuses_what_is_no_header_value() {
    assert_eq!(storefront_request("eyJh\nabc", "user"), Err(ApolError::InvalidHeaderValue));
    assert_eq!(storefront_request("eyJhabc", "us\u{1}er"), Err(ApolError::InvalidHeaderValue));
    assert_eq!(storefront_request("eyJhabc", "user\u{7f}"), Err(ApolError::InvalidHeaderValue));
    assert!(storefront_request("eyJhabc", "").is_ok());
    assert!(storefront_request("", "user\ttoken ü").is_ok());
}

#[test]
fn storefront_is_the_first_of_the_list() {
    let json = object(vec![(
        "data",
        Json::Array(vec![
            object(vec![("id", text("143441")), ("type", text("storefronts"))]),
            object(vec![("id", text("143442"))]),
        ]),
    )]);
    assert_eq!(get_storefront(&reply(json)), Ok("143441".to_string()));
}

#[test]
fn storefront_of_an_empty_list_is_no_region_data() {
    let json = object(vec![("data", Json::Array(vec![]))]);
    assert_eq!(get_storefront(&reply(json)), Err(ApolError::NoRegionData));
}

#[test]
fn storefront_without_success_is_unavailable() {
    let json = object(vec![("data", Json::Array(vec![object(vec![("id", text("143441"))])]))]);
    let response = HttpResponse { status: 401, body: Body::Json(json) };
    assert_eq!(get_storefront(&response), Err(ApolError::UpstreamUnavailable));
    let response = HttpResponse { status: 500, body: Body::Text("down".to_string()) };
    assert_eq!(get_storefront(&response), Err(ApolError::UpstreamUnavailable));
}

#[test]
fn storefront_of_another_shape_is_a_decode_failure() {
    for json in [
        object(vec![]),
        object(vec![("data", Json::Null)]),
        object(vec![("data", object(vec![]))]),
        object(vec![("data", Json::Array(vec![object(vec![])]))]),
        object(vec![("data", Json::Array(vec![object(vec![("id", Json::Integer(143441))])]))]),
        object(vec![("data", Json::Array(vec![object(vec![("id", Json::Null)])]))]),
        object(vec![(
            "data",
            Json::Array(vec![object(vec![("id", text("143441"))]), object(vec![("name", text("x"))])]),
        )]),
        text("143441"),
        Json::Null,
    ] {
        assert_eq!(get_storefront(&reply(json)), Err(ApolError::DecodeFailed));
    }
    let response = HttpResponse { status: 200, body: Body::Text("{\"data\":[]}".to_string()) };
    assert_eq!(get_storefront(&response), Err(ApolError::DecodeFailed));
    let response = HttpResponse { status: 200, body: Body::Unreadable };
    assert_eq!(get_storefront(&response), Err(ApolError::DecodeFailed));
}

#[test]
fn storefront_records_may_stand_as_lists() {
    let json = Json::Array(vec![Json::Array(vec![Json::Array(vec![text("143441")])])]);
    assert_eq!(read_storefront_ids(&json), Some(vec!["143441".to_string()]));
    assert_eq!(get_storefront(&reply(json)), Ok("143441".to_string()));
    let too_long = Json::Array(vec![Json::Array(vec![]), Json::Null]);
    assert_eq!(read_storefront_ids(&too_long), None);
}
