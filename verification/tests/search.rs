use apol::search::songs_from_json;
use apol::ApolError;
use apol::AppleMusicSong;
use apol::AppleMusicSongDatum;
use apol::AppleMusicToken;
use apol::Body;
use apol::HttpResponse;
use apol::Json;
use apol::{search_request, search_track};

fn token(jwt: &str) -> AppleMusicToken {
    let script = HttpResponse { status: 200, body: Body::Text(format!("t=\"{}\"", jwt)) };
    AppleMusicToken::new(&script).unwrap()
}

fn object(members: Vec<(&str, Json)>) -> Json {
    Json::Object(members.into_iter().map(|(name, value)| (name.to_string(), value)).collect())
}

fn text(s: &str) -> Json {
    Json::Text(s.to_string())
}

fn empty_datum() -> AppleMusicSongDatum {
    AppleMusicSongDatum {
        id: None,
        type_: None,
        href: None,
        attributes: None,
        relationships: None,
        meta: None,
    }
}

#[test]
fn search_request_carries_the_bearer_and_the_encoded_query() {
    let request = search_request(&token("eyJhabc"), "hello world").unwrap();
    assert_eq!(
        request.url,
        "https://amp-api.music.apple.com/v1/catalog/us/search?term=hello%20world&limit=1&types=songs"
    );
    assert_eq!(
        request.headers,
        vec![
            ("origin".to_string(), "https://music.apple.com".to_string()),
            (
                "user-agent".to_string(),
                "Mozilla/5.0 (Macintosh; Intel Mac OS X 10_15_7) AppleWebKit/537.36 (KHTML, like Gecko) Chrome/127.0.0.0 Safari/537.36"
                    .to_string()
            ),
            ("authorization".to_string(), "Bearer eyJhabc".to_string()),
        ]
    );
}

#[test]
fn search_request_percent_encodes_all_but_unreserved_bytes() {
    let url = |query: &str| search_request(&token("eyJhabc"), query).unwrap().url;
    let around = |term: &str| {
        format!("https://amp-api.music.apple.com/v1/catalog/us/search?term={}&limit=1&types=songs", term)
    };
    assert_eq!(url(""), around(""));
    assert_eq!(url("AZaz09-._~"), around("AZaz09-._~"));
    assert_eq!(url("a&b=c/d?e"), around("a%26b%3Dc%2Fd%3Fe"));
    assert_eq!(url("é"), around("%C3%A9"));
    assert_eq!(url("\u{0}\u{7f}"), around("%00%7F"));
    assert_eq!(url("日本"), around("%E6%97%A5%E6%9C%AC"));
    assert_eq!(url("@[`{"), around("%40%5B%60%7B"));
}

#[test]
fn search_request_refuses_a_bearer_that_is_no_header_value() {
    assert_eq!(search_request(&token("eyJh\rabc"), "q"), Err(ApolError::InvalidHeaderValue));
    assert_eq!(search_request(&token("eyJh\u{7f}"), "q"), Err(ApolError::InvalidHeaderValue));
    assert!(search_request(&token("eyJh\tabc é"), "q").is_ok());
}

#[test]
fn search_rejected_keeps_status_and_body() {
    let reply = HttpResponse { status: 403, body: Body::Text("{\"error\":\"forbidden\"}".to_string()) };
    assert_eq!(
        search_track(reply),
        Err(ApolError::UpstreamRejected { status: 403, body: "{\"error\":\"forbidden\"}".to_string() })
    );
}

#[test]
fn search_rejected_without_a_readable_body_is_unavailable() {
    let reply = HttpResponse { status: 500, body: Body::Unreadable };
    assert_eq!(search_track(reply), Err(ApolError::UpstreamUnavailable));
}

#[test]
fn search_without_songs_is_no_result() {
    for json in [
        object(vec![]),
        object(vec![("results", object(vec![]))]),
        object(vec![("results", object(vec![("albums", object(vec![]))]))]),
        object(vec![("results", Json::Null)]),
        object(vec![("results", Json::Array(vec![object(vec![("songs", object(vec![]))])]))]),
        object(vec![("results", object(vec![("songs", text("none"))]))]),
        object(vec![("results", object(vec![("songs", object(vec![("data", text("x"))]))]))]),
        Json::Array(vec![]),
        Json::Null,
    ] {
        let reply = HttpResponse { status: 200, body: Body::Json(json) };
        assert_eq!(search_track(reply), Ok(None));
    }
}

#[test]
fn search_with_songs_gives_them() {
    let json = object(vec![(
        "results",
        object(vec![(
            "songs",
            object(vec![
                ("href", text("ignored")),
                ("data", Json::Array(vec![object(vec![("id", text("42")), ("type", text("songs"))])])),
            ]),
        )]),
    )]);
    let reply = HttpResponse { status: 200, body: Body::Json(json) };
    let expected = AppleMusicSong {
        data: Some(vec![AppleMusicSongDatum {
            id: Some("42".to_string()),
            type_: Some("songs".to_string()),
            ..empty_datum()
        }]),
    };
    assert_eq!(search_track(reply), Ok(Some(expected)));
}

#[test]
fn search_with_songs_but_no_data_is_an_empty_result() {
    let json = object(vec![("results", object(vec![("songs", object(vec![]))]))]);
    assert_eq!(songs_from_json(&json), Some(AppleMusicSong { data: None }));
}

#[test]
fn search_with_success_needs_a_document() {
    let reply = HttpResponse { status: 200, body: Body::Text("{}".to_string()) };
    assert_eq!(search_track(reply), Err(ApolError::DecodeFailed));
    let reply = HttpResponse { status: 200, body: Body::Unreadable };
    assert_eq!(search_track(reply), Err(ApolError::DecodeFailed));
}
