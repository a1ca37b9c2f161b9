use apol::ApolError;
use apol::AppleMusicToken;
use apol::Body;
use apol::HttpResponse;
use apol::Json;

fn script(body: &str) -> HttpResponse {
    HttpResponse { status: 200, body: Body::Text(body.to_string()) }
}

fn storefronts(ids: &[&str]) -> HttpResponse {
    let records = ids
        .iter()
        .map(|id| Json::Object(vec![("id".to_string(), Json::Text(id.to_string()))]))
        .collect();
    HttpResponse {
        status: 200,
        body: Body::Json(Json::Object(vec![("data".to_string(), Json::Array(records))])),
    }
}

fn unauthenticated(jwt: &str) -> AppleMusicToken {
    AppleMusicToken::new(&script(&format!("token:\"{}\"", jwt))).unwrap()
}

#[test]
fn new_takes_the_bearer_out_of_the_script() {
    let token = AppleMusicToken::new(&script("x=\"eyJhbGciOiJFUzI1NiJ9.xyz\";")).unwrap();
    assert_eq!(token.get_jwt(), "eyJhbGciOiJFUzI1NiJ9.xyz");
    assert!(!token.is_authenticated());
    assert_eq!(token.get_user_token(), None);
    assert_eq!(token.get_store_id(), None);
}

#[test]
fn new_fails_as_the_scraper_does() {
    assert_eq!(AppleMusicToken::new(&script("no token here")), Err(ApolError::ExtractionFailed));
    let refused = HttpResponse { status: 503, body: Body::Text("\"eyJhabc\"".to_string()) };
    assert_eq!(AppleMusicToken::new(&refused), Err(ApolError::UpstreamUnavailable));
}

#[test]
fn authenticate_keeps_bearer_and_token_and_takes_the_region() {
    let token = unauthenticated("eyJhbGciOiJFUzI1NiJ9.xyz");
    let authenticated = token.authenticate("user-token-1".to_string(), &storefronts(&["143441"])).unwrap();
    assert!(authenticated.is_authenticated());
    assert_eq!(authenticated.get_jwt(), "eyJhbGciOiJFUzI1NiJ9.xyz");
    assert_eq!(authenticated.get_user_token(), Some("user-token-1"));
    assert_eq!(authenticated.get_store_id(), Some("143441"));
}

#[test]
fn authenticate_refuses_an_authenticated_credential() {
    let authenticated = unauthenticated("eyJhabc")
        .authenticate("user".to_string(), &storefronts(&["143441"]))
        .unwrap();
    let kept = authenticated.clone();
    let again = authenticated.authenticate("other".to_string(), &storefronts(&["143442"]));
    assert_eq!(again, Err(ApolError::InvalidState));
    assert!(kept.is_authenticated());
    assert_eq!(kept.get_jwt(), "eyJhabc");
    assert_eq!(kept.get_user_token(), Some("user"));
    assert_eq!(kept.get_store_id(), Some("143441"));
}

#[test]
fn clone_is_equal_to_what_was_cloned() {
    let token = unauthenticated("eyJhabc");
    assert_eq!(token.clone(), token);
    let authenticated = token.authenticate("u".to_string(), &storefronts(&["1"])).unwrap();
    assert_eq!(authenticated.clone(), authenticated);
}

#[test]
fn authentication_request_carries_bearer_and_user_token() {
    let token = unauthenticated("eyJhabc");
    let request = token.authentication_request("user-token").unwrap();
    assert_eq!(request.url, "https://amp-api.music.apple.com/v1/me/storefront");
    assert_eq!(request.headers.len(), 9);
    assert_eq!(request.headers[7], ("Authorization".to_string(), "Bearer eyJhabc".to_string()));
    assert_eq!(request.headers[8], ("media-user-token".to_string(), "user-token".to_string()));
}

#[test]
fn authentication_request_refuses_an_authenticated_credential() {
    let authenticated = unauthenticated("eyJhabc")
        .authenticate("user".to_string(), &storefronts(&["143441"]))
        .unwrap();
    assert_eq!(authenticated.authentication_request("user"), Err(ApolError::InvalidState));
}

#[test]
fn authenticate_fails_as_the_resolver_does() {
    let empty = storefronts(&[]);
    assert_eq!(unauthenticated("eyJhabc").authenticate("u".to_string(), &empty), Err(ApolError::NoRegionData));
    let refused = HttpResponse { status: 401, body: Body::Text("no".to_string()) };
    assert_eq!(
        unauthenticated("eyJhabc").authenticate("u".to_string(), &refused),
        Err(ApolError::UpstreamUnavailable)
    );
    let shapeless = HttpResponse { status: 200, body: Body::Json(Json::Null) };
    assert_eq!(
        unauthenticated("eyJhabc").authenticate("u".to_string(), &shapeless),
        Err(ApolError::DecodeFailed)
    );
}

#[test]
fn authenticate_refuses_an_authenticated_credential_whatever_the_answer() {
    let authenticated = unauthenticated("eyJhabc")
        .authenticate("user".to_string(), &storefronts(&["143441", "143442"]))
        .unwrap();
    assert_eq!(authenticated.get_store_id(), Some("143441"));
    let refused = HttpResponse { status: 500, body: Body::Unreadable };
    assert_eq!(authenticated.authenticate("user".to_string(), &refused), Err(ApolError::InvalidState));
}
