use apol::ApolError;
use apol::AppleMusicTokenManager;
use apol::Body;
use apol::Duration;
use apol::HttpResponse;
use apol::Timestamp;

fn at(secs: u64) -> Timestamp {
    Timestamp::from_unix(Duration::from_secs(secs))
}

fn script(jwt: &str) -> HttpResponse {
    HttpResponse { status: 200, body: Body::Text(format!("t=\"{}\"", jwt)) }
}

#[test]
fn manager_starts_empty_with_one_hour_to_live() {
    let manager = AppleMusicTokenManager::new();
    assert!(manager.current().is_none());
    assert_eq!(manager.token_lifetime(), Duration::from_secs(3600));
    assert!(!manager.is_token_valid(&at(0)));
    assert_eq!(manager.get_token(&at(0)), None);
}

#[test]
fn two_gets_within_the_window_give_the_same_bearer_with_one_scrape() {
    let mut manager = AppleMusicTokenManager::new();
    let mut scrapes = 0;
    let mut bearers = Vec::new();
    for now in [1000u64, 1001, 2500, 4599] {
        let token = match manager.get_token(&at(now)) {
            Some(token) => token,
            None => {
                scrapes += 1;
                manager.refresh(&script(&format!("eyJh{}", scrapes)), &at(now)).unwrap()
            }
        };
        bearers.push(token.get_jwt().to_string());
    }
    assert_eq!(scrapes, 1);
    assert_eq!(bearers, vec!["eyJh1", "eyJh1", "eyJh1", "eyJh1"]);
}

#[test]
fn get_after_expiry_scrapes_once_and_expires_one_lifetime_later() {
    let mut manager = AppleMusicTokenManager::new();
    manager.refresh(&script("eyJhold"), &at(1000)).unwrap();
    assert_eq!(manager.current().unwrap().expiry(), at(4600));
    assert!(manager.is_token_valid(&at(4599)));
    assert!(!manager.is_token_valid(&at(4600)));
    assert_eq!(manager.get_token(&at(4600)), None);
    let token = manager.refresh(&script("eyJhnew"), &at(4600)).unwrap();
    assert_eq!(token.get_jwt(), "eyJhnew");
    assert_eq!(manager.current().unwrap().expiry(), at(8200));
    assert_eq!(manager.current().unwrap().token().get_jwt(), "eyJhnew");
    assert_eq!(manager.get_token(&at(4601)).unwrap().get_jwt(), "eyJhnew");
}

#[test]
fn expiry_counts_nanoseconds() {
    let mut manager = AppleMusicTokenManager::new();
    manager.set_token_lifetime(Duration::new(0, 500).unwrap());
    let now = Timestamp::from_unix(Duration::new(10, 999_999_900).unwrap());
    manager.refresh(&script("eyJha"), &now).unwrap();
    let expiry = Timestamp::from_unix(Duration::new(11, 400).unwrap());
    assert_eq!(manager.current().unwrap().expiry(), expiry);
    assert!(manager.is_token_valid(&Timestamp::from_unix(Duration::new(11, 399).unwrap())));
    assert!(!manager.is_token_valid(&expiry));
}

#[test]
fn clear_forces_a_scrape_whatever_the_expiry() {
    let mut manager = AppleMusicTokenManager::new();
    manager.refresh(&script("eyJha"), &at(1000)).unwrap();
    assert!(manager.get_token(&at(1001)).is_some());
    manager.clear_token();
    assert!(manager.current().is_none());
    assert_eq!(manager.get_token(&at(1001)), None);
    assert!(!manager.is_token_valid(&at(0)));
    assert_eq!(manager.token_lifetime(), Duration::from_secs(3600));
}

#[test]
fn a_new_lifetime_is_for_later_entries_only() {
    let mut manager = AppleMusicTokenManager::new();
    manager.refresh(&script("eyJha"), &at(1000)).unwrap();
    manager.set_token_lifetime(Duration::from_secs(10));
    assert_eq!(manager.token_lifetime(), Duration::from_secs(10));
    assert_eq!(manager.current().unwrap().expiry(), at(4600));
    assert!(manager.is_token_valid(&at(4599)));
    manager.refresh(&script("eyJhb"), &at(5000)).unwrap();
    assert_eq!(manager.current().unwrap().expiry(), at(5010));
}

#[test]
fn a_failed_scrape_leaves_the_entry_as_it_was() {
    let mut manager = AppleMusicTokenManager::new();
    manager.refresh(&script("eyJha"), &at(1000)).unwrap();
    let unavailable = HttpResponse { status: 500, body: Body::Text("\"eyJhb\"".to_string()) };
    assert_eq!(manager.refresh(&unavailable, &at(9000)), Err(ApolError::UpstreamUnavailable));
    let empty = HttpResponse { status: 200, body: Body::Text("nothing".to_string()) };
    assert_eq!(manager.refresh(&empty, &at(9000)), Err(ApolError::ExtractionFailed));
    assert_eq!(manager.current().unwrap().token().get_jwt(), "eyJha");
    assert_eq!(manager.current().unwrap().expiry(), at(4600));
    let mut fresh = AppleMusicTokenManager::new();
    assert_eq!(fresh.refresh(&empty, &at(1)), Err(ApolError::ExtractionFailed));
    assert!(fresh.current().is_none());
}
