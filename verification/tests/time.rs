use apol::Duration;
use apol::Timestamp;

#[test]
fn duration_new_carries_whole_seconds() {
    let d = Duration::new(1, 2_500_000_000).unwrap();
    assert_eq!(d.as_secs(), 3);
    assert_eq!(d.subsec_nanos(), 500_000_000);
    assert_eq!(Duration::new(5, 0), Some(Duration::from_secs(5)));
    assert_eq!(Duration::new(u64::MAX, 999_999_999).unwrap().as_secs(), u64::MAX);
    assert_eq!(Duration::new(u64::MAX, 1_000_000_000), None);
}

#[test]
fn duration_checked_add_adds_or_gives_up() {
    let a = Duration::new(1, 600_000_000).unwrap();
    let b = Duration::new(2, 700_000_000).unwrap();
    assert_eq!(a.checked_add(&b), Duration::new(4, 300_000_000));
    assert_eq!(Duration::from_secs(u64::MAX).checked_add(&Duration::from_secs(1)), None);
    assert_eq!(
        Duration::new(u64::MAX, 999_999_999).unwrap().checked_add(&Duration::new(0, 1).unwrap()),
        None
    );
    assert_eq!(
        Duration::new(u64::MAX, 1).unwrap().checked_add(&Duration::new(0, 2).unwrap()),
        Duration::new(u64::MAX, 3)
    );
}

#[test]
fn duration_is_shorter_than_orders_by_length() {
    let a = Duration::new(1, 999_999_999).unwrap();
    let b = Duration::new(2, 0).unwrap();
    assert!(a.is_shorter_than(&b));
    assert!(!b.is_shorter_than(&a));
    assert!(!a.is_shorter_than(&a));
    assert!(Duration::new(2, 1).unwrap().is_shorter_than(&Duration::new(2, 2).unwrap()));
}

#[test]
fn timestamp_orders_and_adds() {
    let t = Timestamp::from_unix(Duration::from_secs(100));
    let later = t.checked_add(&Duration::from_secs(50)).unwrap();
    assert_eq!(later.since_unix(), Duration::from_secs(150));
    assert!(t.is_before(&later));
    assert!(!later.is_before(&t));
    assert!(!t.is_before(&t));
    assert_eq!(Timestamp::from_unix(Duration::from_secs(u64::MAX)).checked_add(&Duration::from_secs(1)), None);
}
