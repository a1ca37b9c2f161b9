use apol::helpers::decimal_string;
use apol::Duration;
use apol::{d2hms, s2hms, trim_artist_from_title};

#[test]
fn s2hms_pads_each_part_to_two_digits() {
    assert_eq!(s2hms(0), "00:00:00");
    assert_eq!(s2hms(59), "00:00:59");
    assert_eq!(s2hms(60), "00:01:00");
    assert_eq!(s2hms(3599), "00:59:59");
    assert_eq!(s2hms(3600), "01:00:00");
    assert_eq!(s2hms(3661), "01:01:01");
    assert_eq!(s2hms(86399), "23:59:59");
}

#[test]
fn s2hms_lets_the_hours_grow() {
    assert_eq!(s2hms(360000), "100:00:00");
    assert_eq!(s2hms(u64::MAX), "5124095576030431:00:15");
}

#[test]
fn d2hms_writes_the_whole_seconds() {
    assert_eq!(d2hms(Duration::from_secs(125)), "00:02:05");
    assert_eq!(d2hms(Duration::new(125, 999_999_999).unwrap()), "00:02:05");
    assert_eq!(d2hms(Duration::new(0, 0).unwrap()), "00:00:00");
}

#[test]
fn decimal_string_writes_numbers() {
    assert_eq!(decimal_string(0), "0");
    assert_eq!(decimal_string(7), "7");
    assert_eq!(decimal_string(10), "10");
    assert_eq!(decimal_string(1234567890), "1234567890");
    assert_eq!(decimal_string(u64::MAX), "18446744073709551615");
}

#[test]
fn trim_takes_a_leading_artist_away() {
    assert_eq!(trim_artist_from_title("Artist - Title", "Artist"), "Title");
    assert_eq!(trim_artist_from_title("x Artist - Title - more", "Artist"), "Title - more");
}

#[test]
fn trim_keeps_what_follows_the_dash_before_a_trailing_artist() {
    assert_eq!(trim_artist_from_title("Title - Artist", "Artist"), "Artist");
    assert_eq!(trim_artist_from_title("Title - Artist (live)", "Artist"), "Artist (live)");
}

#[test]
fn trim_leaves_other_titles_alone() {
    assert_eq!(trim_artist_from_title("Title", "Artist"), "Title");
    assert_eq!(trim_artist_from_title("Artist-Title", "Artist"), "Artist-Title");
    assert_eq!(trim_artist_from_title("", "Artist"), "");
    assert_eq!(trim_artist_from_title("Artis - Title", "Artist"), "Artis - Title");
}

#[test]
fn trim_with_an_empty_artist_cuts_at_the_first_dash() {
    assert_eq!(trim_artist_from_title("A - B - C", ""), "B - C");
    assert_eq!(trim_artist_from_title(" - ", ""), "");
}

#[test]
fn trim_counts_characters_not_bytes() {
    assert_eq!(trim_artist_from_title("Björk - Jóga", "Björk"), "Jóga");
    assert_eq!(trim_artist_from_title("Jóga - Björk", "Björk"), "Björk");
    assert_eq!(trim_artist_from_title("日本 - 曲", "日本"), "曲");
}

#[test]
fn trim_prefers_the_leading_form() {
    assert_eq!(trim_artist_from_title("a - Artist - b", "Artist"), "b");
}
