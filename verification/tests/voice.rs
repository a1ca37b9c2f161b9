use apol::voice::{
    build_play_embed, describe, display_title, enqueue_message, is_playable, queue_page,
    remove_message, trim_known_artist, Metadata, PlayEmbed,
};
use apol::Duration;

fn nothing() -> Metadata {
    Metadata { title: None, artist: None, album: None, thumbnail: None, source_url: None, duration: None }
}

fn some(s: &str) -> Option<String> {
    Some(s.to_string())
}

#[test]
fn playable_addresses_start_with_https() {
    assert!(is_playable("https://example.com/watch?v=1"));
    assert!(is_playable("https://"));
    assert!(!is_playable("http://example.com"));
    assert!(!is_playable("https:/"));
    assert!(!is_playable(""));
    assert!(!is_playable(" https://example.com"));
    assert!(!is_playable("HTTPS://example.com"));
}

#[test]
fn display_title_trims_the_artist() {
    let metadata = Metadata { title: some("Artist - Title"), artist: some("Artist"), ..nothing() };
    assert_eq!(display_title(&metadata), "Title");
    let metadata = Metadata { title: some("Artist - Title"), ..nothing() };
    assert_eq!(display_title(&metadata), "Artist - Title");
    let metadata = Metadata { title: some("MY CLOCK - Title"), ..nothing() };
    assert_eq!(display_title(&metadata), "Title");
}

#[test]
fn display_title_without_a_title_is_this_track() {
    assert_eq!(display_title(&nothing()), "This track");
    let metadata = Metadata { artist: some("This"), ..nothing() };
    assert_eq!(display_title(&metadata), "This track");
    let metadata = Metadata { title: some("This track"), artist: some(""), ..nothing() };
    assert_eq!(display_title(&metadata), "This track");
}

#[test]
fn trim_known_artist_falls_back_to_a_fixed_name() {
    assert_eq!(trim_known_artist("A - B", &some("A")), "B");
    assert_eq!(trim_known_artist("A - B", &None), "A - B");
    assert_eq!(trim_known_artist("MY CLOCK - B", &None), "B");
}

#[test]
fn enqueue_message_depends_on_the_queue() {
    assert_eq!(enqueue_message("Song", 0), "Song is now playing.");
    assert_eq!(enqueue_message("Song", 1), "Song is up next.");
    assert_eq!(enqueue_message("Song", 2), "Song will play after this next track.");
    assert_eq!(enqueue_message("Song", 3), "Song will play after the next 2 tracks.");
    assert_eq!(enqueue_message("Song", 12), "Song will play after the next 11 tracks.");
    assert_eq!(enqueue_message("", 0), " is now playing.");
}

#[test]
fn describe_lists_what_is_known() {
    let metadata = Metadata {
        duration: Some(Duration::from_secs(205)),
        artist: some("Artist"),
        album: some("Album"),
        ..nothing()
    };
    assert_eq!(describe(&metadata, None), "00:03:25\nArtist: Artist\nAlbum: Album\n");
    assert_eq!(
        describe(&metadata, Some(Duration::from_secs(61))),
        "00:01:01 / 00:03:25\nArtist: Artist\nAlbum: Album\n"
    );
    let metadata = Metadata { album: some("Album"), ..nothing() };
    assert_eq!(describe(&metadata, Some(Duration::from_secs(61))), "Album: Album\n");
    assert_eq!(describe(&nothing(), None), "");
}

#[test]
fn play_embed_shows_the_title_only_when_asked() {
    let metadata = Metadata {
        title: some("Title"),
        thumbnail: some("https://img"),
        source_url: some("https://src"),
        artist: some("Artist"),
        ..nothing()
    };
    assert_eq!(
        build_play_embed(&metadata, true, None),
        PlayEmbed {
            title: some("Title"),
            image: some("https://img"),
            url: some("https://src"),
            description: some("Artist: Artist\n"),
        }
    );
    assert_eq!(build_play_embed(&metadata, false, None).title, None);
}

#[test]
fn play_embed_of_nothing_is_empty() {
    let empty = PlayEmbed { title: None, image: None, url: None, description: None };
    assert_eq!(build_play_embed(&nothing(), true, Some(Duration::from_secs(5))), empty);
}

#[test]
fn queue_page_counts_pages_and_lists_ten_tracks() {
    assert_eq!(queue_page(&vec![]), "Queue, page 1 of 0\n");
    let tracks = vec![Some(some("A")), None, Some(None)];
    assert_eq!(queue_page(&tracks), "Queue, page 1 of 1\n1. A\n3. This track\n");
    let many: Vec<Option<Option<String>>> = (0..11).map(|i| Some(Some(format!("T{}", i)))).collect();
    assert_eq!(
        queue_page(&many),
        "Queue, page 1 of 2\n1. T0\n2. T1\n3. T2\n4. T3\n5. T4\n6. T5\n7. T6\n8. T7\n9. T8\n10. T9\n"
    );
    let ten: Vec<Option<Option<String>>> = (0..10).map(|_| None).collect();
    assert_eq!(queue_page(&ten), "Queue, page 1 of 1\n");
}

#[test]
fn remove_message_says_what_left() {
    assert_eq!(remove_message(&Some(Some(some("Song"))), 3), some("Successfully removed Song at index 3"));
    assert_eq!(remove_message(&Some(Some(None)), 0), some("Successfully removed the track at index 0"));
    assert_eq!(remove_message(&Some(None), 1), None);
    assert_eq!(remove_message(&None, 10), some("Failed to remove the track at index 10"));
}
