use apol::json::{field, is_record, member, read_i32, read_text, read_texts};
use apol::Json;
use apol::{
    Albums, AlbumsDatum, AppleMusicSong, AppleMusicSongDatum, Artwork, Attributes, ContentVersion,
    Meta, PlayParams, Preview, Relationships,
};

fn object(members: Vec<(&str, Json)>) -> Json {
    Json::Object(members.into_iter().map(|(name, value)| (name.to_string(), value)).collect())
}

fn text(s: &str) -> Json {
    Json::Text(s.to_string())
}

fn no_attributes() -> Attributes {
    Attributes {
        album_name: None,
        has_time_synced_lyrics: None,
        genre_names: None,
        track_number: None,
        duration_in_millis: None,
        is_vocal_attenuation_allowed: None,
        is_mastered_for_itunes: None,
        isrc: None,
        artwork: None,
        composer_name: None,
        audio_locale: None,
        url: None,
        play_params: None,
        disc_number: None,
        has_lyrics: None,
        is_apple_digital_master: None,
        audio_traits: None,
        name: None,
        previews: None,
        artist_name: None,
    }
}

fn no_artwork() -> Artwork {
    Artwork {
        width: None,
        url: None,
        height: None,
        text_color3: None,
        text_color2: None,
        text_color4: None,
        text_color1: None,
        bg_color: None,
        has_p3: None,
    }
}

fn sparse_song() -> AppleMusicSong {
    AppleMusicSong {
        data: Some(vec![
            AppleMusicSongDatum {
                id: Some("1".to_string()),
                type_: None,
                href: Some("/v1/catalog/us/songs/1".to_string()),
                attributes: Some(Attributes {
                    name: Some("Song".to_string()),
                    track_number: Some(0),
                    duration_in_millis: Some(-1),
                    has_lyrics: Some(false),
                    genre_names: Some(vec![]),
                    audio_traits: Some(vec!["lossless".to_string(), "".to_string()]),
                    artwork: Some(Artwork { width: Some(i32::MAX), height: Some(i32::MIN), ..no_artwork() }),
                    play_params: Some(PlayParams { id: Some("1".to_string()), kind: None }),
                    previews: Some(vec![Preview { url: None }, Preview { url: Some("".to_string()) }]),
                    ..no_attributes()
                }),
                relationships: Some(Relationships {
                    albums: Some(Albums {
                        href: None,
                        data: Some(vec![AlbumsDatum { id: Some("9".to_string()), type_: None, href: None }]),
                    }),
                    artists: None,
                }),
                meta: Some(Meta { content_version: Some(ContentVersion { mz_indexer: Some(7), rtci: None }) }),
            },
            AppleMusicSongDatum {
                id: None,
                type_: None,
                href: None,
                attributes: None,
                relationships: None,
                meta: None,
            },
        ]),
    }
}

#[test]
fn round_trip_keeps_exactly_the_fields_that_were_there() {
    let song = sparse_song();
    assert_eq!(AppleMusicSong::decode(&song.encode()), Some(sparse_song()));
    let empty = AppleMusicSong { data: None };
    assert_eq!(AppleMusicSong::decode(&empty.encode()), Some(AppleMusicSong { data: None }));
    let no_songs = AppleMusicSong { data: Some(vec![]) };
    assert_eq!(AppleMusicSong::decode(&no_songs.encode()), Some(AppleMusicSong { data: Some(vec![]) }));
}

#[test]
fn round_trip_of_each_record() {
    let attributes = Attributes { isrc: Some("X".to_string()), disc_number: Some(2), ..no_attributes() };
    assert_eq!(Attributes::decode(&attributes.encode()), Some(attributes));
    let artwork = Artwork { has_p3: Some(true), bg_color: Some("ffffff".to_string()), ..no_artwork() };
    assert_eq!(Artwork::decode(&artwork.encode()), Some(artwork));
    let version = ContentVersion { mz_indexer: None, rtci: Some(-5) };
    assert_eq!(ContentVersion::decode(&version.encode()), Some(version));
    let params = PlayParams { id: None, kind: Some("song".to_string()) };
    assert_eq!(PlayParams::decode(&params.encode()), Some(params));
}

#[test]
fn encode_writes_every_field_and_null_for_an_absent_one() {
    let datum = AlbumsDatum { id: Some("9".to_string()), type_: None, href: Some("h".to_string()) };
    assert_eq!(datum.encode(), object(vec![("id", text("9")), ("type", Json::Null), ("href", text("h"))]));
    let version = ContentVersion { mz_indexer: Some(3), rtci: None };
    assert_eq!(version.encode(), object(vec![("mz_indexer", Json::Integer(3)), ("rtci", Json::Null)]));
    let albums = Albums { href: None, data: Some(vec![]) };
    assert_eq!(albums.encode(), object(vec![("href", Json::Null), ("data", Json::Array(vec![]))]));
}

#[test]
fn decode_reads_fields_by_name_and_ignores_others() {
    let json = object(vec![("kind", text("song")), ("extra", Json::Integer(1)), ("id", text("5"))]);
    assert_eq!(
        PlayParams::decode(&json),
        Some(PlayParams { id: Some("5".to_string()), kind: Some("song".to_string()) })
    );
    assert_eq!(PlayParams::decode(&object(vec![])), Some(PlayParams { id: None, kind: None }));
}

#[test]
fn decode_reads_the_type_from_the_member_called_type() {
    let json = object(vec![("type", text("songs")), ("type_name", text("other"))]);
    assert_eq!(
        AlbumsDatum::decode(&json),
        Some(AlbumsDatum { id: None, type_: Some("songs".to_string()), href: None })
    );
}

#[test]
fn decode_reads_a_list_by_place() {
    let json = Json::Array(vec![text("5"), Json::Null]);
    assert_eq!(PlayParams::decode(&json), Some(PlayParams { id: Some("5".to_string()), kind: None }));
    assert_eq!(PlayParams::decode(&Json::Array(vec![text("5")])), None);
    assert_eq!(PlayParams::decode(&Json::Array(vec![text("5"), Json::Null, Json::Null])), None);
}

#[test]
fn decode_refuses_a_field_of_the_wrong_kind() {
    assert_eq!(PlayParams::decode(&object(vec![("id", Json::Integer(5))])), None);
    assert_eq!(Preview::decode(&object(vec![("url", Json::Bool(true))])), None);
    assert_eq!(ContentVersion::decode(&object(vec![("rtci", text("1"))])), None);
    assert_eq!(ContentVersion::decode(&object(vec![("rtci", Json::OtherNumber)])), None);
    assert_eq!(ContentVersion::decode(&object(vec![("rtci", Json::Integer(2147483648))])), None);
    assert_eq!(ContentVersion::decode(&object(vec![("rtci", Json::Integer(-2147483649))])), None);
    assert_eq!(
        ContentVersion::decode(&object(vec![("rtci", Json::Integer(-2147483648))])),
        Some(ContentVersion { mz_indexer: None, rtci: Some(i32::MIN) })
    );
    assert_eq!(Meta::decode(&object(vec![("content_version", text("x"))])), None);
    assert_eq!(Albums::decode(&object(vec![("data", object(vec![]))])), None);
    assert_eq!(Albums::decode(&object(vec![("data", Json::Array(vec![Json::Null]))])), None);
    assert_eq!(
        Attributes::decode(&object(vec![("genre_names", Json::Array(vec![text("a"), Json::Integer(1)]))])),
        None
    );
    assert_eq!(
        Attributes::decode(&object(vec![("duration_in_millis", Json::Integer(i64::MAX))])),
        Some(Attributes { duration_in_millis: Some(i64::MAX), ..no_attributes() })
    );
}

#[test]
fn decode_refuses_what_is_no_record() {
    for json in [Json::Null, Json::Bool(true), Json::Integer(1), Json::OtherNumber, text("x")] {
        assert_eq!(Preview::decode(&json), None);
        assert_eq!(AppleMusicSong::decode(&json), None);
    }
}

#[test]
fn json_helpers_read_members_fields_and_leaves() {
    let json = object(vec![("a", Json::Integer(1)), ("b", text("x")), ("a", Json::Integer(2))]);
    assert_eq!(member(&json, "a"), Some(&Json::Integer(1)));
    assert_eq!(member(&json, "b"), Some(&text("x")));
    assert_eq!(member(&json, "c"), None);
    assert_eq!(member(&Json::Array(vec![Json::Null]), "a"), None);
    assert_eq!(field(&json, "b", 0), Some(&text("x")));
    let list = Json::Array(vec![Json::Integer(1), text("x")]);
    assert_eq!(field(&list, "b", 1), Some(&text("x")));
    assert_eq!(field(&list, "b", 2), None);
    assert_eq!(field(&Json::Null, "b", 0), None);
    assert!(is_record(&json, 7));
    assert!(is_record(&list, 2));
    assert!(!is_record(&list, 3));
    assert!(!is_record(&Json::Null, 0));
    assert_eq!(read_text(None), Some(None));
    assert_eq!(read_text(Some(&Json::Null)), Some(None));
    assert_eq!(read_text(Some(&text("x"))), Some(Some("x".to_string())));
    assert_eq!(read_text(Some(&Json::Integer(1))), None);
    assert_eq!(read_i32(Some(&Json::Integer(-3))), Some(Some(-3)));
    assert_eq!(read_texts(Some(&Json::Array(vec![]))), Some(Some(vec![])));
    assert_eq!(read_texts(Some(&text("x"))), None);
}
