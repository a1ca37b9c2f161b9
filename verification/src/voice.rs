use crate::helpers::chars_of;
use crate::helpers::decimal;
use crate::helpers::decimal_string;
use crate::helpers::d2hms;
use crate::helpers::hms;
use crate::helpers::matches_at;
use crate::helpers::occurs_at;
use crate::helpers::trim_artist_from_title;
use crate::helpers::trimmed;
use crate::time::Duration;
use crate::time::NANOS_PER_SEC;
use vstd::prelude::*;
use vstd::string::*;

verus! {

/// What is known of a track. Each piece may be missing.
#[derive(Debug, PartialEq, Eq)]
pub struct Metadata {
    pub title: Option<String>,
    pub artist: Option<String>,
    pub album: Option<String>,
    pub thumbnail: Option<String>,
    pub source_url: Option<String>,
    pub duration: Option<Duration>,
}

/// What is shown of a track: each part is there only where something is to
/// be shown.
#[derive(Debug, PartialEq, Eq)]
pub struct PlayEmbed {
    pub title: Option<String>,
    pub image: Option<String>,
    pub url: Option<String>,
    pub description: Option<String>,
}

/// The whole seconds of a span.
pub open spec fn secs(span: Duration) -> nat {
    span.total_nanos() / (NANOS_PER_SEC as nat)
}

/// The artist by which a title is trimmed: the one that is known, or
/// `MY CLOCK` where none is.
pub open spec fn trimming_artist(artist: Option<Seq<char>>) -> Seq<char> {
    match artist {
        Some(name) => name,
        None => "MY CLOCK"@,
    }
}

/// The title under which a track is announced: its own without the artist,
/// or `This track` where it has none.
pub open spec fn shown_title(title: Option<Seq<char>>, artist: Option<Seq<char>>) -> Seq<char> {
    match title {
        Some(t) if t != "This track"@ => trimmed(t, trimming_artist(artist)),
        _ => "This track"@,
    }
}

/// Takes the artist out of a title, whether the artist is known or not.
pub fn trim_known_artist(title: &str, artist: &Option<String>) -> (r: String)
    ensures
        r@ == trimmed(title@, trimming_artist(artist.deep_view())),
{
    match artist {
        Some(name) => trim_artist_from_title(title, name.as_str()),
        None => trim_artist_from_title(title, "MY CLOCK"),
    }
}

/// The title under which a track is announced.
pub fn display_title(metadata: &Metadata) -> (r: String)
    ensures
        r@ == shown_title(metadata.title.deep_view(), metadata.artist.deep_view()),
{
    let placeholder = "This track".to_owned();
    match &metadata.title {
        Some(title) => {
            if *title == placeholder {
                placeholder
            } else {
                trim_known_artist(title.as_str(), &metadata.artist)
            }
        },
        None => placeholder,
    }
}

/// What is said when a track joins a queue of `queued` tracks, the one that
/// plays counted in.
pub open spec fn enqueued(title: Seq<char>, queued: nat) -> Seq<char> {
    if queued == 0 {
        title + " is now playing."@
    } else if queued == 1 {
        title + " is up next."@
    } else if queued == 2 {
        title + " will play after this next track."@
    } else {
        title + " will play after the next "@ + decimal((queued - 1) as nat) + " tracks."@
    }
}

/// What is said when a track joins a queue of `queued` tracks.
pub fn enqueue_message(title: &str, queued: u64) -> (r: String)
    ensures
        r@ == enqueued(title@, queued as nat),
{
    if queued == 0 {
        title.to_owned().concat(" is now playing.")
    } else if queued == 1 {
        title.to_owned().concat(" is up next.")
    } else if queued == 2 {
        title.to_owned().concat(" will play after this next track.")
    } else {
        title.to_owned().concat(" will play after the next ").concat(
            decimal_string(queued - 1).as_str(),
        ).concat(" tracks.")
    }
}

/// The line on the length of a track: how far it has played, where that is
/// given, then how long it is.
pub open spec fn length_line(duration: Option<Duration>, progress: Option<Duration>) -> Seq<char> {
    match duration {
        Some(length) => (match progress {
            Some(played) => hms(secs(played)) + " / "@,
            None => Seq::empty(),
        }) + hms(secs(length)) + "\n"@,
        None => Seq::empty(),
    }
}

/// A line that names a piece of metadata, or nothing where it is missing.
pub open spec fn named_line(label: Seq<char>, value: Option<Seq<char>>) -> Seq<char> {
    match value {
        Some(text) => label + text + "\n"@,
        None => Seq::empty(),
    }
}

/// The description of a track: its length, its artist and its album, each
/// on a line of its own, as far as they are known.
pub open spec fn description(
    duration: Option<Duration>,
    progress: Option<Duration>,
    artist: Option<Seq<char>>,
    album: Option<Seq<char>>,
) -> Seq<char> {
    length_line(duration, progress) + named_line("Artist: "@, artist) + named_line(
        "Album: "@,
        album,
    )
}

/// Writes the description of a track.
pub fn describe(metadata: &Metadata, progress: Option<Duration>) -> (r: String)
    ensures
        r@ == description(
            metadata.duration,
            progress,
            metadata.artist.deep_view(),
            metadata.album.deep_view(),
        ),
{
    let mut text = String::new();
    if let Some(length) = metadata.duration {
        if let Some(played) = progress {
            text = text.concat(d2hms(played).as_str()).concat(" / ");
        }
        text = text.concat(d2hms(length).as_str()).concat("\n");
    }
    assert(text@ =~= length_line(metadata.duration, progress));
    if let Some(artist) = &metadata.artist {
        text = text.concat("Artist: ").concat(artist.as_str()).concat("\n");
    }
    assert(text@ =~= length_line(metadata.duration, progress) + named_line(
        "Artist: "@,
        metadata.artist.deep_view(),
    ));
    if let Some(album) = &metadata.album {
        text = text.concat("Album: ").concat(album.as_str()).concat("\n");
    }
    assert(text@ =~= description(
        metadata.duration,
        progress,
        metadata.artist.deep_view(),
        metadata.album.deep_view(),
    ));
    text
}

/// What is shown of a track: its title where `title` asks for it, its
/// thumbnail, its address, and its description unless that is empty.
pub fn build_play_embed(metadata: &Metadata, title: bool, progress: Option<Duration>) -> (r:
    PlayEmbed)
    ensures
        r.title.deep_view() == (if title {
            metadata.title.deep_view()
        } else {
            None
        }),
        r.image.deep_view() == metadata.thumbnail.deep_view(),
        r.url.deep_view() == metadata.source_url.deep_view(),
        r.description.deep_view() == ({
            let text = description(
                metadata.duration,
                progress,
                metadata.artist.deep_view(),
                metadata.album.deep_view(),
            );
            if text.len() == 0 {
                None
            } else {
                Some(text)
            }
        }),
{
    let text = describe(metadata, progress);
    PlayEmbed {
        title: if title {
            metadata.title.clone()
        } else {
            None
        },
        image: metadata.thumbnail.clone(),
        url: metadata.source_url.clone(),
        description: if text.as_str().is_empty() {
            None
        } else {
            Some(text)
        },
    }
}

/// How many pages of ten a queue of `queued` tracks fills.
pub open spec fn pages(queued: nat) -> nat {
    (queued + 9) / 10
}

/// The line of the track at `place`, counted from zero: its number and its
/// title, or nothing where nothing is known of the track.
pub open spec fn queue_line(place: nat, track: Option<Option<Seq<char>>>) -> Seq<char> {
    match track {
        Some(title) => decimal(place + 1) + ". "@ + (match title {
            Some(t) => t,
            None => "This track"@,
        }) + "\n"@,
        None => Seq::empty(),
    }
}

/// The lines of the first `count` tracks.
pub open spec fn queue_lines(tracks: Seq<Option<Option<Seq<char>>>>, count: nat) -> Seq<char>
    decreases count,
{
    if count == 0 || count > tracks.len() {
        Seq::empty()
    } else {
        queue_lines(tracks, (count - 1) as nat) + queue_line(
            (count - 1) as nat,
            tracks[count - 1],
        )
    }
}

/// The first page of a queue: a heading that counts the pages, then the
/// lines of the first ten tracks at most.
pub open spec fn queue_text(tracks: Seq<Option<Option<Seq<char>>>>) -> Seq<char> {
    "Queue, page 1 of "@ + decimal(pages(tracks.len())) + "\n"@ + queue_lines(
        tracks,
        if tracks.len() < 10 {
            tracks.len()
        } else {
            10
        },
    )
}

/// Writes the first page of a queue. Each track is given by its title:
/// `None` for a track of which nothing is known, `Some(None)` for one
/// without a title.
pub fn queue_page(tracks: &Vec<Option<Option<String>>>) -> (r: String)
    ensures
        r@ == queue_text(tracks.deep_view()),
{
    let total: usize = tracks.len();
    let full: usize = total / 10;
    let page_count: usize = if total % 10 == 0 {
        full
    } else {
        full + 1
    };
    assert(page_count == pages(total as nat));
    let shown: usize = if total < 10 {
        total
    } else {
        10
    };
    let mut text = "Queue, page 1 of ".to_owned().concat(
        decimal_string(page_count as u64).as_str(),
    ).concat("\n");
    let ghost heading = text@;
    let ghost titles = tracks.deep_view();
    let mut i: usize = 0;
    while i < shown
        invariant
            i <= shown <= tracks.len(),
            shown <= 10,
            titles == tracks.deep_view(),
            text@ == heading + queue_lines(titles, i as nat),
        decreases shown - i,
    {
        if let Some(title) = &tracks[i] {
            text = text.concat(decimal_string((i + 1) as u64).as_str()).concat(". ");
            text = match title {
                Some(t) => text.concat(t.as_str()),
                None => text.concat("This track"),
            };
            text = text.concat("\n");
        }
        assert(titles[i as int] == tracks@[i as int].deep_view());
        assert(text@ =~= heading + (queue_lines(titles, i as nat) + queue_line(
            i as nat,
            titles[i as int],
        )));
        i += 1;
    }
    text
}

/// What is said after a track was to be removed at `index`: that it is gone,
/// with its title, or that nothing could be removed. Nothing is said where the
/// track is gone and nothing was known of it.
pub open spec fn removed(track: Option<Option<Option<Seq<char>>>>, index: nat) -> Option<
    Seq<char>,
> {
    match track {
        Some(Some(title)) => Some(
            "Successfully removed "@ + (match title {
                Some(t) => t,
                None => "the track"@,
            }) + " at index "@ + decimal(index),
        ),
        Some(None) => None,
        None => Some("Failed to remove the track at index "@ + decimal(index)),
    }
}

/// What is said after a track was to be removed at `index`. `track` is the
/// track that left the queue, given as in [`queue_page`], or `None` where
/// none left.
pub fn remove_message(track: &Option<Option<Option<String>>>, index: u64) -> (r: Option<String>)
    ensures
        r.deep_view() == removed(track.deep_view(), index as nat),
{
    match track {
        Some(Some(title)) => {
            let text = "Successfully removed ".to_owned();
            let text = match title {
                Some(t) => text.concat(t.as_str()),
                None => text.concat("the track"),
            };
            Some(text.concat(" at index ").concat(decimal_string(index).as_str()))
        },
        Some(None) => None,
        None => Some(
            "Failed to remove the track at index ".to_owned().concat(
                decimal_string(index).as_str(),
            ),
        ),
    }
}

/// Whether `text` starts with `https://`.
pub open spec fn is_https(text: Seq<char>) -> bool {
    occurs_at(text, "https://"@, 0)
}

/// Whether a track's address may be played: it has to start with
/// `https://`.
pub fn is_playable(address: &str) -> (r: bool)
    ensures
        r == is_https(address@),
{
    let text = chars_of(address);
    let scheme = chars_of("https://");
    if scheme.len() > text.len() {
        false
    } else {
        matches_at(&text, &scheme, 0)
    }
}

} // verus!
