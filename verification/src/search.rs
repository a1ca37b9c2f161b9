use crate::error::ApolError;
use crate::error::ApolErrorView;
use crate::http::authorization;
use crate::http::bearer_header;
use crate::http::sendable;
use crate::http::success;
use crate::http::Body;
use crate::http::BodyView;
use crate::http::HttpRequest;
use crate::http::HttpRequestView;
use crate::http::HttpResponse;
use crate::http::HttpResponseView;
use crate::json::member;
use crate::json::Json;
use crate::json::JsonView;
use crate::song::AppleMusicSong;
use crate::song::AppleMusicSongView;
use crate::storefront::is_request_result;
use crate::token::AppleMusicToken;
use vstd::prelude::*;
use vstd::string::*;
use vstd::utf8::encode_utf8;

verus! {

/// Whether a byte stands for itself in a percent-encoded text: a digit, a
/// letter of the Latin alphabet, or one of `-`, `.`, `_` and `~`.
pub open spec fn unreserved(b: u8) -> bool {
    (0x30 <= b <= 0x39) || (0x41 <= b <= 0x5a) || (0x61 <= b <= 0x7a) || b == 0x2d || b == 0x2e
        || b == 0x5f || b == 0x7e
}

/// The digit for `n`, which is less than 16, in upper-case hexadecimal.
pub open spec fn hex_digit(n: u8) -> char {
    if n < 10 {
        (0x30 + n) as char
    } else {
        (0x41 + n - 10) as char
    }
}

/// What stands for one byte in a percent-encoded text: the byte itself if
/// it is unreserved, else `%` and the byte's two hexadecimal digits.
pub open spec fn percent_encoded_byte(b: u8) -> Seq<char> {
    if unreserved(b) {
        seq![b as char]
    } else {
        seq!['%', hex_digit(b / 16), hex_digit(b % 16)]
    }
}

/// The percent-encoded text for `bytes`, byte by byte.
pub open spec fn percent_encoded(bytes: Seq<u8>) -> Seq<char>
    decreases bytes.len(),
{
    if bytes.len() == 0 {
        Seq::empty()
    } else {
        percent_encoded(bytes.drop_last()) + percent_encoded_byte(bytes.last())
    }
}

/// Calls `urlencoding::encode`, which goes through the bytes of `text` in
/// its UTF-8 form, keeps digits, Latin letters, `-`, `.`, `_` and `~`, and
/// writes every other byte as `%` and two upper-case hexadecimal digits.
#[verifier::external_body]
fn percent_encode(text: &str) -> (r: String)
    ensures
        r@ == percent_encoded(encode_utf8(text@)),
{
    urlencoding::encode(text).into_owned()
}

/// The address that searches the catalog of the default market for one song
/// that matches `query`.
pub open spec fn search_url(query: Seq<char>) -> Seq<char> {
    "https://amp-api.music.apple.com/v1/catalog/"@ + "us"@ + "/search?term="@ + percent_encoded(
        encode_utf8(query),
    ) + "&limit=1&types=songs"@
}

/// The headers of a search made with the bearer `jwt`.
pub open spec fn search_headers(jwt: Seq<char>) -> Seq<(Seq<char>, Seq<char>)> {
    seq![
        ("origin"@, "https://music.apple.com"@),
        (
            "user-agent"@,
            "Mozilla/5.0 (Macintosh; Intel Mac OS X 10_15_7) AppleWebKit/537.36 (KHTML, like Gecko) Chrome/127.0.0.0 Safari/537.36"@,
        ),
        ("authorization"@, authorization(jwt)),
    ]
}

/// What searches the catalog for `query` with the bearer `jwt`, when the
/// bearer can be sent as a header.
pub open spec fn search_request_of(jwt: Seq<char>, query: Seq<char>) -> Result<
    HttpRequestView,
    ApolErrorView,
> {
    if sendable(authorization(jwt)) {
        Ok(HttpRequestView { url: search_url(query), headers: search_headers(jwt) })
    } else {
        Err(ApolErrorView::InvalidHeaderValue)
    }
}

/// The request that searches the catalog for one song that matches `query`,
/// made with the bearer of `token`.
///
/// A bearer that cannot be sent as a header gives `InvalidHeaderValue`.
pub fn search_request(token: &AppleMusicToken, query: &str) -> (r: Result<HttpRequest, ApolError>)
    ensures
        is_request_result(r, search_request_of(token@.bearer(), query@)),
{
    let mut headers: Vec<(String, String)> = Vec::new();
    headers.push(("origin".to_owned(), "https://music.apple.com".to_owned()));
    headers.push(
        (
            "user-agent".to_owned(),
            "Mozilla/5.0 (Macintosh; Intel Mac OS X 10_15_7) AppleWebKit/537.36 (KHTML, like Gecko) Chrome/127.0.0.0 Safari/537.36".to_owned(),
        ),
    );
    let bearer = match bearer_header(token.get_jwt()) {
        Ok(value) => value,
        Err(e) => {
            return Err(e);
        },
    };
    headers.push(("authorization".to_owned(), bearer));
    let encoded = percent_encode(query);
    let url = "https://amp-api.music.apple.com/v1/catalog/".to_owned().concat("us").concat(
        "/search?term=",
    ).concat(encoded.as_str()).concat("&limit=1&types=songs");
    assert(headers.deep_view() =~= search_headers(token@.bearer()));
    Ok(HttpRequest { url, headers })
}

/// The songs that a document of the catalog holds: what is read from the
/// member `songs` of its member `results`. Where one of the two is missing,
/// or what is there cannot be read as songs, there are none.
pub open spec fn found_songs(json: JsonView) -> Option<AppleMusicSongView> {
    match json.member("results"@) {
        Some(results) => match results.member("songs"@) {
            Some(songs) => AppleMusicSong::decoded(songs),
            None => None,
        },
        None => None,
    }
}

/// The songs that a document of the catalog holds, if it holds any.
pub fn songs_from_json(json: &Json) -> (r: Option<AppleMusicSong>)
    ensures
        r.deep_view() == found_songs(json@),
{
    match member(json, "results") {
        Some(results) => match member(results, "songs") {
            Some(songs) => AppleMusicSong::decode(songs),
            None => None,
        },
        None => None,
    }
}

/// What is made of the answer to a search.
///
/// An answer with success holds a document, and the songs in it are the
/// result; that there are none is no failure. An answer without success is a
/// rejection, and its status and its text are kept.
pub open spec fn search_outcome(reply: HttpResponseView) -> Result<
    Option<AppleMusicSongView>,
    ApolErrorView,
> {
    if success(reply.status) {
        match reply.body {
            BodyView::Json(json) => Ok(found_songs(json)),
            _ => Err(ApolErrorView::DecodeFailed),
        }
    } else {
        match reply.body {
            BodyView::Text(text) => Err(
                ApolErrorView::UpstreamRejected { status: reply.status, body: text },
            ),
            _ => Err(ApolErrorView::UpstreamUnavailable),
        }
    }
}

/// Whether `r` is the value `expected`, each side taken by its view.
pub open spec fn is_search_result(
    r: Result<Option<AppleMusicSong>, ApolError>,
    expected: Result<Option<AppleMusicSongView>, ApolErrorView>,
) -> bool {
    match (r, expected) {
        (Ok(found), Ok(e)) => found.deep_view() == e,
        (Err(error), Err(e)) => error@ == e,
        _ => false,
    }
}

/// Takes the result of a search out of the answer to [`search_request`].
///
/// With success, the songs of the document come back, or `None` where it
/// holds none; a body that is no document gives `DecodeFailed`. Without
/// success, the status and the text of the answer come back in
/// `UpstreamRejected`; a body that could not be read as text gives
/// `UpstreamUnavailable`.
pub fn search_track(reply: HttpResponse) -> (r: Result<Option<AppleMusicSong>, ApolError>)
    ensures
        is_search_result(r, search_outcome(reply@)),
{
    let HttpResponse { status, body } = reply;
    if crate::http::is_success(status) {
        match body {
            Body::Json(json) => Ok(songs_from_json(&json)),
            _ => Err(ApolError::DecodeFailed),
        }
    } else {
        match body {
            Body::Text(text) => Err(ApolError::UpstreamRejected { status, body: text }),
            _ => Err(ApolError::UpstreamUnavailable),
        }
    }
}

/// What was written for the songs of a search is read as those songs: every
/// field that was there comes back as it was, and every absent one stays
/// absent.
pub proof fn law_songs_round_trip(songs: AppleMusicSongView)
    ensures
        AppleMusicSong::decoded(AppleMusicSong::encoded(songs)) == Some(songs),
{
    AppleMusicSong::lemma_round_trip(songs);
}

} // verus!
