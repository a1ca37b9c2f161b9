use crate::error::ApolError;
use crate::error::ApolErrorView;
use crate::http::HttpRequest;
use crate::http::HttpRequestView;
use crate::http::HttpResponse;
use crate::http::HttpResponseView;
use crate::token::AppleMusicToken;
use crate::token::TokenView;
use vstd::prelude::*;
use vstd::string::*;

verus! {

/// The error with which `regex::Regex::new` refuses a pattern.
#[verifier::external_type_specification]
#[verifier::external_body]
pub struct ExRegexError(regex::Error);

/// Whether `regex::Regex::new` accepts `pattern`.
pub uninterp spec fn regex_compiles(pattern: Seq<char>) -> bool;

/// The text that group number `group` captured in the first match of
/// `pattern` in `haystack`, as `regex::Regex::captures` finds it. Group 0 is
/// the whole match. `None` says that nothing matches, or that the pattern
/// has no such group, or that the group took no part in the match.
pub uninterp spec fn regex_capture(pattern: Seq<char>, haystack: Seq<char>, group: nat) -> Option<
    Seq<char>,
>;

/// Compiles `pattern` with `regex::Regex::new`, searches `haystack` with
/// `Regex::captures` and hands out the text that `Captures::get` gives for
/// `group`. A pattern that is refused gives the error of `Regex::new`.
///
/// Nothing is claimed of the text but that it depends on the pattern, the
/// haystack and the group alone, and of the refusal but that it depends on
/// the pattern alone.
#[verifier::external_body]
fn capture(pattern: &str, haystack: &str, group: usize) -> (r: Result<
    Option<String>,
    regex::Error,
>)
    ensures
        r is Ok <==> regex_compiles(pattern@),
        r matches Ok(found) ==> found.deep_view() == regex_capture(
            pattern@,
            haystack@,
            group as nat,
        ),
{
    let re = regex::Regex::new(pattern)?;
    Ok(re.captures(haystack).and_then(|caps| caps.get(group)).map(|m| m.as_str().to_owned()))
}

/// The headers that every request to the web front end carries, in the
/// order in which they are set.
pub open spec fn default_headers() -> Seq<(Seq<char>, Seq<char>)> {
    seq![
        ("Content-Type"@, "application/json;charset=utf-8"@),
        ("Connection"@, "keep-alive"@),
        ("Accept"@, "application/json"@),
        ("Origin"@, "https://music.apple.com"@),
        ("Referer"@, "https://music.apple.com/"@),
        ("Accept-Encoding"@, "gzip, deflate, br"@),
        (
            "User-Agent"@,
            "Mozilla/5.0 (Windows NT 10.0; Win64; x64) AppleWebKit/537.36 (KHTML, like Gecko) Chrome/110.0.0.0 Safari/537.36"@,
        ),
    ]
}

/// The headers of a desktop browser, which the web front end expects.
pub fn create_default_headers() -> (headers: Vec<(String, String)>)
    ensures
        headers.deep_view() == default_headers(),
{
    let mut headers: Vec<(String, String)> = Vec::new();
    headers.push(("Content-Type".to_owned(), "application/json;charset=utf-8".to_owned()));
    headers.push(("Connection".to_owned(), "keep-alive".to_owned()));
    headers.push(("Accept".to_owned(), "application/json".to_owned()));
    headers.push(("Origin".to_owned(), "https://music.apple.com".to_owned()));
    headers.push(("Referer".to_owned(), "https://music.apple.com/".to_owned()));
    headers.push(("Accept-Encoding".to_owned(), "gzip, deflate, br".to_owned()));
    headers.push(
        (
            "User-Agent".to_owned(),
            "Mozilla/5.0 (Windows NT 10.0; Win64; x64) AppleWebKit/537.36 (KHTML, like Gecko) Chrome/110.0.0.0 Safari/537.36".to_owned(),
        ),
    );
    assert(headers.deep_view() =~= default_headers());
    headers
}

/// The request for the browse page, in whose text the script is named.
pub fn main_page_request() -> (request: HttpRequest)
    ensures
        request@ == (HttpRequestView {
            url: "https://music.apple.com/us/browse"@,
            headers: default_headers(),
        }),
{
    HttpRequest { url: "https://music.apple.com/us/browse".to_owned(), headers: create_default_headers() }
}

/// The pattern of the script's file name: `index`, then as little as
/// possible, then `.js`.
pub const JS_FILE_PATTERN: &'static str = "index(.*?)\\.js";

/// What is made of the browse page: the file name of the script, when the
/// page came with success and names one.
pub open spec fn js_file_of(page: HttpResponseView) -> Result<Seq<char>, ApolErrorView> {
    match page.page() {
        None => Err(ApolErrorView::UpstreamUnavailable),
        Some(body) => found_or_failed(
            regex_compiles(JS_FILE_PATTERN@),
            regex_capture(JS_FILE_PATTERN@, body, 0),
        ),
    }
}

/// What is made of a search for a pattern: the text that was found, or
/// `ExtractionFailed` when the pattern was refused, nothing was found or what
/// was found is empty.
pub open spec fn found_or_failed(compiled: bool, found: Option<Seq<char>>) -> Result<
    Seq<char>,
    ApolErrorView,
> {
    match found {
        Some(text) if compiled && text.len() > 0 => Ok(text),
        _ => Err(ApolErrorView::ExtractionFailed),
    }
}

/// Whether `r` is the value `expected`, each side taken by its view.
pub open spec fn is_text_result(r: Result<String, ApolError>, expected: Result<
    Seq<char>,
    ApolErrorView,
>) -> bool {
    match (r, expected) {
        (Ok(text), Ok(e)) => text@ == e,
        (Err(error), Err(e)) => error@ == e,
        _ => false,
    }
}

/// Turns the outcome of a search into the text that was found, or into
/// `ExtractionFailed` when nothing, or nothing but the empty text, was found.
pub fn extracted(found: Option<String>) -> (r: Result<String, ApolError>)
    ensures
        is_text_result(r, found_or_failed(true, found.deep_view())),
{
    match found {
        Some(text) => {
            if text.as_str().is_empty() {
                Err(ApolError::ExtractionFailed)
            } else {
                Ok(text)
            }
        },
        None => Err(ApolError::ExtractionFailed),
    }
}

/// Finds the file name of the script in the browse page.
///
/// A page that did not come with success gives `UpstreamUnavailable`; one in
/// which the pattern finds nothing gives `ExtractionFailed`.
pub fn find_js_file(page: &HttpResponse) -> (r: Result<String, ApolError>)
    ensures
        is_text_result(r, js_file_of(page@)),
{
    match page.page() {
        None => Err(ApolError::UpstreamUnavailable),
        Some(body) => match capture(JS_FILE_PATTERN, body, 0) {
            Ok(found) => extracted(found),
            Err(_) => Err(ApolError::ExtractionFailed),
        },
    }
}

/// The address of the script with the file name `js_file`.
pub open spec fn script_url(js_file: Seq<char>) -> Seq<char> {
    "https://music.apple.com/assets/"@ + js_file
}

/// The request for the script with the file name `js_file`.
pub fn script_request(js_file: &str) -> (request: HttpRequest)
    ensures
        request@ == (HttpRequestView { url: script_url(js_file@), headers: default_headers() }),
{
    HttpRequest {
        url: "https://music.apple.com/assets/".to_owned().concat(js_file),
        headers: create_default_headers(),
    }
}

/// The pattern of the bearer: what stands between double quotes and starts
/// with `eyJh`, as little of it as possible. The bearer is the pattern's
/// first group, called `key`.
pub const JWT_PATTERN: &'static str = "\"(?P<key>eyJh(.*?))\"";

/// What is made of the script: the bearer, when the script came with
/// success and holds one.
pub open spec fn bearer_of(script: HttpResponseView) -> Result<Seq<char>, ApolErrorView> {
    match script.page() {
        None => Err(ApolErrorView::UpstreamUnavailable),
        Some(body) => found_or_failed(
            regex_compiles(JWT_PATTERN@),
            regex_capture(JWT_PATTERN@, body, 1),
        ),
    }
}

/// Finds the bearer in the script.
///
/// A script that did not come with success gives `UpstreamUnavailable`; one
/// in which the pattern finds nothing gives `ExtractionFailed`. A bearer that
/// comes back is never empty.
pub fn get_bearer_token(script: &HttpResponse) -> (r: Result<String, ApolError>)
    ensures
        is_text_result(r, bearer_of(script@)),
        r matches Ok(jwt) ==> jwt@.len() > 0,
{
    match script.page() {
        None => Err(ApolError::UpstreamUnavailable),
        Some(body) => match capture(JWT_PATTERN, body, 1) {
            Ok(found) => extracted(found),
            Err(_) => Err(ApolError::ExtractionFailed),
        },
    }
}

/// What is made of the script: the unauthenticated credential with the
/// bearer that the script holds.
pub open spec fn credential_of(script: HttpResponseView) -> Result<TokenView, ApolErrorView> {
    match bearer_of(script) {
        Ok(jwt) => Ok(TokenView::Unauthenticated { jwt }),
        Err(e) => Err(e),
    }
}

/// Whether `r` is the value `expected`, each side taken by its view.
pub open spec fn is_token_result(
    r: Result<AppleMusicToken, ApolError>,
    expected: Result<TokenView, ApolErrorView>,
) -> bool {
    match (r, expected) {
        (Ok(token), Ok(e)) => token@ == e,
        (Err(error), Err(e)) => error@ == e,
        _ => false,
    }
}

impl AppleMusicToken {
    /// The credential that the script holds: always an unauthenticated one.
    ///
    /// It fails as [`get_bearer_token`] does.
    pub fn new(script: &HttpResponse) -> (r: Result<AppleMusicToken, ApolError>)
        ensures
            is_token_result(r, credential_of(script@)),
            r matches Ok(token) ==> token@ is Unauthenticated,
    {
        match get_bearer_token(script) {
            Ok(jwt) => Ok(AppleMusicToken::from_bearer(jwt)),
            Err(e) => Err(e),
        }
    }
}

} // verus!
