use crate::error::ApolError;
use crate::error::ApolErrorView;
use crate::json::Json;
use crate::json::JsonView;
use vstd::prelude::*;
use vstd::string::*;

verus! {

/// A GET request that is ready to be sent: where to, and with which headers,
/// in the order in which they were set.
#[derive(Debug, PartialEq, Eq)]
pub struct HttpRequest {
    pub url: String,
    pub headers: Vec<(String, String)>,
}

/// The mathematical value of an [`HttpRequest`].
pub struct HttpRequestView {
    pub url: Seq<char>,
    pub headers: Seq<(Seq<char>, Seq<char>)>,
}

impl View for HttpRequest {
    type V = HttpRequestView;

    open spec fn view(&self) -> HttpRequestView {
        HttpRequestView { url: self.url@, headers: self.headers.deep_view() }
    }
}

/// The body of a response, as it was read.
#[derive(Debug, PartialEq, Eq)]
pub enum Body {
    /// The body, read as text.
    Text(String),
    /// The body, read as a JSON document.
    Json(Json),
    /// The body could not be read in the form that was asked for.
    Unreadable,
}

/// In which form the body of a response is to be read.
#[derive(Debug, Clone, Copy, PartialEq, Eq)]
pub enum BodyKind {
    Text,
    Json,
}

/// What came back for a request: the status code and the body.
#[derive(Debug, PartialEq, Eq)]
pub struct HttpResponse {
    pub status: u16,
    pub body: Body,
}

/// The mathematical value of a [`Body`].
pub enum BodyView {
    Text(Seq<char>),
    Json(JsonView),
    Unreadable,
}

/// The mathematical value of an [`HttpResponse`].
pub struct HttpResponseView {
    pub status: u16,
    pub body: BodyView,
}

impl View for Body {
    type V = BodyView;

    open spec fn view(&self) -> BodyView {
        match *self {
            Body::Text(s) => BodyView::Text(s@),
            Body::Json(j) => BodyView::Json(j@),
            Body::Unreadable => BodyView::Unreadable,
        }
    }
}

impl View for HttpResponse {
    type V = HttpResponseView;

    open spec fn view(&self) -> HttpResponseView {
        HttpResponseView { status: self.status, body: self.body@ }
    }
}

impl HttpResponseView {
    /// The text of a response that came with success and was read as text.
    pub open spec fn page(self) -> Option<Seq<char>> {
        match self.body {
            BodyView::Text(text) if success(self.status) => Some(text),
            _ => None,
        }
    }

    /// The document of a response that was read as JSON.
    pub open spec fn document(self) -> Option<JsonView> {
        match self.body {
            BodyView::Json(json) => Some(json),
            _ => None,
        }
    }
}

/// Whether a status code reports success, that is, lies in 200..=299.
pub open spec fn success(status: u16) -> bool {
    200 <= status <= 299
}

/// Whether a status code reports success, that is, lies in 200..=299.
pub fn is_success(status: u16) -> (r: bool)
    ensures
        r == success(status),
{
    200 <= status && status <= 299
}

/// Whether a byte may stand in a header value: a tab, or anything from the
/// space upwards but the delete character.
pub open spec fn header_value_byte(b: u8) -> bool {
    (b >= 32 && b != 127) || b == 9
}

/// Whether `text` can be sent as a header value: every byte of its UTF-8
/// form may stand in one.
pub open spec fn sendable(text: Seq<char>) -> bool {
    forall|i: int|
        0 <= i < vstd::utf8::encode_utf8(text).len() ==> header_value_byte(
            #[trigger] vstd::utf8::encode_utf8(text)[i],
        )
}

/// Calls `reqwest::header::HeaderValue::from_str` and reports whether it
/// accepted `value`. It accepts a string exactly when each of its bytes is a
/// tab, or is at least 32 and not 127; this is what the contract claims.
#[verifier::external_body]
pub(crate) fn header_value_accepted(value: &str) -> (r: bool)
    ensures
        r == sendable(value@),
{
    reqwest::header::HeaderValue::from_str(value).is_ok()
}

/// What the `Authorization` header holds for the bearer `jwt`.
pub open spec fn authorization(jwt: Seq<char>) -> Seq<char> {
    "Bearer "@ + jwt
}

/// The value of the `Authorization` header for the bearer `jwt`, or
/// `InvalidHeaderValue` when that value cannot be sent as a header.
pub fn bearer_header(jwt: &str) -> (r: Result<String, ApolError>)
    ensures
        sendable(authorization(jwt@)) ==> r is Ok && r->Ok_0@ == authorization(jwt@),
        !sendable(authorization(jwt@)) ==> r is Err && r->Err_0@
            == ApolErrorView::InvalidHeaderValue,
{
    let value = "Bearer ".to_owned().concat(jwt);
    if header_value_accepted(value.as_str()) {
        Ok(value)
    } else {
        Err(ApolError::InvalidHeaderValue)
    }
}

/// In which form the answer of the catalog is to be read: as JSON when the
/// status reports success, as text otherwise.
pub fn body_kind(status: u16) -> (r: BodyKind)
    ensures
        r == (if success(status) {
            BodyKind::Json
        } else {
            BodyKind::Text
        }),
{
    if is_success(status) {
        BodyKind::Json
    } else {
        BodyKind::Text
    }
}

impl HttpResponse {
    /// The text of a response that came with success and was read as text.
    pub fn page(&self) -> (r: Option<&str>)
        ensures
            r.deep_view() == self@.page(),
    {
        if !is_success(self.status) {
            return None;
        }
        match &self.body {
            Body::Text(text) => Some(text.as_str()),
            _ => None,
        }
    }
}

} // verus!
