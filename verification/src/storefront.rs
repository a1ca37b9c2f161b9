use crate::error::ApolError;
use crate::error::ApolErrorView;
use crate::http::authorization;
use crate::http::bearer_header;
use crate::http::header_value_accepted;
use crate::http::sendable;
use crate::http::success;
use crate::http::Body;
use crate::http::HttpRequest;
use crate::http::HttpRequestView;
use crate::http::HttpResponse;
use crate::http::HttpResponseView;
use crate::json::field;
use crate::json::is_record;
use crate::json::items_value;
use crate::json::lemma_array_value;
use crate::json::Json;
use crate::json::JsonView;
use crate::scraper::create_default_headers;
use crate::scraper::default_headers;
use crate::scraper::is_text_result;
use crate::scraper::is_token_result;
use crate::token::AppleMusicToken;
use crate::token::TokenView;
use vstd::prelude::*;

verus! {

/// The headers of the request for the storefront of the user with
/// `user_token`, made with the bearer `jwt`: those of a browser, then the
/// bearer, then the user token.
pub open spec fn storefront_headers(jwt: Seq<char>, user_token: Seq<char>) -> Seq<
    (Seq<char>, Seq<char>),
> {
    default_headers().push(("Authorization"@, authorization(jwt))).push(
        ("media-user-token"@, user_token),
    )
}

/// What asks for the storefront of the user with `user_token`, when both
/// the bearer and the user token can be sent as headers.
pub open spec fn storefront_request_of(jwt: Seq<char>, user_token: Seq<char>) -> Result<
    HttpRequestView,
    ApolErrorView,
> {
    if sendable(authorization(jwt)) && sendable(user_token) {
        Ok(
            HttpRequestView {
                url: "https://amp-api.music.apple.com/v1/me/storefront"@,
                headers: storefront_headers(jwt, user_token),
            },
        )
    } else {
        Err(ApolErrorView::InvalidHeaderValue)
    }
}

/// Whether `r` is the value `expected`, each side taken by its view.
pub open spec fn is_request_result(
    r: Result<HttpRequest, ApolError>,
    expected: Result<HttpRequestView, ApolErrorView>,
) -> bool {
    match (r, expected) {
        (Ok(request), Ok(e)) => request@ == e,
        (Err(error), Err(e)) => error@ == e,
        _ => false,
    }
}

/// The request for the storefront of the user with `user_token`, made with
/// the bearer `jwt`.
///
/// A bearer or a user token that cannot be sent as a header gives
/// `InvalidHeaderValue`.
pub fn storefront_request(jwt: &str, user_token: &str) -> (r: Result<HttpRequest, ApolError>)
    ensures
        is_request_result(r, storefront_request_of(jwt@, user_token@)),
{
    let mut headers = create_default_headers();
    let bearer = match bearer_header(jwt) {
        Ok(value) => value,
        Err(e) => {
            return Err(e);
        },
    };
    headers.push(("Authorization".to_owned(), bearer));
    if !header_value_accepted(user_token) {
        return Err(ApolError::InvalidHeaderValue);
    }
    headers.push(("media-user-token".to_owned(), user_token.to_owned()));
    assert(headers.deep_view() =~= storefront_headers(jwt@, user_token@));
    Ok(
        HttpRequest {
            url: "https://amp-api.music.apple.com/v1/me/storefront".to_owned(),
            headers,
        },
    )
}

/// The identifier of one storefront record: its field `id`, which must be
/// there and be a text.
pub open spec fn storefront_id(json: JsonView) -> Option<Seq<char>> {
    if json.is_record(1) {
        match json.field("id"@, 0) {
            Some(JsonView::Text(id)) => Some(id),
            _ => None,
        }
    } else {
        None
    }
}

/// The identifiers of a list of storefront records. One record that cannot
/// be read has the whole list refused.
pub open spec fn storefront_id_list(json: JsonView) -> Option<Seq<Seq<char>>> {
    match json {
        JsonView::Array(items) => if forall|i: int|
            0 <= i < items.len() ==> (#[trigger] storefront_id(items[i])) is Some {
            Some(Seq::new(items.len(), |i: int| storefront_id(items[i]).unwrap()))
        } else {
            None
        },
        _ => None,
    }
}

/// The identifiers of the storefronts that a document lists in its field
/// `data`, which must be there.
pub open spec fn storefront_ids(json: JsonView) -> Option<Seq<Seq<char>>> {
    if json.is_record(1) {
        match json.field("data"@, 0) {
            Some(data) => storefront_id_list(data),
            None => None,
        }
    } else {
        None
    }
}

/// What is made of the answer to the request for the storefront: the
/// identifier of the first storefront that it lists.
pub open spec fn storefront_of(reply: HttpResponseView) -> Result<Seq<char>, ApolErrorView> {
    if !success(reply.status) {
        Err(ApolErrorView::UpstreamUnavailable)
    } else {
        match reply.document() {
            None => Err(ApolErrorView::DecodeFailed),
            Some(json) => match storefront_ids(json) {
                None => Err(ApolErrorView::DecodeFailed),
                Some(ids) => if ids.len() == 0 {
                    Err(ApolErrorView::NoRegionData)
                } else {
                    Ok(ids[0])
                },
            },
        }
    }
}

/// Reads the identifier of one storefront record.
fn read_storefront_id(json: &Json) -> (r: Option<String>)
    ensures
        r.deep_view() == storefront_id(json@),
{
    if !is_record(json, 1) {
        return None;
    }
    match field(json, "id", 0) {
        Some(Json::Text(id)) => Some(id.clone()),
        _ => None,
    }
}

/// Reads the identifiers of the storefronts that a document lists.
pub fn read_storefront_ids(json: &Json) -> (r: Option<Vec<String>>)
    ensures
        r.deep_view() == storefront_ids(json@),
{
    if !is_record(json, 1) {
        return None;
    }
    let data = match field(json, "data", 0) {
        Some(data) => data,
        None => {
            return None;
        },
    };
    match data {
        Json::Array(items) => {
            proof {
                lemma_array_value(*items);
            }
            let ghost values = items_value(items@);
            let mut ids: Vec<String> = Vec::new();
            let mut i: usize = 0;
            while i < items.len()
                invariant
                    i <= items.len(),
                    storefront_ids(json@) == storefront_id_list(data@),
                    data@ == JsonView::Array(values),
                    values.len() == items.len(),
                    forall|k: int| 0 <= k < items.len() ==> values[k] == (#[trigger] items@[k])@,
                    ids@.len() == i,
                    forall|k: int|
                        #![trigger ids@[k]]
                        #![trigger storefront_id(values[k])]
                        0 <= k < i ==> storefront_id(values[k]) == Some(ids@[k]@),
                decreases items.len() - i,
            {
                match read_storefront_id(&items[i]) {
                    Some(id) => {
                        ids.push(id);
                    },
                    None => {
                        assert(storefront_id(values[i as int]) is None);
                        return None;
                    },
                }
                i += 1;
            }
            assert(ids.deep_view() =~= Seq::new(
                values.len(),
                |i: int| storefront_id(values[i]).unwrap(),
            ));
            Some(ids)
        },
        _ => None,
    }
}

/// Takes the storefront of the user out of the answer to
/// [`storefront_request`].
///
/// An answer without success gives `UpstreamUnavailable`; one that is no
/// list of storefronts gives `DecodeFailed`; an empty list gives
/// `NoRegionData`. Otherwise the first storefront's identifier comes back.
pub fn get_storefront(reply: &HttpResponse) -> (r: Result<String, ApolError>)
    ensures
        is_text_result(r, storefront_of(reply@)),
{
    if !crate::http::is_success(reply.status) {
        return Err(ApolError::UpstreamUnavailable);
    }
    let json = match &reply.body {
        Body::Json(json) => json,
        _ => {
            return Err(ApolError::DecodeFailed);
        },
    };
    match read_storefront_ids(json) {
        None => Err(ApolError::DecodeFailed),
        Some(ids) => {
            if ids.len() == 0 {
                Err(ApolError::NoRegionData)
            } else {
                Ok(ids[0].clone())
            }
        },
    }
}

/// What authenticating comes to: a credential that is authenticated already
/// is refused; any other takes the user token and the storefront that the
/// answer of the resolver names, or fails as the resolver did.
pub open spec fn authenticated_with(
    token: TokenView,
    user_token: Seq<char>,
    reply: HttpResponseView,
) -> Result<TokenView, ApolErrorView> {
    match token {
        TokenView::Authenticated { .. } => Err(ApolErrorView::InvalidState),
        TokenView::Unauthenticated { jwt } => match storefront_of(reply) {
            Ok(store_id) => Ok(TokenView::Authenticated { jwt, user_token, store_id }),
            Err(e) => Err(e),
        },
    }
}

impl AppleMusicToken {
    /// The request that resolves the storefront for `user_token` with this
    /// credential's bearer, which is the first step of authenticating it.
    ///
    /// A credential that is authenticated already gives `InvalidState`, and
    /// nothing is to be sent.
    pub fn authentication_request(&self, user_token: &str) -> (r: Result<HttpRequest, ApolError>)
        ensures
            self@ is Unauthenticated ==> is_request_result(
                r,
                storefront_request_of(self@.bearer(), user_token@),
            ),
            self@ is Authenticated ==> r is Err && r->Err_0@ == ApolErrorView::InvalidState,
    {
        if self.is_authenticated() {
            Err(ApolError::InvalidState)
        } else {
            storefront_request(self.get_jwt(), user_token)
        }
    }

    /// Ties an unauthenticated credential to the user with `user_token`.
    ///
    /// `reply` is the answer to [`Self::authentication_request`]. The
    /// credential is consumed, and a new one comes back that holds the same
    /// bearer, the user token and the storefront that the answer names. A
    /// credential that is authenticated already gives `InvalidState`,
    /// whatever the answer; an answer that names no storefront fails as
    /// [`get_storefront`] does.
    pub fn authenticate(self, user_token: String, reply: &HttpResponse) -> (r: Result<
        AppleMusicToken,
        ApolError,
    >)
        ensures
            is_token_result(r, authenticated_with(self@, user_token@, reply@)),
    {
        if self.is_authenticated() {
            return Err(ApolError::InvalidState);
        }
        match get_storefront(reply) {
            Ok(store_id) => self.with_user(user_token, store_id),
            Err(e) => Err(e),
        }
    }
}

} // verus!
