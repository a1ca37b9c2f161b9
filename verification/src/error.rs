use crate::helpers::decimal;
use crate::helpers::decimal_string;
use vstd::prelude::*;
use vstd::string::*;

verus! {

/// The ways in which acquiring, exchanging or using a credential can fail.
///
/// Every failure is handed to the immediate caller as one of these values;
/// nothing is retried and nothing is swallowed.
#[derive(Debug, PartialEq, Eq)]
pub enum ApolError {
    /// An outbound call was answered with a status outside 200..=299, or was
    /// not answered at all.
    UpstreamUnavailable,
    /// The expected pattern was not found in the scraped page or script.
    ExtractionFailed,
    /// The catalog refused the search; the status and the body are kept as
    /// they came.
    UpstreamRejected { status: u16, body: String },
    /// The account has no storefront.
    NoRegionData,
    /// A credential that is already authenticated was asked to authenticate.
    InvalidState,
    /// A response body did not have the shape that was expected of it.
    DecodeFailed,
    /// A credential cannot be sent because it is no valid header value.
    InvalidHeaderValue,
}

/// The mathematical value of an [`ApolError`]: the body of a rejection is
/// taken as a sequence of characters.
pub enum ApolErrorView {
    UpstreamUnavailable,
    ExtractionFailed,
    UpstreamRejected { status: u16, body: Seq<char> },
    NoRegionData,
    InvalidState,
    DecodeFailed,
    InvalidHeaderValue,
}

impl View for ApolError {
    type V = ApolErrorView;

    open spec fn view(&self) -> ApolErrorView {
        match *self {
            ApolError::UpstreamUnavailable => ApolErrorView::UpstreamUnavailable,
            ApolError::ExtractionFailed => ApolErrorView::ExtractionFailed,
            ApolError::UpstreamRejected { status, body } => ApolErrorView::UpstreamRejected {
                status,
                body: body@,
            },
            ApolError::NoRegionData => ApolErrorView::NoRegionData,
            ApolError::InvalidState => ApolErrorView::InvalidState,
            ApolError::DecodeFailed => ApolErrorView::DecodeFailed,
            ApolError::InvalidHeaderValue => ApolErrorView::InvalidHeaderValue,
        }
    }
}

impl ApolErrorView {
    /// The failure in words. No two kinds of failure read the same.
    pub open spec fn message(self) -> Seq<char> {
        match self {
            ApolErrorView::UpstreamUnavailable => "Failed to send request to Apple Music"@,
            ApolErrorView::ExtractionFailed => "Failed to find the token in the page"@,
            ApolErrorView::UpstreamRejected { status, body } => decimal(status as nat) + ": "@
                + body,
            ApolErrorView::NoRegionData => "No storefront data found"@,
            ApolErrorView::InvalidState => "Token is already authenticated"@,
            ApolErrorView::DecodeFailed => "Failed to decode the response"@,
            ApolErrorView::InvalidHeaderValue => "Failed to parse header value"@,
        }
    }
}

impl ApolError {
    /// The failure in words: for a rejection, the status, a colon and the
    /// body as it came; for the others a fixed sentence each.
    pub fn message(&self) -> (r: String)
        ensures
            r@ == self@.message(),
    {
        match self {
            ApolError::UpstreamUnavailable => "Failed to send request to Apple Music".to_owned(),
            ApolError::ExtractionFailed => "Failed to find the token in the page".to_owned(),
            ApolError::UpstreamRejected { status, body } => decimal_string(*status as u64).concat(
                ": ",
            ).concat(body.as_str()),
            ApolError::NoRegionData => "No storefront data found".to_owned(),
            ApolError::InvalidState => "Token is already authenticated".to_owned(),
            ApolError::DecodeFailed => "Failed to decode the response".to_owned(),
            ApolError::InvalidHeaderValue => "Failed to parse header value".to_owned(),
        }
    }
}

} // verus!
