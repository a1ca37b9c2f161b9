//! Short-lived credentials for a music catalog that issues no API keys:
//! scraping a bearer token, caching it, exchanging it for a user-scoped
//! credential, and searching the catalog with it.
//!
//! Nothing here sends or receives anything. Each exchange with the outside
//! is split in two: a function that builds the request, and a function that
//! takes what came back. The caller sends the one and hands over the other,
//! and reads the clock where a point in time is asked for.

pub mod error;
pub mod helpers;
pub mod http;
pub mod json;
pub mod manager;
pub mod scraper;
pub mod search;
pub mod song;
pub mod storefront;
pub mod time;
pub mod token;
pub mod voice;

pub use error::ApolError;
pub use helpers::d2hms;
pub use helpers::s2hms;
pub use helpers::trim_artist_from_title;
pub use http::Body;
pub use http::BodyKind;
pub use http::HttpRequest;
pub use http::HttpResponse;
pub use json::Json;
pub use manager::AppleMusicTokenManager;
pub use manager::TokenData;
pub use scraper::find_js_file;
pub use scraper::get_bearer_token;
pub use scraper::main_page_request;
pub use scraper::script_request;
pub use search::search_request;
pub use search::search_track;
pub use song::Albums;
pub use song::AlbumsDatum;
pub use song::AppleMusicSong;
pub use song::AppleMusicSongDatum;
pub use song::Artwork;
pub use song::Attributes;
pub use song::ContentVersion;
pub use song::Meta;
pub use song::PlayParams;
pub use song::Preview;
pub use song::Relationships;
pub use storefront::get_storefront;
pub use storefront::storefront_request;
pub use time::Duration;
pub use time::Timestamp;
pub use token::AppleMusicToken;
pub use voice::Metadata;
