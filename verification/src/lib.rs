//! Read-only lookup of tracks, albums and artists by their textual identifier.
//!
//! A request names a record by the textual form of its 128-bit identifier. The
//! library reads the identifier, says what to fetch, and turns the record that
//! the backend gives into canonical JSON and an answer with the right status.
//! It keeps nothing between requests.

pub mod base62;
pub mod handler;
pub mod json;
pub mod metadata;
pub mod router;
pub mod serializer;
pub mod spotify_id;

pub use handler::{
    on_fetched, on_rendered, on_request, Action, Entity, EntityKind, FetchError, MediaType, Reply,
    Status,
};
pub use json::{JsonError, JsonField, JsonObject, JsonValue};
pub use metadata::{Album, Artist, Track};
pub use router::{routes, Method, Route};
pub use serializer::{AlbumSer, ArtistSer, SpotifyIdSer, SpotifyIdVecSer, TrackSer};
pub use spotify_id::{SpotifyId, SpotifyIdError, ID_TEXT_LEN};
