//! The decisions of one request: read the identifier, ask for the record,
//! answer.
//!
//! A request is answered in two steps, with the backend's work between them.
//! [`on_request`] reads the identifier from the path and says what to do next:
//! answer at once, or fetch a record. [`on_fetched`] takes what the fetch gave
//! and says what to answer. Neither step keeps anything between requests: an
//! answer depends on its own request alone.

use crate::json::{json_text, JsonError, JsonFieldView, JsonObject, JsonValueView};
use crate::metadata::{Album, AlbumView, Artist, ArtistView, Track, TrackView};
use crate::serializer::{
    album_object, artist_object, id_field, track_object, AlbumSer, ArtistSer, TrackSer,
};
use crate::spotify_id::{decode, lemma_encode_decode, SpotifyId};
use vstd::prelude::*;

verus! {

/// The kinds of record.
#[derive(Clone, Copy, Debug, PartialEq, Eq, Hash, Structural)]
pub enum EntityKind {
    Track,
    Album,
    Artist,
}

/// A record of one of the three kinds.
#[derive(Clone, Debug, PartialEq, Eq)]
pub enum Entity {
    Track(Track),
    Album(Album),
    Artist(Artist),
}

/// What an [`Entity`] holds.
pub enum EntityView {
    Track(TrackView),
    Album(AlbumView),
    Artist(ArtistView),
}

impl View for Entity {
    type V = EntityView;

    open spec fn view(&self) -> EntityView {
        match self {
            Entity::Track(track) => EntityView::Track(track@),
            Entity::Album(album) => EntityView::Album(album@),
            Entity::Artist(artist) => EntityView::Artist(artist@),
        }
    }
}

/// Why a fetch gave no record.
#[derive(Clone, Copy, Debug, PartialEq, Eq, Hash, Structural)]
pub enum FetchError {
    /// The backend knows no record under the identifier.
    NotFound,
    /// The backend failed in some other way.
    Backend,
}

/// The status of an answer.
#[derive(Clone, Copy, Debug, PartialEq, Eq, Hash, Structural)]
pub enum Status {
    Success,
    BadRequest,
    NotFound,
    InternalServerError,
}

/// The media type of an answer's body.
#[derive(Clone, Copy, Debug, PartialEq, Eq, Hash, Structural)]
pub enum MediaType {
    TextPlain,
}

/// An answer: a status and a body, sent as plain text.
#[derive(Clone, Debug, PartialEq, Eq)]
pub struct Reply {
    pub status: Status,
    pub media_type: MediaType,
    pub body: String,
}

/// What a [`Reply`] holds.
pub struct ReplyView {
    pub status: Status,
    pub media_type: MediaType,
    pub body: Seq<char>,
}

impl View for Reply {
    type V = ReplyView;

    open spec fn view(&self) -> ReplyView {
        ReplyView { status: self.status, media_type: self.media_type, body: self.body@ }
    }
}

/// What to do once the identifier of a request has been read.
#[derive(Clone, Debug, PartialEq, Eq)]
pub enum Action {
    /// Ask the backend for the record of this kind under this identifier.
    Fetch { kind: EntityKind, id: SpotifyId },
    /// Answer at once.
    Respond(Reply),
}

/// The numeric code of a status.
pub open spec fn status_code(status: Status) -> int {
    match status {
        Status::Success => 200,
        Status::BadRequest => 400,
        Status::NotFound => 404,
        Status::InternalServerError => 500,
    }
}

/// The canonical shape of a record.
pub open spec fn entity_object(entity: EntityView) -> Seq<JsonFieldView> {
    match entity {
        EntityView::Track(track) => track_object(track),
        EntityView::Album(album) => album_object(album),
        EntityView::Artist(artist) => artist_object(artist),
    }
}

/// The kind of a record.
pub open spec fn entity_kind(entity: EntityView) -> EntityKind {
    match entity {
        EntityView::Track(_) => EntityKind::Track,
        EntityView::Album(_) => EntityKind::Album,
        EntityView::Artist(_) => EntityKind::Artist,
    }
}

/// The identifier of a record.
pub open spec fn entity_id(entity: EntityView) -> SpotifyId {
    match entity {
        EntityView::Track(track) => track.id,
        EntityView::Album(album) => album.id,
        EntityView::Artist(artist) => artist.id,
    }
}

/// The answer with the given status and body.
pub open spec fn reply(status: Status, body: Seq<char>) -> ReplyView {
    ReplyView { status, media_type: MediaType::TextPlain, body }
}

/// The answer to a path that holds no identifier.
pub open spec fn bad_request() -> ReplyView {
    reply(Status::BadRequest, "wrong input"@)
}

/// The answer where the fetch gave no record.
pub open spec fn not_found() -> ReplyView {
    reply(Status::NotFound, "not found"@)
}

/// The answer that carries a record's JSON text.
pub open spec fn found(text: Seq<char>) -> ReplyView {
    reply(Status::Success, text)
}

/// The answer where a record could not be written as text.
pub open spec fn failure() -> ReplyView {
    reply(Status::InternalServerError, Seq::empty())
}

/// The answer for a record, given its JSON text or the lack of one.
pub open spec fn rendered(text: Option<Seq<char>>) -> ReplyView {
    match text {
        Some(text) => found(text),
        None => failure(),
    }
}

/// The answer for what a fetch gave.
pub open spec fn fetched(outcome: Result<EntityView, FetchError>) -> ReplyView {
    match outcome {
        Ok(entity) => rendered(json_text(entity_object(entity))),
        Err(_) => not_found(),
    }
}

impl Status {
    /// The numeric code of the status.
    pub fn code(&self) -> (code: u16)
        ensures
            code == status_code(*self),
    {
        match self {
            Status::Success => 200,
            Status::BadRequest => 400,
            Status::NotFound => 404,
            Status::InternalServerError => 500,
        }
    }
}

impl MediaType {
    /// The media type as it is written in a header.
    pub fn as_str(&self) -> (text: &'static str)
        ensures
            text@ == "text/plain"@,
    {
        "text/plain"
    }
}

impl Reply {
    /// The answer with the given status and body.
    pub fn new(status: Status, body: String) -> (r: Reply)
        ensures
            r@ == reply(status, body@),
    {
        Reply { status, media_type: MediaType::TextPlain, body }
    }
}

impl Entity {
    /// The kind of the record.
    pub fn kind(&self) -> (kind: EntityKind)
        ensures
            kind == entity_kind(self@),
    {
        match self {
            Entity::Track(_) => EntityKind::Track,
            Entity::Album(_) => EntityKind::Album,
            Entity::Artist(_) => EntityKind::Artist,
        }
    }

    /// Reshapes the record with the serializer of its kind.
    pub fn serialize(self) -> (object: JsonObject)
        ensures
            object@ == entity_object(self@),
    {
        match self {
            Entity::Track(track) => TrackSer::new(track).serialize(),
            Entity::Album(album) => AlbumSer::new(album).serialize(),
            Entity::Artist(artist) => ArtistSer::new(artist).serialize(),
        }
    }
}

/// First step: reads the identifier from the path.
///
/// Where the text stands for an identifier, the record of the route's kind is to
/// be fetched under it. Where it stands for none, the request is answered at
/// once with `400` and `wrong input`, and nothing is fetched.
pub fn on_request(kind: EntityKind, id_text: &str) -> (action: Action)
    ensures
        match decode(id_text@) {
            Some(id) => action == (Action::Fetch { kind, id: SpotifyId { id } }),
            None => action matches Action::Respond(r) && r@ == bad_request(),
        },
{
    match SpotifyId::from_base62(id_text) {
        Ok(id) => Action::Fetch { kind, id },
        Err(_) => Action::Respond(Reply::new(Status::BadRequest, "wrong input".to_owned())),
    }
}

/// The answer for a record's text, or for the failure to write it.
pub fn on_rendered(text: Result<String, JsonError>) -> (r: Reply)
    ensures
        text matches Ok(t) ==> r@ == found(t@),
        text is Err ==> r@ == failure(),
{
    match text {
        Ok(text) => Reply::new(Status::Success, text),
        Err(_) => Reply::new(Status::InternalServerError, String::new()),
    }
}

/// Second step: answers with what the fetch gave.
///
/// A record is answered with `200` and its canonical JSON text; should the text
/// fail to be written, with `500` and an empty body. A fetch that gave no
/// record, for whatever reason, is answered with `404` and `not found`; it is
/// not tried again.
pub fn on_fetched(outcome: Result<Entity, FetchError>) -> (r: Reply)
    ensures
        outcome matches Ok(entity) ==> r@ == fetched(Ok(entity@)),
        outcome matches Err(e) ==> r@ == fetched(Err(e)),
{
    match outcome {
        Ok(entity) => on_rendered(entity.serialize().to_text()),
        Err(_) => Reply::new(Status::NotFound, "not found".to_owned()),
    }
}

/// A path without an identifier is answered with 400. A fetch without a record
/// is answered with 404, whatever the reason. A record is answered with 200 and
/// its JSON text as the body, wherever it has one. All are sent as plain text.
pub proof fn lemma_status_mapping(entity: EntityView, error: FetchError)
    ensures
        status_code(bad_request().status) == 400,
        status_code(fetched(Err(error)).status) == 404,
        fetched(Err(error)) == not_found(),
        json_text(entity_object(entity)) matches Some(text) ==> status_code(
            fetched(Ok(entity)).status,
        ) == 200 && fetched(Ok(entity)).body == text,
        json_text(entity_object(entity)) is None ==> fetched(Ok(entity)) == failure(),
        bad_request().media_type == MediaType::TextPlain,
        fetched(Err(error)).media_type == MediaType::TextPlain,
        fetched(Ok(entity)).media_type == MediaType::TextPlain,
{
}

/// Requests for distinct identifiers stay apart. Their paths differ, and where
/// each fetch gives the record of the identifier asked for, each record is
/// written with its own request's path as its `id`: the two shapes differ, and
/// neither can stand for the other.
pub proof fn lemma_answers_keep_apart(
    path_a: Seq<char>,
    path_b: Seq<char>,
    a: EntityView,
    b: EntityView,
)
    requires
        decode(path_a) == Some(entity_id(a).id),
        decode(path_b) == Some(entity_id(b).id),
        entity_id(a) != entity_id(b),
    ensures
        path_a != path_b,
        entity_object(a)[0] == id_field("id"@, entity_id(a)),
        entity_object(b)[0] == id_field("id"@, entity_id(b)),
        entity_object(a)[0].value == JsonValueView::Text(path_a),
        entity_object(b)[0].value == JsonValueView::Text(path_b),
        entity_object(a) != entity_object(b),
{
    lemma_encode_decode(path_a);
    lemma_encode_decode(path_b);
}

} // verus!
