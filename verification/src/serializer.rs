//! The canonical JSON shape of an identifier, a list of identifiers, a track,
//! an album and an artist.
//!
//! Each shape has a fixed set of fields in a fixed order. An identifier is always
//! written in its textual form, a list keeps its order, and an empty list is
//! written as an empty list.

use crate::json::{JsonField, JsonFieldView, JsonObject, JsonValue, JsonValueView};
use crate::metadata::{Album, AlbumView, Artist, ArtistView, Track, TrackView};
use crate::spotify_id::{encode, SpotifyId};
use vstd::prelude::*;

verus! {

/// The textual forms of a list of identifiers, in the list's order.
pub open spec fn encode_all(ids: Seq<SpotifyId>) -> Seq<Seq<char>> {
    Seq::new(ids.len(), |i: int| encode(ids[i].id))
}

/// The field with the given name and value.
pub open spec fn field(name: Seq<char>, value: JsonValueView) -> JsonFieldView {
    JsonFieldView { name, value }
}

/// The field that holds one identifier.
pub open spec fn id_field(name: Seq<char>, id: SpotifyId) -> JsonFieldView {
    field(name, JsonValueView::Text(encode(id.id)))
}

/// The field that holds a list of identifiers.
pub open spec fn ids_field(name: Seq<char>, ids: Seq<SpotifyId>) -> JsonFieldView {
    field(name, JsonValueView::TextList(encode_all(ids)))
}

/// The canonical shape of a track.
pub open spec fn track_object(track: TrackView) -> Seq<JsonFieldView> {
    seq![
        id_field("id"@, track.id),
        field("name"@, JsonValueView::Text(track.name)),
        ids_field("artist"@, track.artists),
        id_field("album"@, track.album),
        field("duration"@, JsonValueView::Number(track.duration)),
        ids_field("alternatives"@, track.alternatives),
        field("available"@, JsonValueView::Flag(track.available)),
    ]
}

/// The canonical shape of an album.
pub open spec fn album_object(album: AlbumView) -> Seq<JsonFieldView> {
    seq![
        id_field("id"@, album.id),
        field("name"@, JsonValueView::Text(album.name)),
        ids_field("artist"@, album.artists),
        ids_field("tracks"@, album.tracks),
    ]
}

/// The canonical shape of an artist.
pub open spec fn artist_object(artist: ArtistView) -> Seq<JsonFieldView> {
    seq![
        id_field("id"@, artist.id),
        field("name"@, JsonValueView::Text(artist.name)),
        ids_field("top_tracks"@, artist.top_tracks),
    ]
}

/// The names of an object's fields, in the object's order.
pub open spec fn field_names(object: Seq<JsonFieldView>) -> Seq<Seq<char>> {
    Seq::new(object.len(), |i: int| object[i].name)
}

/// Whether no two fields of an object share a name.
pub open spec fn names_distinct(object: Seq<JsonFieldView>) -> bool {
    forall|i: int, j: int|
        0 <= i < j < object.len() ==> (#[trigger] object[i]).name != (#[trigger] object[j]).name
}

/// A list of identifiers is written as one textual form for each identifier, in
/// the list's order; an empty list is written as an empty list.
pub proof fn lemma_encode_all_keeps_order(ids: Seq<SpotifyId>)
    ensures
        encode_all(ids).len() == ids.len(),
        forall|i: int| 0 <= i < ids.len() ==> #[trigger] encode_all(ids)[i] == encode(ids[i].id),
        ids.len() == 0 ==> encode_all(ids) == Seq::<Seq<char>>::empty(),
{
}

/// A track is written with its seven fields and no other, whatever it holds,
/// and no two of them share a name.
pub proof fn lemma_track_fields(track: TrackView)
    ensures
        field_names(track_object(track)) == seq![
            "id"@,
            "name"@,
            "artist"@,
            "album"@,
            "duration"@,
            "alternatives"@,
            "available"@,
        ],
        names_distinct(track_object(track)),
{
    reveal_strlit("id");
    reveal_strlit("name");
    reveal_strlit("artist");
    reveal_strlit("album");
    reveal_strlit("duration");
    reveal_strlit("alternatives");
    reveal_strlit("available");
    let object = track_object(track);
    assert forall|i: int, j: int| 0 <= i < j < object.len() implies (#[trigger] object[i]).name.len()
        != (#[trigger] object[j]).name.len() by {}
}

/// An album is written with its four fields and no other, whatever it holds,
/// and no two of them share a name.
pub proof fn lemma_album_fields(album: AlbumView)
    ensures
        field_names(album_object(album)) == seq!["id"@, "name"@, "artist"@, "tracks"@],
        names_distinct(album_object(album)),
{
    reveal_strlit("id");
    reveal_strlit("name");
    reveal_strlit("artist");
    reveal_strlit("tracks");
    let object = album_object(album);
    assert forall|i: int, j: int| 0 <= i < j < object.len() implies (#[trigger] object[i]).name.len()
        != (#[trigger] object[j]).name.len() || object[i].name[0] != object[j].name[0] by {}
}

/// An artist is written with its three fields and no other, whatever it
/// holds, and no two of them share a name.
pub proof fn lemma_artist_fields(artist: ArtistView)
    ensures
        field_names(artist_object(artist)) == seq!["id"@, "name"@, "top_tracks"@],
        names_distinct(artist_object(artist)),
{
    reveal_strlit("id");
    reveal_strlit("name");
    reveal_strlit("top_tracks");
    let object = artist_object(artist);
    assert forall|i: int, j: int| 0 <= i < j < object.len() implies (#[trigger] object[i]).name.len()
        != (#[trigger] object[j]).name.len() by {}
}

/// Writes each identifier of a list in its textual form.
fn encode_list(ids: &Vec<SpotifyId>) -> (texts: Vec<String>)
    ensures
        texts.deep_view() == encode_all(ids@),
{
    let mut texts: Vec<String> = Vec::new();
    let mut i: usize = 0;
    while i < ids.len()
        invariant
            i <= ids.len(),
            texts@.len() == i,
            forall|j: int| 0 <= j < i ==> (#[trigger] texts@[j])@ == encode(ids@[j].id),
        decreases ids.len() - i,
    {
        texts.push(ids[i].to_base62());
        i += 1;
    }
    texts
}

/// The field that holds one identifier.
fn make_id_field(name: &str, id: &SpotifyId) -> (f: JsonField)
    ensures
        f@ == id_field(name@, *id),
{
    JsonField::new(name, JsonValue::Text(id.to_base62()))
}

/// The field that holds a list of identifiers.
fn make_ids_field(name: &str, ids: &Vec<SpotifyId>) -> (f: JsonField)
    ensures
        f@ == ids_field(name@, ids@),
{
    JsonField::new(name, JsonValue::TextList(encode_list(ids)))
}

/// Serializer of one identifier.
#[derive(Clone, Copy, Debug, PartialEq, Eq)]
pub struct SpotifyIdSer(pub SpotifyId);

/// Serializer of a list of identifiers.
#[derive(Clone, Debug, PartialEq, Eq)]
pub struct SpotifyIdVecSer(pub Vec<SpotifyId>);

/// Serializer of a track.
#[derive(Clone, Debug, PartialEq, Eq)]
pub struct TrackSer(pub Track);

/// Serializer of an album.
#[derive(Clone, Debug, PartialEq, Eq)]
pub struct AlbumSer(pub Album);

/// Serializer of an artist.
#[derive(Clone, Debug, PartialEq, Eq)]
pub struct ArtistSer(pub Artist);

impl SpotifyIdSer {
    /// The serializer of an identifier.
    pub fn new(id: SpotifyId) -> (ser: SpotifyIdSer)
        ensures
            ser.0 == id,
    {
        SpotifyIdSer(id)
    }

    /// The identifier as a JSON string: its textual form.
    pub fn serialize(&self) -> (value: JsonValue)
        ensures
            value@ == JsonValueView::Text(encode(self.0.id)),
    {
        JsonValue::Text(self.0.to_base62())
    }
}

impl SpotifyIdVecSer {
    /// The serializer of a list of identifiers.
    pub fn new(ids: Vec<SpotifyId>) -> (ser: SpotifyIdVecSer)
        ensures
            ser.0 == ids,
    {
        SpotifyIdVecSer(ids)
    }

    /// The identifiers as a JSON list of strings, one textual form for each, in
    /// the list's order.
    pub fn serialize(&self) -> (value: JsonValue)
        ensures
            value@ == JsonValueView::TextList(encode_all(self.0@)),
    {
        JsonValue::TextList(encode_list(&self.0))
    }
}

impl TrackSer {
    /// The serializer of a track.
    pub fn new(track: Track) -> (ser: TrackSer)
        ensures
            ser.0 == track,
    {
        TrackSer(track)
    }

    /// The track as a JSON object of seven fields: `id`, `name`, `artist`,
    /// `album`, `duration`, `alternatives`, `available`.
    pub fn serialize(&self) -> (object: JsonObject)
        ensures
            object@ == track_object(self.0@),
    {
        let mut object = JsonObject::new();
        object.push(make_id_field("id", &self.0.id));
        object.push(JsonField::new("name", JsonValue::Text(self.0.name.clone())));
        object.push(make_ids_field("artist", &self.0.artists));
        object.push(make_id_field("album", &self.0.album));
        object.push(JsonField::new("duration", JsonValue::Number(self.0.duration as i64)));
        object.push(make_ids_field("alternatives", &self.0.alternatives));
        object.push(JsonField::new("available", JsonValue::Flag(self.0.available)));
        object
    }
}

impl AlbumSer {
    /// The serializer of an album.
    pub fn new(album: Album) -> (ser: AlbumSer)
        ensures
            ser.0 == album,
    {
        AlbumSer(album)
    }

    /// The album as a JSON object of four fields: `id`, `name`, `artist`,
    /// `tracks`.
    pub fn serialize(&self) -> (object: JsonObject)
        ensures
            object@ == album_object(self.0@),
    {
        let mut object = JsonObject::new();
        object.push(make_id_field("id", &self.0.id));
        object.push(JsonField::new("name", JsonValue::Text(self.0.name.clone())));
        object.push(make_ids_field("artist", &self.0.artists));
        object.push(make_ids_field("tracks", &self.0.tracks));
        object
    }
}

impl ArtistSer {
    /// The serializer of an artist.
    pub fn new(artist: Artist) -> (ser: ArtistSer)
        ensures
            ser.0 == artist,
    {
        ArtistSer(artist)
    }

    /// The artist as a JSON object of three fields: `id`, `name`, `top_tracks`.
    pub fn serialize(&self) -> (object: JsonObject)
        ensures
            object@ == artist_object(self.0@),
    {
        let mut object = JsonObject::new();
        object.push(make_id_field("id", &self.0.id));
        object.push(JsonField::new("name", JsonValue::Text(self.0.name.clone())));
        object.push(make_ids_field("top_tracks", &self.0.top_tracks));
        object
    }
}

} // verus!
