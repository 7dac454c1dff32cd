//! The records that the metadata backend resolves identifiers to.
//!
//! A record refers to other records by identifier only; it never embeds them.

use crate::spotify_id::SpotifyId;
use vstd::prelude::*;

verus! {

/// A track.
#[derive(Clone, Debug, PartialEq, Eq)]
pub struct Track {
    pub id: SpotifyId,
    pub name: String,
    pub artists: Vec<SpotifyId>,
    pub album: SpotifyId,
    pub duration: i32,
    pub alternatives: Vec<SpotifyId>,
    pub available: bool,
}

/// An album.
#[derive(Clone, Debug, PartialEq, Eq)]
pub struct Album {
    pub id: SpotifyId,
    pub name: String,
    pub artists: Vec<SpotifyId>,
    pub tracks: Vec<SpotifyId>,
}

/// An artist.
#[derive(Clone, Debug, PartialEq, Eq)]
pub struct Artist {
    pub id: SpotifyId,
    pub name: String,
    pub top_tracks: Vec<SpotifyId>,
}

/// What a [`Track`] holds.
pub struct TrackView {
    pub id: SpotifyId,
    pub name: Seq<char>,
    pub artists: Seq<SpotifyId>,
    pub album: SpotifyId,
    pub duration: int,
    pub alternatives: Seq<SpotifyId>,
    pub available: bool,
}

/// What an [`Album`] holds.
pub struct AlbumView {
    pub id: SpotifyId,
    pub name: Seq<char>,
    pub artists: Seq<SpotifyId>,
    pub tracks: Seq<SpotifyId>,
}

/// What an [`Artist`] holds.
pub struct ArtistView {
    pub id: SpotifyId,
    pub name: Seq<char>,
    pub top_tracks: Seq<SpotifyId>,
}

impl View for Track {
    type V = TrackView;

    open spec fn view(&self) -> TrackView {
        TrackView {
            id: self.id,
            name: self.name@,
            artists: self.artists@,
            album: self.album,
            duration: self.duration as int,
            alternatives: self.alternatives@,
            available: self.available,
        }
    }
}

impl View for Album {
    type V = AlbumView;

    open spec fn view(&self) -> AlbumView {
        AlbumView {
            id: self.id,
            name: self.name@,
            artists: self.artists@,
            tracks: self.tracks@,
        }
    }
}

impl View for Artist {
    type V = ArtistView;

    open spec fn view(&self) -> ArtistView {
        ArtistView { id: self.id, name: self.name@, top_tracks: self.top_tracks@ }
    }
}

} // verus!
