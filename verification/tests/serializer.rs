use service::{
    Album, AlbumSer, Artist, ArtistSer, JsonField, JsonObject, JsonValue, SpotifyId, SpotifyIdSer,
    SpotifyIdVecSer, Track, TrackSer,
};

const A: u128 = 238762092608182713602505436543891614649;
const A_TEXT: &str = "5sWHDYs0csV6RS48xBl0tH";
const B: u128 = 204841891221366092811751085145916697048;
const B_TEXT: &str = "4GNcXTGWmnZ3ySrqvol3o4";
const C: u128 = 62;
const C_TEXT: &str = "0000000000000000000010";

fn text(s: &str) -> JsonValue {
    JsonValue::Text(s.to_string())
}

fn list(items: &[&str]) -> JsonValue {
    JsonValue::TextList(items.iter().map(|s| s.to_string()).collect())
}

fn field(name: &str, value: JsonValue) -> JsonField {
    JsonField {
        name: name.to_string(),
        value,
    }
}

fn song() -> Track {
    Track {
        id: SpotifyId::new(A),
        name: "Song A".to_string(),
        artists: vec![SpotifyId::new(B), SpotifyId::new(C)],
        album: SpotifyId::new(C),
        duration: 210000,
        alternatives: vec![],
        available: true,
    }
}

#[test]
fn identifier_is_written_as_its_text() {
    assert_eq!(SpotifyIdSer::new(SpotifyId::new(A)).serialize(), text(A_TEXT));
    assert_eq!(SpotifyIdSer(SpotifyId::new(0)).serialize(), text("0000000000000000000000"));
}

#[test]
fn identifier_list_keeps_its_order() {
    let ids = vec![SpotifyId::new(B), SpotifyId::new(A), SpotifyId::new(C), SpotifyId::new(A)];
    assert_eq!(
        SpotifyIdVecSer::new(ids).serialize(),
        list(&[B_TEXT, A_TEXT, C_TEXT, A_TEXT])
    );
}

#[test]
fn empty_identifier_list_is_an_empty_list() {
    assert_eq!(SpotifyIdVecSer::new(vec![]).serialize(), JsonValue::TextList(vec![]));
}

#[test]
fn track_has_seven_fields_in_order() {
    let object = TrackSer::new(song()).serialize();
    assert_eq!(
        object,
        JsonObject {
            fields: vec![
                field("id", text(A_TEXT)),
                field("name", text("Song A")),
                field("artist", list(&[B_TEXT, C_TEXT])),
                field("album", text(C_TEXT)),
                field("duration", JsonValue::Number(210000)),
                field("alternatives", list(&[])),
                field("available", JsonValue::Flag(true)),
            ],
        }
    );
}

#[test]
fn track_artists_are_written_in_their_order() {
    let mut track = song();
    track.artists = vec![SpotifyId::new(A), SpotifyId::new(B)];
    let object = TrackSer::new(track).serialize();
    assert_eq!(object.fields[2], field("artist", list(&[A_TEXT, B_TEXT])));

    let mut track = song();
    track.artists = vec![SpotifyId::new(B), SpotifyId::new(A)];
    let object = TrackSer::new(track).serialize();
    assert_eq!(object.fields[2], field("artist", list(&[B_TEXT, A_TEXT])));
}

#[test]
fn track_without_alternatives_keeps_the_field() {
    let object = TrackSer::new(song()).serialize();
    assert_eq!(object.fields.len(), 7);
    assert_eq!(object.fields[5], field("alternatives", JsonValue::TextList(vec![])));
}

#[test]
fn track_alternatives_and_flags_are_written() {
    let mut track = song();
    track.alternatives = vec![SpotifyId::new(C), SpotifyId::new(B)];
    track.available = false;
    track.duration = -1;
    let object = TrackSer::new(track).serialize();
    assert_eq!(object.fields[4], field("duration", JsonValue::Number(-1)));
    assert_eq!(object.fields[5], field("alternatives", list(&[C_TEXT, B_TEXT])));
    assert_eq!(object.fields[6], field("available", JsonValue::Flag(false)));
}

#[test]
fn track_duration_covers_the_whole_range() {
    let mut track = song();
    track.duration = i32::MAX;
    assert_eq!(
        TrackSer::new(track).serialize().fields[4],
        field("duration", JsonValue::Number(2147483647))
    );
    let mut track = song();
    track.duration = i32::MIN;
    assert_eq!(
        TrackSer::new(track).serialize().fields[4],
        field("duration", JsonValue::Number(-2147483648))
    );
}

#[test]
fn album_has_four_fields_in_order() {
    let album = Album {
        id: SpotifyId::new(B),
        name: "Album B".to_string(),
        artists: vec![SpotifyId::new(A)],
        tracks: vec![SpotifyId::new(C), SpotifyId::new(A)],
    };
    assert_eq!(
        AlbumSer::new(album).serialize(),
        JsonObject {
            fields: vec![
                field("id", text(B_TEXT)),
                field("name", text("Album B")),
                field("artist", list(&[A_TEXT])),
                field("tracks", list(&[C_TEXT, A_TEXT])),
            ],
        }
    );
}

#[test]
fn album_without_artists_or_tracks_keeps_the_fields() {
    let album = Album {
        id: SpotifyId::new(B),
        name: String::new(),
        artists: vec![],
        tracks: vec![],
    };
    assert_eq!(
        AlbumSer::new(album).serialize(),
        JsonObject {
            fields: vec![
                field("id", text(B_TEXT)),
                field("name", text("")),
                field("artist", list(&[])),
                field("tracks", list(&[])),
            ],
        }
    );
}

#[test]
fn artist_has_three_fields_in_order() {
    let artist = Artist {
        id: SpotifyId::new(C),
        name: "Artist C".to_string(),
        top_tracks: vec![SpotifyId::new(A), SpotifyId::new(B)],
    };
    assert_eq!(
        ArtistSer::new(artist).serialize(),
        JsonObject {
            fields: vec![
                field("id", text(C_TEXT)),
                field("name", text("Artist C")),
                field("top_tracks", list(&[A_TEXT, B_TEXT])),
            ],
        }
    );
}

#[test]
fn serializers_keep_the_record_they_are_made_of() {
    assert_eq!(TrackSer::new(song()).0, song());
    assert_eq!(SpotifyIdSer::new(SpotifyId::new(A)).0, SpotifyId::new(A));
    assert_eq!(
        SpotifyIdVecSer::new(vec![SpotifyId::new(A)]).0,
        vec![SpotifyId::new(A)]
    );
}
