//! The bridge to the desktop media-control protocol: what the protocol is told
//! about a track, and how its seek requests become transport commands.

use vstd::prelude::*;
use crate::app::{Track, TrackView};
use crate::text::{clone_opt_text, clone_texts, opt_text, texts};
use crate::player::{PlayerCommand, PlayerState, PlaybackStatus, MICROS_PER_SECOND};

verus! {

/// What the protocol is told about the current track.
#[derive(Debug)]
pub struct Metadata {
    /// The track's object path on the bus.
    pub track_id: String,
    pub title: String,
    pub artist: String,
    pub album: String,
    pub album_artist: Option<String>,
    /// Length in microseconds.
    pub length: i64,
    /// Where the cover art is; empty when the track has none.
    pub art_url: String,
    pub track_number: i32,
    pub use_count: i32,
    pub genres: Vec<String>,
}

/// What a metadata bundle holds, as mathematical values.
pub struct MetadataView {
    pub track_id: Seq<char>,
    pub title: Seq<char>,
    pub artist: Seq<char>,
    pub album: Seq<char>,
    pub album_artist: Option<Seq<char>>,
    pub length: i64,
    pub art_url: Seq<char>,
    pub track_number: i32,
    pub use_count: i32,
    pub genres: Seq<Seq<char>>,
}

impl View for Metadata {
    type V = MetadataView;

    open spec fn view(&self) -> MetadataView {
        MetadataView {
            track_id: self.track_id@,
            title: self.title@,
            artist: self.artist@,
            album: self.album@,
            album_artist: opt_text(self.album_artist),
            length: self.length,
            art_url: self.art_url@,
            track_number: self.track_number,
            use_count: self.use_count,
            genres: texts(self.genres@),
        }
    }
}

impl Clone for Metadata {
    fn clone(&self) -> (res: Self)
        ensures
            res@ == self@,
    {
        Metadata {
            track_id: self.track_id.clone(),
            title: self.title.clone(),
            artist: self.artist.clone(),
            album: self.album.clone(),
            album_artist: clone_opt_text(&self.album_artist),
            length: self.length,
            art_url: self.art_url.clone(),
            track_number: self.track_number,
            use_count: self.use_count,
            genres: clone_texts(&self.genres),
        }
    }
}

/// View of an optional metadata bundle.
pub open spec fn metadata_view(m: Option<Metadata>) -> Option<MetadataView> {
    match m {
        Some(x) => Some(x@),
        None => None,
    }
}

/// The bus path under which every track of this player is published.
pub open spec fn track_path_prefix() -> Seq<char> {
    "/org/mpris/MediaPlayer2/Sonicrust/Track/"@
}

/// The metadata that describes a track: its texts and length as they are, its
/// identifier under the player's bus path, an empty art location where it has
/// no cover art, and zero where a count is unknown.
pub open spec fn metadata_of(t: TrackView) -> MetadataView {
    MetadataView {
        track_id: track_path_prefix() + t.id,
        title: t.title,
        artist: t.artist,
        album: t.album,
        album_artist: t.album_artist,
        length: t.duration,
        art_url: match t.cover_art {
            Some(u) => u,
            None => Seq::empty(),
        },
        track_number: match t.track_number {
            Some(n) => n,
            None => 0i32,
        },
        use_count: match t.play_count {
            Some(n) => n,
            None => 0i32,
        },
        genres: t.genres,
    }
}

/// Describes a track to the protocol.
pub fn track_to_metadata(track: &Track) -> (m: Metadata)
    ensures
        m@ == metadata_of(track@),
{
    let mut track_id = String::from_str("/org/mpris/MediaPlayer2/Sonicrust/Track/");
    track_id.append(track.id.as_str());
    let art_url = match &track.cover_art {
        Some(url) => url.clone(),
        None => String::new(),
    };
    let track_number: i32 = match track.track_number {
        Some(n) => n,
        None => 0,
    };
    let use_count: i32 = match track.play_count {
        Some(n) => n,
        None => 0,
    };
    Metadata {
        track_id,
        title: track.title.clone(),
        artist: track.artist.clone(),
        album: track.album.clone(),
        album_artist: clone_opt_text(&track.album_artist),
        length: track.duration,
        art_url,
        track_number,
        use_count,
        genres: clone_texts(&track.genres),
    }
}

/// The whole seconds in a signed span of microseconds, rounded toward zero.
pub open spec fn whole_seconds(micros: int) -> int {
    if micros >= 0 {
        micros / (MICROS_PER_SECOND as int)
    } else {
        -((-micros) / (MICROS_PER_SECOND as int))
    }
}

/// The command for the protocol's relative seek by `offset` microseconds:
/// a relative seek by its whole seconds.
pub fn seek(offset: i64) -> (c: PlayerCommand)
    ensures
        c == PlayerCommand::SeekRelative(whole_seconds(offset as int) as i64),
{
    let secs: i64 = if offset >= 0 {
        offset / 1_000_000
    } else if offset == i64::MIN {
        -9_223_372_036_854i64
    } else {
        -((-offset) / 1_000_000)
    };
    PlayerCommand::SeekRelative(secs)
}

/// The command for the protocol's request to go to `position` microseconds:
/// an absolute seek to its whole seconds. A negative position asks for
/// nothing.
pub fn set_position(position: i64) -> (c: Option<PlayerCommand>)
    ensures
        position < 0 ==> c.is_none(),
        position >= 0 ==> c == Some(
            PlayerCommand::SeekAbsolute((position as int / (MICROS_PER_SECOND as int)) as u64),
        ),
{
    if position < 0 {
        None
    } else {
        Some(PlayerCommand::SeekAbsolute((position / 1_000_000) as u64))
    }
}

/// What the protocol reads of the snapshot: the playback status.
pub fn playback_status(state: &PlayerState) -> (s: PlaybackStatus)
    ensures
        s == state.status,
{
    state.status
}

} // verus!
