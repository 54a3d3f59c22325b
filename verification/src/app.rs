//! The data model of the player: tracks, catalog entries and the enumerations
//! that select what the player shows and how it repeats.

use vstd::prelude::*;
use crate::app::navigation::{ListTab, TabView};
use crate::app::tick::TickPhase;
use crate::text::{clone_opt_text, clone_texts, opt_text, texts};
use crate::player::{PlaybackStatus, PlayerState, PlayerStateView, VOLUME_MAX};

pub mod cover_art;
pub mod mpris;
pub mod navigation;
pub mod playback;
pub mod queue;
pub mod search;
pub mod tick;

verus! {

/// One playable item of the catalog. A track is a value: it is copied, never
/// changed in place.
#[derive(Debug)]
pub struct Track {
    pub id: String,
    pub title: String,
    pub artist: String,
    pub album_artist: Option<String>,
    pub album: String,
    pub cover_art: Option<String>,
    /// Length in microseconds.
    pub duration: i64,
    pub track_number: Option<i32>,
    pub play_count: Option<i32>,
    pub genres: Vec<String>,
}

/// What a track holds, as mathematical values.
pub struct TrackView {
    pub id: Seq<char>,
    pub title: Seq<char>,
    pub artist: Seq<char>,
    pub album_artist: Option<Seq<char>>,
    pub album: Seq<char>,
    pub cover_art: Option<Seq<char>>,
    pub duration: i64,
    pub track_number: Option<i32>,
    pub play_count: Option<i32>,
    pub genres: Seq<Seq<char>>,
}

impl View for Track {
    type V = TrackView;

    open spec fn view(&self) -> TrackView {
        TrackView {
            id: self.id@,
            title: self.title@,
            artist: self.artist@,
            album_artist: opt_text(self.album_artist),
            album: self.album@,
            cover_art: opt_text(self.cover_art),
            duration: self.duration,
            track_number: self.track_number,
            play_count: self.play_count,
            genres: texts(self.genres@),
        }
    }
}

impl Clone for Track {
    fn clone(&self) -> (res: Self)
        ensures
            res@ == self@,
    {
        Track {
            id: self.id.clone(),
            title: self.title.clone(),
            artist: self.artist.clone(),
            album_artist: clone_opt_text(&self.album_artist),
            album: self.album.clone(),
            cover_art: clone_opt_text(&self.cover_art),
            duration: self.duration,
            track_number: self.track_number,
            play_count: self.play_count,
            genres: clone_texts(&self.genres),
        }
    }
}

/// Views of a sequence of tracks.
pub open spec fn track_views(s: Seq<Track>) -> Seq<TrackView> {
    Seq::new(s.len(), |i: int| s[i]@)
}

/// Copies a list of tracks.
pub fn clone_tracks(v: &Vec<Track>) -> (r: Vec<Track>)
    ensures
        track_views(r@) == track_views(v@),
{
    let mut out: Vec<Track> = Vec::new();
    let mut i: usize = 0;
    while i < v.len()
        invariant
            i <= v.len(),
            out.len() == i,
            forall|j: int| 0 <= j < i ==> out[j]@ == v[j]@,
        decreases v.len() - i,
    {
        out.push(v[i].clone());
        i += 1;
    }
    assert(track_views(out@) =~= track_views(v@));
    out
}

/// An album of the catalog.
#[derive(Debug)]
pub struct Album {
    pub id: String,
    pub name: String,
    pub artist: String,
}

impl Clone for Album {
    fn clone(&self) -> (res: Self)
        ensures
            res == *self,
    {
        Album { id: self.id.clone(), name: self.name.clone(), artist: self.artist.clone() }
    }
}

/// An artist of the catalog.
#[derive(Debug)]
pub struct Artist {
    pub id: String,
    pub name: String,
    pub album_count: i32,
}

impl Clone for Artist {
    fn clone(&self) -> (res: Self)
        ensures
            res == *self,
    {
        Artist { id: self.id.clone(), name: self.name.clone(), album_count: self.album_count }
    }
}

/// A playlist of the catalog.
#[derive(Debug)]
pub struct Playlist {
    pub id: String,
    pub name: String,
    pub song_count: i32,
    /// Total length in seconds.
    pub duration: i64,
}

impl Clone for Playlist {
    fn clone(&self) -> (res: Self)
        ensures
            res == *self,
    {
        Playlist {
            id: self.id.clone(),
            name: self.name.clone(),
            song_count: self.song_count,
            duration: self.duration,
        }
    }
}

/// How key presses are read.
#[derive(Debug, Clone, Copy, PartialEq, Eq, Structural)]
pub enum InputMode {
    Normal,
    Search,
    InlineSearch,
}

/// The library list that is shown.
#[derive(Debug, Clone, Copy, PartialEq, Eq, Structural)]
pub enum ActiveTab {
    Songs,
    Artists,
    Albums,
    Playlist,
    Favorites,
    Search,
}

/// Which half of the screen takes the keys: the queue or the library.
#[derive(Debug, Clone, Copy, PartialEq, Eq, Structural)]
pub enum ActiveSection {
    Queue,
    Others,
}

/// What happens when a track ends.
#[derive(Debug, Clone, Copy, PartialEq, Eq, Structural)]
pub enum RepeatMode {
    Off,
    One,
    All,
}

/// Whether the queue is walked in its own order or in a shuffled one.
#[derive(Debug, Clone, Copy, PartialEq, Eq, Structural)]
pub enum ShuffleMode {
    Off,
    On,
}

/// Direction of one volume step.
#[derive(Debug, Clone, Copy, PartialEq, Eq, Structural)]
pub enum VolumeDirection {
    Up,
    Down,
}

/// The expected failures that the user's input can cause.
#[derive(Debug, Clone, Copy, PartialEq, Eq, Structural)]
pub enum AppError {
    /// Nothing is loaded in the audio backend.
    NoTrackLoaded,
    /// The queue holds no track.
    EmptyQueue,
    /// The audio backend could not load or start the track.
    Backend,
}

/// A message shown to the user for a while.
#[derive(Debug)]
pub struct WidgetNotification {
    pub message: String,
    /// How long it has been shown, in milliseconds.
    pub age_ms: u64,
    /// How long it is to be shown, in milliseconds.
    pub duration_ms: u64,
}

/// A shown message, as mathematical values.
pub struct WidgetNotificationView {
    pub message: Seq<char>,
    pub age_ms: u64,
    pub duration_ms: u64,
}

/// View of the message that is shown, if any.
pub open spec fn notification_view(n: Option<WidgetNotification>) -> Option<
    WidgetNotificationView,
> {
    match n {
        Some(w) => Some(
            WidgetNotificationView {
                message: w.message@,
                age_ms: w.age_ms,
                duration_ms: w.duration_ms,
            },
        ),
        None => None,
    }
}

/// View of the track that is loaded, if any.
pub open spec fn opt_track_view(t: Option<Track>) -> Option<TrackView> {
    match t {
        Some(x) => Some(x@),
        None => None,
    }
}

/// View of a list of tracks with its cursor.
pub open spec fn track_tab_view(t: ListTab<Track>) -> TabView<TrackView> {
    TabView { data: track_views(t.data@), index: t.index, selected: t.selected }
}

/// The player's state: the queue and what of it is audible, the catalog as far
/// as it has been loaded, the snapshot published to observers, and what the
/// screen shows. One owner changes it, one step at a time.
#[derive(Debug)]
pub struct App {
    /// The queue; its cursor is the queue selection.
    pub queue_tab: ListTab<Track>,
    pub tracks_tab: ListTab<Track>,
    pub artist_tab: ListTab<Artist>,
    pub album_tab: ListTab<Album>,
    pub playlist_tab: ListTab<Playlist>,
    pub favorite_tab: ListTab<Track>,
    pub search_tab: ListTab<Track>,
    pub is_playing: bool,
    /// The track loaded in the audio backend.
    pub current_track: Option<Track>,
    /// In millionths of full volume.
    pub current_volume: i64,
    /// Position in the queue of the loaded track.
    pub playing_index: usize,
    /// The snapshot as last committed.
    pub shared_state: PlayerState,
    pub active_tab: ActiveTab,
    pub active_section: ActiveSection,
    pub input_mode: InputMode,
    pub search_query: String,
    pub is_searching: bool,
    pub on_repeat: RepeatMode,
    pub shuffle_mode: ShuffleMode,
    /// The order in which a shuffled queue is walked: positions in the queue.
    pub shuffle_order: Vec<usize>,
    /// Position in `shuffle_order` of the loaded track.
    pub shuffle_pos: usize,
    pub widget_notification: Option<WidgetNotification>,
    /// A background load of the library is in flight.
    pub library_loading: bool,
    /// Why the last background load stopped, if it failed.
    pub library_error: Option<String>,
    /// Where the tick that is in progress stands.
    pub tick: TickPhase,
    /// The time since the tick before, in milliseconds.
    pub tick_elapsed_ms: u64,
}

/// The player's state, as mathematical values.
pub struct AppView {
    pub queue: TabView<TrackView>,
    pub tracks: TabView<TrackView>,
    pub artists: TabView<Artist>,
    pub albums: TabView<Album>,
    pub playlists: TabView<Playlist>,
    pub favorites: TabView<TrackView>,
    pub search: TabView<TrackView>,
    pub is_playing: bool,
    pub current_track: Option<TrackView>,
    pub current_volume: i64,
    pub playing_index: usize,
    pub shared: PlayerStateView,
    pub active_tab: ActiveTab,
    pub active_section: ActiveSection,
    pub input_mode: InputMode,
    pub search_query: Seq<char>,
    pub is_searching: bool,
    pub on_repeat: RepeatMode,
    pub shuffle_mode: ShuffleMode,
    pub shuffle_order: Seq<usize>,
    pub shuffle_pos: usize,
    pub notification: Option<WidgetNotificationView>,
    pub library_loading: bool,
    pub library_error: Option<Seq<char>>,
    pub tick: TickPhase,
    pub tick_elapsed_ms: u64,
}

impl View for App {
    type V = AppView;

    open spec fn view(&self) -> AppView {
        AppView {
            queue: track_tab_view(self.queue_tab),
            tracks: track_tab_view(self.tracks_tab),
            artists: self.artist_tab.plain(),
            albums: self.album_tab.plain(),
            playlists: self.playlist_tab.plain(),
            favorites: track_tab_view(self.favorite_tab),
            search: track_tab_view(self.search_tab),
            is_playing: self.is_playing,
            current_track: opt_track_view(self.current_track),
            current_volume: self.current_volume,
            playing_index: self.playing_index,
            shared: self.shared_state@,
            active_tab: self.active_tab,
            active_section: self.active_section,
            input_mode: self.input_mode,
            search_query: self.search_query@,
            is_searching: self.is_searching,
            on_repeat: self.on_repeat,
            shuffle_mode: self.shuffle_mode,
            shuffle_order: self.shuffle_order@,
            shuffle_pos: self.shuffle_pos,
            notification: notification_view(self.widget_notification),
            library_loading: self.library_loading,
            library_error: opt_text(self.library_error),
            tick: self.tick,
            tick_elapsed_ms: self.tick_elapsed_ms,
        }
    }
}

impl App {
    /// The state of a player that was just started: empty lists, nothing
    /// loaded, full volume, the songs shown and the keys on the queue.
    pub fn new() -> (app: App)
        ensures
            app@.queue == (TabView::<TrackView> { data: Seq::empty(), index: 0, selected: None }),
            app@.tracks == app@.queue,
            app@.favorites == app@.queue,
            app@.search == app@.queue,
            app@.artists == (TabView::<Artist> { data: Seq::empty(), index: 0, selected: None }),
            app@.albums == (TabView::<Album> { data: Seq::empty(), index: 0, selected: None }),
            app@.playlists == (TabView::<Playlist> {
                data: Seq::empty(),
                index: 0,
                selected: None,
            }),
            !app@.is_playing,
            app@.current_track is None,
            app@.current_volume == VOLUME_MAX,
            app@.playing_index == 0,
            app@.shared == (PlayerStateView {
                status: PlaybackStatus::Stopped,
                metadata: None,
                volume: VOLUME_MAX,
                can_go_next: false,
                can_go_previous: false,
                position: 0,
            }),
            app@.active_tab == ActiveTab::Songs,
            app@.active_section == ActiveSection::Queue,
            app@.input_mode == InputMode::Normal,
            app@.search_query == Seq::<char>::empty(),
            !app@.is_searching,
            app@.on_repeat == RepeatMode::Off,
            app@.shuffle_mode == ShuffleMode::Off,
            app@.shuffle_order == Seq::<usize>::empty(),
            app@.shuffle_pos == 0,
            app@.notification is None,
            !app@.library_loading,
            app@.library_error is None,
            app@.tick == TickPhase::Idle,
            app@.tick_elapsed_ms == 0,
    {
        let app = App {
            queue_tab: ListTab::new(),
            tracks_tab: ListTab::new(),
            artist_tab: ListTab::new(),
            album_tab: ListTab::new(),
            playlist_tab: ListTab::new(),
            favorite_tab: ListTab::new(),
            search_tab: ListTab::new(),
            is_playing: false,
            current_track: None,
            current_volume: VOLUME_MAX,
            playing_index: 0,
            shared_state: PlayerState::new(),
            active_tab: ActiveTab::Songs,
            active_section: ActiveSection::Queue,
            input_mode: InputMode::Normal,
            search_query: String::new(),
            is_searching: false,
            on_repeat: RepeatMode::Off,
            shuffle_mode: ShuffleMode::Off,
            shuffle_order: Vec::new(),
            shuffle_pos: 0,
            widget_notification: None,
            library_loading: false,
            library_error: None,
            tick: TickPhase::Idle,
            tick_elapsed_ms: 0,
        };
        assert(track_views(app.queue_tab.data@) =~= Seq::<TrackView>::empty());
        assert(track_views(app.tracks_tab.data@) =~= Seq::<TrackView>::empty());
        assert(track_views(app.favorite_tab.data@) =~= Seq::<TrackView>::empty());
        assert(track_views(app.search_tab.data@) =~= Seq::<TrackView>::empty());
        assert(app.artist_tab.data@ =~= Seq::<Artist>::empty());
        assert(app.album_tab.data@ =~= Seq::<Album>::empty());
        assert(app.playlist_tab.data@ =~= Seq::<Playlist>::empty());
        assert(app.shuffle_order@ =~= Seq::<usize>::empty());
        app
    }
}

} // verus!
