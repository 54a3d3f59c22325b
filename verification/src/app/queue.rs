//! What an explicit play or enqueue action chooses: an entry of the queue as
//! it stands, a new queue made of what the library list shows, or songs that
//! the host has to fetch first.

use vstd::prelude::*;
use crate::app::navigation::{ListTab, TabView};
use crate::app::playback::{Notice, notices_view, synced, with_current};
use crate::app::{
    ActiveSection, ActiveTab, App, AppError, AppView, Track, TrackView, clone_tracks,
    track_tab_view, track_views,
};

verus! {

/// Songs that the host has to fetch from the remote catalog. Each names an
/// entry of the list that it comes from.
#[derive(Debug, Clone, Copy, PartialEq, Eq, Structural)]
pub enum Fetch {
    /// The songs of every album of `artist_tab.data[index]`.
    Artist { index: usize },
    /// The songs of `album_tab.data[index]`.
    Album { index: usize },
    /// The songs of `playlist_tab.data[index]`.
    Playlist { index: usize },
}

/// What a play action chose.
#[derive(Debug)]
pub enum Selection {
    /// The entry `index` of the queue as it stands.
    Queue { index: usize },
    /// A new queue, and the entry of it to start with.
    Replace { tracks: Vec<Track>, index: usize },
    /// Songs to fetch; what comes back is handed to `play_fetched`.
    Fetch(Fetch),
    /// Nothing can be played: playback stops.
    Nothing,
}

/// What a play action chose, as mathematical values.
pub enum SelectionView {
    Queue { index: usize },
    Replace { tracks: Seq<TrackView>, index: usize },
    Fetch(Fetch),
    Nothing,
}

impl View for Selection {
    type V = SelectionView;

    open spec fn view(&self) -> SelectionView {
        match *self {
            Selection::Queue { index } => SelectionView::Queue { index },
            Selection::Replace { tracks, index } => SelectionView::Replace {
                tracks: track_views(tracks@),
                index,
            },
            Selection::Fetch(f) => SelectionView::Fetch(f),
            Selection::Nothing => SelectionView::Nothing,
        }
    }
}

/// The item under the cursor of a list, if the cursor is on one.
pub open spec fn cursor_item<V>(t: TabView<V>) -> Option<V> {
    if t.index < t.data.len() {
        Some(t.data[t.index as int])
    } else {
        None
    }
}

/// A new queue of the one track under the cursor of a list.
pub open spec fn single_selection(t: TabView<TrackView>) -> SelectionView {
    match cursor_item(t) {
        Some(x) => SelectionView::Replace { tracks: seq![x], index: 0 },
        None => SelectionView::Nothing,
    }
}

/// What the library list that is shown has to fetch for the item under its
/// cursor; `None` for the lists of tracks and where the cursor is on no item.
pub open spec fn fetch_for(a: AppView) -> Option<Fetch> {
    match a.active_tab {
        ActiveTab::Artists => if a.artists.index < a.artists.data.len() {
            Some(Fetch::Artist { index: a.artists.index })
        } else {
            None
        },
        ActiveTab::Albums => if a.albums.index < a.albums.data.len() {
            Some(Fetch::Album { index: a.albums.index })
        } else {
            None
        },
        ActiveTab::Playlist => if a.playlists.index < a.playlists.data.len() {
            Some(Fetch::Playlist { index: a.playlists.index })
        } else {
            None
        },
        _ => None,
    }
}

/// What playing the selection means. With the keys on the queue it is the
/// queue entry `songindex`. With the keys on the library it depends on the
/// list shown: the search results become the queue, started at the result
/// under the cursor; a song or a favorite becomes a queue of one; an artist,
/// an album or a playlist has its songs fetched. Where the cursor is on no
/// item, nothing is chosen.
pub open spec fn selected_play(a: AppView, songindex: usize) -> SelectionView {
    match a.active_section {
        ActiveSection::Queue => if songindex < a.queue.data.len() {
            SelectionView::Queue { index: songindex }
        } else {
            SelectionView::Nothing
        },
        ActiveSection::Others => match a.active_tab {
            ActiveTab::Search => if a.search.index < a.search.data.len() {
                SelectionView::Replace { tracks: a.search.data, index: a.search.index }
            } else {
                SelectionView::Nothing
            },
            ActiveTab::Favorites => single_selection(a.favorites),
            ActiveTab::Songs => single_selection(a.tracks),
            _ => match fetch_for(a) {
                Some(f) => SelectionView::Fetch(f),
                None => SelectionView::Nothing,
            },
        },
    }
}

/// The cursor of the list that the keys act on.
pub open spec fn selected_index(a: AppView) -> usize {
    match a.active_section {
        ActiveSection::Queue => a.queue.index,
        ActiveSection::Others => match a.active_tab {
            ActiveTab::Songs => a.tracks.index,
            ActiveTab::Artists => a.artists.index,
            ActiveTab::Albums => a.albums.index,
            ActiveTab::Playlist => a.playlists.index,
            ActiveTab::Favorites => a.favorites.index,
            ActiveTab::Search => a.search.index,
        },
    }
}

/// The state after `tracks` became the queue and its entry `index` was
/// started at backend position `position`: the queue's cursor and the playing
/// index stand on that entry.
pub open spec fn started_queue(
    a: AppView,
    tracks: Seq<TrackView>,
    index: usize,
    position: i64,
) -> AppView {
    synced(
        with_current(
            AppView { queue: TabView { data: tracks, index, selected: a.queue.selected }, ..a },
            index,
        ),
        position,
    )
}

/// The state after `songs` were appended to the queue.
pub open spec fn enqueued(a: AppView, songs: Seq<TrackView>) -> AppView {
    AppView { queue: TabView { data: a.queue.data + songs, ..a.queue }, ..a }
}

/// The tracks that an enqueue action adds at once: the track under the cursor
/// of the list of tracks that is shown. Nothing with the keys on the queue, on
/// a list whose songs have to be fetched, or with the cursor on no item.
pub open spec fn enqueue_now(a: AppView) -> Seq<TrackView> {
    let item = match a.active_section {
        ActiveSection::Queue => None,
        ActiveSection::Others => match a.active_tab {
            ActiveTab::Songs => cursor_item(a.tracks),
            ActiveTab::Search => cursor_item(a.search),
            ActiveTab::Favorites => cursor_item(a.favorites),
            _ => None,
        },
    };
    match item {
        Some(t) => seq![t],
        None => Seq::empty(),
    }
}

/// What an enqueue action has to fetch: with the keys on the library, what the
/// list shown needs for the item under its cursor.
pub open spec fn enqueue_fetch(a: AppView) -> Option<Fetch> {
    match a.active_section {
        ActiveSection::Queue => None,
        ActiveSection::Others => fetch_for(a),
    }
}

/// A queue of the one track under the cursor of `tab`.
fn single(tab: &ListTab<Track>) -> (r: Selection)
    ensures
        r@ == single_selection(track_tab_view(*tab)),
{
    if tab.index < tab.data.len() {
        let mut tracks: Vec<Track> = Vec::new();
        tracks.push(tab.data[tab.index].clone());
        assert(track_views(tracks@) =~= seq![tab.data@[tab.index as int]@]);
        Selection::Replace { tracks, index: 0 }
    } else {
        Selection::Nothing
    }
}

impl App {
    /// The cursor of the list that the keys act on.
    pub fn find_selected(&self) -> (r: usize)
        ensures
            r == selected_index(self@),
    {
        match self.active_section {
            ActiveSection::Queue => self.queue_tab.index,
            ActiveSection::Others => match self.active_tab {
                ActiveTab::Songs => self.tracks_tab.index,
                ActiveTab::Artists => self.artist_tab.index,
                ActiveTab::Albums => self.album_tab.index,
                ActiveTab::Playlist => self.playlist_tab.index,
                ActiveTab::Favorites => self.favorite_tab.index,
                ActiveTab::Search => self.search_tab.index,
            },
        }
    }

    /// What the library list that is shown has to fetch for the item under
    /// its cursor.
    pub fn fetch_for_tab(&self) -> (r: Option<Fetch>)
        ensures
            r == fetch_for(self@),
    {
        match self.active_tab {
            ActiveTab::Artists => if self.artist_tab.index < self.artist_tab.data.len() {
                Some(Fetch::Artist { index: self.artist_tab.index })
            } else {
                None
            },
            ActiveTab::Albums => if self.album_tab.index < self.album_tab.data.len() {
                Some(Fetch::Album { index: self.album_tab.index })
            } else {
                None
            },
            ActiveTab::Playlist => if self.playlist_tab.index < self.playlist_tab.data.len() {
                Some(Fetch::Playlist { index: self.playlist_tab.index })
            } else {
                None
            },
            _ => None,
        }
    }

    /// Chooses what the play key plays with the keys on the queue: the queue
    /// entry `songindex`, if there is one.
    pub fn play_selected_section(&self, songindex: usize) -> (r: Selection)
        ensures
            r@ == if songindex < self@.queue.data.len() {
                SelectionView::Queue { index: songindex }
            } else {
                SelectionView::Nothing
            },
    {
        if songindex < self.queue_tab.data.len() {
            Selection::Queue { index: songindex }
        } else {
            Selection::Nothing
        }
    }

    /// Chooses what the play key plays. The state does not change: a queue
    /// entry is started through `complete`, a new queue through `start_queue`,
    /// fetched songs go through `play_fetched`, and where nothing was chosen
    /// the host performs a `Stop`.
    pub fn play_selected(&self, songindex: usize) -> (r: Selection)
        ensures
            r@ == selected_play(self@, songindex),
    {
        match self.active_section {
            ActiveSection::Queue => self.play_selected_section(songindex),
            ActiveSection::Others => match self.active_tab {
                ActiveTab::Search => self.play_search_results(),
                ActiveTab::Favorites => single(&self.favorite_tab),
                ActiveTab::Songs => single(&self.tracks_tab),
                _ => match self.fetch_for_tab() {
                    Some(f) => Selection::Fetch(f),
                    None => Selection::Nothing,
                },
            },
        }
    }

    /// The search results as the new queue, started at the result under the
    /// cursor.
    fn play_search_results(&self) -> (r: Selection)
        ensures
            r@ == if self@.search.index < self@.search.data.len() {
                SelectionView::Replace { tracks: self@.search.data, index: self@.search.index }
            } else {
                SelectionView::Nothing
            },
    {
        if self.search_tab.index < self.search_tab.data.len() {
            Selection::Replace {
                tracks: clone_tracks(&self.search_tab.data),
                index: self.search_tab.index,
            }
        } else {
            Selection::Nothing
        }
    }

    /// Chooses what the play key of the search line plays: a queue of the one
    /// result under the cursor.
    pub fn play_search_result(&self) -> (r: Selection)
        ensures
            r@ == single_selection(self@.search),
    {
        single(&self.search_tab)
    }

    /// Chooses what is played of songs that were fetched: all of them as the
    /// new queue, from the first; nothing if none came.
    pub fn play_fetched(songs: Vec<Track>) -> (r: Selection)
        ensures
            r@ == if songs@.len() > 0 {
                SelectionView::Replace { tracks: track_views(songs@), index: 0 }
            } else {
                SelectionView::Nothing
            },
    {
        if songs.len() > 0 {
            Selection::Replace { tracks: songs, index: 0 }
        } else {
            Selection::Nothing
        }
    }

    /// Records that the host loaded and started entry `index` of `tracks`:
    /// `tracks` becomes the queue and the entry the current track. A failed
    /// start is not recorded at all, so that the queue is replaced only
    /// together with what plays. An `index` that names no track changes
    /// nothing.
    pub fn start_queue(&mut self, tracks: Vec<Track>, index: usize, position: i64) -> (r: Result<
        Vec<Notice>,
        AppError,
    >)
        ensures
            index < tracks@.len() ==> final(self)@ == started_queue(
                old(self)@,
                track_views(tracks@),
                index,
                position,
            ) && notices_view(r) == Ok::<Seq<Notice>, AppError>(
                seq![Notice::PropertiesChanged, Notice::NowPlaying],
            ),
            index >= tracks@.len() ==> final(self)@ == old(self)@ && r == Err::<
                Vec<Notice>,
                AppError,
            >(AppError::NoTrackLoaded),
    {
        if index >= tracks.len() {
            return Err(AppError::NoTrackLoaded);
        }
        self.queue_tab.data = tracks;
        self.queue_tab.index = index;
        self.start_playback(index, position);
        let mut notices: Vec<Notice> = Vec::new();
        notices.push(Notice::PropertiesChanged);
        notices.push(Notice::NowPlaying);
        assert(notices@ =~= seq![Notice::PropertiesChanged, Notice::NowPlaying]);
        Ok(notices)
    }

    /// Appends songs to the queue.
    pub fn enqueue(&mut self, songs: Vec<Track>)
        ensures
            final(self)@ == enqueued(old(self)@, track_views(songs@)),
    {
        let ghost added = songs@;
        let mut songs = songs;
        self.queue_tab.data.append(&mut songs);
        assert(track_views(self.queue_tab.data@) =~= track_views(old(self).queue_tab.data@)
            + track_views(added));
    }

    /// Appends the search result under the cursor to the queue, if the cursor
    /// is on one.
    pub fn add_search_result_to_queue(&mut self)
        ensures
            final(self)@ == enqueued(
                old(self)@,
                match cursor_item(old(self)@.search) {
                    Some(t) => seq![t],
                    None => Seq::empty(),
                },
            ),
    {
        if self.search_tab.index < self.search_tab.data.len() {
            let track = self.search_tab.data[self.search_tab.index].clone();
            self.queue_tab.data.push(track);
            assert(track_views(self.queue_tab.data@) =~= track_views(old(self).queue_tab.data@)
                + seq![old(self).search_tab.data@[old(self).search_tab.index as int]@]);
        } else {
            assert(track_views(self.queue_tab.data@) =~= track_views(old(self).queue_tab.data@)
                + Seq::<TrackView>::empty());
        }
    }

    /// Appends every search result to the queue.
    pub fn add_all_search_result_to_queue(&mut self)
        ensures
            final(self)@ == enqueued(old(self)@, old(self)@.search.data),
    {
        let songs = clone_tracks(&self.search_tab.data);
        self.enqueue(songs);
    }

    /// The enqueue key: appends the track under the cursor of a list of
    /// tracks at once, and returns what has to be fetched for an artist, an
    /// album or a playlist; the fetched songs are appended with `enqueue`.
    pub fn add_to_queue(&mut self) -> (r: Option<Fetch>)
        ensures
            final(self)@ == enqueued(old(self)@, enqueue_now(old(self)@)),
            r == enqueue_fetch(old(self)@),
    {
        let mut songs: Vec<Track> = Vec::new();
        let mut fetch: Option<Fetch> = None;
        match self.active_section {
            ActiveSection::Queue => {},
            ActiveSection::Others => match self.active_tab {
                ActiveTab::Songs => {
                    if self.tracks_tab.index < self.tracks_tab.data.len() {
                        songs.push(self.tracks_tab.data[self.tracks_tab.index].clone());
                    }
                },
                ActiveTab::Search => {
                    if self.search_tab.index < self.search_tab.data.len() {
                        songs.push(self.search_tab.data[self.search_tab.index].clone());
                    }
                },
                ActiveTab::Favorites => {
                    if self.favorite_tab.index < self.favorite_tab.data.len() {
                        songs.push(self.favorite_tab.data[self.favorite_tab.index].clone());
                    }
                },
                _ => {
                    fetch = self.fetch_for_tab();
                },
            },
        }
        assert(track_views(songs@) =~= enqueue_now(self@));
        self.enqueue(songs);
        fetch
    }
}

} // verus!
