//! Typing a query: the search line with its results, and the quick search that
//! moves the cursor of the list in view to the first item that matches.

use vstd::prelude::*;
use crate::app::navigation::{ListTab, TabView};
use crate::app::queue::{cursor_item, enqueued};
use crate::app::{
    ActiveSection, ActiveTab, Album, App, AppView, Artist, InputMode, Playlist, Track, TrackView,
    track_views,
};
use crate::config::SearchMode;
use crate::search::{
    SearchEngine, SearchResult, SearchResultView, fuzzy_results, result_views,
};
use crate::text::{contains, contains_text, lowercase, lowercased, pop_char, push_char};

verus! {

/// A key, as far as typing a query tells keys apart.
#[derive(Debug, Clone, Copy, PartialEq, Eq, Structural)]
pub enum Key {
    Esc,
    Enter,
    Backspace,
    /// A character, and whether the control key was held.
    Char { c: char, control: bool },
    Other,
}

/// What the host does after a key of the search line.
#[derive(Debug, Clone, Copy, PartialEq, Eq, Structural)]
pub enum SearchAction {
    Nothing,
    /// Play the result under the cursor, then leave the search line.
    PlayResult,
    /// Search now.
    Search,
    /// Search once the typing pauses.
    SearchLater,
}

/// The position of the first item that `p` holds of, if there is one.
pub open spec fn first_where<V>(items: Seq<V>, p: spec_fn(V) -> bool) -> Option<usize>
    decreases items.len(),
{
    if items.len() == 0 {
        None
    } else {
        match first_where(items.drop_last(), p) {
            Some(i) => Some(i),
            None => if p(items.last()) {
                Some((items.len() - 1) as usize)
            } else {
                None
            },
        }
    }
}

/// A list with cursor and highlight on the first item that `p` holds of; the
/// list as it is where there is none.
pub open spec fn jumped<V>(t: TabView<V>, p: spec_fn(V) -> bool) -> TabView<V> {
    match first_where(t.data, p) {
        Some(i) => TabView { index: i, selected: Some(i), ..t },
        None => t,
    }
}

/// Whether a track matches a query in lowercase: the query occurs in the
/// lowercase form of its title or of its artist.
pub open spec fn track_matches(t: TrackView, q: Seq<char>) -> bool {
    contains_text(lowercased(t.title), q) || contains_text(lowercased(t.artist), q)
}

/// Whether an artist matches a query in lowercase.
pub open spec fn artist_matches(x: Artist, q: Seq<char>) -> bool {
    contains_text(lowercased(x.name@), q)
}

/// Whether an album matches a query in lowercase.
pub open spec fn album_matches(x: Album, q: Seq<char>) -> bool {
    contains_text(lowercased(x.name@), q) || contains_text(lowercased(x.artist@), q)
}

/// Whether a playlist matches a query in lowercase.
pub open spec fn playlist_matches(x: Playlist, q: Seq<char>) -> bool {
    contains_text(lowercased(x.name@), q)
}

/// The state after the quick search moved the cursor: in the list that takes
/// the keys, to the first item that matches the query, whatever the case of
/// its letters. An empty query moves nothing, nor does the quick search move
/// in the search results.
pub open spec fn inline_jumped(a: AppView) -> AppView {
    if a.search_query.len() == 0 {
        a
    } else {
        let q = lowercased(a.search_query);
        match a.active_section {
            ActiveSection::Queue => AppView {
                queue: jumped(a.queue, |t: TrackView| track_matches(t, q)),
                ..a
            },
            ActiveSection::Others => match a.active_tab {
                ActiveTab::Songs => AppView {
                    tracks: jumped(a.tracks, |t: TrackView| track_matches(t, q)),
                    ..a
                },
                ActiveTab::Favorites => AppView {
                    favorites: jumped(a.favorites, |t: TrackView| track_matches(t, q)),
                    ..a
                },
                ActiveTab::Artists => AppView {
                    artists: jumped(a.artists, |x: Artist| artist_matches(x, q)),
                    ..a
                },
                ActiveTab::Albums => AppView {
                    albums: jumped(a.albums, |x: Album| album_matches(x, q)),
                    ..a
                },
                ActiveTab::Playlist => AppView {
                    playlists: jumped(a.playlists, |x: Playlist| playlist_matches(x, q)),
                    ..a
                },
                ActiveTab::Search => a,
            },
        }
    }
}

/// An empty list of search results with its cursor at the start.
pub open spec fn no_results() -> TabView<TrackView> {
    TabView { data: Seq::empty(), index: 0, selected: None }
}

/// The state after `results` became the search results: the cursor stands on
/// the first of them, which is highlighted if there is one, and the search is
/// over.
pub open spec fn search_shown(a: AppView, results: Seq<TrackView>) -> AppView {
    AppView {
        search: TabView {
            data: results,
            index: 0,
            selected: if results.len() > 0 {
                Some(0usize)
            } else {
                None
            },
        },
        is_searching: false,
        ..a
    }
}

/// The tracks of a list of results.
pub open spec fn tracks_of(results: Seq<SearchResultView>) -> Seq<TrackView> {
    Seq::new(results.len(), |i: int| results[i].track)
}

/// The state after a character was typed or removed in the mode `mode`.
pub open spec fn typed(a: AppView, mode: InputMode, query: Seq<char>) -> AppView {
    if a.input_mode == mode {
        AppView { search_query: query, ..a }
    } else {
        a
    }
}

/// A text without its last character; the empty text stays empty.
pub open spec fn without_last(s: Seq<char>) -> Seq<char> {
    if s.len() > 0 {
        s.drop_last()
    } else {
        s
    }
}

/// The state after a key of the search line.
pub open spec fn search_key_pressed(a: AppView, key: Key) -> AppView {
    match key {
        Key::Esc => AppView { input_mode: InputMode::Normal, ..a },
        Key::Enter => a,
        Key::Char { c, control } => if control && c == 'r' {
            AppView { search_query: Seq::empty(), search: no_results(), ..a }
        } else if control && c == 'a' {
            enqueued(
                a,
                match cursor_item(a.search) {
                    Some(t) => seq![t],
                    None => Seq::empty(),
                },
            )
        } else {
            searching(typed(a, InputMode::Search, a.search_query.push(c)))
        },
        Key::Backspace => searching(typed(a, InputMode::Search, without_last(a.search_query))),
        Key::Other => a,
    }
}

/// The state with a search under way, if a query is being typed.
pub open spec fn searching(a: AppView) -> AppView {
    if a.input_mode == InputMode::Search {
        AppView { is_searching: true, ..a }
    } else {
        a
    }
}

/// What the host does after a key of the search line: with `Enter` it plays
/// the result under the cursor if there is a query, and searches if there is
/// none; after a character was typed or removed it searches once the typing
/// pauses.
pub open spec fn search_key_action(a: AppView, key: Key) -> SearchAction {
    match key {
        Key::Enter => if a.search_query.len() > 0 {
            SearchAction::PlayResult
        } else {
            SearchAction::Search
        },
        Key::Char { c, control } => if control && (c == 'r' || c == 'a') {
            SearchAction::Nothing
        } else {
            SearchAction::SearchLater
        },
        Key::Backspace => SearchAction::SearchLater,
        _ => SearchAction::Nothing,
    }
}

/// The state after a key of the quick search.
pub open spec fn inline_key_pressed(a: AppView, key: Key) -> AppView {
    match key {
        Key::Esc | Key::Enter => AppView {
            input_mode: InputMode::Normal,
            search_query: Seq::empty(),
            ..a
        },
        Key::Backspace => if a.input_mode == InputMode::InlineSearch {
            inline_jumped(AppView { search_query: without_last(a.search_query), ..a })
        } else {
            a
        },
        Key::Char { c, control } => if a.input_mode == InputMode::InlineSearch {
            inline_jumped(AppView { search_query: a.search_query.push(c), ..a })
        } else {
            a
        },
        Key::Other => a,
    }
}

/// The position of the first track that matches a query in lowercase.
fn find_track(data: &Vec<Track>, q: &str) -> (r: Option<usize>)
    ensures
        r == first_where(track_views(data@), |t: TrackView| track_matches(t, q@)),
{
    let ghost views = track_views(data@);
    let ghost p = |t: TrackView| track_matches(t, q@);
    let mut found: Option<usize> = None;
    let mut i: usize = 0;
    assert(views.subrange(0, 0) =~= Seq::<TrackView>::empty());
    while i < data.len()
        invariant
            i <= data.len(),
            views == track_views(data@),
            p == (|t: TrackView| track_matches(t, q@)),
            found == first_where(views.subrange(0, i as int), p),
        decreases data.len() - i,
    {
        proof {
            let upto = views.subrange(0, i as int + 1);
            assert(upto.drop_last() =~= views.subrange(0, i as int));
            assert(upto.last() == data@[i as int]@);
        }
        if found.is_none() {
            let t = &data[i];
            if contains(lowercase(t.title.as_str()).as_str(), q) || contains(
                lowercase(t.artist.as_str()).as_str(),
                q,
            ) {
                found = Some(i);
            }
        }
        i += 1;
    }
    assert(views.subrange(0, data.len() as int) =~= views);
    found
}

/// The position of the first artist that matches a query in lowercase.
fn find_artist(data: &Vec<Artist>, q: &str) -> (r: Option<usize>)
    ensures
        r == first_where(data@, |x: Artist| artist_matches(x, q@)),
{
    let ghost p = |x: Artist| artist_matches(x, q@);
    let mut found: Option<usize> = None;
    let mut i: usize = 0;
    assert(data@.subrange(0, 0) =~= Seq::<Artist>::empty());
    while i < data.len()
        invariant
            i <= data.len(),
            p == (|x: Artist| artist_matches(x, q@)),
            found == first_where(data@.subrange(0, i as int), p),
        decreases data.len() - i,
    {
        proof {
            let upto = data@.subrange(0, i as int + 1);
            assert(upto.drop_last() =~= data@.subrange(0, i as int));
            assert(upto.last() == data@[i as int]);
        }
        if found.is_none() {
            if contains(lowercase(data[i].name.as_str()).as_str(), q) {
                found = Some(i);
            }
        }
        i += 1;
    }
    assert(data@.subrange(0, data.len() as int) =~= data@);
    found
}

/// The position of the first album that matches a query in lowercase.
fn find_album(data: &Vec<Album>, q: &str) -> (r: Option<usize>)
    ensures
        r == first_where(data@, |x: Album| album_matches(x, q@)),
{
    let ghost p = |x: Album| album_matches(x, q@);
    let mut found: Option<usize> = None;
    let mut i: usize = 0;
    assert(data@.subrange(0, 0) =~= Seq::<Album>::empty());
    while i < data.len()
        invariant
            i <= data.len(),
            p == (|x: Album| album_matches(x, q@)),
            found == first_where(data@.subrange(0, i as int), p),
        decreases data.len() - i,
    {
        proof {
            let upto = data@.subrange(0, i as int + 1);
            assert(upto.drop_last() =~= data@.subrange(0, i as int));
            assert(upto.last() == data@[i as int]);
        }
        if found.is_none() {
            if contains(lowercase(data[i].name.as_str()).as_str(), q) || contains(
                lowercase(data[i].artist.as_str()).as_str(),
                q,
            ) {
                found = Some(i);
            }
        }
        i += 1;
    }
    assert(data@.subrange(0, data.len() as int) =~= data@);
    found
}

/// The position of the first playlist that matches a query in lowercase.
fn find_playlist(data: &Vec<Playlist>, q: &str) -> (r: Option<usize>)
    ensures
        r == first_where(data@, |x: Playlist| playlist_matches(x, q@)),
{
    let ghost p = |x: Playlist| playlist_matches(x, q@);
    let mut found: Option<usize> = None;
    let mut i: usize = 0;
    assert(data@.subrange(0, 0) =~= Seq::<Playlist>::empty());
    while i < data.len()
        invariant
            i <= data.len(),
            p == (|x: Playlist| playlist_matches(x, q@)),
            found == first_where(data@.subrange(0, i as int), p),
        decreases data.len() - i,
    {
        proof {
            let upto = data@.subrange(0, i as int + 1);
            assert(upto.drop_last() =~= data@.subrange(0, i as int));
            assert(upto.last() == data@[i as int]);
        }
        if found.is_none() {
            if contains(lowercase(data[i].name.as_str()).as_str(), q) {
                found = Some(i);
            }
        }
        i += 1;
    }
    assert(data@.subrange(0, data.len() as int) =~= data@);
    found
}

/// The tracks of a list of results.
fn result_tracks(results: &Vec<SearchResult>) -> (tracks: Vec<Track>)
    ensures
        track_views(tracks@) == tracks_of(result_views(results@)),
{
    let mut tracks: Vec<Track> = Vec::new();
    let mut i: usize = 0;
    while i < results.len()
        invariant
            i <= results.len(),
            tracks.len() == i,
            forall|j: int| 0 <= j < i ==> tracks[j]@ == results[j]@.track,
        decreases results.len() - i,
    {
        tracks.push(results[i].track.clone());
        i += 1;
    }
    assert(track_views(tracks@) =~= tracks_of(result_views(results@)));
    tracks
}

impl<T> ListTab<T> {
    /// Moves cursor and highlight to `found`, if something was found.
    fn jump(&mut self, found: Option<usize>)
        ensures
            final(self).data == old(self).data,
            found matches Some(i) ==> final(self).index == i && final(self).selected == Some(i),
            found is None ==> final(self).index == old(self).index && final(self).selected == old(self).selected,
    {
        match found {
            Some(i) => self.select(i),
            None => {},
        }
    }
}

impl App {
    /// Begins a quick search with an empty query.
    pub fn start_inline_search(&mut self)
        ensures
            final(self)@ == (AppView {
                input_mode: InputMode::InlineSearch,
                search_query: Seq::empty(),
                ..old(self)@
            }),
    {
        self.input_mode = InputMode::InlineSearch;
        self.search_query = String::new();
    }

    /// Ends a quick search and forgets its query.
    pub fn exit_inline_search(&mut self)
        ensures
            final(self)@ == (AppView {
                input_mode: InputMode::Normal,
                search_query: Seq::empty(),
                ..old(self)@
            }),
    {
        self.input_mode = InputMode::Normal;
        self.search_query = String::new();
    }

    /// Adds a character to the query of the quick search and moves the
    /// cursor to the first match. Outside a quick search nothing happens.
    pub fn inline_search_input(&mut self, c: char)
        ensures
            final(self)@ == inline_key_pressed(old(self)@, Key::Char { c, control: false }),
    {
        match self.input_mode {
            InputMode::InlineSearch => {
                push_char(&mut self.search_query, c);
                self.jump_to_inline_match();
            },
            _ => {},
        }
    }

    /// Removes the last character of the query of the quick search and moves
    /// the cursor to the first match. Outside a quick search nothing happens.
    pub fn inline_search_backspace(&mut self)
        ensures
            final(self)@ == inline_key_pressed(old(self)@, Key::Backspace),
    {
        match self.input_mode {
            InputMode::InlineSearch => {
                let _ = pop_char(&mut self.search_query);
                self.jump_to_inline_match();
            },
            _ => {},
        }
    }

    /// Moves the cursor of the list that takes the keys to the first item
    /// that matches the query.
    pub fn jump_to_inline_match(&mut self)
        ensures
            final(self)@ == inline_jumped(old(self)@),
    {
        if self.search_query.as_str().is_empty() {
            return ;
        }
        let query = lowercase(self.search_query.as_str());
        match self.active_section {
            ActiveSection::Queue => {
                let found = find_track(&self.queue_tab.data, query.as_str());
                self.queue_tab.jump(found);
            },
            ActiveSection::Others => match self.active_tab {
                ActiveTab::Songs => {
                    let found = find_track(&self.tracks_tab.data, query.as_str());
                    self.tracks_tab.jump(found);
                },
                ActiveTab::Favorites => {
                    let found = find_track(&self.favorite_tab.data, query.as_str());
                    self.favorite_tab.jump(found);
                },
                ActiveTab::Artists => {
                    let found = find_artist(&self.artist_tab.data, query.as_str());
                    self.artist_tab.jump(found);
                },
                ActiveTab::Albums => {
                    let found = find_album(&self.album_tab.data, query.as_str());
                    self.album_tab.jump(found);
                },
                ActiveTab::Playlist => {
                    let found = find_playlist(&self.playlist_tab.data, query.as_str());
                    self.playlist_tab.jump(found);
                },
                ActiveTab::Search => {},
            },
        }
    }

    /// Takes a key of the quick search: `Esc` and `Enter` end it, the other
    /// keys edit its query.
    pub fn handle_inline_search_input(&mut self, key: Key)
        ensures
            final(self)@ == inline_key_pressed(old(self)@, key),
    {
        match key {
            Key::Esc | Key::Enter => self.exit_inline_search(),
            Key::Backspace => self.inline_search_backspace(),
            Key::Char { c, control } => {
                match self.input_mode {
                    InputMode::InlineSearch => {
                        push_char(&mut self.search_query, c);
                        self.jump_to_inline_match();
                    },
                    _ => {},
                }
            },
            Key::Other => {},
        }
    }

    /// Turns to the search line: the search results are shown, and query and
    /// results are emptied.
    pub fn enter_search_mode(&mut self)
        ensures
            final(self)@ == (AppView {
                input_mode: InputMode::Search,
                active_tab: ActiveTab::Search,
                search_query: Seq::empty(),
                search: no_results(),
                ..old(self)@
            }),
    {
        self.input_mode = InputMode::Search;
        self.active_tab = ActiveTab::Search;
        self.search_clear();
    }

    /// Leaves the search line; query and results stay.
    pub fn exit_search_mode(&mut self)
        ensures
            final(self)@ == (AppView { input_mode: InputMode::Normal, ..old(self)@ }),
    {
        self.input_mode = InputMode::Normal;
    }

    /// Adds a character to the query. Outside the search line nothing
    /// happens.
    pub fn search_input(&mut self, c: char)
        ensures
            final(self)@ == searching(
                typed(old(self)@, InputMode::Search, old(self)@.search_query.push(c)),
            ),
    {
        match self.input_mode {
            InputMode::Search => {
                push_char(&mut self.search_query, c);
                self.is_searching = true;
            },
            _ => {},
        }
    }

    /// Removes the last character of the query. Outside the search line
    /// nothing happens.
    pub fn search_backspace(&mut self)
        ensures
            final(self)@ == searching(
                typed(old(self)@, InputMode::Search, without_last(old(self)@.search_query)),
            ),
    {
        match self.input_mode {
            InputMode::Search => {
                let _ = pop_char(&mut self.search_query);
                self.is_searching = true;
            },
            _ => {},
        }
    }

    /// Empties query and results.
    pub fn search_clear(&mut self)
        ensures
            final(self)@ == (AppView {
                search_query: Seq::empty(),
                search: no_results(),
                ..old(self)@
            }),
    {
        self.search_query = String::new();
        self.search_tab.data = Vec::new();
        self.search_tab.index = 0;
        self.search_tab.selected = None;
        assert(track_views(self.search_tab.data@) =~= Seq::<TrackView>::empty());
    }

    /// Shows `results` as the search results.
    pub fn search_finished(&mut self, results: Vec<Track>)
        ensures
            final(self)@ == search_shown(old(self)@, track_views(results@)),
    {
        self.search_tab.selected = if results.len() > 0 {
            Some(0)
        } else {
            None
        };
        self.search_tab.data = results;
        self.search_tab.index = 0;
        self.is_searching = false;
    }

    /// Searches for the query. An empty query has no results. In the loaded
    /// tracks the search is made at once; for a search on the server the
    /// state stays as it is, `true` is returned, and the host hands what the
    /// server found to `search_finished`.
    pub fn perform_search(&mut self, engine: &SearchEngine, mode: SearchMode) -> (remote: bool)
        ensures
            old(self)@.search_query.len() == 0 ==> !remote && final(self)@ == search_shown(
                old(self)@,
                Seq::empty(),
            ),
            old(self)@.search_query.len() > 0 && mode == SearchMode::Local ==> !remote && final(self)@ == search_shown(
                old(self)@,
                tracks_of(
                    fuzzy_results(
                        old(self)@.tracks.data,
                        old(self)@.search_query,
                        engine.threshold,
                        engine.max_results,
                    ),
                ),
            ),
            old(self)@.search_query.len() > 0 && mode == SearchMode::Remote ==> remote && final(self)@ == old(self)@,
    {
        if self.search_query.as_str().is_empty() {
            let none: Vec<Track> = Vec::new();
            assert(track_views(none@) =~= Seq::<TrackView>::empty());
            self.search_finished(none);
            return false;
        }
        match mode {
            SearchMode::Local => {
                let results = self.perform_local_search(engine);
                self.search_finished(results);
                false
            },
            SearchMode::Remote => true,
        }
    }

    /// The tracks that a search in the loaded tracks finds for the query.
    pub fn perform_local_search(&self, engine: &SearchEngine) -> (tracks: Vec<Track>)
        ensures
            track_views(tracks@) == tracks_of(
                fuzzy_results(
                    self@.tracks.data,
                    self@.search_query,
                    engine.threshold,
                    engine.max_results,
                ),
            ),
    {
        let results = engine.search(self.search_query.as_str(), self.tracks_tab.data.as_slice());
        result_tracks(&results)
    }

    /// Takes a key of the search line and says what the host does next.
    pub fn handle_search_input(&mut self, key: Key) -> (action: SearchAction)
        ensures
            final(self)@ == search_key_pressed(old(self)@, key),
            action == search_key_action(old(self)@, key),
    {
        match key {
            Key::Esc => {
                self.exit_search_mode();
                SearchAction::Nothing
            },
            Key::Enter => {
                if !self.search_query.as_str().is_empty() {
                    SearchAction::PlayResult
                } else {
                    SearchAction::Search
                }
            },
            Key::Char { c, control } => {
                if control && c == 'r' {
                    self.search_clear();
                    SearchAction::Nothing
                } else if control && c == 'a' {
                    self.add_search_result_to_queue();
                    SearchAction::Nothing
                } else {
                    self.search_input(c);
                    SearchAction::SearchLater
                }
            },
            Key::Backspace => {
                self.search_backspace();
                SearchAction::SearchLater
            },
            Key::Other => SearchAction::Nothing,
        }
    }
}

} // verus!
