//! Moving through the lists: a list with its cursor, stepping with wrap-around,
//! and the choice of the list that the keys act on.

use vstd::prelude::*;
use vstd::arithmetic::div_mod::{lemma_add_mod_noop, lemma_mod_add_multiples_vanish, lemma_mod_bound, lemma_small_mod};
use crate::app::{ActiveSection, ActiveTab, App, AppView, InputMode};

verus! {

/// A list with a cursor. `index` is where the cursor stands; `selected` is what
/// the screen highlights, and is `None` while the list is not in use.
#[derive(Debug)]
pub struct ListTab<T> {
    pub data: Vec<T>,
    pub index: usize,
    pub selected: Option<usize>,
}

/// A list and its cursor, as mathematical values.
pub struct TabView<V> {
    pub data: Seq<V>,
    pub index: usize,
    pub selected: Option<usize>,
}

/// Where a step forward from `selected` lands in a list of `len > 0` items:
/// on the first item when nothing was highlighted, else one further, and from
/// the last item back to the first.
pub open spec fn step_forward(len: int, selected: Option<usize>) -> int {
    match selected {
        Some(s) => (s + 1) % len,
        None => 0,
    }
}

/// Where a step backward from `selected` lands in a list of `len > 0` items:
/// on the last item when nothing was highlighted or the first was, else one
/// before.
pub open spec fn step_backward(len: int, selected: Option<usize>) -> int {
    match selected {
        Some(s) => if s == 0 {
            len - 1
        } else {
            s - 1
        },
        None => len - 1,
    }
}

/// The cursor and highlight after one step in a list of `len` items. An empty
/// list loses its highlight and keeps its cursor.
pub open spec fn stepped<V>(t: TabView<V>, forward: bool) -> TabView<V> {
    let len = t.data.len() as int;
    if len > 0 {
        let i = if forward {
            step_forward(len, t.selected)
        } else {
            step_backward(len, t.selected)
        };
        TabView { data: t.data, index: i as usize, selected: Some(i as usize) }
    } else {
        TabView { data: t.data, index: t.index, selected: None }
    }
}

impl<T> ListTab<T> {
    /// The list as it is, without a view of its items.
    pub open spec fn plain(&self) -> TabView<T> {
        TabView { data: self.data@, index: self.index, selected: self.selected }
    }

    /// An empty list with its cursor at the start and nothing highlighted.
    pub fn new() -> (t: Self)
        ensures
            t.data@.len() == 0,
            t.index == 0,
            t.selected.is_none(),
    {
        ListTab { data: Vec::new(), index: 0, selected: None }
    }

    /// The number of items.
    pub fn len(&self) -> (n: usize)
        ensures
            n == self.data@.len(),
    {
        self.data.len()
    }

    /// Puts cursor and highlight on item `i`.
    pub fn select(&mut self, i: usize)
        ensures
            final(self).data == old(self).data,
            final(self).index == i,
            final(self).selected == Some(i),
    {
        self.index = i;
        self.selected = Some(i);
    }

    /// Highlights the item under the cursor.
    pub fn current(&mut self)
        ensures
            final(self).data == old(self).data,
            final(self).index == old(self).index,
            final(self).selected == Some(old(self).index),
    {
        self.selected = Some(self.index);
    }

    /// Removes the highlight; the items and the cursor stay.
    pub fn clear(&mut self)
        ensures
            final(self).data == old(self).data,
            final(self).index == old(self).index,
            final(self).selected.is_none(),
    {
        self.selected = None;
    }

    /// The item under the cursor, if the cursor is on one.
    pub fn get(&self) -> (r: Option<&T>)
        ensures
            self.index < self.data@.len() ==> r == Some(&self.data@[self.index as int]),
            self.index >= self.data@.len() ==> r.is_none(),
    {
        if self.index < self.data.len() {
            Some(&self.data[self.index])
        } else {
            None
        }
    }

    /// Moves cursor and highlight one item forward or backward, wrapping at
    /// the ends.
    pub fn navigate(&mut self, forward: bool)
        ensures
            final(self).plain() == stepped(old(self).plain(), forward),
            final(self).data == old(self).data,
    {
        let len = self.data.len();
        if len > 0 {
            let i: usize = match self.selected {
                Some(s) => {
                    if forward {
                        let r = s % len;
                        proof {
                            lemma_forward_wraps(s as int, len as int);
                        }
                        if r + 1 == len {
                            0
                        } else {
                            r + 1
                        }
                    } else if s == 0 {
                        len - 1
                    } else {
                        s - 1
                    }
                },
                None => if forward {
                    0
                } else {
                    len - 1
                },
            };
            self.index = i;
            self.selected = Some(i);
        } else {
            self.selected = None;
        }
    }
}

/// One step past `s`, wrapped into `len`, is one step past the remainder of
/// `s`, wrapped into `len`.
pub proof fn lemma_forward_wraps(s: int, len: int)
    requires
        0 <= s,
        0 < len,
    ensures
        (s + 1) % len == if s % len + 1 == len {
            0
        } else {
            s % len + 1
        },
{
    lemma_mod_bound(s, len);
    lemma_add_mod_noop(s, 1, len);
    if len == 1 {
        lemma_small_mod(0, 1);
        assert((s + 1) % 1 == 0);
    } else {
        lemma_small_mod(1, len as nat);
        if s % len + 1 == len {
            lemma_mod_add_multiples_vanish(0, len);
            lemma_small_mod(0, len as nat);
        } else {
            lemma_small_mod((s % len + 1) as nat, len as nat);
        }
    }
}

/// A list with the item under its cursor highlighted.
pub open spec fn highlighted<V>(t: TabView<V>) -> TabView<V> {
    TabView { selected: Some(t.index), ..t }
}

/// A list without a highlight.
pub open spec fn unhighlighted<V>(t: TabView<V>) -> TabView<V> {
    TabView { selected: None, ..t }
}

/// A list as it is shown when it is turned to: with the item under its cursor
/// highlighted, if it has any item.
pub open spec fn shown<V>(t: TabView<V>) -> TabView<V> {
    if t.data.len() > 0 {
        highlighted(t)
    } else {
        t
    }
}

/// A list after one step that an empty list ignores.
pub open spec fn stepped_if_any<V>(t: TabView<V>, forward: bool) -> TabView<V> {
    if t.data.len() > 0 {
        stepped(t, forward)
    } else {
        t
    }
}

/// The state after the library list that is shown was left: it loses its
/// highlight, and leaving the search results ends the typing of a query.
pub open spec fn tab_left(a: AppView) -> AppView {
    match a.active_tab {
        ActiveTab::Songs => AppView { tracks: unhighlighted(a.tracks), ..a },
        ActiveTab::Artists => AppView { artists: unhighlighted(a.artists), ..a },
        ActiveTab::Albums => AppView { albums: unhighlighted(a.albums), ..a },
        ActiveTab::Playlist => AppView { playlists: unhighlighted(a.playlists), ..a },
        ActiveTab::Favorites => AppView { favorites: unhighlighted(a.favorites), ..a },
        ActiveTab::Search => AppView {
            search: unhighlighted(a.search),
            input_mode: InputMode::Normal,
            ..a
        },
    }
}

/// The state after the library list `tab` was turned to.
pub open spec fn tab_entered(a: AppView, tab: ActiveTab) -> AppView {
    let b = AppView { active_tab: tab, ..a };
    match tab {
        ActiveTab::Songs => AppView { tracks: shown(b.tracks), ..b },
        ActiveTab::Artists => AppView { artists: shown(b.artists), ..b },
        ActiveTab::Albums => AppView { albums: shown(b.albums), ..b },
        ActiveTab::Playlist => AppView { playlists: shown(b.playlists), ..b },
        ActiveTab::Favorites => AppView { favorites: shown(b.favorites), ..b },
        ActiveTab::Search => AppView { search: shown(b.search), ..b },
    }
}

/// The state after the keys went from the queue to the library or back. The
/// list that takes the keys highlights the item under its cursor; an empty
/// queue highlights nothing.
pub open spec fn section_switched(a: AppView) -> AppView {
    match a.active_section {
        ActiveSection::Others => AppView {
            active_section: ActiveSection::Queue,
            queue: shown(a.queue),
            ..a
        },
        ActiveSection::Queue => {
            let b = AppView { active_section: ActiveSection::Others, ..a };
            match a.active_tab {
                ActiveTab::Songs => AppView { tracks: highlighted(b.tracks), ..b },
                ActiveTab::Artists => AppView { artists: highlighted(b.artists), ..b },
                ActiveTab::Albums => AppView { albums: highlighted(b.albums), ..b },
                ActiveTab::Playlist => AppView { playlists: highlighted(b.playlists), ..b },
                ActiveTab::Favorites => AppView { favorites: highlighted(b.favorites), ..b },
                ActiveTab::Search => AppView { search: highlighted(b.search), ..b },
            }
        },
    }
}

/// The state after one step in the list that takes the keys. A step forward
/// in an empty queue removes its highlight; every other step in an empty list
/// changes nothing.
pub open spec fn item_stepped(a: AppView, forward: bool) -> AppView {
    match a.active_section {
        ActiveSection::Queue => AppView {
            queue: if forward {
                stepped(a.queue, true)
            } else {
                stepped_if_any(a.queue, false)
            },
            ..a
        },
        ActiveSection::Others => match a.active_tab {
            ActiveTab::Songs => AppView { tracks: stepped_if_any(a.tracks, forward), ..a },
            ActiveTab::Artists => AppView { artists: stepped_if_any(a.artists, forward), ..a },
            ActiveTab::Albums => AppView { albums: stepped_if_any(a.albums, forward), ..a },
            ActiveTab::Playlist => AppView {
                playlists: stepped_if_any(a.playlists, forward),
                ..a
            },
            ActiveTab::Favorites => AppView {
                favorites: stepped_if_any(a.favorites, forward),
                ..a
            },
            ActiveTab::Search => AppView { search: stepped_if_any(a.search, forward), ..a },
        },
    }
}

impl<T> ListTab<T> {
    /// Highlights the item under the cursor if the list has any item.
    pub fn show(&mut self)
        ensures
            final(self).data == old(self).data,
            final(self).plain() == shown(old(self).plain()),
    {
        if self.data.len() > 0 {
            self.current();
        }
    }

    /// One step that an empty list ignores.
    pub fn navigate_if_any(&mut self, forward: bool)
        ensures
            final(self).data == old(self).data,
            final(self).plain() == stepped_if_any(old(self).plain(), forward),
    {
        if self.data.len() > 0 {
            self.navigate(forward);
        }
    }
}

impl App {
    /// Turns to the library list `tab`.
    pub fn select_tab(&mut self, tab: ActiveTab)
        ensures
            final(self)@ == tab_entered(tab_left(old(self)@), tab),
    {
        self.leave_tab();
        self.enter_tab(tab);
    }

    fn leave_tab(&mut self)
        ensures
            final(self)@ == tab_left(old(self)@),
    {
        match self.active_tab {
            ActiveTab::Songs => self.tracks_tab.clear(),
            ActiveTab::Artists => self.artist_tab.clear(),
            ActiveTab::Albums => self.album_tab.clear(),
            ActiveTab::Playlist => self.playlist_tab.clear(),
            ActiveTab::Favorites => self.favorite_tab.clear(),
            ActiveTab::Search => {
                self.search_tab.clear();
                self.input_mode = InputMode::Normal;
            },
        }
    }

    fn enter_tab(&mut self, tab: ActiveTab)
        ensures
            final(self)@ == tab_entered(old(self)@, tab),
    {
        self.active_tab = tab;
        match tab {
            ActiveTab::Songs => self.tracks_tab.show(),
            ActiveTab::Artists => self.artist_tab.show(),
            ActiveTab::Albums => self.album_tab.show(),
            ActiveTab::Playlist => self.playlist_tab.show(),
            ActiveTab::Favorites => self.favorite_tab.show(),
            ActiveTab::Search => self.search_tab.show(),
        }
    }

    /// Moves the keys from the queue to the library or back.
    pub fn next_tab(&mut self)
        ensures
            final(self)@ == section_switched(old(self)@),
    {
        match self.active_section {
            ActiveSection::Others => {
                self.active_section = ActiveSection::Queue;
                self.queue_tab.show();
            },
            ActiveSection::Queue => {
                self.active_section = ActiveSection::Others;
                match self.active_tab {
                    ActiveTab::Songs => self.tracks_tab.current(),
                    ActiveTab::Artists => self.artist_tab.current(),
                    ActiveTab::Albums => self.album_tab.current(),
                    ActiveTab::Playlist => self.playlist_tab.current(),
                    ActiveTab::Favorites => self.favorite_tab.current(),
                    ActiveTab::Search => self.search_tab.current(),
                }
            },
        }
    }

    /// Moves the keys from the queue to the library or back; with two
    /// sections, the way back is the way forth.
    pub fn previous_tab(&mut self)
        ensures
            final(self)@ == section_switched(old(self)@),
    {
        self.next_tab();
    }

    /// One step forward in the list that takes the keys.
    pub fn next_item_in_tab(&mut self)
        ensures
            final(self)@ == item_stepped(old(self)@, true),
    {
        match self.active_section {
            ActiveSection::Queue => self.queue_tab.navigate(true),
            ActiveSection::Others => self.step_library(true),
        }
    }

    /// One step backward in the list that takes the keys.
    pub fn previous_item_in_tab(&mut self)
        ensures
            final(self)@ == item_stepped(old(self)@, false),
    {
        match self.active_section {
            ActiveSection::Queue => self.queue_tab.navigate_if_any(false),
            ActiveSection::Others => self.step_library(false),
        }
    }

    fn step_library(&mut self, forward: bool)
        requires
            old(self).active_section == ActiveSection::Others,
        ensures
            final(self)@ == item_stepped(old(self)@, forward),
    {
        match self.active_tab {
            ActiveTab::Songs => self.tracks_tab.navigate_if_any(forward),
            ActiveTab::Artists => self.artist_tab.navigate_if_any(forward),
            ActiveTab::Albums => self.album_tab.navigate_if_any(forward),
            ActiveTab::Playlist => self.playlist_tab.navigate_if_any(forward),
            ActiveTab::Favorites => self.favorite_tab.navigate_if_any(forward),
            ActiveTab::Search => self.search_tab.navigate_if_any(forward),
        }
    }
}

/// A step forward and then a step backward in a list with a highlighted item
/// in range come back to that item.
pub proof fn lemma_step_forth_and_back<V>(t: TabView<V>)
    requires
        t.selected matches Some(s) && s < t.data.len(),
        t.data.len() <= usize::MAX,
    ensures
        stepped(stepped(t, true), false).selected == t.selected,
        stepped(stepped(t, true), false).index == t.selected->0,
{
    let len = t.data.len() as int;
    let s = t.selected->0 as int;
    lemma_forward_wraps(s, len);
    lemma_small_mod(s as nat, len as nat);
}

} // verus!
