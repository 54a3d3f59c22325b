//! The staged load of the remote library. The host fetches; the loader decides
//! what is fetched next and what is sent to the orchestrator: first the whole
//! catalog with the songs of the first few albums, then the songs of the other
//! albums, batch by batch.

use vstd::prelude::*;
use crate::app::{Album, Artist, Playlist, Track, TrackView, clone_tracks, track_views};

verus! {

/// Number of albums whose songs come with the first message.
pub const FIRST_PAGE_SIZE: usize = 10;

/// Number of albums whose songs come with each later message.
pub const BATCH_SIZE: usize = 100;

/// What the loader sends to the orchestrator.
#[derive(Debug)]
pub enum LibraryMessage {
    /// The catalog, with the songs of the first page of albums.
    Loaded {
        songs: Vec<Track>,
        artists: Vec<Artist>,
        albums: Vec<Album>,
        playlists: Vec<Playlist>,
        favorites: Vec<Track>,
    },
    /// The songs of one more batch of albums.
    SongsAppended(Vec<Track>),
    /// The load failed; nothing more follows.
    Error(String),
}

/// A message of the loader, as mathematical values.
pub enum LibraryMessageView {
    Loaded {
        songs: Seq<TrackView>,
        artists: Seq<Artist>,
        albums: Seq<Album>,
        playlists: Seq<Playlist>,
        favorites: Seq<TrackView>,
    },
    SongsAppended(Seq<TrackView>),
    Error(Seq<char>),
}

impl View for LibraryMessage {
    type V = LibraryMessageView;

    open spec fn view(&self) -> LibraryMessageView {
        match *self {
            LibraryMessage::Loaded { songs, artists, albums, playlists, favorites } => {
                LibraryMessageView::Loaded {
                    songs: track_views(songs@),
                    artists: artists@,
                    albums: albums@,
                    playlists: playlists@,
                    favorites: track_views(favorites@),
                }
            },
            LibraryMessage::SongsAppended(songs) => LibraryMessageView::SongsAppended(
                track_views(songs@),
            ),
            LibraryMessage::Error(reason) => LibraryMessageView::Error(reason@),
        }
    }
}

/// View of an optional message.
pub open spec fn message_view(m: Option<LibraryMessage>) -> Option<LibraryMessageView> {
    match m {
        Some(x) => Some(x@),
        None => None,
    }
}

/// Where the loader stands.
#[derive(Debug, Clone, Copy, PartialEq, Eq, Structural)]
pub enum LoaderPhase {
    /// Nothing was fetched yet: the catalog is fetched as a whole.
    Catalog,
    /// The catalog is here: the songs of the first page are fetched.
    FirstPage,
    /// The first message is out: the other albums follow in batches.
    Batches,
    /// Nothing more is fetched or sent.
    Done,
}

/// The loader's state.
#[derive(Debug)]
pub struct Loader {
    pub phase: LoaderPhase,
    /// The first page of albums, fetched by itself.
    pub first_page: Vec<Album>,
    pub artists: Vec<Artist>,
    /// All albums.
    pub albums: Vec<Album>,
    pub playlists: Vec<Playlist>,
    pub favorites: Vec<Track>,
    /// Position in `albums` of the first album whose songs were not sent yet.
    pub next_album: usize,
}

/// The songs of several albums, in the order of the albums.
pub open spec fn joined(parts: Seq<Seq<TrackView>>) -> Seq<TrackView>
    decreases parts.len(),
{
    if parts.len() == 0 {
        Seq::empty()
    } else {
        joined(parts.drop_last()) + parts.last()
    }
}

/// Views of what was fetched for several albums.
pub open spec fn contributions_view(parts: Seq<Vec<Track>>) -> Seq<Seq<TrackView>> {
    Seq::new(parts.len(), |i: int| track_views(parts[i]@))
}

/// Puts what was fetched for several albums into one list, album after
/// album. An album whose fetch failed contributes an empty list.
pub fn join_songs(parts: &Vec<Vec<Track>>) -> (songs: Vec<Track>)
    ensures
        track_views(songs@) == joined(contributions_view(parts@)),
{
    let mut songs: Vec<Track> = Vec::new();
    let mut i: usize = 0;
    assert(contributions_view(parts@).subrange(0, 0) =~= Seq::<Seq<TrackView>>::empty());
    assert(track_views(songs@) =~= Seq::<TrackView>::empty());
    while i < parts.len()
        invariant
            i <= parts.len(),
            track_views(songs@) == joined(contributions_view(parts@).subrange(0, i as int)),
        decreases parts.len() - i,
    {
        let ghost before = songs@;
        let mut part = clone_tracks(&parts[i]);
        let ghost added = part@;
        songs.append(&mut part);
        proof {
            let all = contributions_view(parts@);
            let upto = all.subrange(0, i as int + 1);
            assert(upto.drop_last() =~= all.subrange(0, i as int));
            assert(upto.last() == track_views(parts@[i as int]@));
            assert(track_views(songs@) =~= track_views(before) + track_views(added));
        }
        i += 1;
    }
    assert(contributions_view(parts@).subrange(0, parts.len() as int) =~= contributions_view(
        parts@,
    ));
    songs
}

/// Where the batch that begins at album `from` ends, of `total` albums.
pub open spec fn batch_end(from: int, total: int) -> int {
    if from + BATCH_SIZE < total {
        from + BATCH_SIZE
    } else {
        total
    }
}

/// Where the batches begin in a library of `total` albums whose first page
/// held `page` albums: behind the first page, or behind the last album where
/// there are fewer albums than the page held.
pub open spec fn batches_begin(page: int, total: int) -> int {
    if total < page {
        total
    } else {
        page
    }
}

/// The first page as the loader keeps it: no more albums than a page may
/// hold.
pub open spec fn page_kept(first_page: Seq<Album>) -> Seq<Album> {
    if first_page.len() <= FIRST_PAGE_SIZE {
        first_page
    } else {
        first_page.subrange(0, FIRST_PAGE_SIZE as int)
    }
}

/// The batches that cover the albums from `from` on, in order, each as the
/// positions of its first album and of the album behind its last.
pub open spec fn batches_from(from: int, total: int) -> Seq<(int, int)>
    decreases total - from,
{
    if from >= total {
        Seq::empty()
    } else {
        seq![(from, batch_end(from, total))] + batches_from(batch_end(from, total), total)
    }
}

/// The batches of a library of `total` albums lie one behind the other, from
/// the end of the first page to the last album; none is empty and none holds
/// more albums than a batch may.
pub proof fn lemma_batches_partition(from: int, total: int)
    requires
        0 <= from <= total,
    ensures
        ({
            let b = batches_from(from, total);
            &&& forall|k: int| 0 <= k < b.len() ==> (#[trigger] b[k]).0 < b[k].1 && b[k].1 - b[k].0
                <= BATCH_SIZE
            &&& forall|k: int| 0 < k < b.len() ==> (#[trigger] b[k]).0 == b[k - 1].1
            &&& b.len() > 0 ==> b[0].0 == from && b[b.len() - 1].1 == total
            &&& b.len() == 0 <==> from == total
        }),
    decreases total - from,
{
    if from < total {
        let next = batch_end(from, total);
        lemma_batches_partition(next, total);
        let rest = batches_from(next, total);
        let b = batches_from(from, total);
        assert(b =~= seq![(from, next)] + rest);
        assert forall|k: int| 0 < k < b.len() implies (#[trigger] b[k]).0 == b[k - 1].1 by {
            if k == 1 {
                assert(b[1] == rest[0]);
            } else {
                assert(b[k] == rest[k - 1]);
                assert(b[k - 1] == rest[k - 2]);
            }
        }
        assert forall|k: int| 0 <= k < b.len() implies (#[trigger] b[k]).0 < b[k].1 && b[k].1
            - b[k].0 <= BATCH_SIZE by {
            if k > 0 {
                assert(b[k] == rest[k - 1]);
            }
        }
        if rest.len() > 0 {
            assert(b[b.len() - 1] == rest[rest.len() - 1]);
        }
    }
}

/// A list of batches, as mathematical values.
pub open spec fn batches_view(plan: Seq<(usize, usize)>) -> Seq<(int, int)> {
    Seq::new(plan.len(), |k: int| (plan[k].0 as int, plan[k].1 as int))
}

/// Lists the batches of a library of `total` albums whose first page was
/// full.
pub fn plan_batches(total: usize) -> (plan: Vec<(usize, usize)>)
    ensures
        batches_view(plan@) == batches_from(
            batches_begin(FIRST_PAGE_SIZE as int, total as int),
            total as int,
        ),
{
    let mut plan: Vec<(usize, usize)> = Vec::new();
    let begin: usize = if total < FIRST_PAGE_SIZE {
        total
    } else {
        FIRST_PAGE_SIZE
    };
    let mut from: usize = begin;
    let ghost all = batches_from(begin as int, total as int);
    while from < total
        invariant
            begin <= from <= total,
            all == batches_from(begin as int, total as int),
            plan@.len() + batches_from(from as int, total as int).len() == all.len(),
            forall|k: int|
                0 <= k < plan@.len() ==> (#[trigger] plan@[k]).0 == all[k].0 && plan@[k].1
                    == all[k].1,
            forall|k: int|
                0 <= k < batches_from(from as int, total as int).len() ==> all[plan@.len() + k]
                    == #[trigger] batches_from(from as int, total as int)[k],
        decreases total - from,
    {
        let to: usize = if total - from > BATCH_SIZE {
            from + BATCH_SIZE
        } else {
            total
        };
        proof {
            let here = batches_from(from as int, total as int);
            let rest = batches_from(to as int, total as int);
            assert(here =~= seq![(from as int, to as int)] + rest);
            assert(all[plan@.len() as int] == here[0]);
            assert forall|k: int| 0 <= k < rest.len() implies all[plan@.len() + 1 + k]
                == #[trigger] rest[k] by {
                assert(here[k + 1] == rest[k]);
            }
        }
        plan.push((from, to));
        from = to;
    }
    assert(batches_view(plan@) =~= all);
    plan
}

/// Copies a list of albums.
fn clone_albums(v: &Vec<Album>) -> (r: Vec<Album>)
    ensures
        r@ == v@,
{
    let mut out: Vec<Album> = Vec::new();
    let mut i: usize = 0;
    while i < v.len()
        invariant
            i <= v.len(),
            out@ == v@.subrange(0, i as int),
        decreases v.len() - i,
    {
        out.push(v[i].clone());
        assert(out@ =~= v@.subrange(0, i as int + 1));
        i += 1;
    }
    assert(v@.subrange(0, v.len() as int) =~= v@);
    out
}

impl Loader {
    /// A loader that has fetched nothing yet.
    pub fn new() -> (l: Loader)
        ensures
            l.phase == LoaderPhase::Catalog,
            l.first_page@.len() == 0,
            l.artists@.len() == 0,
            l.albums@.len() == 0,
            l.playlists@.len() == 0,
            l.favorites@.len() == 0,
            l.next_album == 0,
    {
        Loader {
            phase: LoaderPhase::Catalog,
            first_page: Vec::new(),
            artists: Vec::new(),
            albums: Vec::new(),
            playlists: Vec::new(),
            favorites: Vec::new(),
            next_album: 0,
        }
    }

    /// Takes the catalog, once all five fetches of it have succeeded. The
    /// songs of the albums of the first page are to be fetched next; of a
    /// first page that is longer than a page may be, only the beginning is
    /// kept. Returns whether the catalog was awaited; if it was not, nothing
    /// changes.
    pub fn catalog_fetched(
        &mut self,
        first_page: Vec<Album>,
        artists: Vec<Artist>,
        albums: Vec<Album>,
        playlists: Vec<Playlist>,
        favorites: Vec<Track>,
    ) -> (accepted: bool)
        ensures
            accepted == (old(self).phase == LoaderPhase::Catalog),
            accepted ==> {
                &&& final(self).phase == LoaderPhase::FirstPage
                &&& final(self).first_page@ == page_kept(first_page@)
                &&& final(self).artists == artists
                &&& final(self).albums == albums
                &&& final(self).playlists == playlists
                &&& final(self).favorites == favorites
                &&& final(self).next_album == 0
            },
            !accepted ==> *final(self) == *old(self),
    {
        match self.phase {
            LoaderPhase::Catalog => {
                let mut first_page = first_page;
                first_page.truncate(FIRST_PAGE_SIZE);
                self.phase = LoaderPhase::FirstPage;
                self.first_page = first_page;
                self.artists = artists;
                self.albums = albums;
                self.playlists = playlists;
                self.favorites = favorites;
                self.next_album = 0;
                true
            },
            _ => false,
        }
    }

    /// Gives up the load because one of the fetches of the catalog failed.
    /// While the catalog is awaited this yields the one error message, and the
    /// loader is done; later it yields nothing and changes nothing.
    pub fn catalog_failed(&mut self, reason: String) -> (m: Option<LibraryMessage>)
        ensures
            old(self).phase == LoaderPhase::Catalog ==> message_view(m) == Some(
                LibraryMessageView::Error(reason@),
            ) && *final(self) == (Loader { phase: LoaderPhase::Done, ..*old(self) }),
            old(self).phase != LoaderPhase::Catalog ==> m.is_none() && *final(self) == *old(self),
    {
        match self.phase {
            LoaderPhase::Catalog => {
                self.phase = LoaderPhase::Done;
                Some(LibraryMessage::Error(reason))
            },
            _ => None,
        }
    }

    /// Makes the first message from what was fetched for the albums of the
    /// first page, one list for each album in the order of the page. The
    /// batches follow behind the first page. Outside its turn, and where the
    /// lists are not as many as the albums of the page, this yields nothing
    /// and changes nothing.
    pub fn first_page_loaded(&mut self, contributions: &Vec<Vec<Track>>) -> (m: Option<
        LibraryMessage,
    >)
        ensures
            old(self).first_page_due(contributions@.len()) ==> message_view(m) == Some(
                LibraryMessageView::Loaded {
                    songs: joined(contributions_view(contributions@)),
                    artists: old(self).artists@,
                    albums: old(self).albums@,
                    playlists: old(self).playlists@,
                    favorites: track_views(old(self).favorites@),
                },
            ),
            old(self).first_page_due(contributions@.len()) ==> {
                &&& final(self).phase == LoaderPhase::Batches
                &&& final(self).next_album == batches_begin(
                    old(self).first_page@.len() as int,
                    old(self).albums@.len() as int,
                )
                &&& final(self).albums == old(self).albums
                &&& final(self).first_page == old(self).first_page
                &&& final(self).artists@.len() == 0
                &&& final(self).playlists@.len() == 0
                &&& final(self).favorites@.len() == 0
            },
            !old(self).first_page_due(contributions@.len()) ==> m.is_none() && *final(self)
                == *old(self),
    {
        if contributions.len() != self.first_page.len() {
            return None;
        }
        match self.phase {
            LoaderPhase::FirstPage => {
                let songs = join_songs(contributions);
                let mut artists: Vec<Artist> = Vec::new();
                core::mem::swap(&mut artists, &mut self.artists);
                let mut playlists: Vec<Playlist> = Vec::new();
                core::mem::swap(&mut playlists, &mut self.playlists);
                let mut favorites: Vec<Track> = Vec::new();
                core::mem::swap(&mut favorites, &mut self.favorites);
                let albums = clone_albums(&self.albums);
                self.phase = LoaderPhase::Batches;
                self.next_album = if self.albums.len() < self.first_page.len() {
                    self.albums.len()
                } else {
                    self.first_page.len()
                };
                Some(LibraryMessage::Loaded { songs, artists, albums, playlists, favorites })
            },
            _ => None,
        }
    }

    /// The albums whose songs are fetched next: the positions in `albums` of
    /// the first of them and of the album behind the last. `None` when no
    /// batch is left or it is not the turn of the batches.
    pub fn next_batch(&self) -> (r: Option<(usize, usize)>)
        ensures
            self.phase == LoaderPhase::Batches && self.next_album < self.albums@.len() ==> r
                == Some(
                (
                    self.next_album,
                    batch_end(self.next_album as int, self.albums@.len() as int) as usize,
                ),
            ),
            !(self.phase == LoaderPhase::Batches && self.next_album < self.albums@.len())
                ==> r.is_none(),
            r matches Some((from, to)) ==> from < to <= self.albums@.len() && to - from
                <= BATCH_SIZE,
    {
        let total = self.albums.len();
        match self.phase {
            LoaderPhase::Batches => {
                if self.next_album < total {
                    let to: usize = if total - self.next_album > BATCH_SIZE {
                        self.next_album + BATCH_SIZE
                    } else {
                        total
                    };
                    Some((self.next_album, to))
                } else {
                    None
                }
            },
            _ => None,
        }
    }

    /// Makes the message of the batch that `next_batch` named from what was
    /// fetched for its albums, one list for each album, and moves on to the
    /// batch behind it. The loader is done behind the last batch. Where no
    /// batch is due, and where the lists are not as many as the albums of the
    /// batch, this yields nothing and changes nothing.
    pub fn batch_loaded(&mut self, contributions: &Vec<Vec<Track>>) -> (m: Option<LibraryMessage>)
        ensures
            old(self).batch_due(contributions@.len()) ==> message_view(m) == Some(
                LibraryMessageView::SongsAppended(joined(contributions_view(contributions@))),
            ) && *final(self) == (Loader {
                next_album: batch_end(
                    old(self).next_album as int,
                    old(self).albums@.len() as int,
                ) as usize,
                phase: if batch_end(old(self).next_album as int, old(self).albums@.len() as int)
                    >= old(self).albums@.len() {
                    LoaderPhase::Done
                } else {
                    LoaderPhase::Batches
                },
                ..*old(self)
            }),
            !old(self).batch_due(contributions@.len()) ==> m.is_none() && *final(self) == *old(
                self,
            ),
    {
        let total = self.albums.len();
        match self.next_batch() {
            Some((from, to)) => {
                assert(to == batch_end(from as int, total as int));
                if contributions.len() != to - from {
                    return None;
                }
                let songs = join_songs(contributions);
                self.next_album = to;
                if to >= self.albums.len() {
                    self.phase = LoaderPhase::Done;
                }
                Some(LibraryMessage::SongsAppended(songs))
            },
            None => None,
        }
    }

    /// Whether a batch is due.
    pub open spec fn next_batch_due(&self) -> bool {
        self.phase == LoaderPhase::Batches && self.next_album < self.albums@.len()
    }

    /// Whether a batch is due and `n` is the number of its albums.
    pub open spec fn batch_due(&self, n: nat) -> bool {
        self.next_batch_due() && n == batch_end(self.next_album as int, self.albums@.len() as int)
            - self.next_album
    }

    /// Whether the songs of the first page are due and `n` is the number of
    /// its albums.
    pub open spec fn first_page_due(&self, n: nat) -> bool {
        self.phase == LoaderPhase::FirstPage && n == self.first_page@.len()
    }

    /// Ends the load because the receiving end is gone.
    pub fn receiver_closed(&mut self)
        ensures
            *final(self) == (Loader { phase: LoaderPhase::Done, ..*old(self) }),
    {
        self.phase = LoaderPhase::Done;
    }

    /// Whether nothing more is fetched or sent.
    pub fn is_done(&self) -> (r: bool)
        ensures
            r == (self.phase == LoaderPhase::Done || (self.phase == LoaderPhase::Batches
                && self.next_album >= self.albums@.len())),
    {
        match self.phase {
            LoaderPhase::Done => true,
            LoaderPhase::Batches => self.next_album >= self.albums.len(),
            _ => false,
        }
    }
}

} // verus!
