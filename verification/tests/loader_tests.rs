use sonicrust::app::{Album, Artist, Playlist, Track};
use sonicrust::loader::{
    join_songs, plan_batches, LibraryMessage, Loader, LoaderPhase, BATCH_SIZE, FIRST_PAGE_SIZE,
};

fn album(i: usize) -> Album {
    Album { id: format!("album-{}", i), name: format!("Album {}", i), artist: "A".to_string() }
}

fn song(album: usize, n: usize) -> Track {
    Track {
        id: format!("{}-{}", album, n),
        title: format!("Song {} of {}", n, album),
        artist: "A".to_string(),
        album_artist: None,
        album: format!("Album {}", album),
        cover_art: None,
        duration: 0,
        track_number: Some(n as i32),
        play_count: None,
        genres: Vec::new(),
    }
}

/// What the server gives for the albums `from..to`: two songs each.
fn fetch(from: usize, to: usize) -> Vec<Vec<Track>> {
    (from..to).map(|a| vec![song(a, 0), song(a, 1)]).collect()
}

fn albums_of(songs: &[Track]) -> Vec<usize> {
    let mut seen: Vec<usize> = Vec::new();
    for s in songs {
        let a: usize = s.id.split('-').next().unwrap().parse().unwrap();
        if seen.last() != Some(&a) {
            seen.push(a);
        }
    }
    seen
}

fn loaded_catalog(n: usize) -> Loader {
    let albums: Vec<Album> = (0..n).map(album).collect();
    let first_page: Vec<Album> = albums.iter().take(FIRST_PAGE_SIZE).cloned().collect();
    let mut loader = Loader::new();
    assert!(loader.catalog_fetched(
        first_page,
        vec![Artist { id: "ar".to_string(), name: "A".to_string(), album_count: n as i32 }],
        albums,
        vec![Playlist { id: "p".to_string(), name: "P".to_string(), song_count: 1, duration: 1 }],
        vec![song(0, 0)],
    ));
    loader
}

#[test]
fn a_library_of_150_albums_comes_in_three_messages() {
    let mut loader = loaded_catalog(150);
    assert_eq!(loader.phase, LoaderPhase::FirstPage);
    assert_eq!(loader.first_page.len(), 10);
    let first = loader.first_page_loaded(&fetch(0, loader.first_page.len())).unwrap();
    match first {
        LibraryMessage::Loaded { songs, artists, albums, playlists, favorites } => {
            assert_eq!(albums_of(&songs), (0..10).collect::<Vec<usize>>());
            assert_eq!(songs.len(), 20);
            assert_eq!(artists.len(), 1);
            assert_eq!(albums.len(), 150);
            assert_eq!(playlists.len(), 1);
            assert_eq!(favorites.len(), 1);
        }
        other => panic!("unexpected message {:?}", other),
    }
    assert_eq!(loader.next_batch(), Some((10, 110)));
    match loader.batch_loaded(&fetch(10, 110)).unwrap() {
        LibraryMessage::SongsAppended(songs) => {
            assert_eq!(albums_of(&songs), (10..110).collect::<Vec<usize>>());
        }
        other => panic!("unexpected message {:?}", other),
    }
    assert!(!loader.is_done());
    assert_eq!(loader.next_batch(), Some((110, 150)));
    match loader.batch_loaded(&fetch(110, 150)).unwrap() {
        LibraryMessage::SongsAppended(songs) => {
            assert_eq!(albums_of(&songs), (110..150).collect::<Vec<usize>>());
        }
        other => panic!("unexpected message {:?}", other),
    }
    assert_eq!(loader.next_batch(), None);
    assert!(loader.is_done());
    assert!(loader.batch_loaded(&fetch(0, 1)).is_none());
}

#[test]
fn batches_of_150_albums() {
    assert_eq!(FIRST_PAGE_SIZE, 10);
    assert_eq!(BATCH_SIZE, 100);
    assert_eq!(plan_batches(150), vec![(10, 110), (110, 150)]);
}

#[test]
fn batches_at_the_edges() {
    assert_eq!(plan_batches(0), Vec::<(usize, usize)>::new());
    assert_eq!(plan_batches(7), Vec::<(usize, usize)>::new());
    assert_eq!(plan_batches(10), Vec::<(usize, usize)>::new());
    assert_eq!(plan_batches(11), vec![(10, 11)]);
    assert_eq!(plan_batches(110), vec![(10, 110)]);
    assert_eq!(plan_batches(111), vec![(10, 110), (110, 111)]);
    assert_eq!(plan_batches(310), vec![(10, 110), (110, 210), (210, 310)]);
}

#[test]
fn a_failed_catalog_gives_one_error_and_nothing_more() {
    let mut loader = Loader::new();
    match loader.catalog_failed("artists: timeout".to_string()) {
        Some(LibraryMessage::Error(reason)) => assert_eq!(reason, "artists: timeout"),
        other => panic!("unexpected message {:?}", other),
    }
    assert_eq!(loader.phase, LoaderPhase::Done);
    assert!(loader.is_done());
    assert!(loader.catalog_failed("again".to_string()).is_none());
    assert!(!loader.catalog_fetched(Vec::new(), Vec::new(), vec![album(0)], Vec::new(), Vec::new()));
    assert!(loader.first_page_loaded(&fetch(0, 1)).is_none());
    assert_eq!(loader.next_batch(), None);
    assert!(loader.batch_loaded(&fetch(0, 1)).is_none());
    assert!(loader.albums.is_empty());
}

#[test]
fn an_album_whose_fetch_failed_contributes_nothing() {
    let mut loader = loaded_catalog(3);
    let contributions = vec![vec![song(0, 0)], Vec::new(), vec![song(2, 0), song(2, 1)]];
    match loader.first_page_loaded(&contributions).unwrap() {
        LibraryMessage::Loaded { songs, .. } => {
            let ids: Vec<&str> = songs.iter().map(|t| t.id.as_str()).collect();
            assert_eq!(ids, vec!["0-0", "2-0", "2-1"]);
        }
        other => panic!("unexpected message {:?}", other),
    }
    assert_eq!(loader.next_batch(), None);
    assert!(loader.is_done());
}

#[test]
fn steps_out_of_turn_give_nothing() {
    let mut loader = Loader::new();
    assert!(loader.first_page_loaded(&fetch(0, 1)).is_none());
    assert!(loader.batch_loaded(&fetch(0, 1)).is_none());
    assert_eq!(loader.next_batch(), None);
    assert!(!loader.is_done());
    let mut loader = loaded_catalog(20);
    assert!(loader.catalog_failed("late".to_string()).is_none());
    assert!(loader.batch_loaded(&fetch(0, 1)).is_none());
    assert_eq!(loader.phase, LoaderPhase::FirstPage);
}

#[test]
fn a_closed_receiver_ends_the_load() {
    let mut loader = loaded_catalog(150);
    loader.first_page_loaded(&fetch(0, 10)).unwrap();
    loader.receiver_closed();
    assert!(loader.is_done());
    assert_eq!(loader.next_batch(), None);
    assert!(loader.batch_loaded(&fetch(10, 110)).is_none());
}

#[test]
fn join_songs_keeps_the_order_of_the_albums() {
    let joined = join_songs(&vec![vec![song(1, 0)], Vec::new(), vec![song(0, 0), song(0, 1)]]);
    let ids: Vec<&str> = joined.iter().map(|t| t.id.as_str()).collect();
    assert_eq!(ids, vec!["1-0", "0-0", "0-1"]);
    assert!(join_songs(&Vec::new()).is_empty());
}

#[test]
fn lists_that_do_not_match_the_albums_are_refused() {
    let mut loader = loaded_catalog(150);
    assert!(loader.first_page_loaded(&fetch(0, 9)).is_none());
    assert_eq!(loader.phase, LoaderPhase::FirstPage);
    assert!(loader.first_page_loaded(&fetch(0, 10)).is_some());
    assert!(loader.batch_loaded(&fetch(10, 109)).is_none());
    assert_eq!(loader.next_batch(), Some((10, 110)));
    assert!(loader.batch_loaded(&fetch(10, 110)).is_some());
    assert_eq!(loader.next_batch(), Some((110, 150)));
}

#[test]
fn a_first_page_is_never_longer_than_a_page() {
    let albums: Vec<Album> = (0..30).map(album).collect();
    let mut loader = Loader::new();
    assert!(loader.catalog_fetched(albums.clone(), Vec::new(), albums, Vec::new(), Vec::new()));
    assert_eq!(loader.first_page.len(), FIRST_PAGE_SIZE);
    assert_eq!(loader.first_page[9].id, "album-9");
    assert!(loader.first_page_loaded(&fetch(0, 10)).is_some());
    assert_eq!(loader.next_batch(), Some((10, 30)));
}

#[test]
fn batches_begin_behind_a_short_first_page() {
    let albums: Vec<Album> = (0..30).map(album).collect();
    let first_page: Vec<Album> = albums.iter().take(4).cloned().collect();
    let mut loader = Loader::new();
    assert!(loader.catalog_fetched(first_page, Vec::new(), albums, Vec::new(), Vec::new()));
    assert!(loader.first_page_loaded(&fetch(0, 4)).is_some());
    assert_eq!(loader.next_batch(), Some((4, 30)));
}
