use sonicrust::app::Track;
use sonicrust::search::{MatchField, SearchEngine};

fn create_test_track(title: String, artist: String, album: String) -> Track {
    Track {
        id: "test".to_string(),
        title,
        artist,
        album_artist: None,
        album,
        cover_art: None,
        duration: 0,
        track_number: None,
        play_count: None,
        genres: Vec::new(),
    }
}

fn three_tracks() -> Vec<Track> {
    vec![
        create_test_track(
            "Bohemian Rhapsody".to_string(),
            "Queen".to_string(),
            "A Night at the Opera".to_string(),
        ),
        create_test_track(
            "The Real Slim Shady".to_string(),
            "Emienem".to_string(),
            "The Slim LP".to_string(),
        ),
        create_test_track(
            "Rolling in the Deep".to_string(),
            "Adele".to_string(),
            "21".to_string(),
        ),
    ]
}

#[test]
fn test_fuzzy_search_title() {
    let engine = SearchEngine::new(50, 100);
    let tracks = vec![
        create_test_track(
            "Bohemian Rhapsody".to_string(),
            "Queen".to_string(),
            "A Night at the Opera".to_string(),
        ),
        create_test_track(
            "The Real Slim Shady".to_string(),
            "Emienem".to_string(),
            "The Slim LP".to_string(),
        ),
        create_test_track(
            "Rolling in the Deep".to_string(),
            "Adele".to_string(),
            "21".to_string(),
        ),
    ];
    let results = engine.search("real", &tracks);
    assert_eq!(results.len(), 1);
    assert_eq!(results.first().unwrap().track.title, "The Real Slim Shady")
}

#[test]
fn test_fuzzy_artist_title() {
    let engine = SearchEngine::new(50, 100);
    let tracks = vec![
        create_test_track(
            "Bohemian Rhapsody".to_string(),
            "Queen".to_string(),
            "A Night at the Opera".to_string(),
        ),
        create_test_track(
            "The Real Slim Shady".to_string(),
            "Emienem".to_string(),
            "The Slim LP".to_string(),
        ),
        create_test_track(
            "Rolling in the Deep".to_string(),
            "Adele".to_string(),
            "21".to_string(),
        ),
    ];
    let results = engine.search("queen", &tracks);
    assert_eq!(results.len(), 1);
    assert_eq!(results.first().unwrap().track.title, "Bohemian Rhapsody")
}

#[test]
fn test_fuzzy_search_album() {
    let engine = SearchEngine::new(50, 100);
    let tracks = vec![
        create_test_track(
            "Bohemian Rhapsody".to_string(),
            "Queen".to_string(),
            "A Night at the Opera".to_string(),
        ),
        create_test_track(
            "The Real Slim Shady".to_string(),
            "Emienem".to_string(),
            "The Slim LP".to_string(),
        ),
        create_test_track(
            "Rolling in the Deep".to_string(),
            "Adele".to_string(),
            "21".to_string(),
        ),
    ];
    let results = engine.search("21", &tracks);
    assert_eq!(results.len(), 1);
    assert_eq!(results.first().unwrap().track.title, "Rolling in the Deep")
}

#[test]
fn empty_query_finds_nothing() {
    let engine = SearchEngine::new(0, 100);
    assert!(engine.search("", &three_tracks()).is_empty());
    assert!(engine.search_exact("", &three_tracks()).is_empty());
}

#[test]
fn query_is_matched_whatever_its_case() {
    let engine = SearchEngine::new(50, 100);
    let results = engine.search("QUEEN", &three_tracks());
    assert_eq!(results.len(), 1);
    assert_eq!(results[0].track.artist, "Queen");
}

#[test]
fn results_come_best_first_and_are_cut() {
    let engine = SearchEngine::new(1, 100);
    let tracks = vec![
        create_test_track("a slim b".to_string(), "x".to_string(), "y".to_string()),
        create_test_track("slim".to_string(), "x".to_string(), "y".to_string()),
        create_test_track("s l i m".to_string(), "x".to_string(), "y".to_string()),
        create_test_track("nothing".to_string(), "x".to_string(), "y".to_string()),
    ];
    let results = engine.search("slim", &tracks);
    assert_eq!(results.len(), 3);
    for pair in results.windows(2) {
        assert!(pair[0].score >= pair[1].score);
    }
    assert_eq!(results[0].track.title, "slim");
    let cut = SearchEngine::new(1, 2).search("slim", &tracks);
    assert_eq!(cut.len(), 2);
    assert_eq!(cut[0].track.title, results[0].track.title);
    assert_eq!(cut[1].track.title, results[1].track.title);
}

#[test]
fn equal_scores_keep_the_order_of_the_tracks() {
    let engine = SearchEngine::new(1, 100);
    let tracks = vec![
        create_test_track("same".to_string(), "first".to_string(), "y".to_string()),
        create_test_track("same".to_string(), "second".to_string(), "y".to_string()),
        create_test_track("same".to_string(), "third".to_string(), "y".to_string()),
    ];
    let results = engine.search("same", &tracks);
    assert_eq!(results.len(), 3);
    assert_eq!(results[0].score, results[1].score);
    assert_eq!(results[0].track.artist, "first");
    assert_eq!(results[1].track.artist, "second");
    assert_eq!(results[2].track.artist, "third");
}

#[test]
fn threshold_keeps_low_scores_out() {
    let tracks = three_tracks();
    let low = SearchEngine::new(1, 100).search("real", &tracks);
    let high = SearchEngine::new(1_000_000, 100).search("real", &tracks);
    assert!(!low.is_empty());
    assert!(high.is_empty());
}

#[test]
fn exact_search_scores_by_field() {
    let engine = SearchEngine::new(0, 100);
    let tracks = vec![
        create_test_track("Opera".to_string(), "Queen".to_string(), "Hits".to_string()),
        create_test_track("Bohemian".to_string(), "Queen".to_string(), "Opera".to_string()),
        create_test_track("Opera".to_string(), "Opera".to_string(), "Opera".to_string()),
        create_test_track("Song".to_string(), "The Opera".to_string(), "Hits".to_string()),
        create_test_track("Song".to_string(), "Band".to_string(), "Hits".to_string()),
    ];
    let results = engine.search_exact("OPERA", &tracks);
    let scores: Vec<i64> = results.iter().map(|r| r.score).collect();
    assert_eq!(scores, vec![240, 100, 80, 60]);
    assert_eq!(results[0]._match_field, MatchField::Multiple);
    assert_eq!(results[1]._match_field, MatchField::Title);
    assert_eq!(results[2]._match_field, MatchField::Artist);
    assert_eq!(results[2].track.artist, "The Opera");
    assert_eq!(results[3]._match_field, MatchField::Album);
}

#[test]
fn a_match_in_two_fields_with_equal_scores_is_multiple() {
    let engine = SearchEngine::new(1, 100);
    let tracks = vec![create_test_track(
        "queen".to_string(),
        "queen".to_string(),
        "other".to_string(),
    )];
    let results = engine.search("queen", &tracks);
    assert_eq!(results.len(), 1);
    assert_eq!(results[0]._match_field, MatchField::Multiple);
}
