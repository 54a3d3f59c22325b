use sonicrust::app::playback::{Notice, Outcome, Step};
use sonicrust::app::queue::{Fetch, Selection};
use sonicrust::app::{
    ActiveSection, ActiveTab, Album, App, AppError, Artist, Playlist, RepeatMode, ShuffleMode,
    Track, VolumeDirection,
};
use sonicrust::player::{PlaybackStatus, PlayerCommand, VOLUME_MAX};

fn track(id: &str) -> Track {
    Track {
        id: id.to_string(),
        title: format!("Title {}", id),
        artist: format!("Artist {}", id),
        album_artist: Some("Various".to_string()),
        album: format!("Album {}", id),
        cover_art: Some(format!("http://art/{}", id)),
        duration: 180_000_000,
        track_number: Some(3),
        play_count: None,
        genres: vec!["rock".to_string(), "pop".to_string()],
    }
}

fn app_with_queue(n: usize) -> App {
    let mut app = App::new();
    app.enqueue((0..n).map(|i| track(&i.to_string())).collect());
    app
}

/// Stands for the audio backend: remembers what it was asked to do.
struct Backend {
    loaded: bool,
    position: i64,
    fail_start: bool,
    log: Vec<Step>,
}

impl Backend {
    fn new() -> Backend {
        Backend { loaded: false, position: 0, fail_start: false, log: Vec::new() }
    }

    fn perform(&mut self, step: Step) -> Outcome {
        self.log.push(step);
        let mut succeeded = true;
        match step {
            Step::Start { .. } => {
                if self.fail_start {
                    succeeded = false;
                } else {
                    self.loaded = true;
                    self.position = 0;
                }
            }
            Step::Stop => {
                self.loaded = false;
                self.position = 0;
            }
            Step::SeekRelative { offset } => {
                self.position = (self.position + offset * 1_000_000).max(0);
            }
            Step::SeekAbsolute { seconds } => {
                self.position = seconds as i64 * 1_000_000;
            }
            _ => {}
        }
        Outcome { succeeded, position: self.position }
    }
}

fn apply(app: &mut App, backend: &mut Backend, cmd: PlayerCommand) -> Result<Vec<Notice>, AppError> {
    let step = app.plan(cmd, backend.loaded)?;
    let outcome = backend.perform(step);
    app.complete(step, outcome)
}

fn snapshot(app: &App) -> (PlaybackStatus, Option<String>, i64, bool, bool, i64) {
    let s = &app.shared_state;
    (
        s.status,
        s.metadata.as_ref().map(|m| m.track_id.clone()),
        s.volume,
        s.can_go_next,
        s.can_go_previous,
        s.position,
    )
}

#[test]
fn new_app_is_stopped_at_full_volume() {
    let app = App::new();
    assert_eq!(app.shared_state.status, PlaybackStatus::Stopped);
    assert!(app.shared_state.metadata.is_none());
    assert_eq!(app.shared_state.volume, VOLUME_MAX);
    assert_eq!(app.shared_state.position, 0);
    assert!(!app.shared_state.can_go_next);
    assert!(!app.shared_state.can_go_previous);
    assert!(app.queue_tab.data.is_empty());
    assert!(app.current_track.is_none());
}

#[test]
fn play_starts_the_queue_selection_when_nothing_is_loaded() {
    let mut app = app_with_queue(3);
    let mut backend = Backend::new();
    app.queue_tab.index = 1;
    assert_eq!(app.plan(PlayerCommand::Play, false), Ok(Step::Start { index: 1 }));
    let notices = apply(&mut app, &mut backend, PlayerCommand::Play).unwrap();
    assert_eq!(notices, vec![Notice::PropertiesChanged, Notice::NowPlaying]);
    assert!(app.is_playing);
    assert_eq!(app.playing_index, 1);
    assert_eq!(app.current_track.as_ref().unwrap().id, "1");
    assert_eq!(app.shared_state.status, PlaybackStatus::Playing);
    let meta = app.shared_state.metadata.as_ref().unwrap();
    assert_eq!(meta.track_id, "/org/mpris/MediaPlayer2/Sonicrust/Track/1");
    assert_eq!(meta.title, "Title 1");
    assert_eq!(meta.artist, "Artist 1");
    assert_eq!(meta.album, "Album 1");
    assert_eq!(meta.album_artist, Some("Various".to_string()));
    assert_eq!(meta.length, 180_000_000);
    assert_eq!(meta.art_url, "http://art/1");
    assert_eq!(meta.track_number, 3);
    assert_eq!(meta.use_count, 0);
    assert_eq!(meta.genres, vec!["rock".to_string(), "pop".to_string()]);
    assert!(app.shared_state.can_go_next);
    assert!(app.shared_state.can_go_previous);
}

#[test]
fn play_on_an_empty_queue_signals_no_track_loaded() {
    let mut app = App::new();
    let mut backend = Backend::new();
    assert_eq!(apply(&mut app, &mut backend, PlayerCommand::Play), Err(AppError::NoTrackLoaded));
    assert!(backend.log.is_empty());
    assert_eq!(app.shared_state.status, PlaybackStatus::Stopped);
}

#[test]
fn toggle_on_an_empty_queue_signals_empty_queue() {
    let app = App::new();
    assert_eq!(app.plan(PlayerCommand::TogglePlayPause, false), Err(AppError::EmptyQueue));
    assert_eq!(app.toggle_playback(false), Err(AppError::EmptyQueue));
}

#[test]
fn pause_without_a_track_does_nothing() {
    let mut app = app_with_queue(2);
    let mut backend = Backend::new();
    let before = snapshot(&app);
    assert_eq!(apply(&mut app, &mut backend, PlayerCommand::Pause), Err(AppError::NoTrackLoaded));
    assert!(backend.log.is_empty());
    assert_eq!(snapshot(&app), before);
}

#[test]
fn play_when_already_playing_leaves_the_snapshot_unchanged() {
    let mut app = app_with_queue(3);
    let mut backend = Backend::new();
    apply(&mut app, &mut backend, PlayerCommand::Play).unwrap();
    let before = snapshot(&app);
    let index = app.playing_index;
    let notices = apply(&mut app, &mut backend, PlayerCommand::Play).unwrap();
    assert_eq!(backend.log.last(), Some(&Step::Resume));
    assert_eq!(notices, vec![Notice::PropertiesChanged]);
    assert_eq!(snapshot(&app), before);
    assert!(app.is_playing);
    assert_eq!(app.playing_index, index);
}

#[test]
fn pause_when_already_paused_leaves_the_snapshot_unchanged() {
    let mut app = app_with_queue(3);
    let mut backend = Backend::new();
    apply(&mut app, &mut backend, PlayerCommand::Play).unwrap();
    apply(&mut app, &mut backend, PlayerCommand::Pause).unwrap();
    assert_eq!(app.shared_state.status, PlaybackStatus::Paused);
    let before = snapshot(&app);
    let notices = apply(&mut app, &mut backend, PlayerCommand::Pause).unwrap();
    assert_eq!(notices, vec![Notice::PropertiesChanged]);
    assert_eq!(snapshot(&app), before);
    assert!(!app.is_playing);
    assert!(app.current_track.is_some());
}

#[test]
fn toggle_alternates_between_pause_and_resume() {
    let mut app = app_with_queue(2);
    let mut backend = Backend::new();
    apply(&mut app, &mut backend, PlayerCommand::TogglePlayPause).unwrap();
    assert_eq!(backend.log, vec![Step::Start { index: 0 }]);
    apply(&mut app, &mut backend, PlayerCommand::TogglePlayPause).unwrap();
    assert_eq!(app.shared_state.status, PlaybackStatus::Paused);
    apply(&mut app, &mut backend, PlayerCommand::TogglePlayPause).unwrap();
    assert_eq!(app.shared_state.status, PlaybackStatus::Playing);
    assert_eq!(
        backend.log,
        vec![Step::Start { index: 0 }, Step::Pause, Step::Resume]
    );
}

#[test]
fn play_never_resumes_a_backend_that_holds_nothing() {
    let mut app = app_with_queue(2);
    let mut backend = Backend::new();
    apply(&mut app, &mut backend, PlayerCommand::Play).unwrap();
    apply(&mut app, &mut backend, PlayerCommand::Pause).unwrap();
    // the backend lost its stream behind the orchestrator's back
    assert_eq!(app.plan(PlayerCommand::Play, false), Ok(Step::Start { index: 0 }));
    assert_eq!(app.plan(PlayerCommand::Play, true), Ok(Step::Resume));
}

#[test]
fn stop_clears_the_current_track() {
    let mut app = app_with_queue(2);
    let mut backend = Backend::new();
    apply(&mut app, &mut backend, PlayerCommand::Play).unwrap();
    let notices = apply(&mut app, &mut backend, PlayerCommand::Stop).unwrap();
    assert_eq!(notices, vec![Notice::PropertiesChanged]);
    assert!(!app.is_playing);
    assert!(app.current_track.is_none());
    assert_eq!(app.shared_state.status, PlaybackStatus::Stopped);
    assert!(app.shared_state.metadata.is_none());
    assert_eq!(app.stop_playback(), Step::Stop);
}

#[test]
fn next_then_previous_returns_to_the_same_index() {
    for i in 1..4usize {
        let mut app = app_with_queue(5);
        let mut backend = Backend::new();
        app.queue_tab.index = i;
        apply(&mut app, &mut backend, PlayerCommand::Play).unwrap();
        assert_eq!(app.playing_index, i);
        apply(&mut app, &mut backend, PlayerCommand::Next).unwrap();
        assert_eq!(app.playing_index, i + 1);
        assert_eq!(app.current_track.as_ref().unwrap().id, (i + 1).to_string());
        apply(&mut app, &mut backend, PlayerCommand::Previous).unwrap();
        assert_eq!(app.playing_index, i);
        assert_eq!(app.current_track.as_ref().unwrap().id, i.to_string());
    }
}

#[test]
fn next_at_the_end_behaves_like_stop() {
    let mut app = app_with_queue(2);
    let mut backend = Backend::new();
    app.queue_tab.index = 1;
    apply(&mut app, &mut backend, PlayerCommand::Play).unwrap();
    assert_eq!(app.plan(PlayerCommand::Next, true), Ok(Step::Stop));
    apply(&mut app, &mut backend, PlayerCommand::Next).unwrap();
    assert!(app.current_track.is_none());
    assert_eq!(app.shared_state.status, PlaybackStatus::Stopped);
}

#[test]
fn previous_at_the_start_behaves_like_stop() {
    let mut app = app_with_queue(2);
    let mut backend = Backend::new();
    apply(&mut app, &mut backend, PlayerCommand::Play).unwrap();
    assert_eq!(app.plan(PlayerCommand::Previous, true), Ok(Step::Stop));
    apply(&mut app, &mut backend, PlayerCommand::Previous).unwrap();
    assert!(app.current_track.is_none());
    assert!(!app.is_playing);
}

#[test]
fn next_and_previous_signal_what_is_missing() {
    let app = app_with_queue(3);
    assert_eq!(app.play_next(), Err(AppError::NoTrackLoaded));
    let empty = App::new();
    assert_eq!(empty.play_previous(), Err(AppError::EmptyQueue));
    assert_eq!(empty.play_next(), Err(AppError::NoTrackLoaded));
}

#[test]
fn set_volume_clamps_to_the_range() {
    let cases: [(i64, i64); 7] = [
        (-1, 0),
        (i64::MIN, 0),
        (0, 0),
        (250_000, 250_000),
        (1_000_000, 1_000_000),
        (1_000_001, 1_000_000),
        (i64::MAX, 1_000_000),
    ];
    for (asked, expected) in cases {
        let mut app = app_with_queue(1);
        let mut backend = Backend::new();
        let notices = apply(&mut app, &mut backend, PlayerCommand::SetVolume(asked)).unwrap();
        assert_eq!(notices, vec![Notice::VolumeChanged]);
        assert_eq!(backend.log, vec![Step::SetVolume { level: expected }]);
        assert_eq!(app.shared_state.volume, expected);
        assert_eq!(app.current_volume, expected);
        assert_eq!(app.set_volume(asked), Step::SetVolume { level: expected });
    }
}

#[test]
fn adjust_volume_moves_by_a_tenth() {
    let mut app = App::new();
    assert_eq!(app.adjust_volume(VolumeDirection::Up), Step::SetVolume { level: 1_000_000 });
    assert_eq!(app.adjust_volume(VolumeDirection::Down), Step::SetVolume { level: 900_000 });
    app.shared_state.volume = 50_000;
    assert_eq!(app.adjust_volume(VolumeDirection::Down), Step::SetVolume { level: 0 });
    assert_eq!(app.adjust_volume(VolumeDirection::Up), Step::SetVolume { level: 150_000 });
}

#[test]
fn volume_keys_and_repeat_setting() {
    let mut app = App::new();
    app.shared_state.volume = 500_000;
    assert_eq!(app.volume_up(), Step::SetVolume { level: 600_000 });
    assert_eq!(app.volume_down(), Step::SetVolume { level: 400_000 });
    app.set_repeat(RepeatMode::All);
    assert_eq!(app.on_repeat, RepeatMode::All);
}

#[test]
fn seek_writes_the_position_that_the_backend_reports() {
    let mut app = app_with_queue(1);
    let mut backend = Backend::new();
    apply(&mut app, &mut backend, PlayerCommand::Play).unwrap();
    let notices = apply(&mut app, &mut backend, PlayerCommand::SeekRelative(30)).unwrap();
    assert!(notices.is_empty());
    assert_eq!(app.shared_state.position, 30_000_000);
    apply(&mut app, &mut backend, PlayerCommand::SeekRelative(-100)).unwrap();
    assert_eq!(app.shared_state.position, 0);
    apply(&mut app, &mut backend, PlayerCommand::SeekAbsolute(12)).unwrap();
    assert_eq!(app.shared_state.position, 12_000_000);
    // the snapshot takes what the backend says, not what was asked for
    let step = app.plan(PlayerCommand::SeekAbsolute(500), true).unwrap();
    app.complete(step, Outcome { succeeded: false, position: 12_345 }).unwrap();
    assert_eq!(app.shared_state.position, 12_345);
    assert_eq!(app.seek_forward(), Step::SeekRelative { offset: 5 });
    assert_eq!(app.seek_backward(), Step::SeekRelative { offset: -5 });
}

#[test]
fn a_failed_start_leaves_everything_untouched() {
    let mut app = app_with_queue(3);
    let mut backend = Backend::new();
    apply(&mut app, &mut backend, PlayerCommand::Play).unwrap();
    let before = snapshot(&app);
    backend.fail_start = true;
    assert_eq!(apply(&mut app, &mut backend, PlayerCommand::Next), Err(AppError::Backend));
    assert_eq!(snapshot(&app), before);
    assert_eq!(app.playing_index, 0);
    assert_eq!(app.current_track.as_ref().unwrap().id, "0");
    assert!(app.is_playing);
}

#[test]
fn a_start_outside_the_queue_changes_nothing() {
    let mut app = app_with_queue(2);
    let r = app.complete(Step::Start { index: 2 }, Outcome { succeeded: true, position: 0 });
    assert_eq!(r, Err(AppError::NoTrackLoaded));
    assert!(app.current_track.is_none());
    let r = app.complete(Step::Resume, Outcome { succeeded: true, position: 0 });
    assert_eq!(r, Err(AppError::NoTrackLoaded));
    assert!(!app.is_playing);
}

#[test]
fn track_finished_with_repeat_one_replays_the_same_index() {
    let mut app = app_with_queue(3);
    let mut backend = Backend::new();
    app.queue_tab.index = 1;
    apply(&mut app, &mut backend, PlayerCommand::Play).unwrap();
    app.on_repeat = RepeatMode::One;
    let steps = app.check_track_finished(true, true);
    assert_eq!(steps, vec![Step::ReportCompleted, Step::Start { index: 1 }]);
    for step in steps {
        let outcome = backend.perform(step);
        app.complete(step, outcome).unwrap();
    }
    assert_eq!(app.playing_index, 1);
    assert_eq!(app.current_track.as_ref().unwrap().id, "1");
    assert!(app.is_playing);
}

#[test]
fn track_finished_advances_to_the_successor() {
    let mut app = app_with_queue(3);
    let mut backend = Backend::new();
    apply(&mut app, &mut backend, PlayerCommand::Play).unwrap();
    let steps = app.check_track_finished(true, true);
    assert_eq!(steps, vec![Step::ReportCompleted, Step::Start { index: 1 }]);
    assert_eq!(app.on_track_finished(), Step::Start { index: 1 });
}

#[test]
fn track_finished_with_repeat_all_does_not_wrap() {
    for mode in [RepeatMode::Off, RepeatMode::All] {
        let mut app = app_with_queue(3);
        let mut backend = Backend::new();
        app.queue_tab.index = 2;
        apply(&mut app, &mut backend, PlayerCommand::Play).unwrap();
        app.on_repeat = mode;
        let steps = app.check_track_finished(true, true);
        assert_eq!(steps, vec![Step::ReportCompleted, Step::Clear]);
        for step in steps {
            let outcome = backend.perform(step);
            app.complete(step, outcome).unwrap();
        }
        assert!(!app.is_playing);
        assert!(app.current_track.is_none());
        assert_eq!(app.shared_state.status, PlaybackStatus::Stopped);
        assert_eq!(app.playing_index, 2);
    }
}

#[test]
fn track_finished_needs_a_playing_loaded_track() {
    let mut app = app_with_queue(3);
    let mut backend = Backend::new();
    assert!(app.check_track_finished(true, true).is_empty());
    apply(&mut app, &mut backend, PlayerCommand::Play).unwrap();
    assert!(app.check_track_finished(false, true).is_empty());
    assert!(app.check_track_finished(true, false).is_empty());
    apply(&mut app, &mut backend, PlayerCommand::Pause).unwrap();
    assert!(app.check_track_finished(true, true).is_empty());
}

#[test]
fn position_is_pushed_only_while_playing() {
    let mut app = app_with_queue(1);
    let mut backend = Backend::new();
    app.update_mpris_position(5_000_000);
    assert_eq!(app.shared_state.position, 0);
    apply(&mut app, &mut backend, PlayerCommand::Play).unwrap();
    app.update_mpris_position(5_000_000);
    assert_eq!(app.shared_state.position, 5_000_000);
}

#[test]
fn snapshot_flags_follow_the_queue_cursor() {
    let mut app = app_with_queue(3);
    app.queue_tab.index = 0;
    app.sync_mpris(0);
    assert!(app.shared_state.can_go_next);
    assert!(!app.shared_state.can_go_previous);
    app.queue_tab.index = 2;
    app.sync_mpris(7);
    assert!(!app.shared_state.can_go_next);
    assert!(app.shared_state.can_go_previous);
    assert_eq!(app.shared_state.position, 7);
    let mut empty = App::new();
    empty.sync_mpris(0);
    assert!(!empty.shared_state.can_go_next);
    assert!(!empty.shared_state.can_go_previous);
}

#[test]
fn queue_selection_clamps_a_cursor_past_the_end() {
    let mut app = app_with_queue(3);
    app.queue_tab.index = 10;
    assert_eq!(app.queue_selection(), Some(2));
    app.queue_tab.index = 1;
    assert_eq!(app.queue_selection(), Some(1));
    assert_eq!(App::new().queue_selection(), None);
}

#[test]
fn shuffle_takes_only_a_permutation_of_the_queue() {
    let mut app = app_with_queue(4);
    assert!(!app.set_shuffle(ShuffleMode::On, vec![0, 1, 2]));
    assert!(!app.set_shuffle(ShuffleMode::On, vec![0, 1, 2, 2]));
    assert!(!app.set_shuffle(ShuffleMode::On, vec![0, 1, 2, 4]));
    assert_eq!(app.shuffle_mode, ShuffleMode::Off);
    assert!(app.shuffle_order.is_empty());
    assert!(app.set_shuffle(ShuffleMode::On, vec![2, 0, 3, 1]));
    assert_eq!(app.shuffle_mode, ShuffleMode::On);
    assert_eq!(app.shuffle_order, vec![2, 0, 3, 1]);
    assert_eq!(app.shuffle_pos, 1);
    assert!(app.set_shuffle(ShuffleMode::Off, vec![9, 9]));
    assert_eq!(app.shuffle_mode, ShuffleMode::Off);
    assert!(app.shuffle_order.is_empty());
}

#[test]
fn next_and_previous_walk_the_shuffled_order() {
    let mut app = app_with_queue(4);
    let mut backend = Backend::new();
    app.queue_tab.index = 2;
    apply(&mut app, &mut backend, PlayerCommand::Play).unwrap();
    assert!(app.set_shuffle(ShuffleMode::On, vec![2, 0, 3, 1]));
    assert_eq!(app.shuffle_pos, 0);
    apply(&mut app, &mut backend, PlayerCommand::Next).unwrap();
    assert_eq!(app.playing_index, 0);
    apply(&mut app, &mut backend, PlayerCommand::Next).unwrap();
    assert_eq!(app.playing_index, 3);
    apply(&mut app, &mut backend, PlayerCommand::Previous).unwrap();
    assert_eq!(app.playing_index, 0);
    assert_eq!(app.shuffle_pos, 1);
    apply(&mut app, &mut backend, PlayerCommand::Next).unwrap();
    apply(&mut app, &mut backend, PlayerCommand::Next).unwrap();
    assert_eq!(app.playing_index, 1);
    assert_eq!(app.plan(PlayerCommand::Next, true), Ok(Step::Stop));
}

#[test]
fn a_stale_shuffle_order_is_not_consulted() {
    let mut app = app_with_queue(3);
    let mut backend = Backend::new();
    apply(&mut app, &mut backend, PlayerCommand::Play).unwrap();
    assert!(app.set_shuffle(ShuffleMode::On, vec![2, 1, 0]));
    app.enqueue(vec![track("late")]);
    assert!(!app.shuffling());
    assert_eq!(app.plan(PlayerCommand::Next, true), Ok(Step::Start { index: 1 }));
}

#[test]
fn play_selected_in_the_queue_takes_the_entry() {
    let mut app = app_with_queue(3);
    app.active_section = ActiveSection::Queue;
    assert!(matches!(app.play_selected(2), Selection::Queue { index: 2 }));
    assert!(matches!(app.play_selected(3), Selection::Nothing));
    assert!(matches!(app.play_selected_section(0), Selection::Queue { index: 0 }));
}

#[test]
fn play_selected_in_the_library_depends_on_the_tab() {
    let mut app = App::new();
    app.active_section = ActiveSection::Others;
    app.tracks_tab.data = vec![track("a"), track("b")];
    app.tracks_tab.index = 1;
    app.active_tab = ActiveTab::Songs;
    match app.play_selected(0) {
        Selection::Replace { tracks, index } => {
            assert_eq!(index, 0);
            assert_eq!(tracks.len(), 1);
            assert_eq!(tracks[0].id, "b");
        }
        other => panic!("unexpected selection {:?}", other),
    }
    app.favorite_tab.data = vec![track("f")];
    app.active_tab = ActiveTab::Favorites;
    match app.play_selected(0) {
        Selection::Replace { tracks, index } => {
            assert_eq!(index, 0);
            assert_eq!(tracks[0].id, "f");
        }
        other => panic!("unexpected selection {:?}", other),
    }
    app.search_tab.data = vec![track("x"), track("y"), track("z")];
    app.search_tab.index = 2;
    app.active_tab = ActiveTab::Search;
    match app.play_selected(0) {
        Selection::Replace { tracks, index } => {
            assert_eq!(index, 2);
            let ids: Vec<&str> = tracks.iter().map(|t| t.id.as_str()).collect();
            assert_eq!(ids, vec!["x", "y", "z"]);
        }
        other => panic!("unexpected selection {:?}", other),
    }
    app.active_tab = ActiveTab::Albums;
    assert!(matches!(app.play_selected(0), Selection::Nothing));
    app.album_tab.data = vec![Album {
        id: "al".to_string(),
        name: "n".to_string(),
        artist: "a".to_string(),
    }];
    assert!(matches!(app.play_selected(0), Selection::Fetch(Fetch::Album { index: 0 })));
    app.active_tab = ActiveTab::Artists;
    app.artist_tab.data = vec![Artist { id: "ar".to_string(), name: "n".to_string(), album_count: 1 }];
    assert!(matches!(app.play_selected(0), Selection::Fetch(Fetch::Artist { index: 0 })));
    app.active_tab = ActiveTab::Playlist;
    app.playlist_tab.data = vec![Playlist {
        id: "pl".to_string(),
        name: "n".to_string(),
        song_count: 2,
        duration: 60,
    }];
    assert!(matches!(app.play_selected(0), Selection::Fetch(Fetch::Playlist { index: 0 })));
}

#[test]
fn play_fetched_starts_from_the_first_song() {
    match App::play_fetched(vec![track("a"), track("b")]) {
        Selection::Replace { tracks, index } => {
            assert_eq!(index, 0);
            assert_eq!(tracks.len(), 2);
        }
        other => panic!("unexpected selection {:?}", other),
    }
    assert!(matches!(App::play_fetched(Vec::new()), Selection::Nothing));
}

#[test]
fn start_queue_replaces_the_queue_with_what_plays() {
    let mut app = app_with_queue(2);
    let notices = app.start_queue(vec![track("n0"), track("n1"), track("n2")], 1, 42).unwrap();
    assert_eq!(notices, vec![Notice::PropertiesChanged, Notice::NowPlaying]);
    assert_eq!(app.queue_tab.data.len(), 3);
    assert_eq!(app.queue_tab.index, 1);
    assert_eq!(app.playing_index, 1);
    assert_eq!(app.current_track.as_ref().unwrap().id, "n1");
    assert!(app.is_playing);
    assert_eq!(app.shared_state.position, 42);
    assert_eq!(app.shared_state.status, PlaybackStatus::Playing);
    assert_eq!(app.start_queue(vec![track("z")], 1, 0), Err(AppError::NoTrackLoaded));
    assert_eq!(app.queue_tab.data.len(), 3);
}

#[test]
fn enqueue_appends_in_order() {
    let mut app = app_with_queue(1);
    app.search_tab.data = vec![track("s0"), track("s1")];
    app.search_tab.index = 1;
    app.add_search_result_to_queue();
    app.add_all_search_result_to_queue();
    let ids: Vec<&str> = app.queue_tab.data.iter().map(|t| t.id.as_str()).collect();
    assert_eq!(ids, vec!["0", "s1", "s0", "s1"]);
    app.search_tab.index = 5;
    app.add_search_result_to_queue();
    assert_eq!(app.queue_tab.data.len(), 4);
}

#[test]
fn add_to_queue_adds_or_asks_for_a_fetch() {
    let mut app = App::new();
    app.active_section = ActiveSection::Others;
    app.active_tab = ActiveTab::Songs;
    app.tracks_tab.data = vec![track("a"), track("b")];
    app.tracks_tab.index = 1;
    assert_eq!(app.add_to_queue(), None);
    assert_eq!(app.queue_tab.data.len(), 1);
    assert_eq!(app.queue_tab.data[0].id, "b");
    app.active_tab = ActiveTab::Albums;
    app.album_tab.data = vec![Album {
        id: "al".to_string(),
        name: "n".to_string(),
        artist: "a".to_string(),
    }];
    assert_eq!(app.add_to_queue(), Some(Fetch::Album { index: 0 }));
    assert_eq!(app.queue_tab.data.len(), 1);
    app.active_section = ActiveSection::Queue;
    assert_eq!(app.add_to_queue(), None);
    assert_eq!(app.queue_tab.data.len(), 1);
}

#[test]
fn find_selected_reads_the_cursor_in_use() {
    let mut app = App::new();
    app.queue_tab.index = 4;
    app.tracks_tab.index = 5;
    app.artist_tab.index = 6;
    app.album_tab.index = 7;
    app.playlist_tab.index = 8;
    app.favorite_tab.index = 9;
    app.search_tab.index = 10;
    app.active_section = ActiveSection::Queue;
    assert_eq!(app.find_selected(), 4);
    app.active_section = ActiveSection::Others;
    let expected = [
        (ActiveTab::Songs, 5),
        (ActiveTab::Artists, 6),
        (ActiveTab::Albums, 7),
        (ActiveTab::Playlist, 8),
        (ActiveTab::Favorites, 9),
        (ActiveTab::Search, 10),
    ];
    for (tab, index) in expected {
        app.active_tab = tab;
        assert_eq!(app.find_selected(), index);
    }
}
