use sonicrust::app::playback::{Notice, Outcome, Step};
use sonicrust::app::tick::{Incoming, Request, TickPhase};
use sonicrust::app::{Album, App, AppError, Artist, Playlist, RepeatMode, Track};
use sonicrust::loader::LibraryMessage;
use sonicrust::player::{PlaybackStatus, PlayerCommand};
use std::collections::VecDeque;

fn song(id: &str) -> Track {
    Track {
        id: id.to_string(),
        title: format!("Title {}", id),
        artist: "Artist".to_string(),
        album_artist: None,
        album: "Album".to_string(),
        cover_art: None,
        duration: 1_000_000,
        track_number: None,
        play_count: Some(4),
        genres: Vec::new(),
    }
}

fn app_with_queue(n: usize) -> App {
    let mut app = App::new();
    app.enqueue((0..n).map(|i| song(&i.to_string())).collect());
    app
}

/// Stands for the host: the audio backend and the two channels.
struct Host {
    loaded: bool,
    position: i64,
    finished: bool,
    fail_start: bool,
    performed: Vec<Step>,
    commands: VecDeque<PlayerCommand>,
    messages: VecDeque<Incoming>,
    observed: Vec<PlayerCommand>,
    notices: Vec<Notice>,
    signals: Vec<AppError>,
    requests: Vec<Request>,
}

impl Host {
    fn new() -> Host {
        Host {
            loaded: false,
            position: 0,
            finished: false,
            fail_start: false,
            performed: Vec::new(),
            commands: VecDeque::new(),
            messages: VecDeque::new(),
            observed: Vec::new(),
            notices: Vec::new(),
            signals: Vec::new(),
            requests: Vec::new(),
        }
    }

    fn perform(&mut self, step: Step) -> Outcome {
        self.performed.push(step);
        let mut succeeded = true;
        match step {
            Step::Start { .. } => {
                if self.fail_start {
                    succeeded = false;
                } else {
                    self.loaded = true;
                    self.finished = false;
                    self.position = 0;
                }
            }
            Step::Stop => {
                self.loaded = false;
            }
            Step::SeekAbsolute { seconds } => {
                self.position = seconds as i64 * 1_000_000;
            }
            _ => {}
        }
        Outcome { succeeded, position: self.position }
    }

    fn tick(&mut self, app: &mut App, elapsed_ms: u64) {
        let mut reply = app.update(elapsed_ms);
        loop {
            self.notices.extend(reply.notices.iter().copied());
            if let Some(e) = reply.signal {
                self.signals.push(e);
            }
            self.requests.push(reply.next);
            reply = match reply.next {
                Request::Done => break,
                Request::NextCommand => {
                    let cmd = self.commands.pop_front();
                    if let Some(c) = cmd {
                        self.observed.push(c);
                    }
                    app.on_command(cmd, self.loaded)
                }
                Request::Perform(step) => {
                    let outcome = self.perform(step);
                    app.on_performed(outcome)
                }
                Request::NextMessage => {
                    let incoming = self.messages.pop_front().unwrap_or(Incoming::Empty);
                    app.on_message(incoming)
                }
                Request::PollBackend => app.on_polled(self.finished, self.loaded, self.position),
            };
        }
    }
}

#[test]
fn a_command_is_reflected_after_one_tick_and_applied_once() {
    let mut app = app_with_queue(3);
    let mut host = Host::new();
    host.commands.push_back(PlayerCommand::SetVolume(400_000));
    host.tick(&mut app, 100);
    assert_eq!(app.shared_state.volume, 400_000);
    assert_eq!(host.performed, vec![Step::SetVolume { level: 400_000 }]);
    assert_eq!(host.notices, vec![Notice::VolumeChanged]);
    // nothing is left to drain: further ticks apply nothing
    host.tick(&mut app, 100);
    host.tick(&mut app, 100);
    assert_eq!(host.performed, vec![Step::SetVolume { level: 400_000 }]);
    assert_eq!(host.notices, vec![Notice::VolumeChanged]);
    assert_eq!(app.shared_state.volume, 400_000);
}

#[test]
fn commands_are_applied_in_the_order_of_their_arrival() {
    let mut app = app_with_queue(3);
    let mut host = Host::new();
    host.commands.extend([
        PlayerCommand::Play,
        PlayerCommand::Next,
        PlayerCommand::Next,
        PlayerCommand::Previous,
        PlayerCommand::Pause,
    ]);
    host.tick(&mut app, 100);
    assert_eq!(
        host.performed,
        vec![
            Step::Start { index: 0 },
            Step::Start { index: 1 },
            Step::Start { index: 2 },
            Step::Start { index: 1 },
            Step::Pause,
        ]
    );
    assert_eq!(app.playing_index, 1);
    assert_eq!(app.shared_state.status, PlaybackStatus::Paused);
    assert_eq!(app.tick, TickPhase::Idle);
}

#[test]
fn a_tick_goes_through_its_parts_in_order() {
    let mut app = app_with_queue(2);
    let mut host = Host::new();
    assert!(app.refresh_library());
    host.commands.push_back(PlayerCommand::Play);
    host.messages.push_back(Incoming::Message(LibraryMessage::SongsAppended(vec![song("x")])));
    host.tick(&mut app, 100);
    assert_eq!(
        host.requests,
        vec![
            Request::NextCommand,
            Request::Perform(Step::Start { index: 0 }),
            Request::NextCommand,
            Request::NextMessage,
            Request::NextMessage,
            Request::PollBackend,
            Request::Done,
        ]
    );
}

#[test]
fn an_empty_tick_changes_nothing_but_the_position() {
    let mut app = app_with_queue(2);
    let mut host = Host::new();
    host.commands.push_back(PlayerCommand::Play);
    host.tick(&mut app, 100);
    host.position = 3_000_000;
    host.tick(&mut app, 100);
    assert_eq!(app.shared_state.position, 3_000_000);
    assert_eq!(app.shared_state.status, PlaybackStatus::Playing);
    assert_eq!(app.playing_index, 0);
    assert_eq!(host.performed, vec![Step::Start { index: 0 }]);
}

#[test]
fn signals_are_handed_to_the_host() {
    let mut app = App::new();
    let mut host = Host::new();
    host.commands.extend([
        PlayerCommand::Play,
        PlayerCommand::TogglePlayPause,
        PlayerCommand::Next,
        PlayerCommand::Previous,
    ]);
    host.tick(&mut app, 100);
    assert_eq!(
        host.signals,
        vec![
            AppError::NoTrackLoaded,
            AppError::EmptyQueue,
            AppError::NoTrackLoaded,
            AppError::EmptyQueue,
        ]
    );
    assert!(host.performed.is_empty());
}

#[test]
fn a_backend_failure_is_signalled_and_the_tick_goes_on() {
    let mut app = app_with_queue(2);
    let mut host = Host::new();
    host.fail_start = true;
    host.commands.extend([PlayerCommand::Play, PlayerCommand::SetVolume(1)]);
    host.tick(&mut app, 100);
    assert_eq!(host.signals, vec![AppError::Backend]);
    assert!(app.current_track.is_none());
    assert_eq!(app.shared_state.volume, 1);
    assert_eq!(app.tick, TickPhase::Idle);
}

#[test]
fn the_end_of_a_track_is_reported_before_the_advance() {
    let mut app = app_with_queue(2);
    let mut host = Host::new();
    host.commands.push_back(PlayerCommand::Play);
    host.tick(&mut app, 100);
    host.finished = true;
    host.tick(&mut app, 100);
    assert_eq!(
        host.performed,
        vec![Step::Start { index: 0 }, Step::ReportCompleted, Step::Start { index: 1 }]
    );
    assert_eq!(app.playing_index, 1);
    host.finished = true;
    host.tick(&mut app, 100);
    assert_eq!(host.performed.last(), Some(&Step::Clear));
    assert!(app.current_track.is_none());
    assert_eq!(app.shared_state.status, PlaybackStatus::Stopped);
    // a stopped player does not advance again
    host.finished = true;
    let before = host.performed.len();
    host.tick(&mut app, 100);
    assert_eq!(host.performed.len(), before);
}

#[test]
fn repeat_one_replays_within_a_tick() {
    let mut app = app_with_queue(2);
    let mut host = Host::new();
    host.commands.push_back(PlayerCommand::Play);
    host.tick(&mut app, 100);
    app.on_repeat = RepeatMode::One;
    host.finished = true;
    host.tick(&mut app, 100);
    assert_eq!(
        host.performed,
        vec![Step::Start { index: 0 }, Step::ReportCompleted, Step::Start { index: 0 }]
    );
    assert_eq!(app.playing_index, 0);
    assert!(app.is_playing);
}

#[test]
fn library_messages_are_merged_in_order() {
    let mut app = App::new();
    let mut host = Host::new();
    assert!(app.refresh_library());
    assert!(!app.refresh_library());
    host.messages.push_back(Incoming::Message(LibraryMessage::Loaded {
        songs: vec![song("a"), song("b")],
        artists: vec![Artist { id: "ar".to_string(), name: "n".to_string(), album_count: 2 }],
        albums: vec![Album { id: "al".to_string(), name: "n".to_string(), artist: "x".to_string() }],
        playlists: vec![Playlist {
            id: "pl".to_string(),
            name: "n".to_string(),
            song_count: 1,
            duration: 9,
        }],
        favorites: vec![song("f")],
    }));
    host.messages.push_back(Incoming::Message(LibraryMessage::SongsAppended(vec![song("c")])));
    host.messages.push_back(Incoming::Message(LibraryMessage::SongsAppended(vec![song("d")])));
    host.tick(&mut app, 100);
    let ids: Vec<&str> = app.tracks_tab.data.iter().map(|t| t.id.as_str()).collect();
    assert_eq!(ids, vec!["a", "b", "c", "d"]);
    assert_eq!(app.artist_tab.data.len(), 1);
    assert_eq!(app.album_tab.data.len(), 1);
    assert_eq!(app.playlist_tab.data.len(), 1);
    assert_eq!(app.favorite_tab.data[0].id, "f");
    assert!(app.library_loading);
    assert!(app.library_error.is_none());
}

#[test]
fn a_load_error_is_recorded_and_ends_the_reading() {
    let mut app = App::new();
    let mut host = Host::new();
    app.refresh_library();
    host.messages.push_back(Incoming::Message(LibraryMessage::SongsAppended(vec![song("a")])));
    host.messages.push_back(Incoming::Message(LibraryMessage::Error("no route".to_string())));
    host.messages.push_back(Incoming::Message(LibraryMessage::SongsAppended(vec![song("b")])));
    host.tick(&mut app, 100);
    assert_eq!(app.library_error, Some("no route".to_string()));
    assert!(!app.library_loading);
    assert_eq!(app.tracks_tab.data.len(), 1);
    // what was merged stays usable, and the channel is not read again
    host.tick(&mut app, 100);
    assert_eq!(app.tracks_tab.data.len(), 1);
    assert_eq!(host.messages.len(), 1);
    // a new load can be asked for
    assert!(app.refresh_library());
    assert!(app.library_error.is_none());
}

#[test]
fn a_closed_channel_ends_the_load() {
    let mut app = App::new();
    let mut host = Host::new();
    app.refresh_library();
    host.messages.push_back(Incoming::Closed);
    host.tick(&mut app, 100);
    assert!(!app.library_loading);
    assert!(app.library_error.is_none());
}

#[test]
fn a_notification_expires_after_its_time() {
    let mut app = App::new();
    let mut host = Host::new();
    app.notify("added to queue".to_string(), 250);
    host.tick(&mut app, 100);
    assert_eq!(app.widget_notification.as_ref().unwrap().age_ms, 100);
    host.tick(&mut app, 150);
    assert_eq!(app.widget_notification.as_ref().unwrap().age_ms, 250);
    assert_eq!(app.widget_notification.as_ref().unwrap().message, "added to queue");
    host.tick(&mut app, 1);
    assert!(app.widget_notification.is_none());
    app.notify("again".to_string(), 10);
    host.tick(&mut app, u64::MAX);
    assert!(app.widget_notification.is_none());
}

#[test]
fn events_out_of_turn_change_nothing() {
    let mut app = app_with_queue(2);
    let reply = app.on_command(Some(PlayerCommand::Play), false);
    assert_eq!(reply.next, Request::Done);
    assert!(app.current_track.is_none());
    let reply = app.on_performed(Outcome { succeeded: true, position: 9 });
    assert_eq!(reply.next, Request::Done);
    let reply = app.on_polled(true, true, 9);
    assert_eq!(reply.next, Request::Done);
    let reply = app.on_message(Incoming::Message(LibraryMessage::SongsAppended(vec![song("a")])));
    assert_eq!(reply.next, Request::Done);
    assert!(app.tracks_tab.data.is_empty());
    assert_eq!(app.shared_state.position, 0);
}

#[test]
fn an_overflowing_command_channel_drops_what_does_not_fit() {
    let (tx, mut rx) = tokio::sync::mpsc::channel::<PlayerCommand>(32);
    let mut accepted = 0;
    for i in 0..40i64 {
        if tx.try_send(PlayerCommand::SetVolume(i * 1000)).is_ok() {
            accepted += 1;
        }
    }
    assert_eq!(accepted, 32);
    let mut app = App::new();
    let mut host = Host::new();
    while let Ok(cmd) = rx.try_recv() {
        host.commands.push_back(cmd);
    }
    host.tick(&mut app, 100);
    assert!(host.observed.len() <= 32);
    assert_eq!(host.observed.len(), 32);
    assert_eq!(host.observed[0], PlayerCommand::SetVolume(0));
    assert_eq!(host.observed[31], PlayerCommand::SetVolume(31_000));
    assert_eq!(app.shared_state.volume, 31_000);
}
