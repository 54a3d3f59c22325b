//! One tick of the orchestrator. The host asks what is to be done, does it,
//! and reports what came of it; the tick moves through its parts in a fixed
//! order: the commands that arrived, the messages of the library load, the end
//! of the track, the position, and the message on the screen.

use vstd::prelude::*;
use crate::app::navigation::TabView;
use crate::app::playback::{
    Notice, Outcome, Step, advance_step, announced, completed, planned, track_ended,
};
use crate::app::{
    App, AppError, AppView, WidgetNotification, WidgetNotificationView, track_views,
};
use crate::loader::{LibraryMessage, LibraryMessageView};
use crate::player::{PlayerCommand, PlayerStateView};

verus! {

/// Where a tick stands.
#[derive(Debug, Clone, Copy, PartialEq, Eq, Structural)]
pub enum TickPhase {
    /// No tick is in progress.
    Idle,
    /// The commands that arrived are taken one by one.
    Commands,
    /// The host performs the step of a command.
    CommandStep(Step),
    /// The messages of the library load are taken one by one.
    Library,
    /// The host asks the backend whether the track has ended.
    Poll,
    /// The host reports the end of the track; the step held here follows.
    Report(Step),
    /// The host performs the step that follows the end of the track.
    Advance(Step),
}

/// What the host is to do next.
#[derive(Debug, Clone, Copy, PartialEq, Eq, Structural)]
pub enum Request {
    /// Take the next command from the channel, without waiting, and hand it
    /// to `on_command`; hand over `None` when the channel is empty.
    NextCommand,
    /// Perform the step and hand what came of it to `on_performed`.
    Perform(Step),
    /// Take the next message of the library load, without waiting, and hand
    /// it to `on_message`.
    NextMessage,
    /// Ask the backend and hand its answers to `on_polled`.
    PollBackend,
    /// The tick is over.
    Done,
}

/// What the channel of the library load gave.
#[derive(Debug)]
pub enum Incoming {
    Message(LibraryMessage),
    /// No message is waiting.
    Empty,
    /// The loader is gone.
    Closed,
}

/// What the channel of the library load gave, as mathematical values.
pub enum IncomingView {
    Message(LibraryMessageView),
    Empty,
    Closed,
}

impl View for Incoming {
    type V = IncomingView;

    open spec fn view(&self) -> IncomingView {
        match *self {
            Incoming::Message(m) => IncomingView::Message(m@),
            Incoming::Empty => IncomingView::Empty,
            Incoming::Closed => IncomingView::Closed,
        }
    }
}

/// The orchestrator's answer to the host.
#[derive(Debug)]
pub struct TickReply {
    /// What the host is to do next.
    pub next: Request,
    /// What the host is to announce, in this order.
    pub notices: Vec<Notice>,
    /// An expected failure, for the screen.
    pub signal: Option<AppError>,
}

/// The orchestrator's answer, as mathematical values.
pub struct TickReplyView {
    pub next: Request,
    pub notices: Seq<Notice>,
    pub signal: Option<AppError>,
}

impl View for TickReply {
    type V = TickReplyView;

    open spec fn view(&self) -> TickReplyView {
        TickReplyView { next: self.next, notices: self.notices@, signal: self.signal }
    }
}

/// What the host is to do in a phase.
pub open spec fn request_of(phase: TickPhase) -> Request {
    match phase {
        TickPhase::Idle => Request::Done,
        TickPhase::Commands => Request::NextCommand,
        TickPhase::CommandStep(step) => Request::Perform(step),
        TickPhase::Library => Request::NextMessage,
        TickPhase::Poll => Request::PollBackend,
        TickPhase::Report(_) => Request::Perform(Step::ReportCompleted),
        TickPhase::Advance(step) => Request::Perform(step),
    }
}

/// An answer that announces nothing.
pub open spec fn quiet(a: AppView) -> TickReplyView {
    TickReplyView { next: request_of(a.tick), notices: Seq::empty(), signal: None }
}

/// The state at the beginning of a tick that comes `elapsed_ms` after the
/// tick before.
pub open spec fn begun(a: AppView, elapsed_ms: u64) -> AppView {
    AppView { tick: TickPhase::Commands, tick_elapsed_ms: elapsed_ms, ..a }
}

/// The state after the channel of the commands was found empty: the messages
/// of the library load are next while a load is in flight, else the backend
/// is asked.
pub open spec fn commands_drained(a: AppView) -> AppView {
    AppView {
        tick: if a.library_loading {
            TickPhase::Library
        } else {
            TickPhase::Poll
        },
        ..a
    }
}

/// The state after a command was taken from the channel. A command that asks
/// for a step has the host perform it; one that asks for nothing leaves the
/// state as it is. Outside the draining of commands nothing changes.
pub open spec fn command_taken(
    a: AppView,
    cmd: Option<PlayerCommand>,
    backend_loaded: bool,
) -> AppView {
    if a.tick != TickPhase::Commands {
        a
    } else {
        match cmd {
            None => commands_drained(a),
            Some(c) => match planned(a, c, backend_loaded) {
                Ok(step) => AppView { tick: TickPhase::CommandStep(step), ..a },
                Err(_) => a,
            },
        }
    }
}

/// The signal that taking a command gives.
pub open spec fn command_signal(
    a: AppView,
    cmd: Option<PlayerCommand>,
    backend_loaded: bool,
) -> Option<AppError> {
    if a.tick != TickPhase::Commands {
        None
    } else {
        match cmd {
            None => None,
            Some(c) => match planned(a, c, backend_loaded) {
                Ok(_) => None,
                Err(e) => Some(e),
            },
        }
    }
}

/// The state with the backend's position written into the snapshot, if a
/// track is playing.
pub open spec fn position_synced(a: AppView, position: i64) -> AppView {
    if a.is_playing {
        AppView { shared: PlayerStateView { position, ..a.shared }, ..a }
    } else {
        a
    }
}

/// The message on the screen after `elapsed_ms` more: gone once it has been
/// shown for longer than it was to be shown.
pub open spec fn aged(n: Option<WidgetNotificationView>, elapsed_ms: u64) -> Option<
    WidgetNotificationView,
> {
    match n {
        Some(w) => if w.age_ms + elapsed_ms > w.duration_ms {
            None
        } else {
            Some(WidgetNotificationView { age_ms: (w.age_ms + elapsed_ms) as u64, ..w })
        },
        None => None,
    }
}

/// The state at the end of a tick: the position is written if a track is
/// playing, the message on the screen has aged, and no tick is in progress.
pub open spec fn tick_ended(a: AppView, position: i64) -> AppView {
    let b = position_synced(a, position);
    AppView { notification: aged(b.notification, b.tick_elapsed_ms), tick: TickPhase::Idle, ..b }
}

/// The state after the host reported what came of the step it was asked to
/// perform. The step of a command is completed, and the next command is
/// taken. The report of a track's end is followed by the advance, whether the
/// report went through or not. The advance is completed, and the tick ends.
/// Where no step was asked for, nothing changes.
pub open spec fn performed(a: AppView, o: Outcome) -> AppView {
    match a.tick {
        TickPhase::CommandStep(step) => AppView {
            tick: TickPhase::Commands,
            ..completed(a, step, o)
        },
        TickPhase::Report(step) => AppView { tick: TickPhase::Advance(step), ..a },
        TickPhase::Advance(step) => tick_ended(completed(a, step, o), o.position),
        _ => a,
    }
}

/// What is announced after the host reported what came of a step.
pub open spec fn performed_reply(a: AppView, o: Outcome) -> TickReplyView {
    let next = request_of(performed(a, o).tick);
    let said = match a.tick {
        TickPhase::CommandStep(step) => announced(a, step, o),
        TickPhase::Advance(step) => announced(a, step, o),
        _ => Ok(Seq::empty()),
    };
    match said {
        Ok(notices) => TickReplyView { next, notices, signal: None },
        Err(e) => TickReplyView { next, notices: Seq::empty(), signal: Some(e) },
    }
}

/// The catalog after a message of the library load was merged into it. The
/// first message replaces every list; a later one adds songs; an error is
/// recorded, and the load is over. The cursors of the lists stay.
pub open spec fn merged(a: AppView, m: LibraryMessageView) -> AppView {
    match m {
        LibraryMessageView::Loaded { songs, artists, albums, playlists, favorites } => AppView {
            tracks: TabView { data: songs, ..a.tracks },
            artists: TabView { data: artists, ..a.artists },
            albums: TabView { data: albums, ..a.albums },
            playlists: TabView { data: playlists, ..a.playlists },
            favorites: TabView { data: favorites, ..a.favorites },
            ..a
        },
        LibraryMessageView::SongsAppended(songs) => AppView {
            tracks: TabView { data: a.tracks.data + songs, ..a.tracks },
            ..a
        },
        LibraryMessageView::Error(reason) => AppView {
            library_error: Some(reason),
            library_loading: false,
            ..a
        },
    }
}

/// The state after the channel of the library load was asked. A message is
/// merged, and the next one is taken, unless it was an error. An empty
/// channel ends the draining; a closed one ends the load as well. Outside the
/// draining of messages nothing changes.
pub open spec fn message_taken(a: AppView, incoming: IncomingView) -> AppView {
    if a.tick != TickPhase::Library {
        a
    } else {
        match incoming {
            IncomingView::Message(m) => AppView {
                tick: if m is Error {
                    TickPhase::Poll
                } else {
                    TickPhase::Library
                },
                ..merged(a, m)
            },
            IncomingView::Empty => AppView { tick: TickPhase::Poll, ..a },
            IncomingView::Closed => AppView { library_loading: false, tick: TickPhase::Poll, ..a },
        }
    }
}

/// The state after the backend was asked. If a playing track reached its end,
/// the host reports it and then advances; else the tick ends. Outside its
/// turn nothing changes.
pub open spec fn polled(a: AppView, finished: bool, backend_loaded: bool, position: i64) -> AppView {
    if a.tick != TickPhase::Poll {
        a
    } else if track_ended(a, finished, backend_loaded) {
        AppView { tick: TickPhase::Report(advance_step(a)), ..a }
    } else {
        tick_ended(a, position)
    }
}

/// The state once a load of the library was asked for: a load is in flight.
pub open spec fn load_requested(a: AppView) -> AppView {
    AppView { library_loading: true, library_error: None, ..a }
}

impl App {
    fn reply(&self) -> (r: TickReply)
        ensures
            r@ == quiet(self@),
    {
        let next = match self.tick {
            TickPhase::Idle => Request::Done,
            TickPhase::Commands => Request::NextCommand,
            TickPhase::CommandStep(step) => Request::Perform(step),
            TickPhase::Library => Request::NextMessage,
            TickPhase::Poll => Request::PollBackend,
            TickPhase::Report(_) => Request::Perform(Step::ReportCompleted),
            TickPhase::Advance(step) => Request::Perform(step),
        };
        TickReply { next, notices: Vec::new(), signal: None }
    }

    /// Begins a tick, `elapsed_ms` after the tick before. The commands are
    /// first.
    pub fn update(&mut self, elapsed_ms: u64) -> (r: TickReply)
        ensures
            final(self)@ == begun(old(self)@, elapsed_ms),
            r@ == quiet(final(self)@),
            r.next == Request::NextCommand,
    {
        self.tick = TickPhase::Commands;
        self.tick_elapsed_ms = elapsed_ms;
        self.reply()
    }

    /// Takes the next command of the channel, or learns that the channel is
    /// empty. Each command that is handed over is applied once, in the order
    /// of the calls.
    pub fn on_command(&mut self, cmd: Option<PlayerCommand>, backend_loaded: bool) -> (r: TickReply)
        ensures
            final(self)@ == command_taken(old(self)@, cmd, backend_loaded),
            r@ == (TickReplyView {
                signal: command_signal(old(self)@, cmd, backend_loaded),
                ..quiet(final(self)@)
            }),
    {
        match self.tick {
            TickPhase::Commands => {},
            _ => {
                return self.reply();
            },
        }
        match cmd {
            None => {
                self.tick = if self.library_loading {
                    TickPhase::Library
                } else {
                    TickPhase::Poll
                };
                self.reply()
            },
            Some(c) => match self.plan(c, backend_loaded) {
                Ok(step) => {
                    self.tick = TickPhase::CommandStep(step);
                    self.reply()
                },
                Err(e) => {
                    let mut r = self.reply();
                    r.signal = Some(e);
                    r
                },
            },
        }
    }

    /// Learns what came of the step that the host was asked to perform.
    pub fn on_performed(&mut self, outcome: Outcome) -> (r: TickReply)
        ensures
            final(self)@ == performed(old(self)@, outcome),
            r@ == performed_reply(old(self)@, outcome),
    {
        match self.tick {
            TickPhase::CommandStep(step) => {
                let said = self.complete(step, outcome);
                self.tick = TickPhase::Commands;
                self.said(said)
            },
            TickPhase::Report(step) => {
                self.tick = TickPhase::Advance(step);
                self.reply()
            },
            TickPhase::Advance(step) => {
                let said = self.complete(step, outcome);
                self.end_tick(outcome.position);
                self.said(said)
            },
            _ => self.reply(),
        }
    }

    fn said(&self, said: Result<Vec<Notice>, AppError>) -> (r: TickReply)
        ensures
            r@ == match said {
                Ok(notices) => TickReplyView {
                    next: request_of(self@.tick),
                    notices: notices@,
                    signal: None,
                },
                Err(e) => TickReplyView {
                    next: request_of(self@.tick),
                    notices: Seq::empty(),
                    signal: Some(e),
                },
            },
    {
        let mut r = self.reply();
        match said {
            Ok(notices) => {
                r.notices = notices;
            },
            Err(e) => {
                r.signal = Some(e);
            },
        }
        r
    }

    fn end_tick(&mut self, position: i64)
        ensures
            final(self)@ == tick_ended(old(self)@, position),
    {
        self.update_mpris_position(position);
        self.expire_notification();
        self.tick = TickPhase::Idle;
    }

    /// Ages the message on the screen by the time of this tick and removes it
    /// once it has been shown for longer than it was to be shown.
    pub fn expire_notification(&mut self)
        ensures
            final(self)@ == (AppView {
                notification: aged(old(self)@.notification, old(self)@.tick_elapsed_ms),
                ..old(self)@
            }),
    {
        let elapsed = self.tick_elapsed_ms;
        let mut current: Option<WidgetNotification> = None;
        core::mem::swap(&mut current, &mut self.widget_notification);
        match current {
            Some(w) => {
                if elapsed <= u64::MAX - w.age_ms && w.age_ms + elapsed <= w.duration_ms {
                    self.widget_notification = Some(
                        WidgetNotification {
                            message: w.message,
                            age_ms: w.age_ms + elapsed,
                            duration_ms: w.duration_ms,
                        },
                    );
                }
            },
            None => {},
        }
    }

    /// Shows a message on the screen for `duration_ms`.
    pub fn notify(&mut self, message: String, duration_ms: u64)
        ensures
            final(self)@ == (AppView {
                notification: Some(
                    WidgetNotificationView { message: message@, age_ms: 0, duration_ms },
                ),
                ..old(self)@
            }),
    {
        self.widget_notification = Some(WidgetNotification { message, age_ms: 0, duration_ms });
    }

    /// Merges a message of the library load into the catalog.
    pub fn merge_library(&mut self, message: LibraryMessage)
        ensures
            final(self)@ == merged(old(self)@, message@),
    {
        match message {
            LibraryMessage::Loaded { songs, artists, albums, playlists, favorites } => {
                self.tracks_tab.data = songs;
                self.artist_tab.data = artists;
                self.album_tab.data = albums;
                self.playlist_tab.data = playlists;
                self.favorite_tab.data = favorites;
            },
            LibraryMessage::SongsAppended(songs) => {
                let ghost added = songs@;
                let mut songs = songs;
                self.tracks_tab.data.append(&mut songs);
                assert(track_views(self.tracks_tab.data@) =~= track_views(
                    old(self).tracks_tab.data@,
                ) + track_views(added));
            },
            LibraryMessage::Error(reason) => {
                self.library_error = Some(reason);
                self.library_loading = false;
            },
        }
    }

    /// Takes what the channel of the library load gave.
    pub fn on_message(&mut self, incoming: Incoming) -> (r: TickReply)
        ensures
            final(self)@ == message_taken(old(self)@, incoming@),
            r@ == quiet(final(self)@),
    {
        match self.tick {
            TickPhase::Library => {},
            _ => {
                return self.reply();
            },
        }
        match incoming {
            Incoming::Message(m) => {
                let failed = match &m {
                    LibraryMessage::Error(_) => true,
                    _ => false,
                };
                self.merge_library(m);
                if failed {
                    self.tick = TickPhase::Poll;
                }
            },
            Incoming::Empty => {
                self.tick = TickPhase::Poll;
            },
            Incoming::Closed => {
                self.library_loading = false;
                self.tick = TickPhase::Poll;
            },
        }
        self.reply()
    }

    /// Takes the backend's answers: whether the stream reached its end,
    /// whether a stream is loaded, and the position.
    pub fn on_polled(&mut self, finished: bool, backend_loaded: bool, position: i64) -> (r:
        TickReply)
        ensures
            final(self)@ == polled(old(self)@, finished, backend_loaded, position),
            r@ == quiet(final(self)@),
    {
        match self.tick {
            TickPhase::Poll => {},
            _ => {
                return self.reply();
            },
        }
        if self.is_playing && self.current_track.is_some() && finished && backend_loaded {
            let step = self.on_track_finished();
            self.tick = TickPhase::Report(step);
        } else {
            self.end_tick(position);
        }
        self.reply()
    }

    /// Asks for a load of the library. While a load is in flight the request
    /// is ignored. Returns whether the host is to start a loader.
    pub fn refresh_library(&mut self) -> (start: bool)
        ensures
            start == !old(self)@.library_loading,
            start ==> final(self)@ == load_requested(old(self)@),
            !start ==> final(self)@ == old(self)@,
    {
        if self.library_loading {
            false
        } else {
            self.library_loading = true;
            self.library_error = None;
            true
        }
    }
}

/// A tick in which no command and no message arrives and no track ends
/// applies nothing: the state at its end is the state at its beginning, but
/// for the position, which is written if a track is playing, the age of the
/// message on the screen, and the time that the tick took.
pub proof fn lemma_empty_tick_applies_nothing(
    a: AppView,
    elapsed_ms: u64,
    backend_loaded: bool,
    finished: bool,
    position: i64,
)
    requires
        !track_ended(a, finished, backend_loaded),
    ensures
        ({
            let drained = command_taken(begun(a, elapsed_ms), None, backend_loaded);
            let quiet_library = message_taken(drained, IncomingView::Empty);
            let end = polled(quiet_library, finished, backend_loaded, position);
            end == (AppView {
                shared: position_synced(a, position).shared,
                notification: aged(a.notification, elapsed_ms),
                tick: TickPhase::Idle,
                tick_elapsed_ms: elapsed_ms,
                ..a
            })
        }),
{
}

/// The phase of the tick has no part in what a step's completion does.
pub proof fn lemma_completion_ignores_phase(a: AppView, phase: TickPhase, step: Step, o: Outcome)
    ensures
        completed(AppView { tick: phase, ..a }, step, o) == (AppView {
            tick: phase,
            ..completed(a, step, o)
        }),
        announced(AppView { tick: phase, ..a }, step, o) == announced(a, step, o),
{
    let b = AppView { tick: phase, ..a };
    match step {
        Step::Resume => {
            assert(completed(b, step, o) == (AppView { tick: phase, ..completed(a, step, o) }));
        },
        Step::Pause => {
            assert(completed(b, step, o) == (AppView { tick: phase, ..completed(a, step, o) }));
        },
        Step::Stop => {
            assert(completed(b, step, o) == (AppView { tick: phase, ..completed(a, step, o) }));
        },
        Step::Clear => {
            assert(completed(b, step, o) == (AppView { tick: phase, ..completed(a, step, o) }));
        },
        Step::Start { index } => {
            assert(completed(b, step, o) == (AppView { tick: phase, ..completed(a, step, o) }));
        },
        Step::SetVolume { level } => {
            assert(completed(b, step, o) == (AppView { tick: phase, ..completed(a, step, o) }));
        },
        Step::SeekRelative { offset } => {
            assert(completed(b, step, o) == (AppView { tick: phase, ..completed(a, step, o) }));
        },
        Step::SeekAbsolute { seconds } => {
            assert(completed(b, step, o) == (AppView { tick: phase, ..completed(a, step, o) }));
        },
        Step::ReportCompleted => {
            assert(completed(b, step, o) == (AppView { tick: phase, ..completed(a, step, o) }));
        },
    }
}

/// A command that is taken in a tick is applied once: the host is asked to
/// perform its step, the state after that is the state that the step's
/// completion gives, and the tick waits for the next command. A command that
/// asks for nothing changes nothing.
pub proof fn lemma_command_applied_once(
    a: AppView,
    cmd: PlayerCommand,
    backend_loaded: bool,
    o: Outcome,
)
    requires
        a.tick == TickPhase::Commands,
    ensures
        match planned(a, cmd, backend_loaded) {
            Ok(step) => performed(command_taken(a, Some(cmd), backend_loaded), o) == completed(
                a,
                step,
                o,
            ) && request_of(command_taken(a, Some(cmd), backend_loaded).tick) == Request::Perform(
                step,
            ),
            Err(_) => command_taken(a, Some(cmd), backend_loaded) == a,
        },
{
    match planned(a, cmd, backend_loaded) {
        Ok(step) => {
            let taken = AppView { tick: TickPhase::CommandStep(step), ..a };
            assert(command_taken(a, Some(cmd), backend_loaded) == taken);
            lemma_completion_ignores_phase(a, TickPhase::CommandStep(step), step, o);
            lemma_completion_ignores_phase(a, TickPhase::Commands, step, o);
            assert((AppView { tick: TickPhase::Commands, ..a }) == a);
        },
        Err(_) => {},
    }
}

} // verus!
