//! The orchestrator's decisions. A transport command, or the end of a track,
//! is first turned into a step for the audio backend; the host performs the
//! step and reports how it went; the state and the published snapshot are then
//! brought up to date in one piece. Nothing here waits or performs I/O.

use vstd::prelude::*;
use crate::app::{App, AppError, AppView, RepeatMode, ShuffleMode, TrackView, VolumeDirection};
use crate::mpris_handler::{MetadataView, metadata_of, track_to_metadata};
use crate::player::{
    PlaybackStatus, PlayerCommand, PlayerState, PlayerStateView, VOLUME_MAX, clamp_volume,
    clamped_volume,
};

verus! {

/// Seconds moved by one seek key.
pub const SEEK_STEP_SECONDS: i64 = 5;

/// Volume moved by one volume key: a tenth of full volume.
pub const VOLUME_STEP: i64 = 100_000;

/// Work for the host to perform, mostly on the audio backend.
#[derive(Debug, Clone, Copy, PartialEq, Eq, Structural)]
pub enum Step {
    /// Continue the loaded stream.
    Resume,
    /// Hold the loaded stream.
    Pause,
    /// Halt the backend.
    Stop,
    /// Resolve the streaming locator of the queue entry `index`, load it, and
    /// play it.
    Start { index: usize },
    /// Nothing to do on the backend; the current track is to be forgotten.
    Clear,
    /// Set the backend's volume, in millionths of full volume.
    SetVolume { level: i64 },
    /// Seek by a signed number of seconds.
    SeekRelative { offset: i64 },
    /// Seek to a number of seconds from the start.
    SeekAbsolute { seconds: u64 },
    /// Tell the remote service that the current track was played to its end.
    ReportCompleted,
}

/// What the host observed when it performed a step.
#[derive(Debug, Clone, Copy, PartialEq, Eq, Structural)]
pub struct Outcome {
    /// The step was carried out. Only a `Start` is undone by a failure.
    pub succeeded: bool,
    /// The backend's position after the step, in microseconds.
    pub position: i64,
}

/// What the host announces after a step has been completed.
#[derive(Debug, Clone, Copy, PartialEq, Eq, Structural)]
pub enum Notice {
    /// Status, metadata and the two navigation flags of the snapshot changed.
    PropertiesChanged,
    /// The volume of the snapshot changed.
    VolumeChanged,
    /// A track has just started: show it on the desktop and tell the remote
    /// service. Best effort; a failure changes nothing.
    NowPlaying,
}

/// The playback status that a state amounts to: playing if the playing flag is
/// set, paused if a track is loaded and it is not, stopped otherwise.
pub open spec fn status_of(a: AppView) -> PlaybackStatus {
    if a.is_playing {
        PlaybackStatus::Playing
    } else if a.current_track is Some {
        PlaybackStatus::Paused
    } else {
        PlaybackStatus::Stopped
    }
}

/// The metadata that a state publishes: that of the loaded track.
pub open spec fn metadata_for(t: Option<TrackView>) -> Option<MetadataView> {
    match t {
        Some(x) => Some(metadata_of(x)),
        None => None,
    }
}

/// The state after its snapshot was written anew at backend position
/// `position`. Status and metadata are those of the state; the two navigation
/// flags say whether the queue holds an entry behind its cursor and one
/// before it. The volume of the snapshot is written only when the volume is
/// set.
pub open spec fn synced(a: AppView, position: i64) -> AppView {
    AppView {
        shared: PlayerStateView {
            status: status_of(a),
            metadata: metadata_for(a.current_track),
            volume: a.shared.volume,
            can_go_next: a.queue.index + 1 < a.queue.data.len(),
            can_go_previous: a.queue.index > 0,
            position,
        },
        ..a
    }
}

/// The queue entry that the queue's cursor selects: the entry under it, or
/// the last one when the cursor stands past the end. An empty queue selects
/// nothing.
pub open spec fn queue_selection(a: AppView) -> Option<usize> {
    if a.queue.data.len() == 0 {
        None
    } else if a.queue.index < a.queue.data.len() {
        Some(a.queue.index)
    } else {
        Some((a.queue.data.len() - 1) as usize)
    }
}

/// The step for `Play`: resume what is loaded, else start the queue
/// selection, else nothing, with the signal that no track is loaded.
pub open spec fn play_step(a: AppView, backend_loaded: bool) -> Result<Step, AppError> {
    if a.current_track is Some && backend_loaded {
        Ok(Step::Resume)
    } else {
        match queue_selection(a) {
            Some(i) => Ok(Step::Start { index: i }),
            None => Err(AppError::NoTrackLoaded),
        }
    }
}

/// The step for `Pause`: pause if a track is loaded, else nothing.
pub open spec fn pause_step(a: AppView) -> Result<Step, AppError> {
    if a.current_track is Some {
        Ok(Step::Pause)
    } else {
        Err(AppError::NoTrackLoaded)
    }
}

/// The step for `TogglePlayPause`: pause while playing, play while paused,
/// and with nothing loaded start the queue selection.
pub open spec fn toggle_step(a: AppView, backend_loaded: bool) -> Result<Step, AppError> {
    if a.is_playing {
        pause_step(a)
    } else if a.current_track is Some {
        play_step(a, backend_loaded)
    } else {
        match queue_selection(a) {
            Some(i) => Ok(Step::Start { index: i }),
            None => Err(AppError::EmptyQueue),
        }
    }
}

/// Whether `order` lists each of the positions below its length once.
pub open spec fn is_permutation(order: Seq<usize>) -> bool {
    &&& forall|i: int| 0 <= i < order.len() ==> (#[trigger] order[i]) < order.len()
    &&& forall|i: int, j: int|
        0 <= i < j < order.len() ==> (#[trigger] order[i]) != (#[trigger] order[j])
}

/// Whether the queue is walked in the shuffled order: shuffling is on, and
/// the order was made for a queue of this length.
pub open spec fn shuffling(a: AppView) -> bool {
    a.shuffle_mode == ShuffleMode::On && a.shuffle_order.len() == a.queue.data.len()
}

/// The first place at which `x` stands in `order`.
pub open spec fn place_in(order: Seq<usize>, x: usize) -> Option<usize>
    decreases order.len(),
{
    if order.len() == 0 {
        None
    } else {
        match place_in(order.drop_last(), x) {
            Some(p) => Some(p),
            None => if order.last() == x {
                Some((order.len() - 1) as usize)
            } else {
                None
            },
        }
    }
}

/// The queue entry that follows the loaded one: the next position of the
/// queue, or the next entry of the shuffled order while the queue is
/// shuffled. `None` where the queue ends.
pub open spec fn successor(a: AppView) -> Option<usize> {
    if shuffling(a) {
        if a.shuffle_pos + 1 < a.shuffle_order.len() && a.shuffle_order[a.shuffle_pos + 1]
            < a.queue.data.len() {
            Some(a.shuffle_order[a.shuffle_pos + 1])
        } else {
            None
        }
    } else if a.playing_index + 1 < a.queue.data.len() {
        Some((a.playing_index + 1) as usize)
    } else {
        None
    }
}

/// The queue entry that precedes the loaded one, in the order in which the
/// queue is walked. `None` where the queue begins.
pub open spec fn predecessor(a: AppView) -> Option<usize> {
    if shuffling(a) {
        if 0 < a.shuffle_pos <= a.shuffle_order.len() && a.shuffle_order[a.shuffle_pos - 1]
            < a.queue.data.len() {
            Some(a.shuffle_order[a.shuffle_pos - 1])
        } else {
            None
        }
    } else if 0 < a.playing_index <= a.queue.data.len() {
        Some((a.playing_index - 1) as usize)
    } else {
        None
    }
}

/// The step for `Next`: start the successor of the loaded entry, or stop
/// where there is none.
pub open spec fn next_step(a: AppView) -> Result<Step, AppError> {
    if a.current_track is None {
        Err(AppError::NoTrackLoaded)
    } else if a.queue.data.len() == 0 {
        Err(AppError::EmptyQueue)
    } else {
        match successor(a) {
            Some(i) => Ok(Step::Start { index: i }),
            None => Ok(Step::Stop),
        }
    }
}

/// The step for `Previous`: start the predecessor of the loaded entry, or
/// stop where there is none.
pub open spec fn previous_step(a: AppView) -> Result<Step, AppError> {
    if a.queue.data.len() == 0 {
        Err(AppError::EmptyQueue)
    } else {
        match predecessor(a) {
            Some(i) => Ok(Step::Start { index: i }),
            None => Ok(Step::Stop),
        }
    }
}

/// The place in the shuffled order after the queue entry `index` was
/// started: the place of that entry while the queue is shuffled and the order
/// holds it, else the place as it was.
pub open spec fn shuffle_place(a: AppView, index: usize) -> usize {
    if shuffling(a) {
        match place_in(a.shuffle_order, index) {
            Some(p) => p,
            None => a.shuffle_pos,
        }
    } else {
        a.shuffle_pos
    }
}

/// The state with entry `index` of the queue as the loaded track.
pub open spec fn with_current(a: AppView, index: usize) -> AppView {
    AppView {
        is_playing: true,
        current_track: Some(a.queue.data[index as int]),
        playing_index: index,
        shuffle_pos: shuffle_place(a, index),
        ..a
    }
}

/// The state after the order of shuffling was set. Turning shuffling off
/// forgets the order. Turning it on takes `order` if it lists each position
/// of the queue once, and finds the loaded entry in it; any other order
/// changes nothing.
pub open spec fn shuffle_set(a: AppView, mode: ShuffleMode, order: Seq<usize>) -> AppView {
    match mode {
        ShuffleMode::Off => AppView {
            shuffle_mode: ShuffleMode::Off,
            shuffle_order: Seq::empty(),
            shuffle_pos: 0,
            ..a
        },
        ShuffleMode::On => if is_permutation(order) && order.len() == a.queue.data.len() {
            AppView {
                shuffle_mode: ShuffleMode::On,
                shuffle_order: order,
                shuffle_pos: match place_in(order, a.playing_index) {
                    Some(p) => p,
                    None => 0,
                },
                ..a
            }
        } else {
            a
        },
    }
}

/// The step that a command asks for in state `a`, or the signal that it asks
/// for nothing. `backend_loaded` says whether the backend holds a stream.
pub open spec fn planned(a: AppView, cmd: PlayerCommand, backend_loaded: bool) -> Result<
    Step,
    AppError,
> {
    match cmd {
        PlayerCommand::Play => play_step(a, backend_loaded),
        PlayerCommand::Pause => pause_step(a),
        PlayerCommand::Stop => Ok(Step::Stop),
        PlayerCommand::TogglePlayPause => toggle_step(a, backend_loaded),
        PlayerCommand::Next => next_step(a),
        PlayerCommand::Previous => previous_step(a),
        PlayerCommand::SetVolume(v) => Ok(Step::SetVolume { level: clamped_volume(v as int) as i64 }),
        PlayerCommand::SeekRelative(d) => Ok(Step::SeekRelative { offset: d }),
        PlayerCommand::SeekAbsolute(s) => Ok(Step::SeekAbsolute { seconds: s }),
    }
}

/// The state after the host has performed `step` with outcome `o`.
///
/// A `Start` that failed, or that names no queue entry, and a `Resume` with no
/// track loaded leave the state as it was. A seek writes the position that the
/// backend reported, not the one that was asked for.
pub open spec fn completed(a: AppView, step: Step, o: Outcome) -> AppView {
    match step {
        Step::Resume => if a.current_track is Some {
            synced(AppView { is_playing: true, ..a }, o.position)
        } else {
            a
        },
        Step::Pause => synced(AppView { is_playing: false, ..a }, o.position),
        Step::Stop | Step::Clear => synced(
            AppView { is_playing: false, current_track: None, ..a },
            o.position,
        ),
        Step::Start { index } => if index < a.queue.data.len() && o.succeeded {
            synced(with_current(a, index), o.position)
        } else {
            a
        },
        Step::SetVolume { level } => {
            let v = clamped_volume(level as int) as i64;
            AppView { current_volume: v, shared: PlayerStateView { volume: v, ..a.shared }, ..a }
        },
        Step::SeekRelative { .. } | Step::SeekAbsolute { .. } => AppView {
            shared: PlayerStateView { position: o.position, ..a.shared },
            ..a
        },
        Step::ReportCompleted => a,
    }
}

/// What is announced after `step` was performed with outcome `o`, or the
/// failure that is reported upward.
pub open spec fn announced(a: AppView, step: Step, o: Outcome) -> Result<Seq<Notice>, AppError> {
    match step {
        Step::Resume => if a.current_track is Some {
            Ok(seq![Notice::PropertiesChanged])
        } else {
            Err(AppError::NoTrackLoaded)
        },
        Step::Pause | Step::Stop | Step::Clear => Ok(seq![Notice::PropertiesChanged]),
        Step::Start { index } => if index >= a.queue.data.len() {
            Err(AppError::NoTrackLoaded)
        } else if !o.succeeded {
            Err(AppError::Backend)
        } else {
            Ok(seq![Notice::PropertiesChanged, Notice::NowPlaying])
        },
        Step::SetVolume { .. } => Ok(seq![Notice::VolumeChanged]),
        Step::SeekRelative { .. } | Step::SeekAbsolute { .. } | Step::ReportCompleted => Ok(
            Seq::empty(),
        ),
    }
}

/// View of what `complete` returns.
pub open spec fn notices_view(r: Result<Vec<Notice>, AppError>) -> Result<Seq<Notice>, AppError> {
    match r {
        Ok(v) => Ok(v@),
        Err(e) => Err(e),
    }
}

/// Whether the end of a track is to be handled: the orchestrator is playing a
/// loaded track, and the backend holds a stream that reached its end.
pub open spec fn track_ended(a: AppView, finished: bool, backend_loaded: bool) -> bool {
    a.is_playing && a.current_track is Some && finished && backend_loaded
}

/// The step that follows the end of a track: the same entry again when one
/// track is repeated, else its successor, else the clearing of the current
/// track. A queue that is exhausted is not begun anew, whatever the repeat
/// mode.
pub open spec fn advance_step(a: AppView) -> Step {
    if a.on_repeat == RepeatMode::One {
        Step::Start { index: a.playing_index }
    } else {
        match successor(a) {
            Some(i) => Step::Start { index: i },
            None => Step::Clear,
        }
    }
}

/// The steps for the end of a track, in the order in which the host performs
/// them: first the report that the track was played, then the advance. No
/// steps where no track ended.
pub open spec fn finish_steps(a: AppView, finished: bool, backend_loaded: bool) -> Seq<Step> {
    if track_ended(a, finished, backend_loaded) {
        seq![Step::ReportCompleted, advance_step(a)]
    } else {
        Seq::empty()
    }
}

/// Finds the first place at which `x` stands in `order`.
fn find_place(order: &Vec<usize>, x: usize) -> (r: Option<usize>)
    ensures
        r == place_in(order@, x),
{
    let mut found: Option<usize> = None;
    let mut i: usize = 0;
    assert(order@.subrange(0, 0) =~= Seq::<usize>::empty());
    while i < order.len()
        invariant
            i <= order.len(),
            found == place_in(order@.subrange(0, i as int), x),
        decreases order.len() - i,
    {
        proof {
            let upto = order@.subrange(0, i as int + 1);
            assert(upto.drop_last() =~= order@.subrange(0, i as int));
            assert(upto.last() == order@[i as int]);
        }
        if found.is_none() && order[i] == x {
            found = Some(i);
        }
        i += 1;
    }
    assert(order@.subrange(0, order.len() as int) =~= order@);
    found
}

/// Checks that `order` lists each of the positions below its length once.
fn check_permutation(order: &Vec<usize>) -> (r: bool)
    ensures
        r == is_permutation(order@),
{
    let n = order.len();
    let mut seen: Vec<bool> = Vec::new();
    let mut k: usize = 0;
    while k < n
        invariant
            k <= n,
            seen.len() == k,
            forall|v: int| 0 <= v < k ==> !seen[v],
        decreases n - k,
    {
        seen.push(false);
        k += 1;
    }
    let mut i: usize = 0;
    while i < n
        invariant
            n == order.len(),
            seen.len() == n,
            i <= n,
            forall|j: int| 0 <= j < i ==> (#[trigger] order[j]) < n,
            forall|a: int, b: int| 0 <= a < b < i ==> (#[trigger] order[a]) != (#[trigger] order[b]),
            forall|v: int|
                0 <= v < n ==> (#[trigger] seen[v] <==> exists|j: int|
                    0 <= j < i && order[j] == v),
        decreases n - i,
    {
        let v = order[i];
        if v >= n {
            return false;
        }
        if seen[v] {
            let ghost j = choose|j: int| 0 <= j < i && order[j] == v;
            assert(order@[j] == order@[i as int]);
            return false;
        }
        seen.set(v, true);
        proof {
            assert forall|w: int| 0 <= w < n implies (#[trigger] seen[w] <==> exists|j: int|
                0 <= j < i + 1 && order[j] == w) by {
                if w == v {
                    assert(order[i as int] == w);
                } else {
                    if seen[w] {
                        let j = choose|j: int| 0 <= j < i && order[j] == w;
                        assert(0 <= j < i + 1 && order[j] == w);
                    }
                }
            }
            assert forall|a: int, b: int| 0 <= a < b < i + 1 implies (#[trigger] order[a]) != (
            #[trigger] order[b]) by {
                if b == i {
                    if order[a] == v {
                        assert(exists|j: int| 0 <= j < i && order[j] == v);
                    }
                }
            }
        }
        i += 1;
    }
    true
}

/// The announcement that the snapshot's properties changed, alone.
fn properties_changed() -> (v: Vec<Notice>)
    ensures
        v@ == seq![Notice::PropertiesChanged],
{
    let mut v: Vec<Notice> = Vec::new();
    v.push(Notice::PropertiesChanged);
    assert(v@ =~= seq![Notice::PropertiesChanged]);
    v
}

impl App {
    /// The queue entry that the queue's cursor selects.
    pub fn queue_selection(&self) -> (r: Option<usize>)
        ensures
            r == queue_selection(self@),
    {
        let len = self.queue_tab.data.len();
        if len == 0 {
            None
        } else if self.queue_tab.index < len {
            Some(self.queue_tab.index)
        } else {
            Some(len - 1)
        }
    }

    /// Decides what a transport command asks of the backend. The state does
    /// not change until the host reports the outcome to `complete`.
    pub fn plan(&self, cmd: PlayerCommand, backend_loaded: bool) -> (r: Result<Step, AppError>)
        ensures
            r == planned(self@, cmd, backend_loaded),
    {
        match cmd {
            PlayerCommand::Play => self.plan_play(backend_loaded),
            PlayerCommand::Pause => self.plan_pause(),
            PlayerCommand::Stop => Ok(Step::Stop),
            PlayerCommand::TogglePlayPause => self.toggle_playback(backend_loaded),
            PlayerCommand::Next => self.play_next(),
            PlayerCommand::Previous => self.play_previous(),
            PlayerCommand::SetVolume(v) => Ok(self.set_volume(v)),
            PlayerCommand::SeekRelative(d) => Ok(Step::SeekRelative { offset: d }),
            PlayerCommand::SeekAbsolute(s) => Ok(Step::SeekAbsolute { seconds: s }),
        }
    }

    fn plan_play(&self, backend_loaded: bool) -> (r: Result<Step, AppError>)
        ensures
            r == play_step(self@, backend_loaded),
    {
        if self.current_track.is_some() && backend_loaded {
            Ok(Step::Resume)
        } else {
            match self.queue_selection() {
                Some(i) => Ok(Step::Start { index: i }),
                None => Err(AppError::NoTrackLoaded),
            }
        }
    }

    fn plan_pause(&self) -> (r: Result<Step, AppError>)
        ensures
            r == pause_step(self@),
    {
        if self.current_track.is_some() {
            Ok(Step::Pause)
        } else {
            Err(AppError::NoTrackLoaded)
        }
    }

    /// The step for the play/pause key.
    pub fn toggle_playback(&self, backend_loaded: bool) -> (r: Result<Step, AppError>)
        ensures
            r == toggle_step(self@, backend_loaded),
    {
        if self.is_playing {
            self.plan_pause()
        } else if self.current_track.is_some() {
            self.plan_play(backend_loaded)
        } else {
            match self.queue_selection() {
                Some(i) => Ok(Step::Start { index: i }),
                None => Err(AppError::EmptyQueue),
            }
        }
    }

    /// The step that moves to the next entry of the queue.
    pub fn play_next(&self) -> (r: Result<Step, AppError>)
        ensures
            r == next_step(self@),
    {
        let len = self.queue_tab.data.len();
        if self.current_track.is_none() {
            Err(AppError::NoTrackLoaded)
        } else if len == 0 {
            Err(AppError::EmptyQueue)
        } else {
            match self.successor() {
                Some(i) => Ok(Step::Start { index: i }),
                None => Ok(Step::Stop),
            }
        }
    }

    /// Whether the queue is walked in the shuffled order.
    pub fn shuffling(&self) -> (r: bool)
        ensures
            r == shuffling(self@),
    {
        match self.shuffle_mode {
            ShuffleMode::On => self.shuffle_order.len() == self.queue_tab.data.len(),
            ShuffleMode::Off => false,
        }
    }

    /// The queue entry that follows the loaded one.
    pub fn successor(&self) -> (r: Option<usize>)
        ensures
            r == successor(self@),
    {
        let len = self.queue_tab.data.len();
        if self.shuffling() {
            if self.shuffle_pos < self.shuffle_order.len() && self.shuffle_pos + 1
                < self.shuffle_order.len() && self.shuffle_order[self.shuffle_pos + 1] < len {
                Some(self.shuffle_order[self.shuffle_pos + 1])
            } else {
                None
            }
        } else if len > 0 && self.playing_index < len - 1 {
            Some(self.playing_index + 1)
        } else {
            None
        }
    }

    /// The queue entry that precedes the loaded one.
    pub fn predecessor(&self) -> (r: Option<usize>)
        ensures
            r == predecessor(self@),
    {
        let len = self.queue_tab.data.len();
        if self.shuffling() {
            if 0 < self.shuffle_pos && self.shuffle_pos <= self.shuffle_order.len()
                && self.shuffle_order[self.shuffle_pos - 1] < len {
                Some(self.shuffle_order[self.shuffle_pos - 1])
            } else {
                None
            }
        } else if 0 < self.playing_index && self.playing_index <= len {
            Some(self.playing_index - 1)
        } else {
            None
        }
    }

    /// Sets whether and in which order the queue is shuffled. Returns whether
    /// the setting was taken: an order is taken only if it lists each
    /// position of the queue once.
    pub fn set_shuffle(&mut self, mode: ShuffleMode, order: Vec<usize>) -> (taken: bool)
        ensures
            final(self)@ == shuffle_set(old(self)@, mode, order@),
            taken == (mode == ShuffleMode::Off || (is_permutation(order@) && order@.len() == old(
                self,
            )@.queue.data.len())),
    {
        match mode {
            ShuffleMode::Off => {
                self.shuffle_mode = ShuffleMode::Off;
                self.shuffle_order = Vec::new();
                self.shuffle_pos = 0;
                assert(self.shuffle_order@ =~= Seq::<usize>::empty());
                true
            },
            ShuffleMode::On => {
                if order.len() == self.queue_tab.data.len() && check_permutation(&order) {
                    self.shuffle_pos = match find_place(&order, self.playing_index) {
                        Some(p) => p,
                        None => 0,
                    };
                    self.shuffle_mode = ShuffleMode::On;
                    self.shuffle_order = order;
                    true
                } else {
                    false
                }
            },
        }
    }

    /// The step that moves to the previous entry of the queue.
    pub fn play_previous(&self) -> (r: Result<Step, AppError>)
        ensures
            r == previous_step(self@),
    {
        let len = self.queue_tab.data.len();
        if len == 0 {
            Err(AppError::EmptyQueue)
        } else {
            match self.predecessor() {
                Some(i) => Ok(Step::Start { index: i }),
                None => Ok(Step::Stop),
            }
        }
    }

    /// The step that halts playback.
    pub fn stop_playback(&self) -> (r: Step)
        ensures
            r == Step::Stop,
    {
        Step::Stop
    }

    /// The step that sets the volume to `volume`, brought into range.
    pub fn set_volume(&self, volume: i64) -> (r: Step)
        ensures
            r == (Step::SetVolume { level: clamped_volume(volume as int) as i64 }),
    {
        Step::SetVolume { level: clamp_volume(volume) }
    }

    /// The step for one volume key: a tenth of full volume up or down from
    /// the published volume, brought into range.
    pub fn adjust_volume(&self, direction: VolumeDirection) -> (r: Step)
        ensures
            r == (Step::SetVolume {
                level: clamped_volume(
                    self.shared_state.volume + (if direction == VolumeDirection::Up {
                        VOLUME_STEP as int
                    } else {
                        -VOLUME_STEP
                    }),
                ) as i64,
            }),
    {
        let delta: i128 = match direction {
            VolumeDirection::Up => 100_000i128,
            VolumeDirection::Down => -100_000i128,
        };
        let wide: i128 = self.shared_state.volume as i128 + delta;
        let level: i64 = if wide < 0 {
            0
        } else if wide > 1_000_000i128 {
            VOLUME_MAX
        } else {
            wide as i64
        };
        Step::SetVolume { level }
    }

    /// The step for the volume-up key.
    pub fn volume_up(&self) -> (r: Step)
        ensures
            r == (Step::SetVolume {
                level: clamped_volume(self.shared_state.volume + VOLUME_STEP) as i64,
            }),
    {
        self.adjust_volume(VolumeDirection::Up)
    }

    /// The step for the volume-down key.
    pub fn volume_down(&self) -> (r: Step)
        ensures
            r == (Step::SetVolume {
                level: clamped_volume(self.shared_state.volume - VOLUME_STEP) as i64,
            }),
    {
        self.adjust_volume(VolumeDirection::Down)
    }

    /// Sets what happens when a track ends.
    pub fn set_repeat(&mut self, mode: RepeatMode)
        ensures
            final(self)@ == (AppView { on_repeat: mode, ..old(self)@ }),
    {
        self.on_repeat = mode;
    }

    /// The step for the seek-forward key.
    pub fn seek_forward(&self) -> (r: Step)
        ensures
            r == (Step::SeekRelative { offset: SEEK_STEP_SECONDS }),
    {
        Step::SeekRelative { offset: SEEK_STEP_SECONDS }
    }

    /// The step for the seek-backward key.
    pub fn seek_backward(&self) -> (r: Step)
        ensures
            r == (Step::SeekRelative { offset: (-SEEK_STEP_SECONDS) as i64 }),
    {
        Step::SeekRelative { offset: -SEEK_STEP_SECONDS }
    }

    /// Decides what follows when the backend was polled: nothing unless a
    /// playing track reached its end, else the report and the advance.
    pub fn check_track_finished(&self, finished: bool, backend_loaded: bool) -> (steps: Vec<Step>)
        ensures
            steps@ == finish_steps(self@, finished, backend_loaded),
    {
        let mut steps: Vec<Step> = Vec::new();
        if self.is_playing && self.current_track.is_some() && finished && backend_loaded {
            steps.push(Step::ReportCompleted);
            steps.push(self.on_track_finished());
            assert(steps@ =~= seq![Step::ReportCompleted, advance_step(self@)]);
        }
        steps
    }

    /// The advance after the end of a track.
    pub fn on_track_finished(&self) -> (r: Step)
        ensures
            r == advance_step(self@),
    {
        match self.on_repeat {
            RepeatMode::One => Step::Start { index: self.playing_index },
            _ => match self.successor() {
                Some(i) => Step::Start { index: i },
                None => Step::Clear,
            },
        }
    }

    /// Writes the snapshot anew from the state, at backend position
    /// `position`.
    pub fn sync_mpris(&mut self, position: i64)
        ensures
            final(self)@ == synced(old(self)@, position),
    {
        let status = if self.is_playing {
            PlaybackStatus::Playing
        } else if self.current_track.is_some() {
            PlaybackStatus::Paused
        } else {
            PlaybackStatus::Stopped
        };
        let metadata = match &self.current_track {
            Some(t) => Some(track_to_metadata(t)),
            None => None,
        };
        let len = self.queue_tab.data.len();
        let can_go_next = len > 0 && self.queue_tab.index < len - 1;
        let can_go_previous = self.queue_tab.index > 0;
        self.shared_state = PlayerState {
            status,
            metadata,
            volume: self.shared_state.volume,
            can_go_next,
            can_go_previous,
            position,
        };
    }

    /// Brings state and snapshot up to date after the host performed `step`.
    /// Returns what is to be announced. A `Start` that failed leaves
    /// everything as it was and is reported as a backend failure.
    pub fn complete(&mut self, step: Step, outcome: Outcome) -> (r: Result<Vec<Notice>, AppError>)
        ensures
            final(self)@ == completed(old(self)@, step, outcome),
            notices_view(r) == announced(old(self)@, step, outcome),
    {
        match step {
            Step::Resume => self.complete_resume(outcome),
            Step::Pause => self.complete_pause(outcome),
            Step::Stop => self.complete_stop(Step::Stop, outcome),
            Step::Clear => self.complete_stop(Step::Clear, outcome),
            Step::Start { index } => self.complete_start(index, outcome),
            Step::SetVolume { level } => self.complete_volume(level, outcome),
            Step::SeekRelative { .. } | Step::SeekAbsolute { .. } => {
                self.shared_state.position = outcome.position;
                let notices: Vec<Notice> = Vec::new();
                assert(notices@ =~= Seq::<Notice>::empty());
                Ok(notices)
            },
            Step::ReportCompleted => {
                let notices: Vec<Notice> = Vec::new();
                assert(notices@ =~= Seq::<Notice>::empty());
                Ok(notices)
            },
        }
    }

    fn complete_resume(&mut self, outcome: Outcome) -> (r: Result<Vec<Notice>, AppError>)
        ensures
            final(self)@ == completed(old(self)@, Step::Resume, outcome),
            notices_view(r) == announced(old(self)@, Step::Resume, outcome),
    {
        if self.current_track.is_none() {
            return Err(AppError::NoTrackLoaded);
        }
        self.is_playing = true;
        self.sync_mpris(outcome.position);
        Ok(properties_changed())
    }

    fn complete_pause(&mut self, outcome: Outcome) -> (r: Result<Vec<Notice>, AppError>)
        ensures
            final(self)@ == completed(old(self)@, Step::Pause, outcome),
            notices_view(r) == announced(old(self)@, Step::Pause, outcome),
    {
        self.is_playing = false;
        self.sync_mpris(outcome.position);
        Ok(properties_changed())
    }

    fn complete_stop(&mut self, step: Step, outcome: Outcome) -> (r: Result<Vec<Notice>, AppError>)
        requires
            step == Step::Stop || step == Step::Clear,
        ensures
            final(self)@ == completed(old(self)@, step, outcome),
            notices_view(r) == announced(old(self)@, step, outcome),
    {
        self.is_playing = false;
        self.current_track = None;
        self.sync_mpris(outcome.position);
        Ok(properties_changed())
    }

    fn complete_start(&mut self, index: usize, outcome: Outcome) -> (r: Result<
        Vec<Notice>,
        AppError,
    >)
        ensures
            final(self)@ == completed(old(self)@, Step::Start { index }, outcome),
            notices_view(r) == announced(old(self)@, Step::Start { index }, outcome),
    {
        if index >= self.queue_tab.data.len() {
            return Err(AppError::NoTrackLoaded);
        }
        if !outcome.succeeded {
            return Err(AppError::Backend);
        }
        self.start_playback(index, outcome.position);
        let mut notices = properties_changed();
        notices.push(Notice::NowPlaying);
        assert(notices@ =~= seq![Notice::PropertiesChanged, Notice::NowPlaying]);
        Ok(notices)
    }

    fn complete_volume(&mut self, level: i64, outcome: Outcome) -> (r: Result<
        Vec<Notice>,
        AppError,
    >)
        ensures
            final(self)@ == completed(old(self)@, Step::SetVolume { level }, outcome),
            notices_view(r) == announced(old(self)@, Step::SetVolume { level }, outcome),
    {
        let v = clamp_volume(level);
        self.current_volume = v;
        self.shared_state.volume = v;
        let mut notices: Vec<Notice> = Vec::new();
        notices.push(Notice::VolumeChanged);
        assert(notices@ =~= seq![Notice::VolumeChanged]);
        Ok(notices)
    }

    /// Records that the queue entry `queue_index` was loaded and is playing:
    /// it becomes the current track and the playing index, and the snapshot is
    /// written anew.
    pub(crate) fn start_playback(&mut self, queue_index: usize, position: i64)
        requires
            queue_index < old(self).queue_tab.data@.len(),
        ensures
            final(self)@ == synced(with_current(old(self)@, queue_index), position),
    {
        let track = self.queue_tab.data[queue_index].clone();
        if self.shuffling() {
            match find_place(&self.shuffle_order, queue_index) {
                Some(p) => {
                    self.shuffle_pos = p;
                },
                None => {},
            }
        }
        self.is_playing = true;
        self.playing_index = queue_index;
        self.current_track = Some(track);
        self.sync_mpris(position);
    }

    /// Writes the backend's position into the snapshot while a track is
    /// playing. The position goes from the backend to the snapshot, never
    /// back.
    pub fn update_mpris_position(&mut self, position: i64)
        ensures
            old(self).is_playing ==> final(self)@ == (AppView {
                shared: PlayerStateView { position, ..old(self)@.shared },
                ..old(self)@
            }),
            !old(self).is_playing ==> final(self)@ == old(self)@,
    {
        if self.is_playing {
            self.shared_state.position = position;
        }
    }
}

/// Whether a state can be that of a player: its queue is no longer than a
/// list in memory can be.
pub open spec fn representable(a: AppView) -> bool {
    a.queue.data.len() <= usize::MAX
}

/// Whether the snapshot says what the state says: status, metadata and the
/// navigation flags are those that a fresh write would give.
pub open spec fn snapshot_current(a: AppView) -> bool {
    a.shared == synced(a, a.shared.position).shared
}

/// A transport step that was carried out leaves the snapshot current.
pub proof fn lemma_completion_publishes(a: AppView, step: Step, o: Outcome)
    requires
        step is Resume || step is Pause || step is Stop || step is Clear || step is Start,
        announced(a, step, o) is Ok,
    ensures
        snapshot_current(completed(a, step, o)),
        completed(a, step, o).shared.position == o.position,
{
}

/// `Play` while a track is playing changes nothing but the position of the
/// snapshot, which becomes the position that the backend reported. If the
/// backend stands where the snapshot says, nothing changes at all.
pub proof fn lemma_play_while_playing(a: AppView, o: Outcome)
    requires
        a.is_playing,
        a.current_track is Some,
        snapshot_current(a),
    ensures
        planned(a, PlayerCommand::Play, true) == Ok::<Step, AppError>(Step::Resume),
        completed(a, Step::Resume, o) == (AppView {
            shared: PlayerStateView { position: o.position, ..a.shared },
            ..a
        }),
        o.position == a.shared.position ==> completed(a, Step::Resume, o) == a,
{
}

/// `Pause` while a track is paused changes nothing but the position of the
/// snapshot, which becomes the position that the backend reported. If the
/// backend stands where the snapshot says, nothing changes at all.
pub proof fn lemma_pause_while_paused(a: AppView, backend_loaded: bool, o: Outcome)
    requires
        !a.is_playing,
        a.current_track is Some,
        snapshot_current(a),
    ensures
        planned(a, PlayerCommand::Pause, backend_loaded) == Ok::<Step, AppError>(Step::Pause),
        completed(a, Step::Pause, o) == (AppView {
            shared: PlayerStateView { position: o.position, ..a.shared },
            ..a
        }),
        o.position == a.shared.position ==> completed(a, Step::Pause, o) == a,
{
}

/// `Next` and then `Previous`, from a loaded track that has a successor in the
/// queue and with both tracks starting, bring the playing index back to where
/// it was, and the track at that index is the current one again. The queue is
/// walked in its own order here.
pub proof fn lemma_next_then_previous(
    a: AppView,
    loaded1: bool,
    o1: Outcome,
    loaded2: bool,
    o2: Outcome,
)
    requires
        representable(a),
        !shuffling(a),
        a.current_track is Some,
        a.playing_index + 1 < a.queue.data.len(),
        o1.succeeded,
        o2.succeeded,
    ensures
        planned(a, PlayerCommand::Next, loaded1) == Ok::<Step, AppError>(
            Step::Start { index: (a.playing_index + 1) as usize },
        ),
        ({
            let next = Step::Start { index: (a.playing_index + 1) as usize };
            let b = completed(a, next, o1);
            let previous = Step::Start { index: a.playing_index };
            &&& b.playing_index == a.playing_index + 1
            &&& planned(b, PlayerCommand::Previous, loaded2) == Ok::<Step, AppError>(previous)
            &&& completed(b, previous, o2).playing_index == a.playing_index
            &&& completed(b, previous, o2).current_track == Some(
                a.queue.data[a.playing_index as int],
            )
            &&& completed(b, previous, o2).queue == a.queue
        }),
{
}

/// Setting the volume publishes the requested volume brought into range,
/// whatever was requested, and changes nothing else.
pub proof fn lemma_set_volume_clamps(a: AppView, v: i64, backend_loaded: bool, o: Outcome)
    ensures
        planned(a, PlayerCommand::SetVolume(v), backend_loaded) == Ok::<Step, AppError>(
            Step::SetVolume { level: clamped_volume(v as int) as i64 },
        ),
        ({
            let step = Step::SetVolume { level: clamped_volume(v as int) as i64 };
            let b = completed(a, step, o);
            &&& b.shared.volume == clamped_volume(v as int)
            &&& 0 <= b.shared.volume <= VOLUME_MAX
            &&& b.current_volume == b.shared.volume
            &&& b == (AppView {
                current_volume: b.current_volume,
                shared: PlayerStateView { volume: b.shared.volume, ..a.shared },
                ..a
            })
        }),
{
}

/// When a track ends while one track is repeated, the same queue entry is
/// started again: the playing index stays, and the entry is the current
/// track.
pub proof fn lemma_repeat_one_replays(a: AppView, o: Outcome)
    requires
        a.is_playing,
        a.current_track is Some,
        a.on_repeat == RepeatMode::One,
        a.playing_index < a.queue.data.len(),
        o.succeeded,
    ensures
        finish_steps(a, true, true) == seq![
            Step::ReportCompleted,
            Step::Start { index: a.playing_index },
        ],
        completed(a, Step::Start { index: a.playing_index }, o).playing_index == a.playing_index,
        completed(a, Step::Start { index: a.playing_index }, o).current_track == Some(
            a.queue.data[a.playing_index as int],
        ),
        completed(a, Step::Start { index: a.playing_index }, o).is_playing,
{
}

/// When the last track of the queue ends and no single track is repeated,
/// playback stops and the current track is forgotten; the queue is not begun
/// anew, not even when the whole queue is to be repeated.
pub proof fn lemma_exhausted_queue_stops(a: AppView, o: Outcome)
    requires
        a.is_playing,
        a.current_track is Some,
        a.on_repeat != RepeatMode::One,
        successor(a) is None,
    ensures
        finish_steps(a, true, true) == seq![Step::ReportCompleted, Step::Clear],
        !completed(a, Step::Clear, o).is_playing,
        completed(a, Step::Clear, o).current_track is None,
        completed(a, Step::Clear, o).shared.status == PlaybackStatus::Stopped,
        completed(a, Step::Clear, o).shared.metadata is None,
        completed(a, Step::Clear, o).playing_index == a.playing_index,
{
}

/// When a track that has a successor ends and no single track is repeated,
/// the successor is started, as `Next` would start it.
pub proof fn lemma_finished_track_advances(a: AppView, backend_loaded: bool)
    requires
        a.is_playing,
        a.current_track is Some,
        a.on_repeat != RepeatMode::One,
        successor(a) is Some,
    ensures
        finish_steps(a, true, true) == seq![
            Step::ReportCompleted,
            Step::Start { index: successor(a)->0 },
        ],
        planned(a, PlayerCommand::Next, backend_loaded) == Ok::<Step, AppError>(
            advance_step(a),
        ),
{
}

/// In an order that lists each position once, the first place of the entry
/// at place `k` is `k`.
pub proof fn lemma_place_of_entry(order: Seq<usize>, k: int)
    requires
        is_permutation(order),
        0 <= k < order.len(),
        order.len() <= usize::MAX,
    ensures
        place_in(order, order[k]) == Some(k as usize),
    decreases order.len(),
{
    let shorter = order.drop_last();
    if k == order.len() - 1 {
        lemma_absent_has_no_place(shorter, order[k]);
    } else {
        assert(shorter[k] == order[k]);
        lemma_place_in_prefix(order, k, order.len() - 1);
    }
}

/// An entry that stands nowhere in an order has no place in it.
pub proof fn lemma_absent_has_no_place(order: Seq<usize>, x: usize)
    requires
        forall|i: int| 0 <= i < order.len() ==> (#[trigger] order[i]) != x,
    ensures
        place_in(order, x) is None,
    decreases order.len(),
{
    if order.len() > 0 {
        let shorter = order.drop_last();
        assert forall|i: int| 0 <= i < shorter.len() implies (#[trigger] shorter[i]) != x by {
            assert(shorter[i] == order[i]);
        }
        lemma_absent_has_no_place(shorter, x);
    }
}

/// In an order without repetitions, the first place of the entry at place `k`
/// is `k`, in every beginning of the order that holds that place.
pub proof fn lemma_place_in_prefix(order: Seq<usize>, k: int, n: int)
    requires
        forall|i: int, j: int|
            0 <= i < j < order.len() ==> (#[trigger] order[i]) != (#[trigger] order[j]),
        0 <= k < n <= order.len(),
        order.len() <= usize::MAX,
    ensures
        place_in(order.subrange(0, n), order[k]) == Some(k as usize),
    decreases n,
{
    let upto = order.subrange(0, n);
    let shorter = upto.drop_last();
    assert(shorter =~= order.subrange(0, n - 1));
    if k == n - 1 {
        assert forall|i: int| 0 <= i < shorter.len() implies (#[trigger] shorter[i])
            != order[k] by {
            assert(shorter[i] == order[i]);
        }
        lemma_absent_has_no_place(shorter, order[k]);
        assert(upto.last() == order[k]);
    } else {
        lemma_place_in_prefix(order, k, n - 1);
    }
}

/// `Next` and then `Previous` in a shuffled queue, from a loaded track that
/// stands at its place in the order and has a successor there, and with both
/// tracks starting, bring the playing index and the place in the order back
/// to where they were.
pub proof fn lemma_next_then_previous_shuffled(
    a: AppView,
    loaded1: bool,
    o1: Outcome,
    loaded2: bool,
    o2: Outcome,
)
    requires
        representable(a),
        shuffling(a),
        is_permutation(a.shuffle_order),
        a.current_track is Some,
        a.shuffle_pos + 1 < a.shuffle_order.len(),
        a.shuffle_order[a.shuffle_pos as int] == a.playing_index,
        o1.succeeded,
        o2.succeeded,
    ensures
        ({
            let next = Step::Start { index: a.shuffle_order[a.shuffle_pos + 1] };
            let b = completed(a, next, o1);
            let previous = Step::Start { index: a.playing_index };
            &&& planned(a, PlayerCommand::Next, loaded1) == Ok::<Step, AppError>(next)
            &&& b.playing_index == a.shuffle_order[a.shuffle_pos + 1]
            &&& b.shuffle_pos == a.shuffle_pos + 1
            &&& planned(b, PlayerCommand::Previous, loaded2) == Ok::<Step, AppError>(previous)
            &&& completed(b, previous, o2).playing_index == a.playing_index
            &&& completed(b, previous, o2).shuffle_pos == a.shuffle_pos
        }),
{
    lemma_place_of_entry(a.shuffle_order, a.shuffle_pos + 1);
    lemma_place_of_entry(a.shuffle_order, a.shuffle_pos as int);
    assert(a.shuffle_order.subrange(0, a.shuffle_order.len() as int) =~= a.shuffle_order);
}

} // verus!
