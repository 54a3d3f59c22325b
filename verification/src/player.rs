//! The vocabulary shared by the control surface, the orchestrator and the audio
//! backend: transport commands, the playback status, the published snapshot,
//! and the arithmetic of seeking.

use vstd::prelude::*;
use crate::mpris_handler::{Metadata, MetadataView, metadata_view};

verus! {

/// Full volume. Volumes are counted in millionths of full volume.
pub const VOLUME_MAX: i64 = 1_000_000;

/// Microseconds in one second. Positions and lengths are counted in microseconds.
pub const MICROS_PER_SECOND: i64 = 1_000_000;

/// What the player is doing, as desktop media controls name it.
#[derive(Debug, Clone, Copy, PartialEq, Eq, Structural)]
pub enum PlaybackStatus {
    Playing,
    Paused,
    Stopped,
}

/// A transport command. The control surface sends these; the orchestrator
/// applies them in the order of their arrival.
#[derive(Debug, Clone, Copy, PartialEq, Eq, Structural)]
pub enum PlayerCommand {
    Play,
    Pause,
    Stop,
    TogglePlayPause,
    Next,
    Previous,
    /// Requested volume in millionths of full volume; any value is accepted and
    /// brought into range when it is applied.
    SetVolume(i64),
    /// Signed offset in seconds from the current position.
    SeekRelative(i64),
    /// Position in seconds from the start of the track.
    SeekAbsolute(u64),
}

/// The record that observers outside the orchestrator read. Only the
/// orchestrator writes it, and it writes the whole record at once.
#[derive(Debug)]
pub struct PlayerState {
    pub status: PlaybackStatus,
    /// Describes the current track; `None` when nothing is loaded.
    pub metadata: Option<Metadata>,
    /// In millionths of full volume, between 0 and `VOLUME_MAX`.
    pub volume: i64,
    pub can_go_next: bool,
    pub can_go_previous: bool,
    /// In microseconds.
    pub position: i64,
}

/// What a snapshot holds, as mathematical values.
pub struct PlayerStateView {
    pub status: PlaybackStatus,
    pub metadata: Option<MetadataView>,
    pub volume: i64,
    pub can_go_next: bool,
    pub can_go_previous: bool,
    pub position: i64,
}

impl View for PlayerState {
    type V = PlayerStateView;

    open spec fn view(&self) -> PlayerStateView {
        PlayerStateView {
            status: self.status,
            metadata: metadata_view(self.metadata),
            volume: self.volume,
            can_go_next: self.can_go_next,
            can_go_previous: self.can_go_previous,
            position: self.position,
        }
    }
}

impl Clone for PlayerState {
    /// A copy of the whole record.
    fn clone(&self) -> (res: Self)
        ensures
            res@ == self@,
    {
        PlayerState {
            status: self.status,
            metadata: match &self.metadata {
                Some(m) => Some(m.clone()),
                None => None,
            },
            volume: self.volume,
            can_go_next: self.can_go_next,
            can_go_previous: self.can_go_previous,
            position: self.position,
        }
    }
}

impl PlayerState {
    /// The snapshot of a player that has not played anything yet: stopped, at
    /// full volume, at position zero.
    pub fn new() -> (r: PlayerState)
        ensures
            r@ == (PlayerStateView {
                status: PlaybackStatus::Stopped,
                metadata: None,
                volume: VOLUME_MAX,
                can_go_next: false,
                can_go_previous: false,
                position: 0,
            }),
    {
        PlayerState {
            status: PlaybackStatus::Stopped,
            metadata: None,
            volume: VOLUME_MAX,
            can_go_next: false,
            can_go_previous: false,
            position: 0,
        }
    }
}

/// The volume nearest to `v` that lies between silence and full volume.
pub open spec fn clamped_volume(v: int) -> int {
    if v < 0 {
        0
    } else if v > VOLUME_MAX {
        VOLUME_MAX as int
    } else {
        v
    }
}

/// Brings a requested volume into range.
pub fn clamp_volume(v: i64) -> (r: i64)
    ensures
        r == clamped_volume(v as int),
        0 <= r <= VOLUME_MAX,
{
    if v < 0 {
        0
    } else if v > VOLUME_MAX {
        VOLUME_MAX
    } else {
        v
    }
}

/// Brings `x` into the range of the positions, which are not negative.
pub open spec fn clamped_position(x: int) -> int {
    if x < 0 {
        0
    } else if x > i64::MAX {
        i64::MAX as int
    } else {
        x
    }
}

/// The position aimed at by a relative seek: `delta_sec` seconds from
/// `position`, kept within the positions that can be written down.
pub open spec fn relative_target(position: int, delta_sec: int) -> int {
    clamped_position(position + delta_sec * MICROS_PER_SECOND)
}

/// Computes the target of a relative seek from the backend's position in
/// microseconds. A seek before the start aims at the start.
pub fn seek_target(position: i64, delta_sec: i64) -> (r: i64)
    ensures
        r == relative_target(position as int, delta_sec as int),
{
    let wide: i128 = position as i128 + delta_sec as i128 * 1_000_000i128;
    if wide < 0 {
        0
    } else if wide > i64::MAX as i128 {
        i64::MAX
    } else {
        wide as i64
    }
}

/// The position aimed at by an absolute seek to `seconds`.
pub open spec fn absolute_target(seconds: int) -> int {
    clamped_position(seconds * MICROS_PER_SECOND)
}

/// Computes the target of an absolute seek, in microseconds.
pub fn seek_absolute_target(seconds: u64) -> (r: i64)
    ensures
        r == absolute_target(seconds as int),
{
    let wide: u128 = seconds as u128 * 1_000_000u128;
    if wide > i64::MAX as u128 {
        i64::MAX
    } else {
        wide as i64
    }
}

} // verus!
