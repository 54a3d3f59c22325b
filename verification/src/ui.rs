//! The texts of the screen that are computed rather than drawn: times, titles
//! of lists, and the labels of the playback modes.

use vstd::prelude::*;
use crate::app::{ActiveTab, RepeatMode, ShuffleMode};
use crate::player::{clamp_volume, clamped_volume};
use crate::text::{decimal, push_decimal, push_text, push_two_digits, two_digits};

verus! {

/// A time of `sec` seconds as it is shown: minutes and seconds, with the
/// hours in front from one hour on. A negative time is shown as zero.
pub open spec fn duration_text(sec: int) -> Seq<char> {
    let s = if sec < 0 {
        0nat
    } else {
        sec as nat
    };
    if s >= 3600 {
        decimal(s / 3600) + ":"@ + two_digits((s / 60) % 60) + ":"@ + two_digits(s % 60)
    } else {
        decimal(s / 60) + ":"@ + two_digits(s % 60)
    }
}

/// Writes a time of `sec` seconds.
pub fn format_duration(sec: i64) -> (r: String)
    ensures
        r@ == duration_text(sec as int),
{
    let s: u64 = if sec < 0 {
        0
    } else {
        sec as u64
    };
    let mut out = String::new();
    if s >= 3600 {
        push_decimal(&mut out, s / 3600);
        push_text(&mut out, ":");
        push_two_digits(&mut out, (s / 60) % 60);
        push_text(&mut out, ":");
        push_two_digits(&mut out, s % 60);
        assert(out@ =~= duration_text(sec as int));
    } else {
        push_decimal(&mut out, s / 60);
        push_text(&mut out, ":");
        push_two_digits(&mut out, s % 60);
        assert(out@ =~= duration_text(sec as int));
    }
    out
}

/// The title of a list: its name, the number of its items, and a mark while
/// it takes the keys.
pub open spec fn title_text(label: Seq<char>, count: nat, is_active: bool) -> Seq<char> {
    let plain = label + " ("@ + decimal(count) + ")"@;
    if is_active {
        plain + " [ACTIVE]"@
    } else {
        plain
    }
}

/// Writes the title of a list.
pub fn active_title(label: &str, count: usize, is_active: bool) -> (r: String)
    ensures
        r@ == title_text(label@, count as nat, is_active),
{
    let mut out = String::new();
    push_text(&mut out, label);
    push_text(&mut out, " (");
    push_decimal(&mut out, count as u64);
    push_text(&mut out, ")");
    if is_active {
        push_text(&mut out, " [ACTIVE]");
    }
    assert(out@ =~= title_text(label@, count as nat, is_active));
    out
}

/// The place of a library list in the row of tabs.
pub fn tab_position(tab: ActiveTab) -> (r: usize)
    ensures
        r == match tab {
            ActiveTab::Songs => 0usize,
            ActiveTab::Artists => 1usize,
            ActiveTab::Albums => 2usize,
            ActiveTab::Playlist => 3usize,
            ActiveTab::Favorites => 4usize,
            ActiveTab::Search => 5usize,
        },
{
    match tab {
        ActiveTab::Songs => 0,
        ActiveTab::Artists => 1,
        ActiveTab::Albums => 2,
        ActiveTab::Playlist => 3,
        ActiveTab::Favorites => 4,
        ActiveTab::Search => 5,
    }
}

/// The label of a repeat mode.
pub fn repeat_label(mode: RepeatMode) -> (r: &'static str)
    ensures
        r@ == match mode {
            RepeatMode::Off => "repeat: off"@,
            RepeatMode::One => "repeat: one"@,
            RepeatMode::All => "repeat: all"@,
        },
{
    match mode {
        RepeatMode::Off => "repeat: off",
        RepeatMode::One => "repeat: one",
        RepeatMode::All => "repeat: all",
    }
}

/// The label of a shuffle mode.
pub fn shuffle_label(mode: ShuffleMode) -> (r: &'static str)
    ensures
        r@ == match mode {
            ShuffleMode::On => "shuffle: on"@,
            ShuffleMode::Off => "shuffle: off"@,
        },
{
    match mode {
        ShuffleMode::On => "shuffle: on",
        ShuffleMode::Off => "shuffle: off",
    }
}

/// A volume in whole percent of full volume, rounded to the nearest; a volume
/// out of range counts as the nearest volume in range.
pub open spec fn percent_of(volume: int) -> int {
    (clamped_volume(volume) + 5_000) / 10_000
}

/// Computes the volume in whole percent.
pub fn volume_percent(volume: i64) -> (r: u64)
    ensures
        r == percent_of(volume as int),
        r <= 100,
{
    let v = clamp_volume(volume);
    ((v + 5_000) / 10_000) as u64
}

/// How far a track has been played, in thousandths of its length: zero where
/// the length is unknown, and never more than the whole.
pub open spec fn progress_of(position_sec: int, duration_sec: int) -> int {
    if duration_sec <= 0 || position_sec <= 0 {
        0
    } else if position_sec >= duration_sec {
        1000
    } else {
        position_sec * 1000 / duration_sec
    }
}

/// Computes how far a track has been played, in thousandths of its length.
pub fn progress_permille(position_sec: i64, duration_sec: i64) -> (r: u64)
    ensures
        r == progress_of(position_sec as int, duration_sec as int),
        r <= 1000,
{
    if duration_sec <= 0 || position_sec <= 0 {
        0
    } else if position_sec >= duration_sec {
        1000
    } else {
        let wide: i128 = position_sec as i128 * 1000i128;
        let q: i128 = wide / (duration_sec as i128);
        assert(q <= 1000) by (nonlinear_arith)
            requires
                q == wide / (duration_sec as i128),
                wide == position_sec * 1000,
                0 < position_sec < duration_sec,
        ;
        assert(q >= 0) by (nonlinear_arith)
            requires
                q == wide / (duration_sec as i128),
                wide == position_sec * 1000,
                0 < position_sec < duration_sec,
        ;
        q as u64
    }
}

} // verus!
