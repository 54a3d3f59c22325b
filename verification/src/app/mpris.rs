//! What the desktop is told when a track starts.

use vstd::prelude::*;
use crate::app::{App, Track};
use crate::text::push_text;

verus! {

/// The headline of the desktop notification.
pub open spec fn now_playing_summary() -> Seq<char> {
    "Now playing"@
}

/// The text of the desktop notification for a track: its title and its
/// artist.
pub open spec fn now_playing_text(title: Seq<char>, artist: Seq<char>) -> Seq<char> {
    title + " - "@ + artist
}

impl App {
    /// Writes the text of the desktop notification for a track that has just
    /// started.
    pub fn notify_now_playing(track: &Track) -> (body: String)
        ensures
            body@ == now_playing_text(track@.title, track@.artist),
    {
        let mut body = String::new();
        push_text(&mut body, track.title.as_str());
        push_text(&mut body, " - ");
        push_text(&mut body, track.artist.as_str());
        assert(body@ =~= now_playing_text(track@.title, track@.artist));
        body
    }
}

} // verus!
