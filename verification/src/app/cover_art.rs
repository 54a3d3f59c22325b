//! The name under which the cover art of an album is kept.

use vstd::prelude::*;
use crate::app::{App, Track};
use crate::text::{alphanumeric, is_alphanumeric, lowercase, lowercased, push_char};

verus! {

/// A character as it may stand in a file name: letters, digits and the hyphen
/// stay, every other character becomes an underscore.
pub open spec fn masked_char(c: char) -> char {
    if !alphanumeric(c) && c != '-' {
        '_'
    } else {
        c
    }
}

/// A text with each of its characters masked.
pub open spec fn masked(s: Seq<char>) -> Seq<char> {
    Seq::new(s.len(), |i: int| masked_char(s[i]))
}

/// A text in which every run of underscores has become one underscore.
pub open spec fn collapsed(s: Seq<char>) -> Seq<char>
    decreases s.len(),
{
    if s.len() == 0 {
        Seq::empty()
    } else {
        let before = collapsed(s.drop_last());
        if s.last() == '_' && before.len() > 0 && before.last() == '_' {
            before
        } else {
            before.push(s.last())
        }
    }
}

/// The name of an album as part of a file name: masked, in lowercase, and
/// with runs of underscores collapsed.
pub open spec fn sanitized(name: Seq<char>) -> Seq<char> {
    collapsed(lowercased(masked(name)))
}

/// Masks each character of a text.
fn mask(name: &str) -> (r: String)
    ensures
        r@ == masked(name@),
{
    let mut out = String::new();
    let n = name.unicode_len();
    let mut i: usize = 0;
    while i < n
        invariant
            n == name@.len(),
            i <= n,
            out@ == masked(name@).subrange(0, i as int),
        decreases n - i,
    {
        let c = name.get_char(i);
        let m = if !is_alphanumeric(c) && c != '-' {
            '_'
        } else {
            c
        };
        push_char(&mut out, m);
        assert(out@ =~= masked(name@).subrange(0, i as int + 1));
        i += 1;
    }
    assert(masked(name@).subrange(0, n as int) =~= masked(name@));
    out
}

/// Collapses the runs of underscores of a text.
fn collapse(s: &str) -> (r: String)
    ensures
        r@ == collapsed(s@),
{
    let mut out = String::new();
    let n = s.unicode_len();
    let mut i: usize = 0;
    let mut last_is_underscore = false;
    assert(s@.subrange(0, 0) =~= Seq::<char>::empty());
    while i < n
        invariant
            n == s@.len(),
            i <= n,
            out@ == collapsed(s@.subrange(0, i as int)),
            last_is_underscore == (out@.len() > 0 && out@.last() == '_'),
        decreases n - i,
    {
        let c = s.get_char(i);
        proof {
            let upto = s@.subrange(0, i as int + 1);
            assert(upto.drop_last() =~= s@.subrange(0, i as int));
            assert(upto.last() == c);
        }
        if !(c == '_' && last_is_underscore) {
            push_char(&mut out, c);
            last_is_underscore = c == '_';
        }
        i += 1;
    }
    assert(s@.subrange(0, n as int) =~= s@);
    out
}

impl App {
    /// Makes the name of an album fit for a file name.
    pub fn sanitize_album_name(&self, name: &str) -> (r: String)
        ensures
            r@ == sanitized(name@),
    {
        let replaced = mask(name);
        let lowered = lowercase(replaced.as_str());
        collapse(lowered.as_str())
    }

    /// Where the cover art of a track is fetched from: its cover art
    /// location, unless it has none or an empty one.
    pub fn cover_art_source(track: &Track) -> (r: Option<&String>)
        ensures
            match track.cover_art {
                Some(url) => if url@.len() > 0 {
                    r == Some(&url)
                } else {
                    r.is_none()
                },
                None => r.is_none(),
            },
    {
        match &track.cover_art {
            Some(url) => if url.as_str().unicode_len() > 0 {
                Some(url)
            } else {
                None
            },
            None => None,
        }
    }
}

/// A sanitized name has no two underscores side by side.
pub proof fn lemma_collapsed_has_no_run(s: Seq<char>)
    ensures
        forall|i: int|
            0 < i < collapsed(s).len() ==> !(collapsed(s)[i - 1] == '_' && #[trigger] collapsed(
                s,
            )[i] == '_'),
    decreases s.len(),
{
    if s.len() > 0 {
        lemma_collapsed_has_no_run(s.drop_last());
        let before = collapsed(s.drop_last());
        let all = collapsed(s);
        assert forall|i: int| 0 < i < all.len() implies !(all[i - 1] == '_' && #[trigger] all[i]
            == '_') by {
            if all != before {
                assert(all == before.push(s.last()));
                if i < before.len() {
                    assert(all[i] == before[i]);
                    assert(all[i - 1] == before[i - 1]);
                } else {
                    assert(all[i - 1] == before[i - 1]);
                    assert(before.last() == before[before.len() - 1]);
                }
            }
        }
    }
}

} // verus!
