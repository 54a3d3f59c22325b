//! Searching the loaded tracks: each track is scored against the query, the
//! tracks that score high enough are ranked by their score, and the best are
//! kept.

use vstd::prelude::*;
use crate::app::{Track, TrackView, track_views};
use crate::text::{contains, contains_text, lowercase, lowercased, push_text};

verus! {

/// The longest text, in characters, that is scored; a longer one never
/// matches.
pub const MATCH_LIMIT: usize = 65_536;

/// The score of `choice` against `pattern`, as the fuzzy matcher of the
/// `skim` kind computes it with its default settings; `None` where the
/// pattern does not match.
pub uninterp spec fn skim_score(choice: Seq<char>, pattern: Seq<char>) -> Option<i64>;

/// `SkimMatcherV2::default().fuzzy_match(choice, pattern)`: the result is a
/// function of the two texts alone, and the contract gives it its name. The
/// texts are kept short enough for the matcher's own arithmetic.
#[verifier::external_body]
fn fuzzy_match(choice: &str, pattern: &str) -> (r: Option<i64>)
    requires
        choice@.len() <= MATCH_LIMIT,
        pattern@.len() <= MATCH_LIMIT,
    ensures
        r == skim_score(choice@, pattern@),
{
    fuzzy_matcher::FuzzyMatcher::fuzzy_match(
        &fuzzy_matcher::skim::SkimMatcherV2::default(),
        choice,
        pattern,
    )
}

/// In which of its texts a track matched.
#[derive(Debug, Clone, Copy, PartialEq, Eq, Structural)]
pub enum MatchField {
    Title,
    Artist,
    Album,
    Multiple,
}

/// A track that matched, with its score.
#[derive(Debug)]
pub struct SearchResult {
    pub track: Track,
    pub score: i64,
    pub _match_field: MatchField,
}

/// A track that matched, as mathematical values.
pub struct SearchResultView {
    pub track: TrackView,
    pub score: i64,
    pub match_field: MatchField,
}

impl View for SearchResult {
    type V = SearchResultView;

    open spec fn view(&self) -> SearchResultView {
        SearchResultView { track: self.track@, score: self.score, match_field: self._match_field }
    }
}

impl Clone for SearchResult {
    fn clone(&self) -> (res: Self)
        ensures
            res@ == self@,
    {
        SearchResult {
            track: self.track.clone(),
            score: self.score,
            _match_field: self._match_field,
        }
    }
}

/// Views of a list of results.
pub open spec fn result_views(s: Seq<SearchResult>) -> Seq<SearchResultView> {
    Seq::new(s.len(), |i: int| s[i]@)
}

/// The settings of a search.
#[derive(Debug, Clone, Copy)]
pub struct SearchEngine {
    /// The least score with which a track is a result.
    pub threshold: i64,
    /// The greatest number of results.
    pub max_results: usize,
}

/// The score of one text of a track against a pattern in lowercase: that of
/// the text's lowercase form; nothing where either is too long to be scored.
pub open spec fn field_score(text: Seq<char>, pattern: Seq<char>) -> Option<i64> {
    if lowercased(text).len() <= MATCH_LIMIT && pattern.len() <= MATCH_LIMIT {
        skim_score(lowercased(text), pattern)
    } else {
        None
    }
}

/// The best score so far and the text that gave it.
pub type Best = (i64, MatchField);

/// The best after a text that only counts when it is better.
pub open spec fn better(best: Best, score: Option<i64>, field: MatchField) -> Best {
    match score {
        Some(s) => if s > best.0 {
            (s, field)
        } else {
            best
        },
        None => best,
    }
}

/// The best after a text that, when it scores as well as the best and the
/// best is above zero, makes the match one of several texts.
pub open spec fn better_or_tied(best: Best, score: Option<i64>, field: MatchField) -> Best {
    match score {
        Some(s) => if s > best.0 {
            (s, field)
        } else if s == best.0 && best.0 > 0 {
            (best.0, MatchField::Multiple)
        } else {
            best
        },
        None => best,
    }
}

/// The best score of a track against a pattern in lowercase, over its title,
/// its artist, its album, and its artist and title together.
pub open spec fn fuzzy_best(t: TrackView, pattern: Seq<char>) -> Best {
    let b0: Best = (0i64, MatchField::Title);
    let b1 = better(b0, field_score(t.title, pattern), MatchField::Title);
    let b2 = better_or_tied(b1, field_score(t.artist, pattern), MatchField::Artist);
    let b3 = better_or_tied(b2, field_score(t.album, pattern), MatchField::Album);
    better(b3, field_score(t.artist + " "@ + t.title, pattern), MatchField::Multiple)
}

/// What a fuzzy search makes of a track: a result with its best score, if
/// that reaches the threshold.
pub open spec fn fuzzy_hit(t: TrackView, pattern: Seq<char>, threshold: i64) -> Option<
    SearchResultView,
> {
    let best = fuzzy_best(t, pattern);
    if best.0 >= threshold {
        Some(SearchResultView { track: t, score: best.0, match_field: best.1 })
    } else {
        None
    }
}

/// What an exact search makes of a track: a result if the pattern occurs in
/// the lowercase form of its title, artist or album. The title counts 100,
/// the artist 80, the album 60.
pub open spec fn exact_hit(t: TrackView, pattern: Seq<char>) -> Option<SearchResultView> {
    let in_title = contains_text(lowercased(t.title), pattern);
    let in_artist = contains_text(lowercased(t.artist), pattern);
    let in_album = contains_text(lowercased(t.album), pattern);
    if in_title || in_artist || in_album {
        let field = if in_title && (in_artist || in_album) {
            MatchField::Multiple
        } else if in_title {
            MatchField::Title
        } else if in_artist {
            MatchField::Artist
        } else {
            MatchField::Album
        };
        let score: int = (if in_title {
            100int
        } else {
            0int
        }) + (if in_artist {
            80int
        } else {
            0int
        }) + (if in_album {
            60int
        } else {
            0int
        });
        Some(SearchResultView { track: t, score: score as i64, match_field: field })
    } else {
        None
    }
}

/// A ranking with one more result: the result stands behind every result that
/// scores at least as high, and before every result that scores lower.
pub open spec fn inserted(ranked: Seq<SearchResultView>, hit: SearchResultView) -> Seq<
    SearchResultView,
>
    decreases ranked.len(),
{
    if ranked.len() == 0 {
        seq![hit]
    } else if ranked.last().score >= hit.score {
        ranked.push(hit)
    } else {
        inserted(ranked.drop_last(), hit).push(ranked.last())
    }
}

/// The ranking of the results that `judge` makes of the tracks: by score,
/// the highest first, and among equal scores in the order of the tracks.
pub open spec fn ranked(
    tracks: Seq<TrackView>,
    judge: spec_fn(TrackView) -> Option<SearchResultView>,
) -> Seq<SearchResultView>
    decreases tracks.len(),
{
    if tracks.len() == 0 {
        Seq::empty()
    } else {
        let before = ranked(tracks.drop_last(), judge);
        match judge(tracks.last()) {
            Some(hit) => inserted(before, hit),
            None => before,
        }
    }
}

/// The first `n` results of a ranking.
pub open spec fn best_of(results: Seq<SearchResultView>, n: usize) -> Seq<SearchResultView> {
    if results.len() <= n {
        results
    } else {
        results.subrange(0, n as int)
    }
}

/// The results of a fuzzy search: nothing for an empty query, else the best
/// of the ranking against the query in lowercase.
pub open spec fn fuzzy_results(
    tracks: Seq<TrackView>,
    query: Seq<char>,
    threshold: i64,
    max_results: usize,
) -> Seq<SearchResultView> {
    if query.len() == 0 {
        Seq::empty()
    } else {
        best_of(
            ranked(tracks, |t: TrackView| fuzzy_hit(t, lowercased(query), threshold)),
            max_results,
        )
    }
}

/// The results of an exact search: nothing for an empty query, else the best
/// of the ranking against the query in lowercase.
pub open spec fn exact_results(
    tracks: Seq<TrackView>,
    query: Seq<char>,
    max_results: usize,
) -> Seq<SearchResultView> {
    if query.len() == 0 {
        Seq::empty()
    } else {
        best_of(ranked(tracks, |t: TrackView| exact_hit(t, lowercased(query))), max_results)
    }
}

/// Where a result stands in a ranking: at `k`, if every result from `k` on
/// scores lower and the one before `k` does not.
pub proof fn lemma_inserted_at(ranked: Seq<SearchResultView>, hit: SearchResultView, k: int)
    requires
        0 <= k <= ranked.len(),
        forall|j: int| k <= j < ranked.len() ==> (#[trigger] ranked[j]).score < hit.score,
        k > 0 ==> ranked[k - 1].score >= hit.score,
    ensures
        inserted(ranked, hit) == ranked.insert(k, hit),
    decreases ranked.len() - k,
{
    if k == ranked.len() {
        assert(ranked.push(hit) =~= ranked.insert(k, hit));
        if ranked.len() == 0 {
            assert(seq![hit] =~= ranked.insert(k, hit));
        }
    } else {
        assert(ranked.last() == ranked[ranked.len() - 1]);
        let shorter = ranked.drop_last();
        assert forall|j: int| k <= j < shorter.len() implies (#[trigger] shorter[j]).score
            < hit.score by {
            assert(shorter[j] == ranked[j]);
        }
        if k > 0 {
            assert(shorter[k - 1] == ranked[k - 1]);
        }
        lemma_inserted_at(shorter, hit, k);
        assert(shorter.insert(k, hit).push(ranked.last()) =~= ranked.insert(k, hit));
    }
}

/// Whether a list of results is in the order of a ranking: no result scores
/// higher than one before it.
pub open spec fn descending(s: Seq<SearchResultView>) -> bool {
    forall|i: int, j: int| 0 <= i < j < s.len() ==> s[i].score >= s[j].score
}

/// Inserting a result keeps a ranking in order.
pub proof fn lemma_inserted_descending(r: Seq<SearchResultView>, hit: SearchResultView)
    requires
        descending(r),
    ensures
        descending(inserted(r, hit)),
        inserted(r, hit).len() == r.len() + 1,
        inserted(r, hit).to_multiset() == r.to_multiset().insert(hit),
    decreases r.len(),
{
    broadcast use vstd::seq_lib::group_to_multiset_ensures;

    if r.len() == 0 {
        assert(inserted(r, hit) =~= Seq::<SearchResultView>::empty().push(hit));
    } else if r.last().score >= hit.score {
        let out = r.push(hit);
        assert forall|i: int, j: int| 0 <= i < j < out.len() implies out[i].score
            >= out[j].score by {
            if j == r.len() {
                assert(r[i].score >= r[r.len() - 1].score || i == r.len() - 1);
            }
        }
    } else {
        let shorter = r.drop_last();
        assert forall|i: int, j: int| 0 <= i < j < shorter.len() implies shorter[i].score
            >= shorter[j].score by {
            assert(shorter[i] == r[i] && shorter[j] == r[j]);
        }
        lemma_inserted_descending(shorter, hit);
        let mid = inserted(shorter, hit);
        let out = mid.push(r.last());
        assert(r =~= shorter.push(r.last()));
        assert forall|i: int, j: int| 0 <= i < j < out.len() implies out[i].score
            >= out[j].score by {
            if j == mid.len() {
                // every result of `mid` is the new one or one of `shorter`
                assert(mid.to_multiset().count(mid[i]) > 0);
                if mid[i] != hit {
                    assert(shorter.to_multiset().count(mid[i]) > 0);
                    let w = choose|w: int| 0 <= w < shorter.len() && shorter[w] == mid[i];
                    assert(r[w] == mid[i]);
                    assert(r[w].score >= r[r.len() - 1].score);
                }
            }
        }
    }
}

/// A ranking is in order, and it holds the results that the tracks gave, each
/// as often as it was given.
pub proof fn lemma_ranked_descending(
    tracks: Seq<TrackView>,
    judge: spec_fn(TrackView) -> Option<SearchResultView>,
)
    ensures
        descending(ranked(tracks, judge)),
        ranked(tracks, judge).len() <= tracks.len(),
    decreases tracks.len(),
{
    if tracks.len() > 0 {
        lemma_ranked_descending(tracks.drop_last(), judge);
        match judge(tracks.last()) {
            Some(hit) => {
                lemma_inserted_descending(ranked(tracks.drop_last(), judge), hit);
            },
            None => {},
        }
    }
}

/// Puts a result into a ranking.
fn place(results: &mut Vec<SearchResult>, hit: SearchResult)
    ensures
        result_views(final(results)@) == inserted(result_views(old(results)@), hit@),
{
    let ghost before = result_views(results@);
    let mut k: usize = results.len();
    while k > 0 && results[k - 1].score < hit.score
        invariant
            k <= results.len(),
            results@ == old(results)@,
            forall|j: int| k <= j < results.len() ==> (#[trigger] before[j]).score < hit.score,
            before == result_views(results@),
        decreases k,
    {
        k -= 1;
    }
    proof {
        lemma_inserted_at(before, hit@, k as int);
    }
    results.insert(k, hit);
    assert(result_views(results@) =~= before.insert(k as int, hit@));
}

/// Keeps the first `n` results.
fn keep_best(results: &mut Vec<SearchResult>, n: usize)
    ensures
        result_views(final(results)@) == best_of(result_views(old(results)@), n),
{
    if results.len() > n {
        results.truncate(n);
        assert(result_views(results@) =~= result_views(old(results)@).subrange(0, n as int));
    }
}

/// The score of one text of a track.
fn score_field(text: &str, pattern: &str) -> (r: Option<i64>)
    ensures
        r == field_score(text@, pattern@),
{
    let lowered = lowercase(text);
    if lowered.as_str().unicode_len() <= MATCH_LIMIT && pattern.unicode_len() <= MATCH_LIMIT {
        fuzzy_match(lowered.as_str(), pattern)
    } else {
        None
    }
}

fn take_better(best: Best, score: Option<i64>, field: MatchField) -> (r: Best)
    ensures
        r == better(best, score, field),
{
    match score {
        Some(s) => if s > best.0 {
            (s, field)
        } else {
            best
        },
        None => best,
    }
}

fn take_better_or_tied(best: Best, score: Option<i64>, field: MatchField) -> (r: Best)
    ensures
        r == better_or_tied(best, score, field),
{
    match score {
        Some(s) => if s > best.0 {
            (s, field)
        } else if s == best.0 && best.0 > 0 {
            (best.0, MatchField::Multiple)
        } else {
            best
        },
        None => best,
    }
}

/// The best score of a track against a pattern in lowercase.
fn score_track(track: &Track, pattern: &str) -> (r: Best)
    ensures
        r == fuzzy_best(track@, pattern@),
{
    let b0: Best = (0, MatchField::Title);
    let b1 = take_better(b0, score_field(track.title.as_str(), pattern), MatchField::Title);
    let b2 = take_better_or_tied(
        b1,
        score_field(track.artist.as_str(), pattern),
        MatchField::Artist,
    );
    let b3 = take_better_or_tied(
        b2,
        score_field(track.album.as_str(), pattern),
        MatchField::Album,
    );
    let mut combined = String::new();
    push_text(&mut combined, track.artist.as_str());
    push_text(&mut combined, " ");
    push_text(&mut combined, track.title.as_str());
    assert(combined@ =~= track@.artist + " "@ + track@.title);
    take_better(b3, score_field(combined.as_str(), pattern), MatchField::Multiple)
}

/// What an exact search makes of a track.
fn judge_exact(track: &Track, pattern: &str) -> (r: Option<SearchResult>)
    ensures
        match r {
            Some(hit) => Some(hit@),
            None => None,
        } == exact_hit(track@, pattern@),
{
    let in_title = contains(lowercase(track.title.as_str()).as_str(), pattern);
    let in_artist = contains(lowercase(track.artist.as_str()).as_str(), pattern);
    let in_album = contains(lowercase(track.album.as_str()).as_str(), pattern);
    if in_title || in_artist || in_album {
        let field = if in_title && (in_artist || in_album) {
            MatchField::Multiple
        } else if in_title {
            MatchField::Title
        } else if in_artist {
            MatchField::Artist
        } else {
            MatchField::Album
        };
        let a: i64 = if in_title {
            100
        } else {
            0
        };
        let b: i64 = if in_artist {
            80
        } else {
            0
        };
        let c: i64 = if in_album {
            60
        } else {
            0
        };
        Some(SearchResult { track: track.clone(), score: a + b + c, _match_field: field })
    } else {
        None
    }
}

impl SearchEngine {
    /// A search that keeps the tracks that score `threshold` or more, and of
    /// these the `max_results` best.
    pub fn new(threshold: i64, max_results: usize) -> (e: Self)
        ensures
            e.threshold == threshold,
            e.max_results == max_results,
    {
        SearchEngine { threshold, max_results }
    }

    /// Searches the tracks for a query, case-insensitively and tolerating
    /// gaps. The results come with the best first; tracks that score alike
    /// keep their order.
    pub fn search(&self, query: &str, tracks: &[Track]) -> (results: Vec<SearchResult>)
        ensures
            result_views(results@) == fuzzy_results(
                track_views(tracks@),
                query@,
                self.threshold,
                self.max_results,
            ),
    {
        let mut results: Vec<SearchResult> = Vec::new();
        if query.unicode_len() == 0 {
            assert(result_views(results@) =~= Seq::<SearchResultView>::empty());
            return results;
        }
        let pattern = lowercase(query);
        let ghost views = track_views(tracks@);
        let ghost judge = |t: TrackView| fuzzy_hit(t, lowercased(query@), self.threshold);
        let n = tracks.len();
        let mut i: usize = 0;
        assert(views.subrange(0, 0) =~= Seq::<TrackView>::empty());
        assert(result_views(results@) =~= Seq::<SearchResultView>::empty());
        while i < n
            invariant
                n == tracks@.len(),
                i <= n,
                pattern@ == lowercased(query@),
                views == track_views(tracks@),
                judge == (|t: TrackView| fuzzy_hit(t, lowercased(query@), self.threshold)),
                result_views(results@) == ranked(views.subrange(0, i as int), judge),
            decreases n - i,
        {
            let best = score_track(&tracks[i], pattern.as_str());
            proof {
                let upto = views.subrange(0, i as int + 1);
                assert(upto.drop_last() =~= views.subrange(0, i as int));
                assert(upto.last() == tracks@[i as int]@);
            }
            if best.0 >= self.threshold {
                let hit = SearchResult {
                    track: tracks[i].clone(),
                    score: best.0,
                    _match_field: best.1,
                };
                place(&mut results, hit);
            }
            i += 1;
        }
        assert(views.subrange(0, n as int) =~= views);
        keep_best(&mut results, self.max_results);
        results
    }

    /// Searches the tracks for a query that has to occur as it is, but for
    /// the case of its letters.
    pub fn search_exact(&self, query: &str, tracks: &[Track]) -> (results: Vec<SearchResult>)
        ensures
            result_views(results@) == exact_results(
                track_views(tracks@),
                query@,
                self.max_results,
            ),
    {
        let mut results: Vec<SearchResult> = Vec::new();
        if query.unicode_len() == 0 {
            assert(result_views(results@) =~= Seq::<SearchResultView>::empty());
            return results;
        }
        let pattern = lowercase(query);
        let ghost views = track_views(tracks@);
        let ghost judge = |t: TrackView| exact_hit(t, lowercased(query@));
        let n = tracks.len();
        let mut i: usize = 0;
        assert(views.subrange(0, 0) =~= Seq::<TrackView>::empty());
        assert(result_views(results@) =~= Seq::<SearchResultView>::empty());
        while i < n
            invariant
                n == tracks@.len(),
                i <= n,
                pattern@ == lowercased(query@),
                views == track_views(tracks@),
                judge == (|t: TrackView| exact_hit(t, lowercased(query@))),
                result_views(results@) == ranked(views.subrange(0, i as int), judge),
            decreases n - i,
        {
            let found = judge_exact(&tracks[i], pattern.as_str());
            proof {
                let upto = views.subrange(0, i as int + 1);
                assert(upto.drop_last() =~= views.subrange(0, i as int));
                assert(upto.last() == tracks@[i as int]@);
            }
            match found {
                Some(hit) => {
                    place(&mut results, hit);
                },
                None => {},
            }
            i += 1;
        }
        assert(views.subrange(0, n as int) =~= views);
        keep_best(&mut results, self.max_results);
        results
    }
}

} // verus!
