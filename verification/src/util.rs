//! Small helpers: taking a string out of a text field, and how closely a
//! song matches a search.
use vstd::prelude::*;
use fuzzy_matcher::FuzzyMatcher;
use fuzzy_matcher::skim::SkimMatcherV2;
use crate::music::Song;

verus! {

/// Takes the text out of `string`, leaving it empty.
pub fn consume(string: &mut String) -> (r: String)
    ensures
        r == *old(string),
        final(string)@ == Seq::<char>::empty(),
{
    let mut out = String::new();
    std::mem::swap(&mut out, string);
    out
}

/// The score that the skim fuzzy matcher gives `choice` for `pattern`, or
/// `None` when `pattern` does not match.
pub uninterp spec fn skim_score(choice: Seq<char>, pattern: Seq<char>) -> Option<i64>;

/// Scores `choice` against `pattern`.
///
/// Wraps `FuzzyMatcher::fuzzy_match` of `fuzzy_matcher::skim::SkimMatcherV2`
/// with its default configuration. The score depends on the two texts alone
/// (the matcher's caches are scratch space); the contract names it
/// `skim_score` and states the one fact the source shows plainly: an empty
/// pattern scores `Some(0)`.
#[verifier::external_body]
fn fuzzy_match(choice: &str, pattern: &str) -> (r: Option<i64>)
    ensures
        r == skim_score(choice@, pattern@),
        pattern@.len() == 0 ==> r == Some(0i64),
{
    SkimMatcherV2::default().fuzzy_match(choice, pattern)
}

/// A score counted for similarity: a missing or negative score counts as
/// zero.
pub open spec fn counted(s: Option<i64>) -> int {
    match s {
        Some(v) => if v > 0 {
            v as int
        } else {
            0
        },
        None => 0,
    }
}

/// The sum of the counted scores of title, artist and album.
pub open spec fn similarity_total(title: Option<i64>, artist: Option<i64>, album: Option<i64>) -> int {
    counted(title) + counted(artist) + counted(album)
}

/// The similarity of three scores: their counted sum, or `None` when the sum
/// does not fit in an `i64`.
pub open spec fn combine_spec(title: Option<i64>, artist: Option<i64>, album: Option<i64>) -> Option<usize> {
    let t = similarity_total(title, artist, album);
    if t <= i64::MAX {
        Some(t as usize)
    } else {
        None
    }
}

/// The album score of a song: zero when it has no album.
pub open spec fn album_score(song: Song, query: Seq<char>) -> Option<i64> {
    match song.album {
        Some(a) => skim_score(a@, query),
        None => Some(0),
    }
}

/// The similarity of a song to a query, as three scores.
pub open spec fn song_scores(song: Song, query: Seq<char>) -> (Option<i64>, Option<i64>, Option<i64>) {
    (skim_score(song.title@, query), skim_score(song.artist@, query), album_score(song, query))
}

/// The similarity of a song to a query counts each of its title, artist
/// and album: the fuzzy score of each against the query, a missing or
/// negative score as zero, and no album as zero. The similarity is that sum
/// whenever it fits in an `i64`.
pub proof fn law_similarity_counts_each_field(song: Song, query: Seq<char>)
    ensures
        ({
            let clamp = |x: Option<i64>| match x {
                Some(v) => if v > 0 {
                    v as int
                } else {
                    0int
                },
                None => 0int,
            };
            let album = match song.album {
                Some(a) => clamp(skim_score(a@, query)),
                None => 0int,
            };
            let sum = clamp(skim_score(song.title@, query)) + clamp(skim_score(song.artist@, query)) + album;
            let r = combine_spec(song_scores(song, query).0, song_scores(song, query).1, song_scores(song, query).2);
            &&& sum <= i64::MAX ==> r == Some(sum as usize)
            &&& sum > i64::MAX ==> r is None
        }),
{
}

/// A song whose album matches the query scores at least the album's score:
/// the album is never left out of the similarity, which is that total
/// whenever it fits.
pub proof fn law_album_raises_similarity(song: Song, query: Seq<char>, a: String, v: i64)
    requires
        song.album == Some(a),
        skim_score(a@, query) == Some(v),
    ensures
        similarity_total(song_scores(song, query).0, song_scores(song, query).1, song_scores(song, query).2) >= v,
        similarity_total(song_scores(song, query).0, song_scores(song, query).1, song_scores(song, query).2)
            <= usize::MAX ==> (combine_spec(song_scores(song, query).0, song_scores(song, query).1, song_scores(song, query).2)
            matches Some(r) ==> r >= v),
{
}

fn count(s: Option<i64>) -> (r: i64)
    ensures
        r == counted(s),
{
    match s {
        Some(v) => if v > 0 {
            v
        } else {
            0
        },
        None => 0,
    }
}

/// Combines the scores of title, artist and album.
pub fn combine_scores(title: Option<i64>, artist: Option<i64>, album: Option<i64>) -> (r: Option<usize>)
    ensures
        r == combine_spec(title, artist, album),
{
    let t = count(title);
    let a = count(artist);
    let b = count(album);
    match t.checked_add(a) {
        Some(ta) => match ta.checked_add(b) {
            Some(total) => Some(total as usize),
            None => None,
        },
        None => None,
    }
}

fn scores(song: &Song, query: &String) -> (r: (Option<i64>, Option<i64>, Option<i64>))
    ensures
        r == song_scores(*song, query@),
{
    let title = fuzzy_match(song.title.as_str(), query.as_str());
    let artist = fuzzy_match(song.artist.as_str(), query.as_str());
    let album = match &song.album {
        Some(a) => fuzzy_match(a.as_str(), query.as_str()),
        None => Some(0),
    };
    (title, artist, album)
}

/// How closely a song matches a query: the sum of the fuzzy scores of its
/// title, artist and album, each at least zero.
pub fn is_song_similar(song: &Song, query: &String) -> (r: usize)
    requires
        combine_spec(song_scores(*song, query@).0, song_scores(*song, query@).1, song_scores(*song, query@).2) is Some,
    ensures
        Some(r) == combine_spec(song_scores(*song, query@).0, song_scores(*song, query@).1, song_scores(*song, query@).2),
{
    let (t, a, b) = scores(song, query);
    combine_scores(t, a, b).unwrap()
}

/// How closely a song matches a query, or `None` when the sum of the
/// scores does not fit in an `i64`.
pub fn checked_song_similarity(song: &Song, query: &String) -> (r: Option<usize>)
    ensures
        r == combine_spec(song_scores(*song, query@).0, song_scores(*song, query@).1, song_scores(*song, query@).2),
{
    let (t, a, b) = scores(song, query);
    match combine_scores(t, a, b) {
        Some(_) => Some(is_song_similar(song, query)),
        None => None,
    }
}

/// Whether a song counts as matching a query: its similarity is above 70.
/// `None` when the similarity does not fit in an `i64`.
pub fn song_matches_query(song: &Song, query: &String) -> (r: Option<bool>)
    ensures
        r == match combine_spec(song_scores(*song, query@).0, song_scores(*song, query@).1, song_scores(*song, query@).2) {
            Some(s) => Some(s > 70),
            None => None,
        },
{
    match checked_song_similarity(song, query) {
        Some(s) => Some(s > 70),
        None => None,
    }
}

} // verus!
