//! The order of tracks, and sorting by it.

use crate::api::{Track, TrackView};
use crate::lists;
use crate::text;
use std::cmp::Ordering;
use vstd::prelude::*;

verus! {

/// What the songs are sorted by.
#[derive(Debug, Clone, Copy, PartialEq, Eq, Structural)]
pub enum SortKey {
    Default,
    Title,
    Artist,
    Album,
    Duration,
    Year,
    AddedAt,
}

/// The sort keys, in the order of the sort picker.
pub open spec fn sort_keys() -> Seq<SortKey> {
    seq![
        SortKey::Default,
        SortKey::Title,
        SortKey::Artist,
        SortKey::Album,
        SortKey::Duration,
        SortKey::Year,
        SortKey::AddedAt,
    ]
}

impl SortKey {
    /// The name of the key in the sort picker.
    pub open spec fn label_text(self) -> Seq<char> {
        match self {
            SortKey::Default => "Default (artist / album / track)"@,
            SortKey::Title => "Title (A→Z)"@,
            SortKey::Artist => "Artist (A→Z)"@,
            SortKey::Album => "Album (A→Z)"@,
            SortKey::Duration => "Duration (shortest first)"@,
            SortKey::Year => "Year (newest first)"@,
            SortKey::AddedAt => "Date added (newest first)"@,
        }
    }

    /// The name of the key in messages.
    pub open spec fn short_label_text(self) -> Seq<char> {
        match self {
            SortKey::Default => "default"@,
            SortKey::Title => "title"@,
            SortKey::Artist => "artist"@,
            SortKey::Album => "album"@,
            SortKey::Duration => "duration"@,
            SortKey::Year => "year"@,
            SortKey::AddedAt => "added"@,
        }
    }

    /// The place of the key among the sort keys.
    pub open spec fn place(self) -> usize {
        match self {
            SortKey::Default => 0,
            SortKey::Title => 1,
            SortKey::Artist => 2,
            SortKey::Album => 3,
            SortKey::Duration => 4,
            SortKey::Year => 5,
            SortKey::AddedAt => 6,
        }
    }

    /// The name of the key in the sort picker.
    pub fn label(self) -> (r: &'static str)
        ensures
            r@ == self.label_text(),
    {
        match self {
            SortKey::Default => "Default (artist / album / track)",
            SortKey::Title => "Title (A→Z)",
            SortKey::Artist => "Artist (A→Z)",
            SortKey::Album => "Album (A→Z)",
            SortKey::Duration => "Duration (shortest first)",
            SortKey::Year => "Year (newest first)",
            SortKey::AddedAt => "Date added (newest first)",
        }
    }

    /// The name of the key in messages.
    pub fn short_label(self) -> (r: &'static str)
        ensures
            r@ == self.short_label_text(),
    {
        match self {
            SortKey::Default => "default",
            SortKey::Title => "title",
            SortKey::Artist => "artist",
            SortKey::Album => "album",
            SortKey::Duration => "duration",
            SortKey::Year => "year",
            SortKey::AddedAt => "added",
        }
    }

    /// The sort keys, in the order of the sort picker.
    pub fn all() -> (r: Vec<SortKey>)
        ensures
            r@ == sort_keys(),
    {
        let r = vec![
            SortKey::Default,
            SortKey::Title,
            SortKey::Artist,
            SortKey::Album,
            SortKey::Duration,
            SortKey::Year,
            SortKey::AddedAt,
        ];
        assert(r@ =~= sort_keys());
        r
    }

    /// The place of the key in the sort picker.
    pub fn index(self) -> (r: usize)
        ensures
            r == self.place(),
            r < sort_keys().len(),
            sort_keys()[r as int] == self,
    {
        match self {
            SortKey::Default => 0,
            SortKey::Title => 1,
            SortKey::Artist => 2,
            SortKey::Album => 3,
            SortKey::Duration => 4,
            SortKey::Year => 5,
            SortKey::AddedAt => 6,
        }
    }
}

// ---------------------------------------------------------------------------
// The order
// ---------------------------------------------------------------------------

/// The first order, unless it leaves the two equal; then the second.
pub open spec fn first_then(a: Ordering, b: Ordering) -> Ordering {
    match a {
        Ordering::Equal => b,
        _ => a,
    }
}

/// The order of two numbers.
pub open spec fn number_order(a: i64, b: i64) -> Ordering {
    if a < b {
        Ordering::Less
    } else if a == b {
        Ordering::Equal
    } else {
        Ordering::Greater
    }
}

/// The order of two texts whatever their case.
pub open spec fn folded_order(a: Seq<char>, b: Seq<char>) -> Ordering {
    text::text_order(text::lowercase(a), text::lowercase(b))
}

/// A number, or another where it is missing.
pub open spec fn number_or(o: Option<i64>, d: i64) -> i64 {
    match o {
        Some(n) => n,
        None => d,
    }
}

/// A text, or the empty one where it is missing.
pub open spec fn text_or_empty(o: Option<Seq<char>>) -> Seq<char> {
    match o {
        Some(s) => s,
        None => ""@,
    }
}

/// The order of two tracks by disc and then by number.
pub open spec fn place_order(a: TrackView, b: TrackView) -> Ordering {
    first_then(
        number_order(number_or(a.disc_no, 0), number_or(b.disc_no, 0)),
        number_order(number_or(a.track_no, 0), number_or(b.track_no, 0)),
    )
}

/// The order of two tracks under a sort key. Years and dates go from the newest to the
/// oldest.
pub open spec fn track_order(a: TrackView, b: TrackView, key: SortKey) -> Ordering {
    match key {
        SortKey::Default => first_then(
            folded_order(text_or_empty(a.album_artist), text_or_empty(b.album_artist)),
            first_then(
                folded_order(text_or_empty(a.album), text_or_empty(b.album)),
                first_then(
                    place_order(a, b),
                    folded_order(a.display_title(), b.display_title()),
                ),
            ),
        ),
        SortKey::Title => folded_order(a.display_title(), b.display_title()),
        SortKey::Artist => first_then(
            folded_order(a.display_artist(), b.display_artist()),
            first_then(
                folded_order(a.display_album(), b.display_album()),
                place_order(a, b),
            ),
        ),
        SortKey::Album => first_then(
            folded_order(a.display_album(), b.display_album()),
            place_order(a, b),
        ),
        SortKey::Duration => number_order(
            number_or(a.duration_ms, i64::MAX),
            number_or(b.duration_ms, i64::MAX),
        ),
        SortKey::Year => first_then(
            number_order(number_or(b.year, i64::MIN), number_or(a.year, i64::MIN)),
            first_then(
                folded_order(a.display_album(), b.display_album()),
                place_order(a, b),
            ),
        ),
        SortKey::AddedAt => number_order(b.added_at, a.added_at),
    }
}

/// Orders two numbers.
fn order_numbers(a: i64, b: i64) -> (r: Ordering)
    ensures
        r == number_order(a, b),
{
    if a < b {
        Ordering::Less
    } else if a == b {
        Ordering::Equal
    } else {
        Ordering::Greater
    }
}

/// Orders two texts whatever their case.
fn order_folded(a: &str, b: &str) -> (r: Ordering)
    ensures
        r == folded_order(a@, b@),
{
    let x = text::to_lowercase(a);
    let y = text::to_lowercase(b);
    text::order_text(x.as_str(), y.as_str())
}

/// Orders two tracks by disc and then by number.
fn order_places(a: &Track, b: &Track) -> (r: Ordering)
    ensures
        r == place_order(a@, b@),
{
    match order_numbers(a.disc_no.unwrap_or(0), b.disc_no.unwrap_or(0)) {
        Ordering::Equal => order_numbers(a.track_no.unwrap_or(0), b.track_no.unwrap_or(0)),
        other => other,
    }
}

/// An optional text, or the empty one.
fn or_empty(o: &Option<String>) -> (r: &str)
    ensures
        r@ == text_or_empty(text::opt(*o)),
{
    match o {
        Some(s) => s.as_str(),
        None => "",
    }
}

/// Orders two tracks under a sort key.
pub fn cmp_tracks(a: &Track, b: &Track, key: SortKey) -> (r: Ordering)
    ensures
        r == track_order(a@, b@, key),
{
    match key {
        SortKey::Default => {
            match order_folded(or_empty(&a.album_artist), or_empty(&b.album_artist)) {
                Ordering::Equal => {},
                other => return other,
            }
            match order_folded(or_empty(&a.album), or_empty(&b.album)) {
                Ordering::Equal => {},
                other => return other,
            }
            match order_places(a, b) {
                Ordering::Equal => order_folded(a.display_title(), b.display_title()),
                other => other,
            }
        },
        SortKey::Title => order_folded(a.display_title(), b.display_title()),
        SortKey::Artist => {
            match order_folded(a.display_artist(), b.display_artist()) {
                Ordering::Equal => {},
                other => return other,
            }
            match order_folded(a.display_album(), b.display_album()) {
                Ordering::Equal => order_places(a, b),
                other => other,
            }
        },
        SortKey::Album => match order_folded(a.display_album(), b.display_album()) {
            Ordering::Equal => order_places(a, b),
            other => other,
        },
        SortKey::Duration => order_numbers(
            a.duration_ms.unwrap_or(i64::MAX),
            b.duration_ms.unwrap_or(i64::MAX),
        ),
        SortKey::Year => {
            match order_numbers(b.year.unwrap_or(i64::MIN), a.year.unwrap_or(i64::MIN)) {
                Ordering::Equal => {},
                other => return other,
            }
            match order_folded(a.display_album(), b.display_album()) {
                Ordering::Equal => order_places(a, b),
                other => other,
            }
        },
        SortKey::AddedAt => order_numbers(b.added_at, a.added_at),
    }
}

/// Whether the track at place `x` comes after the one at place `y`.
pub open spec fn comes_after(
    tracks: Seq<TrackView>,
    key: SortKey,
    x: usize,
    y: usize,
) -> bool {
    track_order(tracks[x + 0], tracks[y + 0], key) == Ordering::Greater
}

/// Whether the track at place `x` comes after the one at place `y`.
pub fn is_after(tracks: &Vec<Track>, key: SortKey, x: usize, y: usize) -> (r: bool)
    requires
        x < tracks@.len(),
        y < tracks@.len(),
    ensures
        r == comes_after(lists::views(tracks@), key, x, y),
{
    match cmp_tracks(&tracks[x], &tracks[y], key) {
        Ordering::Greater => true,
        _ => false,
    }
}

// ---------------------------------------------------------------------------
// The order is a total one
// ---------------------------------------------------------------------------

/// The opposite order.
pub open spec fn opposite(o: Ordering) -> Ordering {
    match o {
        Ordering::Less => Ordering::Greater,
        Ordering::Equal => Ordering::Equal,
        Ordering::Greater => Ordering::Less,
    }
}

/// Whether three orders, of a first and a second, of the second and a third, and of the
/// first and the third, go together.
pub open spec fn chained(ab: Ordering, bc: Ordering, ac: Ordering) -> bool {
    &&& ab == Ordering::Equal ==> ac == bc
    &&& bc == Ordering::Equal ==> ac == ab
    &&& ab == bc ==> ac == ab
}

proof fn lemma_text_order(a: Seq<char>, b: Seq<char>, c: Seq<char>)
    ensures
        text::text_order(a, a) == Ordering::Equal,
        text::text_order(b, a) == opposite(text::text_order(a, b)),
        chained(text::text_order(a, b), text::text_order(b, c), text::text_order(a, c)),
    decreases a.len() + b.len() + c.len(),
{
    let x = if a.len() > 0 {
        a.skip(1)
    } else {
        a
    };
    let y = if b.len() > 0 {
        b.skip(1)
    } else {
        b
    };
    let z = if c.len() > 0 {
        c.skip(1)
    } else {
        c
    };
    if a.len() > 0 || b.len() > 0 || c.len() > 0 {
        lemma_text_order(x, y, z);
    }
}

/// Under every sort key the order of tracks is a total one: a track equals itself, two
/// tracks in turn give the opposite order, and the order of three goes together.
pub proof fn track_order_is_total(a: TrackView, b: TrackView, c: TrackView, key: SortKey)
    ensures
        track_order(a, a, key) == Ordering::Equal,
        track_order(b, a, key) == opposite(track_order(a, b, key)),
        chained(track_order(a, b, key), track_order(b, c, key), track_order(a, c, key)),
{
    let low = |s: Seq<char>| text::lowercase(s);
    lemma_text_order(
        low(text_or_empty(a.album_artist)),
        low(text_or_empty(b.album_artist)),
        low(text_or_empty(c.album_artist)),
    );
    lemma_text_order(
        low(text_or_empty(a.album)),
        low(text_or_empty(b.album)),
        low(text_or_empty(c.album)),
    );
    lemma_text_order(low(a.display_title()), low(b.display_title()), low(c.display_title()));
    lemma_text_order(low(a.display_artist()), low(b.display_artist()), low(c.display_artist()));
    lemma_text_order(low(a.display_album()), low(b.display_album()), low(c.display_album()));
}

/// Of two tracks at most one comes after the other, and what does not come after a track
/// does not come after what follows it either.
pub proof fn comes_after_is_total(
    tracks: Seq<TrackView>,
    key: SortKey,
    x: usize,
    y: usize,
    z: usize,
)
    ensures
        !comes_after(tracks, key, x, x),
        !(comes_after(tracks, key, x, y) && comes_after(tracks, key, y, x)),
        !comes_after(tracks, key, x, y) && !comes_after(tracks, key, y, z) ==> !comes_after(
            tracks,
            key,
            x,
            z,
        ),
{
    track_order_is_total(tracks[x + 0], tracks[y + 0], tracks[z + 0], key);
}

} // verus!
