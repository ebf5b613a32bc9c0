//! What the order of the tracks is, on the fields of the tracks.

use crate::api::TrackView;
use crate::order;
use crate::order::SortKey;
use crate::sort;
use crate::text;
use std::cmp::Ordering;
use vstd::prelude::*;

verus! {

/// Whether one text stands before another in a dictionary of code points: the texts agree up
/// to some place, and there the first one ends, or has the smaller character.
pub open spec fn precedes(a: Seq<char>, b: Seq<char>) -> bool {
    exists|k: int|
        0 <= k <= a.len() && k < b.len() && #[trigger] a.take(k) == b.take(k) && (k == a.len()
            || a[k] < b[k])
}

/// The text of a field, in small letters.
pub open spec fn small(s: Seq<char>) -> Seq<char> {
    text::lowercase(s)
}

/// The title of a track: its own, else the name of its file.
pub open spec fn title_of(t: TrackView) -> Seq<char> {
    match t.title {
        Some(title) => title,
        None => text::segments(t.path, '/').last(),
    }
}

/// The artist of a track: its own, else that of the album, else a dash.
pub open spec fn artist_of(t: TrackView) -> Seq<char> {
    match (t.artist, t.album_artist) {
        (Some(artist), _) => artist,
        (None, Some(artist)) => artist,
        (None, None) => "—"@,
    }
}

/// The album of a track, else a dash.
pub open spec fn album_of(t: TrackView) -> Seq<char> {
    match t.album {
        Some(album) => album,
        None => "—"@,
    }
}

/// A number, or what stands for a missing one.
pub open spec fn or(n: Option<i64>, missing: i64) -> i64 {
    match n {
        Some(x) => x,
        None => missing,
    }
}

/// A text, or nothing where it is missing.
pub open spec fn or_nothing(s: Option<Seq<char>>) -> Seq<char> {
    match s {
        Some(x) => x,
        None => ""@,
    }
}

/// Whether a track has a lower disc number than another, or the same and a lower track
/// number. A missing number is zero.
pub open spec fn earlier_on_the_album(a: TrackView, b: TrackView) -> bool {
    or(a.disc_no, 0) < or(b.disc_no, 0) || (or(a.disc_no, 0) == or(b.disc_no, 0) && or(
        a.track_no,
        0,
    ) < or(b.track_no, 0))
}

/// Whether two tracks have the same disc number and the same track number.
pub open spec fn same_on_the_album(a: TrackView, b: TrackView) -> bool {
    or(a.disc_no, 0) == or(b.disc_no, 0) && or(a.track_no, 0) == or(b.track_no, 0)
}

/// Texts are ordered as in a dictionary, by code point, and are equal in order only where
/// they are equal.
pub proof fn texts_are_ordered_as_in_a_dictionary(a: Seq<char>, b: Seq<char>)
    ensures
        precedes(a, b) <==> text::text_order(a, b) == Ordering::Less,
        precedes(b, a) <==> text::text_order(a, b) == Ordering::Greater,
        a == b <==> text::text_order(a, b) == Ordering::Equal,
    decreases a.len(),
{
    if a.len() > 0 && b.len() > 0 {
        let x = a.skip(1);
        let y = b.skip(1);
        texts_are_ordered_as_in_a_dictionary(x, y);
        assert(a == seq![a[0]] + x);
        assert(b == seq![b[0]] + y);
        if a[0] == b[0] {
            lemma_precedes_with_a_head(a, b);
            lemma_precedes_with_a_head(b, a);
        } else {
            lemma_precedes_by_the_head(a, b);
            lemma_precedes_by_the_head(b, a);
        }
    } else {
        assert(a.take(0) =~= b.take(0));
        if a.len() == 0 && b.len() == 0 {
            assert(a =~= b);
        }
    }
}

/// Texts with the same first character are ordered by what follows it.
proof fn lemma_precedes_with_a_head(a: Seq<char>, b: Seq<char>)
    requires
        a.len() > 0,
        b.len() > 0,
        a[0] == b[0],
    ensures
        precedes(a, b) == precedes(a.skip(1), b.skip(1)),
{
    let x = a.skip(1);
    let y = b.skip(1);
    if precedes(a, b) {
        let k: int = choose|k: int|
            0 <= k <= a.len() && k < b.len() && #[trigger] a.take(k) == b.take(k) && (k == a.len()
                || a[k] < b[k]);
        assert(k > 0);
        assert forall|i: int| 0 <= i < k - 1 implies x[i] == y[i] by {
            assert(a.take(k)[i + 1] == b.take(k)[i + 1]);
        }
        assert(x.take(k - 1) =~= y.take(k - 1));
    }
    if precedes(x, y) {
        let k: int = choose|k: int|
            0 <= k <= x.len() && k < y.len() && #[trigger] x.take(k) == y.take(k) && (k == x.len()
                || x[k] < y[k]);
        assert forall|i: int| 0 <= i < k + 1 implies a[i] == b[i] by {
            if i > 0 {
                assert(x.take(k)[i - 1] == y.take(k)[i - 1]);
            }
        }
        assert(a.take(k + 1) =~= b.take(k + 1));
    }
}

/// Texts with different first characters are ordered by them.
proof fn lemma_precedes_by_the_head(a: Seq<char>, b: Seq<char>)
    requires
        a.len() > 0,
        b.len() > 0,
        a[0] != b[0],
    ensures
        precedes(a, b) == (a[0] < b[0]),
{
    assert(a.take(0) =~= b.take(0));
    if precedes(a, b) {
        let k: int = choose|k: int|
            0 <= k <= a.len() && k < b.len() && #[trigger] a.take(k) == b.take(k) && (k == a.len()
                || a[k] < b[k]);
        if k > 0 {
            assert(a.take(k)[0] == b.take(k)[0]);
        }
    }
}

/// A track without a title is called by the part of its path that follows the last slash.
pub proof fn an_untitled_track_is_called_by_its_file(t: TrackView, front: Seq<char>, name: Seq<char>)
    requires
        t.title is None,
        !name.contains('/'),
        t.path == name || t.path == front + seq!['/'] + name,
    ensures
        t.display_title() == name,
    decreases front.len(),
{
    if t.path == name {
        text::first_index_finds(name, '/');
        assert(text::segments(name, '/') =~= seq![name]);
    } else {
        lemma_last_segment(front, name);
    }
}

/// The last part of a text that ends in a slash and a text without one is that text.
proof fn lemma_last_segment(front: Seq<char>, name: Seq<char>)
    requires
        !name.contains('/'),
    ensures
        text::segments(front + seq!['/'] + name, '/').last() == name,
    decreases front.len(),
{
    let s = front + seq!['/'] + name;
    text::first_index_finds(s, '/');
    let n: int = text::first_index(s, '/') as int;
    assert(s[front.len() as int] == '/');
    let rest = s.skip(n + 1);
    if n == front.len() {
        assert(rest =~= name);
        text::first_index_finds(name, '/');
        assert(text::segments(name, '/') =~= seq![name]);
    } else {
        assert(rest =~= front.skip(n + 1) + seq!['/'] + name);
        lemma_last_segment(front.skip(n + 1), name);
        text::lemma_segments_nonempty(rest, '/');
    }
}

/// What is shown of a track comes from its fields.
pub proof fn tracks_are_shown_by_their_fields(t: TrackView)
    ensures
        t.display_title() == title_of(t),
        t.display_artist() == artist_of(t),
        t.display_album() == album_of(t),
{
}

/// By title: the title in small letters decides, and nothing else.
pub proof fn by_title(a: TrackView, b: TrackView)
    ensures
        precedes(small(title_of(a)), small(title_of(b))) <==> order::track_order(
            a,
            b,
            SortKey::Title,
        ) == Ordering::Less,
        small(title_of(a)) == small(title_of(b)) <==> order::track_order(a, b, SortKey::Title)
            == Ordering::Equal,
{
    texts_are_ordered_as_in_a_dictionary(small(title_of(a)), small(title_of(b)));
}

/// By album: the album decides, on one album the lower disc number, and on one disc the lower
/// track number.
pub proof fn by_album(a: TrackView, b: TrackView)
    ensures
        precedes(small(album_of(a)), small(album_of(b))) ==> order::track_order(
            a,
            b,
            SortKey::Album,
        ) == Ordering::Less,
        small(album_of(a)) == small(album_of(b)) ==> {
            &&& or(a.disc_no, 0) < or(b.disc_no, 0) ==> order::track_order(a, b, SortKey::Album)
                == Ordering::Less
            &&& or(a.disc_no, 0) == or(b.disc_no, 0) && or(a.track_no, 0) < or(b.track_no, 0)
                ==> order::track_order(a, b, SortKey::Album) == Ordering::Less
            &&& or(a.disc_no, 0) == or(b.disc_no, 0) && or(a.track_no, 0) == or(b.track_no, 0)
                ==> order::track_order(a, b, SortKey::Album) == Ordering::Equal
        },
{
    texts_are_ordered_as_in_a_dictionary(small(album_of(a)), small(album_of(b)));
}

/// By artist: the artist decides, of one artist the album, and on one album the place on it.
pub proof fn by_artist(a: TrackView, b: TrackView)
    ensures
        precedes(small(artist_of(a)), small(artist_of(b))) ==> order::track_order(
            a,
            b,
            SortKey::Artist,
        ) == Ordering::Less,
        small(artist_of(a)) == small(artist_of(b)) && precedes(
            small(album_of(a)),
            small(album_of(b)),
        ) ==> order::track_order(a, b, SortKey::Artist) == Ordering::Less,
        small(artist_of(a)) == small(artist_of(b)) && small(album_of(a)) == small(album_of(b)) ==> {
            &&& earlier_on_the_album(a, b) ==> order::track_order(a, b, SortKey::Artist)
                == Ordering::Less
            &&& same_on_the_album(a, b) ==> order::track_order(a, b, SortKey::Artist)
                == Ordering::Equal
        },
{
    texts_are_ordered_as_in_a_dictionary(small(artist_of(a)), small(artist_of(b)));
    texts_are_ordered_as_in_a_dictionary(small(album_of(a)), small(album_of(b)));
}

/// By default: the artist of the album decides, then the album, the place on it, and at last
/// the title. A missing artist or album comes before all others.
pub proof fn by_default(a: TrackView, b: TrackView)
    ensures
        ({
            let artist_a = small(or_nothing(a.album_artist));
            let artist_b = small(or_nothing(b.album_artist));
            let album_a = small(or_nothing(a.album));
            let album_b = small(or_nothing(b.album));
            let title_a = small(title_of(a));
            let title_b = small(title_of(b));
            let r = order::track_order(a, b, SortKey::Default);
            &&& precedes(artist_a, artist_b) ==> r == Ordering::Less
            &&& artist_a == artist_b && precedes(album_a, album_b) ==> r == Ordering::Less
            &&& artist_a == artist_b && album_a == album_b ==> {
                &&& earlier_on_the_album(a, b) ==> r == Ordering::Less
                &&& same_on_the_album(a, b) && precedes(title_a, title_b) ==> r == Ordering::Less
                &&& same_on_the_album(a, b) && title_a == title_b ==> r == Ordering::Equal
            }
        }),
{
    texts_are_ordered_as_in_a_dictionary(
        small(or_nothing(a.album_artist)),
        small(or_nothing(b.album_artist)),
    );
    texts_are_ordered_as_in_a_dictionary(small(or_nothing(a.album)), small(or_nothing(b.album)));
    texts_are_ordered_as_in_a_dictionary(small(title_of(a)), small(title_of(b)));
}

/// By duration: the shorter track comes first, and one without a duration behind all that
/// have one.
pub proof fn by_duration(a: TrackView, b: TrackView)
    ensures
        ({
            let r = order::track_order(a, b, SortKey::Duration);
            &&& or(a.duration_ms, i64::MAX) < or(b.duration_ms, i64::MAX) <==> r == Ordering::Less
            &&& or(a.duration_ms, i64::MAX) == or(b.duration_ms, i64::MAX) <==> r
                == Ordering::Equal
        }),
{
}

/// By year: the newer track comes first, one without a year behind all that have one, and in
/// one year the album and the place on it decide.
pub proof fn by_year(a: TrackView, b: TrackView)
    ensures
        ({
            let r = order::track_order(a, b, SortKey::Year);
            &&& or(a.year, i64::MIN) > or(b.year, i64::MIN) ==> r == Ordering::Less
            &&& or(a.year, i64::MIN) == or(b.year, i64::MIN) ==> {
                &&& precedes(small(album_of(a)), small(album_of(b))) ==> r == Ordering::Less
                &&& small(album_of(a)) == small(album_of(b)) ==> {
                    &&& earlier_on_the_album(a, b) ==> r == Ordering::Less
                    &&& same_on_the_album(a, b) ==> r == Ordering::Equal
                }
            }
        }),
{
    texts_are_ordered_as_in_a_dictionary(small(album_of(a)), small(album_of(b)));
}

/// By the time of adding: the track that was added last comes first.
pub proof fn by_time_of_adding(a: TrackView, b: TrackView)
    ensures
        a.added_at > b.added_at <==> order::track_order(a, b, SortKey::AddedAt) == Ordering::Less,
        a.added_at == b.added_at <==> order::track_order(a, b, SortKey::AddedAt)
            == Ordering::Equal,
{
}

/// One track comes before another exactly where the other comes after it.
pub proof fn before_is_the_opposite_of_after(a: TrackView, b: TrackView, key: SortKey)
    ensures
        order::track_order(a, b, key) == Ordering::Less <==> order::track_order(b, a, key)
            == Ordering::Greater,
        order::track_order(a, b, key) == Ordering::Equal <==> order::track_order(b, a, key)
            == Ordering::Equal,
{
    order::track_order_is_total(a, b, a, key);
}

/// A sorted list holds what it held, and in it no track stands before one that comes before
/// it.
pub proof fn a_sorted_list_is_in_order(
    tracks: Seq<TrackView>,
    key: SortKey,
    places: Seq<usize>,
    i: int,
    j: int,
)
    requires
        0 <= i < j < places.len(),
    ensures
        ({
            let s = sort::sorted(tracks, key, places);
            &&& s.len() == places.len()
            &&& s.to_multiset() == places.to_multiset()
            &&& order::track_order(tracks[s[i] + 0], tracks[s[j] + 0], key) != Ordering::Greater
        }),
{
    sort::sorted_is_in_order(tracks, key, places);
    let s = sort::sorted(tracks, key, places);
    assert(!order::comes_after(tracks, key, s[i], s[j]));
}

/// Whether places are in rising order.
pub open spec fn rising(places: Seq<usize>) -> bool {
    forall|i: int, j: int| 0 <= i < j < places.len() ==> places[i] < places[j]
}

/// The tied places of a rising list are rising, and are places of the list.
proof fn lemma_ties_rise(tracks: Seq<TrackView>, key: SortKey, s: Seq<usize>, y: usize)
    requires
        rising(s),
    ensures
        rising(sort::ties(tracks, key, s, y)),
        forall|i: int|
            0 <= i < sort::ties(tracks, key, s, y).len() ==> s.contains(
                #[trigger] sort::ties(tracks, key, s, y)[i],
            ),
    decreases s.len(),
{
    if s.len() > 0 {
        let front = s.drop_last();
        lemma_ties_rise(tracks, key, front, y);
        let t = sort::ties(tracks, key, front, y);
        assert forall|i: int| 0 <= i < t.len() implies #[trigger] t[i] < s.last() && s.contains(
            t[i],
        ) by {
            assert(front.contains(t[i]));
            let k: int = choose|k: int| 0 <= k < front.len() && front[k] == t[i];
            assert(s[k] == t[i]);
        }
        assert(s.contains(s.last()));
    }
}

/// A place that is tied with `y` is among the places that are.
proof fn lemma_ties_hold(tracks: Seq<TrackView>, key: SortKey, s: Seq<usize>, y: usize, i: int)
    requires
        0 <= i < s.len(),
        sort::tied(tracks, key, s[i], y),
    ensures
        sort::ties(tracks, key, s, y).contains(s[i]),
    decreases s.len(),
{
    let front = s.drop_last();
    let t = sort::ties(tracks, key, s, y);
    if i == s.len() - 1 {
        assert(t.last() == s[i]);
    } else {
        lemma_ties_hold(tracks, key, front, y, i);
        let f = sort::ties(tracks, key, front, y);
        let k: int = choose|k: int| 0 <= k < f.len() && f[k] == s[i];
        assert(t[k] == s[i]);
    }
}

/// Where the tied places of a list are rising, so are any two of them in the list.
proof fn lemma_rising_ties(
    tracks: Seq<TrackView>,
    key: SortKey,
    s: Seq<usize>,
    y: usize,
    i: int,
    j: int,
)
    requires
        0 <= i < j < s.len(),
        sort::tied(tracks, key, s[i], y),
        sort::tied(tracks, key, s[j], y),
        rising(sort::ties(tracks, key, s, y)),
    ensures
        s[i] < s[j],
    decreases s.len(),
{
    let front = s.drop_last();
    let t = sort::ties(tracks, key, s, y);
    let f = sort::ties(tracks, key, front, y);
    assert forall|a: int, b: int| 0 <= a < b < f.len() implies f[a] < f[b] by {
        assert(t[a] == f[a] && t[b] == f[b]);
    }
    if j == s.len() - 1 {
        lemma_ties_hold(tracks, key, front, y, i);
        let k: int = choose|k: int| 0 <= k < f.len() && f[k] == s[i];
        assert(t[k] == s[i] && t[t.len() - 1] == s[j]);
    } else {
        lemma_rising_ties(tracks, key, front, y, i, j);
    }
}

/// Tracks between which the order does not decide stand in a sorted list as they stand in the
/// library.
pub proof fn undecided_tracks_stand_as_in_the_library(
    tracks: Seq<TrackView>,
    key: SortKey,
    places: Seq<usize>,
    i: int,
    j: int,
)
    requires
        0 <= i < j < places.len(),
        rising(places),
    ensures
        ({
            let s = sort::sorted(tracks, key, places);
            order::track_order(tracks[s[i] + 0], tracks[s[j] + 0], key) == Ordering::Equal ==> s[i]
                < s[j]
        }),
{
    let s = sort::sorted(tracks, key, places);
    sort::sorted_is_in_order(tracks, key, places);
    if order::track_order(tracks[s[i] + 0], tracks[s[j] + 0], key) == Ordering::Equal {
        let y: usize = s[j];
        before_is_the_opposite_of_after(tracks[s[i] + 0], tracks[y + 0], key);
        order::track_order_is_total(tracks[y + 0], tracks[y + 0], tracks[y + 0], key);
        sort::sorted_is_stable(tracks, key, places, y);
        lemma_ties_rise(tracks, key, places, y);
        lemma_rising_ties(tracks, key, s, y, i, j);
    }
}

/// The sort keys stand in the picker in this order.
pub proof fn the_sort_keys_have_their_places()
    ensures
        order::sort_keys().len() == 7,
        order::sort_keys()[0] == SortKey::Default,
        order::sort_keys()[1] == SortKey::Title,
        order::sort_keys()[2] == SortKey::Artist,
        order::sort_keys()[3] == SortKey::Album,
        order::sort_keys()[4] == SortKey::Duration,
        order::sort_keys()[5] == SortKey::Year,
        order::sort_keys()[6] == SortKey::AddedAt,
{
}

} // verus!
