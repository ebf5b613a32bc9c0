//! Reading what a user types and what the player reports, and writing times.

use crate::api;
use crate::text;
use vstd::prelude::*;

verus! {

// ---------------------------------------------------------------------------
// Tags
// ---------------------------------------------------------------------------

/// The namespace and the value of a tag that a user typed: what stands before the first
/// colon and what stands behind it, or the whole as the value. A tag needs a value.
pub open spec fn tag_input(s: Seq<char>) -> Option<(Seq<char>, Seq<char>)> {
    let t = text::trim(s);
    let i = text::first_index(t, ':');
    let (namespace, value) = if i < t.len() {
        (text::trim(t.take(i as int)), text::trim(t.skip(i as int + 1)))
    } else {
        (Seq::empty(), t)
    };
    if value.len() == 0 {
        None
    } else {
        Some((namespace, value))
    }
}

/// Reads a tag: `<ns>:<val>`, or `<val>` alone.
pub fn parse_tag_input(s: &str) -> (r: Option<(String, String)>)
    ensures
        match r {
            Some((namespace, value)) => tag_input(s@) == Some((namespace@, value@)),
            None => tag_input(s@) is None,
        },
{
    let t = text::trimmed(s);
    if t.as_str().is_empty() {
        proof {
            text::first_index_finds(t@, ':');
        }
        return None;
    }
    let v = text::chars(t.as_str());
    let i = text::find_from(&v, 0, ':');
    assert(v@.skip(0) =~= v@);
    if i < v.len() {
        let left = text::from_chars(&v, 0, i);
        let right = text::from_chars(&v, i + 1, v.len());
        assert(left@ =~= t@.take(i as int));
        assert(right@ =~= t@.skip(i + 1));
        let namespace = text::trimmed(left.as_str());
        let value = text::trimmed(right.as_str());
        if value.as_str().is_empty() {
            None
        } else {
            Some((namespace, value))
        }
    } else {
        Some((String::new(), t))
    }
}

/// Whether a text has no white space at its ends.
pub open spec fn is_trimmed(s: Seq<char>) -> bool {
    s.len() == 0 || (!text::white_space(s[0]) && !text::white_space(s.last()))
}

/// Whether a tag is one that can be typed: no white space at the ends of its namespace
/// and its value, no colon in its namespace, and a value that is not empty.
pub open spec fn is_tag(namespace: Seq<char>, value: Seq<char>) -> bool {
    &&& is_trimmed(namespace)
    &&& is_trimmed(value)
    &&& value.len() > 0
    &&& !namespace.contains(':')
}

proof fn lemma_trim_start(s: Seq<char>)
    ensures
        text::trim_start(s).len() <= s.len(),
        text::trim_start(s).len() > 0 ==> !text::white_space(text::trim_start(s)[0]),
        text::trim_start(s).len() > 0 ==> text::trim_start(s).last() == s.last(),
        forall|c: char| text::trim_start(s).contains(c) ==> s.contains(c),
        s.len() > 0 && !text::white_space(s[0]) ==> text::trim_start(s) == s,
    decreases s.len(),
{
    if s.len() > 0 && text::white_space(s[0]) {
        lemma_trim_start(s.skip(1));
        assert forall|c: char| text::trim_start(s).contains(c) implies s.contains(c) by {
            assert(s.skip(1).contains(c));
            let i = choose|i: int| 0 <= i < s.skip(1).len() && s.skip(1)[i] == c;
            assert(s[i + 1] == c);
        }
    }
}

proof fn lemma_trim_end(s: Seq<char>)
    ensures
        text::trim_end(s).len() <= s.len(),
        text::trim_end(s).len() > 0 ==> !text::white_space(text::trim_end(s).last()),
        text::trim_end(s).len() > 0 ==> text::trim_end(s)[0] == s[0],
        forall|c: char| text::trim_end(s).contains(c) ==> s.contains(c),
        s.len() > 0 && !text::white_space(s.last()) ==> text::trim_end(s) == s,
    decreases s.len(),
{
    if s.len() > 0 && text::white_space(s.last()) {
        lemma_trim_end(s.drop_last());
        assert forall|c: char| text::trim_end(s).contains(c) implies s.contains(c) by {
            assert(s.drop_last().contains(c));
            let i = choose|i: int| 0 <= i < s.drop_last().len() && s.drop_last()[i] == c;
            assert(s[i] == c);
        }
    }
}

/// Trimming leaves no white space at the ends, adds nothing, and leaves a trimmed text as
/// it is.
pub proof fn trim_trims(s: Seq<char>)
    ensures
        is_trimmed(text::trim(s)),
        is_trimmed(s) ==> text::trim(s) == s,
        forall|c: char| text::trim(s).contains(c) ==> s.contains(c),
{
    lemma_trim_start(s);
    lemma_trim_end(text::trim_start(s));
}

/// A tag is read back as it is written exactly where it is one that can be typed, and
/// reading gives no other tags.
pub proof fn tag_reads_back(namespace: Seq<char>, value: Seq<char>, typed: Seq<char>)
    ensures
        tag_input(api::tag_text(namespace, value)) == Some((namespace, value)) <==> is_tag(
            namespace,
            value,
        ),
        tag_input(typed) matches Some((n, v)) ==> is_tag(n, v),
{
    lemma_reads_tags(typed);
    let s = api::tag_text(namespace, value);
    lemma_reads_tags(s);
    if is_tag(namespace, value) {
        reveal_strlit(":");
        assert(s =~= namespace + seq![':'] + value);
        assert(s.len() == namespace.len() + 1 + value.len());
        assert(s.last() == value.last());
        assert(s[0] == if namespace.len() > 0 {
            namespace[0]
        } else {
            ':'
        });
        trim_trims(s);
        assert forall|i: int| 0 <= i < namespace.len() implies s[i] != ':' by {
            assert(namespace.contains(namespace[i]));
        }
        text::first_index_is(s, ':', namespace.len() as int);
        assert(s.take(namespace.len() as int) =~= namespace);
        assert(s.skip(namespace.len() as int + 1) =~= value);
        trim_trims(namespace);
        trim_trims(value);
    }
}

proof fn lemma_reads_tags(typed: Seq<char>)
    ensures
        tag_input(typed) matches Some((n, v)) ==> is_tag(n, v),
{
    let t = text::trim(typed);
    let i = text::first_index(t, ':');
    trim_trims(typed);
    text::first_index_finds(t, ':');
    if i < t.len() {
        let left = t.take(i as int);
        trim_trims(left);
        trim_trims(t.skip(i as int + 1));
        if text::trim(left).contains(':') {
            assert(left.contains(':'));
            let k = choose|k: int| 0 <= k < left.len() && left[k] == ':';
            assert(t[k] == ':');
        }
    }
}

// ---------------------------------------------------------------------------
// Addresses of tracks
// ---------------------------------------------------------------------------

/// The number behind the first part `tracks`.
pub open spec fn id_after_tracks(parts: Seq<Seq<char>>) -> Option<int>
    decreases parts.len(),
{
    if parts.len() == 0 {
        None
    } else if parts[0] == "tracks"@ {
        if parts.len() > 1 {
            text::parse_int(parts[1])
        } else {
            None
        }
    } else {
        id_after_tracks(parts.skip(1))
    }
}

/// The number of the track that an address names.
pub open spec fn id_in_url(url: Seq<char>) -> Option<int> {
    id_after_tracks(text::segments(url, '/'))
}

/// An optional machine integer as a number.
pub open spec fn number(o: Option<i64>) -> Option<int> {
    match o {
        Some(n) => Some(n as int),
        None => None,
    }
}

/// Finds the number of the track in the address of its stream.
pub fn track_id_from_url(url: &str) -> (r: Option<i64>)
    ensures
        number(r) == id_in_url(url@),
{
    let parts = text::split(url, '/');
    let ghost all = text::segments(url@, '/');
    assert(all.skip(0) =~= all);
    for i in 0..parts.len()
        invariant
            text::texts(parts@) == all,
            id_after_tracks(all) == id_after_tracks(all.skip(i as int)),
            id_in_url(url@) == id_after_tracks(all),
    {
        assert(text::texts(parts@)[i as int] == parts@[i as int]@);
        if text::same(parts[i].as_str(), "tracks") {
            if i + 1 < parts.len() {
                assert(text::texts(parts@)[i + 1] == parts@[i + 1]@);
                return text::parse_i64(parts[i + 1].as_str());
            }
            return None;
        }
        assert(all.skip(i as int).skip(1) =~= all.skip(i + 1));
    }
    None
}

proof fn lemma_segments_join(a: Seq<char>, b: Seq<char>, sep: char)
    ensures
        text::segments(a + seq![sep] + b, sep) == text::segments(a, sep) + text::segments(b, sep),
    decreases a.len(),
{
    let s = a + seq![sep] + b;
    let i = text::first_index(a, sep);
    text::first_index_finds(a, sep);
    text::first_index_is(s, sep, i as int);
    if i < a.len() {
        lemma_segments_join(a.skip(i as int + 1), b, sep);
        assert(s.skip(i as int + 1) =~= a.skip(i as int + 1) + seq![sep] + b);
        assert(s.take(i as int) =~= a.take(i as int));
        assert(text::segments(s, sep) =~= text::segments(a, sep) + text::segments(b, sep));
    } else {
        assert(s.take(i as int) =~= a);
        assert(s.skip(i as int + 1) =~= b);
    }
}

proof fn lemma_one_segment(a: Seq<char>, sep: char)
    requires
        !a.contains(sep),
    ensures
        text::segments(a, sep) == seq![a],
{
    assert forall|i: int| 0 <= i < a.len() implies a[i] != sep by {
        assert(a.contains(a[i]));
    }
    text::first_index_is(a, sep, a.len() as int);
}

proof fn lemma_decimal(n: nat)
    ensures
        text::decimal(n).len() > 0,
        text::all_digits(text::decimal(n)),
        text::digits_value(text::decimal(n)) == n,
    decreases n,
{
    if n < 10 {
        let s = text::decimal(n);
        assert(s.drop_last() =~= Seq::<char>::empty());
        assert(text::digits_value(s.drop_last()) == 0);
    } else {
        lemma_decimal(n / 10);
        let s = text::decimal(n);
        assert(s.drop_last() =~= text::decimal(n / 10));
        assert forall|i: int| 0 <= i < s.len() implies text::is_digit(#[trigger] s[i]) by {
            if i < s.len() - 1 {
                assert(s[i] == text::decimal(n / 10)[i]);
            }
        }
    }
}

/// A number written in decimal is read back.
pub proof fn decimal_reads_back(i: int)
    requires
        i64::MIN <= i <= i64::MAX,
    ensures
        text::parse_int(text::decimal_int(i)) == Some(i),
{
    let s = text::decimal_int(i);
    if i < 0 {
        lemma_decimal((-i) as nat);
        assert(s.skip(1) =~= text::decimal((-i) as nat));
    } else {
        lemma_decimal(i as nat);
        assert(text::is_digit(s[0]));
    }
}

proof fn lemma_stream_segments(client: api::ClientView, track_id: i64)
    ensures
        text::segments(client.stream_url(track_id), '/') == text::segments(client.base, '/')
            + seq!["api"@, "tracks"@, text::decimal_int(track_id as int), "stream"@],
{
    reveal_strlit("/api/tracks/");
    reveal_strlit("/stream");
    reveal_strlit("api");
    reveal_strlit("tracks");
    reveal_strlit("stream");
    let n = text::decimal_int(track_id as int);
    if track_id < 0 {
        lemma_decimal((-track_id) as nat);
    } else {
        lemma_decimal(track_id as nat);
    }
    assert(!n.contains('/')) by {
        if n.contains('/') {
            let k = choose|k: int| 0 <= k < n.len() && n[k] == '/';
            if track_id < 0 {
                assert(k > 0);
                assert(text::is_digit(text::decimal((-track_id) as nat)[k - 1]));
            } else {
                assert(text::is_digit(n[k]));
            }
        }
    }
    let slash = seq!['/'];
    let d = "stream"@;
    let c = n + slash + d;
    let b = "tracks"@ + slash + c;
    let a = "api"@ + slash + b;
    assert(client.stream_url(track_id) =~= client.base + slash + a);
    lemma_segments_join(client.base, a, '/');
    lemma_segments_join("api"@, b, '/');
    lemma_segments_join("tracks"@, c, '/');
    lemma_segments_join(n, d, '/');
    lemma_one_segment("api"@, '/');
    lemma_one_segment("tracks"@, '/');
    lemma_one_segment(n, '/');
    lemma_one_segment(d, '/');
    assert(text::segments(client.stream_url(track_id), '/') =~= text::segments(client.base, '/')
        + seq!["api"@, "tracks"@, n, "stream"@]);
}

proof fn lemma_id_after_tracks(front: Seq<Seq<char>>, next: Seq<char>, more: Seq<Seq<char>>)
    requires
        next != "tracks"@,
    ensures
        front.contains("tracks"@) ==> id_after_tracks(front + seq![next] + more)
            == id_after_tracks(front.push(next)),
        !front.contains("tracks"@) ==> id_after_tracks(front + seq![next] + more)
            == id_after_tracks(more),
    decreases front.len(),
{
    let all = front + seq![next] + more;
    if front.len() == 0 {
        assert(all.skip(1) =~= more);
    } else if front[0] == "tracks"@ {
        assert(front.contains(front[0]));
        assert(all[1] == front.push(next)[1]);
    } else {
        let rest = front.skip(1);
        lemma_id_after_tracks(rest, next, more);
        assert(all.skip(1) =~= rest + seq![next] + more);
        assert(front.push(next).skip(1) =~= rest.push(next));
        if front.contains("tracks"@) {
            let k = choose|k: int| 0 <= k < front.len() && front[k] == "tracks"@;
            assert(rest[k - 1] == "tracks"@);
        }
        if rest.contains("tracks"@) {
            let k = choose|k: int| 0 <= k < rest.len() && rest[k] == "tracks"@;
            assert(front[k + 1] == "tracks"@);
        }
    }
}

/// The address of a track's stream names that track, unless the address of the server has
/// a part `tracks` of its own: then that part is the one that counts.
pub proof fn stream_url_names_its_track(client: api::ClientView, track_id: i64)
    ensures
        !text::segments(client.base, '/').contains("tracks"@) ==> id_in_url(
            client.stream_url(track_id),
        ) == Some(track_id as int),
        text::segments(client.base, '/').contains("tracks"@) ==> id_in_url(
            client.stream_url(track_id),
        ) == id_after_tracks(text::segments(client.base, '/').push("api"@)),
{
    let front = text::segments(client.base, '/');
    let n = text::decimal_int(track_id as int);
    lemma_stream_segments(client, track_id);
    reveal_strlit("api");
    reveal_strlit("tracks");
    assert("api"@.len() != "tracks"@.len());
    let more = seq!["tracks"@, n, "stream"@];
    assert(front + seq!["api"@, "tracks"@, n, "stream"@] =~= front + seq!["api"@] + more);
    lemma_id_after_tracks(front, "api"@, more);
    decimal_reads_back(track_id as int);
}

// ---------------------------------------------------------------------------
// Times
// ---------------------------------------------------------------------------

/// A number with two digits at least.
pub open spec fn two_digits(n: nat) -> Seq<char> {
    if n < 10 {
        "0"@ + text::decimal(n)
    } else {
        text::decimal(n)
    }
}

/// A time: minutes and seconds, and hours from the sixtieth minute on.
pub open spec fn time_text(seconds: nat) -> Seq<char> {
    let m = seconds / 60;
    if m >= 60 {
        text::decimal(m / 60) + ":"@ + two_digits(m % 60) + ":"@ + two_digits(seconds % 60)
    } else {
        text::decimal(m) + ":"@ + two_digits(seconds % 60)
    }
}

/// A number with two digits at least.
fn show_two(n: u64) -> (r: String)
    ensures
        r@ == two_digits(n as nat),
{
    let d = text::show(n);
    if n < 10 {
        text::cat("0", d.as_str())
    } else {
        d
    }
}

/// Writes a time, given in whole seconds.
pub fn fmt_time(seconds: u64) -> (r: String)
    ensures
        r@ == time_text(seconds as nat),
{
    let m: u64 = seconds / 60;
    let s = show_two(seconds % 60);
    if m >= 60 {
        let h = text::show(m / 60);
        let m = show_two(m % 60);
        let mut r = text::cat3(h.as_str(), ":", m.as_str());
        r.append(":");
        r.append(s.as_str());
        r
    } else {
        text::cat3(text::show(m).as_str(), ":", s.as_str())
    }
}

} // verus!
