//! How numbers and texts are written, read and divided, and how the screen is.

use crate::api;
use crate::api::ScanAnswer;
use crate::layout;
use crate::layout::Constraint;
use crate::mpv::Mpv;
use crate::parse;
use crate::text;
use vstd::prelude::*;

verus! {

/// Whether a character is a digit.
pub open spec fn is_digit(c: char) -> bool {
    '0' <= c <= '9'
}

/// The number of a digit.
pub open spec fn number_of(c: char) -> int {
    c as int - '0' as int
}

/// A number below ten is one digit, and every other number ends in the digit of its ones,
/// behind its tens. A number below zero has a minus sign in front.
pub proof fn numbers_are_written_in_decimal(n: nat, d: nat)
    requires
        d < 10,
    ensures
        text::decimal(d) == seq![('0' as int + d) as char],
        n > 0 ==> text::decimal(10 * n + d) == text::decimal(n).push(('0' as int + d) as char),
        text::decimal_int(n as int) == text::decimal(n),
        n > 0 ==> text::decimal_int(-(n as int)) == seq!['-'] + text::decimal(n),
{
    if n > 0 {
        assert((10 * n + d) / 10 == n);
        assert((10 * n + d) % 10 == d);
    }
}

/// A digit is read as its number, and each further digit as ten times what stands before it
/// and its own number, as long as that fits. One sign may stand in front, and nothing but
/// digits behind it.
pub proof fn numbers_are_read_in_decimal(s: Seq<char>, c: char)
    requires
        s.len() > 0,
        forall|i: int| 0 <= i < s.len() ==> is_digit(#[trigger] s[i]),
    ensures
        is_digit(c) ==> text::parse_int(seq![c]) == Some(number_of(c)),
        is_digit(c) ==> (text::parse_int(s) matches Some(v) ==> text::parse_int(s.push(c))
            == if 10 * v + number_of(c) <= i64::MAX {
            Some(10 * v + number_of(c))
        } else {
            None::<int>
        }),
        is_digit(c) && text::parse_int(s) is None ==> text::parse_int(s.push(c)) is None,
        !is_digit(c) ==> text::parse_int(s.push(c)) is None,
        text::parse_int(s) matches Some(v) ==> text::parse_int(seq!['-'] + s) == Some(-v)
            && text::parse_int(seq!['+'] + s) == Some(v),
        text::parse_int(Seq::empty()) is None,
        text::parse_int(seq!['-']) is None,
{
    let t = s.push(c);
    assert(t.drop_last() =~= s);
    assert(t[0] == s[0]);
    assert(is_digit(s[0]));
    assert(!text::signed(s) && !text::signed(t));
    assert forall|i: int| 0 <= i < s.len() implies text::is_digit(#[trigger] s[i]) by {
        assert(is_digit(s[i]));
    }
    assert forall|i: int| 0 <= i < s.len() implies t[i] == #[trigger] s[i] by {}
    if is_digit(c) {
        assert forall|i: int| 0 <= i < t.len() implies text::is_digit(#[trigger] t[i]) by {
            if i < s.len() {
                assert(text::is_digit(s[i]));
            }
        }
        assert(text::all_digits(t));
        let one = seq![c];
        assert(one.drop_last() =~= Seq::<char>::empty());
        assert(text::digits_value(one.drop_last()) == 0);
        assert(text::digits_value(one) == number_of(c));
        assert(text::all_digits(one));
        assert(!text::signed(one));
        assert(text::parse_int(one) == Some(number_of(c)));
    } else {
        assert(t[t.len() - 1] == c);
        assert(!text::is_digit(t[t.len() - 1]));
        assert(!text::all_digits(t));
    }
    let minus = seq!['-'] + s;
    let plus = seq!['+'] + s;
    assert(minus.skip(1) =~= s);
    assert(plus.skip(1) =~= s);
    assert(seq!['-'].skip(1) =~= Seq::<char>::empty());
}

/// A text without a separator is one part; a separator parts what stands before it from the
/// parts of what follows.
pub proof fn texts_are_divided_at_separators(a: Seq<char>, b: Seq<char>, sep: char)
    requires
        !a.contains(sep),
    ensures
        text::segments(a, sep) == seq![a],
        text::segments(a + seq![sep] + b, sep) == seq![a] + text::segments(b, sep),
{
    let s = a + seq![sep] + b;
    text::first_index_is(a, sep, a.len() as int);
    text::first_index_is(s, sep, a.len() as int);
    assert(s.take(a.len() as int) =~= a);
    assert(s.skip(a.len() as int + 1) =~= b);
}

/// The number of a track stands in its address behind the first part that is "tracks".
pub proof fn an_address_names_a_track(url: Seq<char>, k: int)
    requires
        0 <= k < text::segments(url, '/').len(),
        text::segments(url, '/')[k] == "tracks"@,
        forall|j: int| 0 <= j < k ==> #[trigger] text::segments(url, '/')[j] != "tracks"@,
    ensures
        k + 1 < text::segments(url, '/').len() ==> parse::id_in_url(url) == text::parse_int(
            text::segments(url, '/')[k + 1],
        ),
        k + 1 == text::segments(url, '/').len() ==> parse::id_in_url(url) is None,
{
    lemma_id_behind(text::segments(url, '/'), k);
}

/// Without a part that is "tracks" an address names no track.
pub proof fn an_address_may_name_no_track(url: Seq<char>)
    requires
        !text::segments(url, '/').contains("tracks"@),
    ensures
        parse::id_in_url(url) is None,
{
    lemma_no_id(text::segments(url, '/'));
}

proof fn lemma_id_behind(parts: Seq<Seq<char>>, k: int)
    requires
        0 <= k < parts.len(),
        parts[k] == "tracks"@,
        forall|j: int| 0 <= j < k ==> #[trigger] parts[j] != "tracks"@,
    ensures
        k + 1 < parts.len() ==> parse::id_after_tracks(parts) == text::parse_int(parts[k + 1]),
        k + 1 == parts.len() ==> parse::id_after_tracks(parts) is None,
    decreases k,
{
    if k > 0 {
        assert forall|j: int| 0 <= j < k - 1 implies #[trigger] parts.skip(1)[j] != "tracks"@ by {
            assert(parts[j + 1] != "tracks"@);
        }
        assert(parts[0] != "tracks"@);
        lemma_id_behind(parts.skip(1), k - 1);
    }
}

proof fn lemma_no_id(parts: Seq<Seq<char>>)
    requires
        !parts.contains("tracks"@),
    ensures
        parse::id_after_tracks(parts) is None,
    decreases parts.len(),
{
    if parts.len() > 0 {
        assert(parts.contains(parts[0]));
        assert forall|j: int| 0 <= j < parts.skip(1).len() implies parts.skip(1)[j]
            != "tracks"@ by {
            assert(parts.contains(parts[j + 1]));
        }
        lemma_no_id(parts.skip(1));
    }
}

/// A text that is too short for its column has blanks behind it, or before it where it stands
/// on the right; one that is not is left as it is.
pub proof fn texts_fill_their_columns(s: Seq<char>, width: int, i: int)
    ensures
        s.len() >= width ==> text::left_aligned(s, width) =~= s && text::right_aligned(s, width)
            =~= s,
        s.len() < width ==> {
            &&& text::left_aligned(s, width).len() == width
            &&& text::right_aligned(s, width).len() == width
            &&& 0 <= i < s.len() ==> text::left_aligned(s, width)[i] == s[i]
                && text::right_aligned(s, width)[width - s.len() + i] == s[i]
            &&& s.len() <= i < width ==> text::left_aligned(s, width)[i] == ' '
            &&& 0 <= i < width - s.len() ==> text::right_aligned(s, width)[i] == ' '
        },
{
}

/// How the screen is divided: a line of tabs, a footer of three lines, or of four where
/// something is typed or picked, and the rest between them.
pub proof fn the_screen_is_divided(normal: bool, width: u16, percent: u16)
    requires
        percent <= 100,
    ensures
        layout::screen_constraints(normal).len() == 3,
        layout::screen_constraints(normal)[0] == Constraint::Length(1),
        layout::screen_constraints(normal)[1] == Constraint::Min(1),
        normal ==> layout::screen_constraints(normal)[2] == Constraint::Length(3),
        !normal ==> layout::screen_constraints(normal)[2] == Constraint::Length(4),
        layout::footer_constraints(true) == seq![Constraint::Length(1)],
        layout::footer_constraints(false) == seq![Constraint::Length(1), Constraint::Length(1)],
        layout::status_constraints(width) == seq![Constraint::Min(1), Constraint::Length(width)],
        layout::panes_constraints() == seq![
            Constraint::Percentage(35),
            Constraint::Percentage(65),
        ],
        layout::middle_constraints(percent).len() == 3,
        layout::middle_constraints(percent)[1] == Constraint::Percentage(percent),
        layout::middle_constraints(percent)[0] == layout::middle_constraints(percent)[2],
        layout::middle_constraints(percent)[0] matches Constraint::Percentage(side) && 2 * side
            <= 100 - percent < 2 * side + 2,
{
}

/// What the answer to a request for a scan is: one that already runs at conflict, the state
/// of a scan at success, and else a refusal.
pub proof fn answers_to_scan_requests(status: u16, r: ScanAnswer)
    requires
        call_ensures(api::scan_answer, (status,), r),
    ensures
        status == 409 <==> r is Running,
        200 <= status <= 299 <==> r is State,
        r matches ScanAnswer::Running { unreadable } ==> unreadable@ == "already running"@,
{
}

/// A success is accepted, and everything else is told with its number and what was written.
pub proof fn answers_are_accepted_or_told(status: u16, message: &str, r: Result<(), String>)
    requires
        call_ensures(api::ensure_ok, (status, message), r),
    ensures
        200 <= status <= 299 <==> r is Ok,
        r matches Err(e) ==> e@ == "status "@ + text::decimal(status as nat) + ": "@ + message@,
{
}

/// The player's socket is looked for every fifty milliseconds until five seconds, in
/// nanoseconds, have gone by.
pub proof fn a_missing_socket_is_waited_for(waited: u64, socket: &str, r: Result<u64, String>)
    requires
        call_ensures(Mpv::socket_missing, (waited, socket), r),
    ensures
        waited < 5_000_000_000 ==> r == Ok::<u64, String>(50),
        waited >= 5_000_000_000 ==> (r matches Err(e) && e@ == "mpv ipc socket "@ + socket@
            + " did not appear"@),
{
}

/// A refused scan is told with what the server wrote.
pub proof fn a_refused_scan_is_told(message: &str, r: String)
    requires
        call_ensures(api::scan_refusal, (message,), r),
    ensures
        r@ == "server: "@ + message@,
{
}

/// The player's socket is named after the process that started it.
pub proof fn a_socket_is_named_after_its_process(process: u32, r: String)
    requires
        call_ensures(Mpv::socket_name, (process,), r),
    ensures
        r@ == "mutui-mpv-"@ + text::decimal(process as nat) + ".sock"@,
{
}

} // verus!
