//! Text: characters, numbers in decimal, trimming, splitting, searching and ordering.

use std::cmp::Ordering;
use vstd::prelude::*;

verus! {

/// `String::push` appends one character.
pub assume_specification[ String::push ](s: &mut String, c: char)
    ensures
        final(s)@ == old(s)@.push(c),
;

/// `String::pop` takes the last character off and gives it back; an empty string
/// stays empty and gives `None`.
pub assume_specification[ String::pop ](s: &mut String) -> (last: Option<char>)
    ensures
        old(s)@.len() == 0 ==> final(s)@ == old(s)@ && last is None,
        old(s)@.len() > 0 ==> final(s)@ == old(s)@.drop_last() && last == Some(old(s)@.last()),
;

/// The lowercase form of a text, after the Unicode tables of `str::to_lowercase`.
pub uninterp spec fn lowercase(s: Seq<char>) -> Seq<char>;

/// Calls `str::to_lowercase`. Every character maps to one or more characters, so
/// only the empty text has an empty lowercase form.
#[verifier::external_body]
pub(crate) fn to_lowercase(s: &str) -> (r: String)
    ensures
        r@ == lowercase(s@),
        r@.len() == 0 <==> s@.len() == 0,
{
    s.to_lowercase()
}

// ---------------------------------------------------------------------------
// Characters
// ---------------------------------------------------------------------------

/// The characters of a text, in order.
pub fn chars(s: &str) -> (r: Vec<char>)
    ensures
        r@ == s@,
{
    let mut r: Vec<char> = Vec::new();
    for c in it: s.chars()
        invariant
            r@ == it.seq().take(it.index()),
            it.seq() == s@,
    {
        r.push(c);
        assert(it.seq().take(it.index()).push(c) =~= it.seq().take(it.index() + 1));
    }
    assert(s@.take(s@.len() as int) =~= s@);
    r
}

/// The text made of `v[from..to]`.
pub fn from_chars(v: &Vec<char>, from: usize, to: usize) -> (r: String)
    requires
        from <= to <= v@.len(),
    ensures
        r@ == v@.subrange(from as int, to as int),
{
    let mut r = String::new();
    for i in from..to
        invariant
            from <= i <= to <= v@.len(),
            r@ == v@.subrange(from as int, i as int),
    {
        r.push(v[i]);
        assert(v@.subrange(from as int, i as int).push(v@[i as int]) =~= v@.subrange(
            from as int,
            i + 1,
        ));
    }
    r
}

/// A copy of a borrowed text.
pub fn copy(s: &str) -> (r: String)
    ensures
        r@ == s@,
{
    s.to_owned()
}

/// Whether two texts hold the same characters.
pub fn same(a: &str, b: &str) -> (r: bool)
    ensures
        r == (a@ == b@),
{
    let x = chars(a);
    let y = chars(b);
    if x.len() != y.len() {
        return false;
    }
    for i in 0..x.len()
        invariant
            x@ == a@,
            y@ == b@,
            x@.len() == y@.len(),
            forall|j: int| 0 <= j < i ==> x@[j] == y@[j],
    {
        if x[i] != y[i] {
            return false;
        }
    }
    assert(x@ =~= y@);
    true
}

/// `a` followed by `b`.
pub fn cat(a: &str, b: &str) -> (r: String)
    ensures
        r@ == a@ + b@,
{
    let mut r = copy(a);
    r.append(b);
    r
}

/// `a`, `b` and `c` in a row.
pub fn cat3(a: &str, b: &str, c: &str) -> (r: String)
    ensures
        r@ == a@ + b@ + c@,
{
    let mut r = copy(a);
    r.append(b);
    r.append(c);
    r
}

/// A text, or `None`, as characters.
pub open spec fn opt(o: Option<String>) -> Option<Seq<char>> {
    match o {
        Some(s) => Some(s@),
        None => None,
    }
}

/// A copy of an optional text.
pub fn copy_opt(o: &Option<String>) -> (r: Option<String>)
    ensures
        r == *o,
{
    match o {
        Some(s) => Some(s.clone()),
        None => None,
    }
}

// ---------------------------------------------------------------------------
// Decimal numbers
// ---------------------------------------------------------------------------

/// The character of a decimal digit.
pub open spec fn digit(d: nat) -> char {
    (48 + d) as char
}

/// Whether a character is a decimal digit.
pub open spec fn is_digit(c: char) -> bool {
    '0' <= c <= '9'
}

/// A natural number in decimal, without leading zeros.
pub open spec fn decimal(n: nat) -> Seq<char>
    decreases n,
{
    if n < 10 {
        seq![digit(n)]
    } else {
        decimal(n / 10).push(digit(n % 10))
    }
}

/// An integer in decimal, with a minus sign in front of a negative one.
pub open spec fn decimal_int(i: int) -> Seq<char> {
    if i < 0 {
        seq!['-'] + decimal((-i) as nat)
    } else {
        decimal(i as nat)
    }
}

/// The number that a row of digits stands for.
pub open spec fn digits_value(s: Seq<char>) -> nat
    decreases s.len(),
{
    if s.len() == 0 {
        0
    } else {
        digits_value(s.drop_last()) * 10 + (s.last() as nat - 48) as nat
    }
}

/// Whether every character is a decimal digit.
pub open spec fn all_digits(s: Seq<char>) -> bool {
    forall|i: int| 0 <= i < s.len() ==> is_digit(#[trigger] s[i])
}

/// Whether a text begins with a sign.
pub open spec fn signed(s: Seq<char>) -> bool {
    s.len() > 0 && (s[0] == '-' || s[0] == '+')
}

/// What follows the sign of a text, if it has one.
pub open spec fn unsigned_part(s: Seq<char>) -> Seq<char> {
    if signed(s) {
        s.skip(1)
    } else {
        s
    }
}

/// The number that a sign and a row of digits stand for.
pub open spec fn signed_value(s: Seq<char>) -> int {
    if s.len() > 0 && s[0] == '-' {
        -digits_value(unsigned_part(s))
    } else {
        digits_value(unsigned_part(s)) as int
    }
}

/// An `i64` read from an optional sign and one or more digits, if the text has that
/// form and the number is in range.
pub open spec fn parse_int(s: Seq<char>) -> Option<int> {
    if unsigned_part(s).len() > 0 && all_digits(unsigned_part(s)) && i64::MIN <= signed_value(s)
        <= i64::MAX {
        Some(signed_value(s))
    } else {
        None
    }
}

/// Appends a number in decimal.
pub fn push_decimal(s: &mut String, n: u64)
    ensures
        final(s)@ == old(s)@ + decimal(n as nat),
    decreases n,
{
    if n >= 10 {
        push_decimal(s, n / 10);
    }
    let d: u8 = (n % 10) as u8;
    s.push((48u8 + d) as char);
    assert(digit((n % 10) as nat) == (48u8 + d) as char);
    assert(s@ =~= old(s)@ + decimal(n as nat));
}

/// A number in decimal.
pub fn show(n: u64) -> (r: String)
    ensures
        r@ == decimal(n as nat),
{
    let mut r = String::new();
    push_decimal(&mut r, n);
    assert(r@ =~= decimal(n as nat));
    r
}

/// A signed number in decimal.
pub fn show_int(i: i64) -> (r: String)
    ensures
        r@ == decimal_int(i as int),
{
    if i >= 0 {
        show(i as u64)
    } else {
        let mut r = String::new();
        r.push('-');
        let magnitude: u64 = (-(i + 1)) as u64 + 1;
        push_decimal(&mut r, magnitude);
        assert(r@ =~= decimal_int(i as int));
        r
    }
}

/// The decimal form of `i + 1`.
pub fn show_successor(i: i64) -> (r: String)
    ensures
        r@ == decimal_int(i + 1),
{
    if i >= 0 {
        show(i as u64 + 1)
    } else {
        show_int(i + 1)
    }
}

/// Reads an `i64`: an optional sign and one or more digits, in range.
pub fn parse_i64(s: &str) -> (r: Option<i64>)
    ensures
        r is Some <==> parse_int(s@) is Some,
        r is Some ==> r->0 == parse_int(s@)->0,
{
    let v = chars(s);
    let mut from: usize = 0;
    let mut negative = false;
    if v.len() > 0 && (v[0] == '-' || v[0] == '+') {
        negative = v[0] == '-';
        from = 1;
    }
    let ghost digits = unsigned_part(s@);
    assert(digits =~= s@.skip(from as int));
    if from == v.len() {
        return None;
    }
    // The running value stays at or below the magnitude of `i64::MIN`.
    let limit: u64 = 9223372036854775808;
    let mut value: u64 = 0;
    let mut i: usize = from;
    while i < v.len()
        invariant
            from <= i <= v@.len(),
            from <= 1,
            v@ == s@,
            digits == s@.skip(from as int),
            digits == unsigned_part(s@),
            limit == 9223372036854775808,
            value <= limit,
            value == digits_value(digits.take(i - from)),
            forall|j: int| 0 <= j < i - from ==> is_digit(#[trigger] digits[j]),
            v@.len() > from,
            negative == (s@.len() > 0 && s@[0] == '-'),
        decreases v@.len() - i,
    {
        let c = v[i];
        assert(digits[i - from] == c);
        if c < '0' || c > '9' {
            assert(!is_digit(digits[i - from]));
            return None;
        }
        let d: u64 = (c as u32 - 48) as u64;
        assert(digits.take(i - from + 1).drop_last() =~= digits.take(i - from));
        assert(digits_value(digits.take(i - from + 1)) == value * 10 + d);
        if value > 922337203685477580 || value * 10 + d > limit {
            proof {
                lemma_digits_value_grows(digits, i - from + 1);
                assert(digits.take(digits.len() as int) =~= digits);
            }
            return None;
        }
        value = value * 10 + d;
        i = i + 1;
    }
    assert(digits.take(digits.len() as int) =~= digits);
    if negative {
        if value == limit {
            return Some(i64::MIN);
        }
        Some(-(value as i64))
    } else {
        if value == limit {
            return None;
        }
        Some(value as i64)
    }
}

/// Reading on can only make the number larger.
proof fn lemma_digits_value_grows(s: Seq<char>, n: int)
    requires
        0 <= n <= s.len(),
    ensures
        digits_value(s.take(n)) <= digits_value(s),
    decreases s.len() - n,
{
    if n == s.len() {
        assert(s.take(n) =~= s);
    } else {
        lemma_digits_value_grows(s, n + 1);
        assert(s.take(n + 1).drop_last() =~= s.take(n));
    }
}

// ---------------------------------------------------------------------------
// White space
// ---------------------------------------------------------------------------

/// Whether a character has the Unicode property White_Space.
pub open spec fn white_space(c: char) -> bool {
    ||| '\u{9}' <= c <= '\u{d}'
    ||| c == ' '
    ||| c == '\u{85}'
    ||| c == '\u{a0}'
    ||| c == '\u{1680}'
    ||| '\u{2000}' <= c <= '\u{200a}'
    ||| c == '\u{2028}'
    ||| c == '\u{2029}'
    ||| c == '\u{202f}'
    ||| c == '\u{205f}'
    ||| c == '\u{3000}'
}

/// A text without the white space at its start.
pub open spec fn trim_start(s: Seq<char>) -> Seq<char>
    decreases s.len(),
{
    if s.len() > 0 && white_space(s[0]) {
        trim_start(s.skip(1))
    } else {
        s
    }
}

/// A text without the white space at its end.
pub open spec fn trim_end(s: Seq<char>) -> Seq<char>
    decreases s.len(),
{
    if s.len() > 0 && white_space(s.last()) {
        trim_end(s.drop_last())
    } else {
        s
    }
}

/// A text without the white space at its two ends.
pub open spec fn trim(s: Seq<char>) -> Seq<char> {
    trim_end(trim_start(s))
}

/// Whether a character is white space.
pub fn is_white_space(c: char) -> (r: bool)
    ensures
        r == white_space(c),
{
    ('\u{9}' <= c && c <= '\u{d}') || c == ' ' || c == '\u{85}' || c == '\u{a0}' || c == '\u{1680}'
        || ('\u{2000}' <= c && c <= '\u{200a}') || c == '\u{2028}' || c == '\u{2029}' || c
        == '\u{202f}' || c == '\u{205f}' || c == '\u{3000}'
}

/// A text without the white space at its two ends.
pub fn trimmed(s: &str) -> (r: String)
    ensures
        r@ == trim(s@),
{
    let v = chars(s);
    let mut from: usize = 0;
    assert(s@.skip(0) =~= s@);
    while from < v.len() && is_white_space(v[from])
        invariant
            v@ == s@,
            from <= v@.len(),
            trim_start(s@) == trim_start(s@.skip(from as int)),
        decreases v@.len() - from,
    {
        assert(s@.skip(from as int).skip(1) =~= s@.skip(from + 1));
        from = from + 1;
    }
    let ghost rest = s@.skip(from as int);
    assert(trim_start(rest) == rest);
    let mut to: usize = v.len();
    assert(s@.subrange(from as int, to as int) =~= rest);
    while to > from && is_white_space(v[to - 1])
        invariant
            v@ == s@,
            from <= to <= v@.len(),
            trim_end(rest) == trim_end(s@.subrange(from as int, to as int)),
        decreases to,
    {
        assert(s@.subrange(from as int, to as int).drop_last() =~= s@.subrange(
            from as int,
            to - 1,
        ));
        to = to - 1;
    }
    from_chars(&v, from, to)
}

// ---------------------------------------------------------------------------
// Splitting and searching
// ---------------------------------------------------------------------------

/// The place of the first `c` in a text; its length where there is none.
pub open spec fn first_index(s: Seq<char>, c: char) -> nat
    decreases s.len(),
{
    if s.len() == 0 || s[0] == c {
        0
    } else {
        1 + first_index(s.skip(1), c)
    }
}

/// The parts of a text between its separators.
pub open spec fn segments(s: Seq<char>, sep: char) -> Seq<Seq<char>>
    decreases s.len(),
{
    let i = first_index(s, sep);
    if i >= s.len() {
        seq![s]
    } else {
        seq![s.take(i as int)] + segments(s.skip(i as int + 1), sep)
    }
}

/// The texts of a list, as characters.
pub open spec fn texts(v: Seq<String>) -> Seq<Seq<char>> {
    v.map_values(|s: String| s@)
}

/// Whether `needle` occurs in `hay`.
pub open spec fn occurs(needle: Seq<char>, hay: Seq<char>) -> bool {
    exists|i: int|
        0 <= i && i + needle.len() <= hay.len() && #[trigger] hay.subrange(i, i + needle.len())
            == needle
}

/// `first_index` is the first place that holds `c`, or the length.
pub proof fn first_index_finds(s: Seq<char>, c: char)
    ensures
        first_index(s, c) <= s.len(),
        first_index(s, c) < s.len() ==> s[first_index(s, c) as int] == c,
        forall|i: int| 0 <= i < first_index(s, c) ==> s[i] != c,
    decreases s.len(),
{
    if s.len() > 0 && s[0] != c {
        first_index_finds(s.skip(1), c);
        assert forall|i: int| 0 <= i < first_index(s, c) implies s[i] != c by {
            if i > 0 {
                assert(s.skip(1)[i - 1] == s[i]);
            }
        }
    }
}

/// A place before which no `c` stands, and which holds one or is the end, is the first.
pub proof fn first_index_is(s: Seq<char>, c: char, n: int)
    requires
        0 <= n <= s.len(),
        n < s.len() ==> s[n] == c,
        forall|i: int| 0 <= i < n ==> s[i] != c,
    ensures
        first_index(s, c) == n,
{
    first_index_finds(s, c);
}

/// The place of the first `c` at or after `from`; the length where there is none.
pub fn find_from(v: &Vec<char>, from: usize, c: char) -> (r: usize)
    requires
        from <= v@.len(),
    ensures
        from <= r <= v@.len(),
        r - from == first_index(v@.skip(from as int), c),
{
    let mut i: usize = from;
    while i < v.len() && v[i] != c
        invariant
            from <= i <= v@.len(),
            forall|j: int| from <= j < i ==> v@[j] != c,
        decreases v@.len() - i,
    {
        i = i + 1;
    }
    proof {
        first_index_is(v@.skip(from as int), c, i - from);
    }
    i
}

/// The parts of a text between its separators.
pub fn split(s: &str, sep: char) -> (r: Vec<String>)
    ensures
        texts(r@) == segments(s@, sep),
{
    let v = chars(s);
    let mut r: Vec<String> = Vec::new();
    let mut from: usize = 0;
    assert(s@.skip(0) =~= s@);
    assert(texts(r@) + segments(s@, sep) =~= segments(s@, sep));
    loop
        invariant
            v@ == s@,
            from <= v@.len(),
            segments(s@, sep) == texts(r@) + segments(s@.skip(from as int), sep),
        decreases v@.len() - from,
    {
        let to = find_from(&v, from, sep);
        let ghost rest = s@.skip(from as int);
        let ghost before = texts(r@);
        let part = from_chars(&v, from, to);
        assert(part@ =~= rest.take(to - from));
        r.push(part);
        assert(texts(r@) =~= before.push(part@));
        if to >= v.len() {
            assert(rest.take(to - from) =~= rest);
            assert(texts(r@) =~= segments(s@, sep));
            return r;
        }
        assert(rest.skip(to - from + 1) =~= s@.skip(to + 1));
        assert(before + (seq![part@] + segments(s@.skip(to + 1), sep)) =~= texts(r@) + segments(
            s@.skip(to + 1),
            sep,
        ));
        from = to + 1;
    }
}

/// Whether `needle` occurs in `hay`.
pub fn contains(hay: &str, needle: &str) -> (r: bool)
    ensures
        r == occurs(needle@, hay@),
{
    let h = chars(hay);
    let n = chars(needle);
    if n.len() > h.len() {
        return false;
    }
    let last: usize = h.len() - n.len();
    let mut i: usize = 0;
    while i <= last
        invariant
            h@ == hay@,
            n@ == needle@,
            last == h@.len() - n@.len(),
            i <= last + 1,
            forall|k: int|
                0 <= k < i ==> #[trigger] hay@.subrange(k, k + needle@.len()) != needle@,
        decreases last + 1 - i,
    {
        let mut j: usize = 0;
        while j < n.len() && h[i + j] == n[j]
            invariant
                h@ == hay@,
                n@ == needle@,
                i <= last,
                last == h.len() - n@.len(),
                j <= n@.len(),
                forall|k: int| 0 <= k < j ==> h@[i + k] == n@[k],
            decreases n@.len() - j,
        {
            j = j + 1;
        }
        if j == n.len() {
            assert(hay@.subrange(i as int, i + needle@.len()) =~= needle@);
            return true;
        }
        assert(hay@.subrange(i as int, i + needle@.len())[j as int] != needle@[j as int]);
        if i == last {
            return false;
        }
        i = i + 1;
    }
    false
}

/// What follows the last `/`; the whole text where there is none.
pub fn last_segment(s: &str) -> (r: &str)
    ensures
        r@ == segments(s@, '/').last(),
{
    let v = chars(s);
    let mut from: usize = 0;
    assert(s@.skip(0) =~= s@);
    loop
        invariant
            v@ == s@,
            from <= v@.len(),
            segments(s@, '/').last() == segments(s@.skip(from as int), '/').last(),
        decreases v@.len() - from,
    {
        let to = find_from(&v, from, '/');
        let ghost rest = s@.skip(from as int);
        if to >= v.len() {
            assert(s@.subrange(from as int, v@.len() as int) =~= rest);
            return s.substring_char(from, v.len());
        }
        proof {
            lemma_segments_nonempty(rest.skip(to - from + 1), '/');
            assert(rest.skip(to - from + 1) =~= s@.skip(to + 1));
        }
        from = to + 1;
    }
}

/// A text always has at least one part.
pub proof fn lemma_segments_nonempty(s: Seq<char>, sep: char)
    ensures
        segments(s, sep).len() > 0,
{
}

// ---------------------------------------------------------------------------
// Order
// ---------------------------------------------------------------------------

/// The order of two texts: that of their first difference by code point, and else the
/// shorter text first.
pub open spec fn text_order(a: Seq<char>, b: Seq<char>) -> Ordering
    decreases a.len(),
{
    if a.len() == 0 {
        if b.len() == 0 {
            Ordering::Equal
        } else {
            Ordering::Less
        }
    } else if b.len() == 0 {
        Ordering::Greater
    } else if a[0] < b[0] {
        Ordering::Less
    } else if a[0] > b[0] {
        Ordering::Greater
    } else {
        text_order(a.skip(1), b.skip(1))
    }
}

/// Orders two texts by code point.
pub fn order_text(a: &str, b: &str) -> (r: Ordering)
    ensures
        r == text_order(a@, b@),
{
    let x = chars(a);
    let y = chars(b);
    let mut i: usize = 0;
    assert(a@.skip(0) =~= a@);
    assert(b@.skip(0) =~= b@);
    while i < x.len() && i < y.len()
        invariant
            x@ == a@,
            y@ == b@,
            i <= x@.len(),
            i <= y@.len(),
            text_order(a@, b@) == text_order(a@.skip(i + 0), b@.skip(i + 0)),
        decreases x@.len() - i,
    {
        if x[i] < y[i] {
            return Ordering::Less;
        }
        if x[i] > y[i] {
            return Ordering::Greater;
        }
        assert(a@.skip(i + 0).skip(1) =~= a@.skip(i + 1));
        assert(b@.skip(i + 0).skip(1) =~= b@.skip(i + 1));
        i = i + 1;
    }
    if x.len() == y.len() {
        Ordering::Equal
    } else if x.len() < y.len() {
        Ordering::Less
    } else {
        Ordering::Greater
    }
}

// ---------------------------------------------------------------------------
// Padding
// ---------------------------------------------------------------------------

/// `n` blanks.
pub open spec fn blanks(n: int) -> Seq<char> {
    Seq::new(
        if n > 0 {
            n as nat
        } else {
            0
        },
        |i: int| ' ',
    )
}

/// A text with blanks behind it, at least `width` characters in all.
pub open spec fn left_aligned(s: Seq<char>, width: int) -> Seq<char> {
    s + blanks(width - s.len())
}

/// A text with blanks before it, at least `width` characters in all.
pub open spec fn right_aligned(s: Seq<char>, width: int) -> Seq<char> {
    blanks(width - s.len()) + s
}

/// `n` blanks.
fn spaces(n: usize) -> (r: String)
    ensures
        r@ == blanks(n as int),
{
    let mut r = String::new();
    for i in 0..n
        invariant
            r@ =~= blanks(i as int),
    {
        r.push(' ');
    }
    r
}

/// Pads a text on its right to `width` characters.
pub fn pad_right(s: &str, width: usize) -> (r: String)
    ensures
        r@ == left_aligned(s@, width as int),
{
    let n = s.unicode_len();
    let gap = spaces(if n < width {
        width - n
    } else {
        0
    });
    cat(s, gap.as_str())
}

/// Pads a text on its left to `width` characters.
pub fn pad_left(s: &str, width: usize) -> (r: String)
    ensures
        r@ == right_aligned(s@, width as int),
{
    let n = s.unicode_len();
    let gap = spaces(if n < width {
        width - n
    } else {
        0
    });
    cat(gap.as_str(), s)
}

} // verus!
