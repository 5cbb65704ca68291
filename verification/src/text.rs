//! Questions about plain text: where a character stands, what the first word is, which number
//! is written down. Every text is looked at as its sequence of characters.
use vstd::prelude::*;

verus! {

/// How many characters of `s` stand before the first `c`; all of them where `c` does not occur.
pub open spec fn before(s: Seq<char>, c: char) -> nat
    decreases s.len(),
{
    if s.len() == 0 || s[0] == c {
        0
    } else {
        1 + before(s.skip(1), c)
    }
}

/// `before` counts a stretch without `c`, and the stretch ends at a `c` or at the end of `s`.
pub proof fn lemma_before(s: Seq<char>, c: char)
    ensures
        before(s, c) <= s.len(),
        forall|i: int| 0 <= i < before(s, c) ==> s[i] != c,
        before(s, c) < s.len() ==> s[before(s, c) as int] == c,
    decreases s.len(),
{
    if s.len() != 0 && s[0] != c {
        let t = s.skip(1);
        lemma_before(t, c);
        assert forall|i: int| 0 <= i < before(s, c) implies s[i] != c by {
            if i > 0 {
                assert(s[i] == t[i - 1]);
            }
        }
        if before(s, c) < s.len() {
            assert(s[before(s, c) as int] == t[before(t, c) as int]);
        }
    }
}

/// `before` is the only number with the properties of `lemma_before`.
pub proof fn lemma_before_is(s: Seq<char>, c: char, n: nat)
    requires
        n <= s.len(),
        forall|i: int| 0 <= i < n ==> s[i] != c,
        n < s.len() ==> s[n as int] == c,
    ensures
        before(s, c) == n,
{
    lemma_before(s, c);
}

/// The first position of `c` in `s`, counted in characters.
pub fn count_before(s: &str, c: char) -> (n: usize)
    ensures
        n == before(s@, c),
{
    let len: usize = s.unicode_len();
    let mut n: usize = 0;
    for ch in it: s.chars()
        invariant
            n == it.index(),
            it.seq() == s@,
            len == s@.len(),
            forall|i: int| 0 <= i < n ==> s@[i] != c,
    {
        if ch == c {
            proof {
                lemma_before_is(s@, c, n as nat);
            }
            return n;
        }
        n = n + 1;
    }
    proof {
        lemma_before_is(s@, c, n as nat);
    }
    n
}

/// What stands before and after the first `c` of `s`.
pub open spec fn split_first(s: Seq<char>, c: char) -> Option<(Seq<char>, Seq<char>)> {
    let n = before(s, c) as int;
    if n < s.len() {
        Some((s.take(n), s.skip(n + 1)))
    } else {
        None
    }
}

/// Splits `s` at its first `c`.
pub fn split_once(s: &str, c: char) -> (parts: Option<(String, String)>)
    ensures
        match parts {
            Some((left, right)) => split_first(s@, c) == Some((left@, right@)),
            None => split_first(s@, c) is None,
        },
{
    let n: usize = count_before(s, c);
    let len: usize = s.unicode_len();
    if n < len {
        let left = s.substring_char(0, n).to_owned();
        let right = s.substring_char(n + 1, len).to_owned();
        assert(left@ =~= s@.take(n as int));
        assert(right@ =~= s@.skip(n + 1));
        Some((left, right))
    } else {
        proof {
            lemma_before(s@, c);
        }
        None
    }
}

/// `s` without the run of `c` at its end.
pub open spec fn without_trailing(s: Seq<char>, c: char) -> Seq<char>
    decreases s.len(),
{
    if s.len() > 0 && s.last() == c {
        without_trailing(s.drop_last(), c)
    } else {
        s
    }
}

/// Takes the run of `c` at the end of `s` off.
pub fn trim_end(s: &str, c: char) -> (out: String)
    ensures
        out@ == without_trailing(s@, c),
{
    let mut n: usize = s.unicode_len();
    assert(s@.take(n as int) =~= s@);
    while n > 0 && s.get_char(n - 1) == c
        invariant
            n <= s@.len(),
            without_trailing(s@.take(n as int), c) == without_trailing(s@, c),
        decreases n,
    {
        assert(s@.take(n as int).drop_last() =~= s@.take(n - 1));
        n = n - 1;
    }
    assert(s@.subrange(0, n as int) =~= s@.take(n as int));
    s.substring_char(0, n).to_owned()
}

/// Whether two texts hold the same characters.
pub fn same(a: &str, b: &str) -> (r: bool)
    ensures
        r == (a@ == b@),
{
    a.to_owned() == b.to_owned()
}

/// Whether `s` starts with `prefix`.
pub fn starts_with(s: &str, prefix: &str) -> (r: bool)
    ensures
        r == prefix@.is_prefix_of(s@),
{
    let n: usize = prefix.unicode_len();
    if n <= s.unicode_len() {
        same(prefix, s.substring_char(0, n))
    } else {
        false
    }
}

/// The characters with the Unicode property White_Space.
pub open spec fn white_space(c: char) -> bool {
    ||| '\u{9}' <= c <= '\u{d}'
    ||| c == '\u{20}'
    ||| c == '\u{85}'
    ||| c == '\u{a0}'
    ||| c == '\u{1680}'
    ||| '\u{2000}' <= c <= '\u{200a}'
    ||| c == '\u{2028}'
    ||| c == '\u{2029}'
    ||| c == '\u{202f}'
    ||| c == '\u{205f}'
    ||| c == '\u{3000}'
}

/// Whether a character is white space.
pub fn is_white_space(c: char) -> (r: bool)
    ensures
        r == white_space(c),
{
    let tab = '\u{9}' <= c && c <= '\u{d}';
    let space = c == '\u{20}' || c == '\u{85}' || c == '\u{a0}' || c == '\u{1680}' || c == '\u{3000}';
    let general = '\u{2000}' <= c && c <= '\u{200a}' || c == '\u{2028}' || c == '\u{2029}' || c == '\u{202f}'
        || c == '\u{205f}';
    tab || space || general
}

/// How many characters at the start of `s` are white space, or how many are not.
pub open spec fn leading(s: Seq<char>, white: bool) -> nat
    decreases s.len(),
{
    if s.len() == 0 || white_space(s[0]) != white {
        0
    } else {
        1 + leading(s.skip(1), white)
    }
}

/// The first word of `s`, where words are parted by white space.
pub open spec fn word(s: Seq<char>) -> Option<Seq<char>> {
    let t = s.skip(leading(s, true) as int);
    if t.len() == 0 {
        None
    } else {
        Some(t.take(leading(t, false) as int))
    }
}

/// Counts how many characters of `s` from position `from` on are white space, or are not.
fn count_leading(s: &str, from: usize, white: bool) -> (n: usize)
    requires
        from <= s@.len(),
    ensures
        n == leading(s@.skip(from as int), white),
        from + n <= s@.len(),
{
    let len: usize = s.unicode_len();
    let mut n: usize = 0;
    while from + n < len && is_white_space(s.get_char(from + n)) == white
        invariant
            from + n <= len,
            len == s@.len(),
            leading(s@.skip(from as int), white) == n + leading(s@.skip(from + n), white),
        decreases len - n,
    {
        assert(s@.skip(from + n)[0] == s@[from + n]);
        assert(s@.skip(from + n).skip(1) =~= s@.skip(from + n + 1));
        n = n + 1;
    }
    assert(from + n < len ==> s@.skip(from + n)[0] == s@[from + n]);
    n
}

/// The first word of `s`.
pub fn first_word(s: &str) -> (w: Option<String>)
    ensures
        match w {
            Some(w) => word(s@) == Some(w@),
            None => word(s@) is None,
        },
{
    assert(s@.skip(0) =~= s@);
    let from: usize = count_leading(s, 0, true);
    if from == s.unicode_len() {
        return None;
    }
    let n: usize = count_leading(s, from, false);
    assert(s@.subrange(from as int, from + n) =~= s@.skip(from as int).take(n as int));
    Some(s.substring_char(from, from + n).to_owned())
}

/// `s` without the white space at its end.
pub open spec fn without_trailing_space(s: Seq<char>) -> Seq<char>
    decreases s.len(),
{
    if s.len() > 0 && white_space(s.last()) {
        without_trailing_space(s.drop_last())
    } else {
        s
    }
}

/// `s` without the white space at its two ends.
pub open spec fn trimmed(s: Seq<char>) -> Seq<char> {
    without_trailing_space(s.skip(leading(s, true) as int))
}

/// Takes the white space at the two ends of `s` off.
pub fn trim(s: &str) -> (out: String)
    ensures
        out@ == trimmed(s@),
{
    assert(s@.skip(0) =~= s@);
    let from: usize = count_leading(s, 0, true);
    let mut to: usize = s.unicode_len();
    assert(s@.subrange(from as int, to as int) =~= s@.skip(from as int));
    while to > from && is_white_space(s.get_char(to - 1))
        invariant
            from <= to <= s@.len(),
            without_trailing_space(s@.subrange(from as int, to as int)) == trimmed(s@),
        decreases to,
    {
        let ghost t = s@.subrange(from as int, to as int);
        assert(t.last() == s@[to - 1]);
        assert(t.drop_last() =~= s@.subrange(from as int, to - 1));
        to = to - 1;
    }
    assert(to > from ==> s@.subrange(from as int, to as int).last() == s@[to - 1]);
    s.substring_char(from, to).to_owned()
}

/// A decimal digit.
pub open spec fn is_digit(c: char) -> bool {
    '0' <= c <= '9'
}

/// The number that a run of decimal digits writes down.
pub open spec fn digits_value(s: Seq<char>) -> nat
    decreases s.len(),
{
    if s.len() == 0 {
        0
    } else {
        10 * digits_value(s.drop_last()) + (s.last() as nat - '0' as nat) as nat
    }
}

/// `s` without a plus sign at its start.
pub open spec fn unsigned(s: Seq<char>) -> Seq<char> {
    if s.len() > 0 && s[0] == '+' {
        s.skip(1)
    } else {
        s
    }
}

/// Whether there are only decimal digits in `s`.
pub open spec fn all_digits(s: Seq<char>) -> bool {
    forall|i: int| 0 <= i < s.len() ==> is_digit(#[trigger] s[i])
}

/// The number that `s` writes down: an optional plus sign, then decimal digits and nothing else.
pub open spec fn decimal(s: Seq<char>) -> Option<nat> {
    if unsigned(s).len() > 0 && all_digits(unsigned(s)) {
        Some(digits_value(unsigned(s)))
    } else {
        None
    }
}

/// What `str::parse::<u32>` says of a text that it does not take.
pub uninterp spec fn parse_complaint(s: Seq<char>) -> Seq<char>;

/// Calls `str::parse::<u32>`.
///
/// Claimed of it: it gives the number that the text writes down in decimal, after an optional
/// plus sign, where there is such a number and it fits; else it gives an error, whose text is a
/// function of the text that was read.
#[verifier::external_body]
pub(crate) fn parse_u32(s: &str) -> (r: Result<u32, String>)
    ensures
        match r {
            Ok(n) => decimal(s@) == Some(n as nat),
            Err(complaint) => {
                &&& !(decimal(s@) matches Some(n) && n <= u32::MAX)
                &&& complaint@ == parse_complaint(s@)
            },
        },
{
    s.parse::<u32>().map_err(|error| error.to_string())
}

/// The characters of each of `v`.
pub open spec fn words(v: Seq<String>) -> Seq<Seq<char>> {
    v.map_values(|s: String| s@)
}

/// The characters of a text that may be there.
pub open spec fn maybe(s: Option<String>) -> Option<Seq<char>> {
    match s {
        Some(s) => Some(s@),
        None => None,
    }
}

/// `parts`, with `separator` between each and the next.
pub open spec fn joined(parts: Seq<Seq<char>>, separator: Seq<char>) -> Seq<char>
    decreases parts.len(),
{
    if parts.len() == 0 {
        Seq::empty()
    } else if parts.len() == 1 {
        parts[0]
    } else {
        joined(parts.drop_last(), separator) + separator + parts.last()
    }
}

/// Joins `parts` with `separator`.
pub fn join(parts: &Vec<String>, separator: &str) -> (out: String)
    ensures
        out@ == joined(words(parts@), separator@),
{
    let mut out = String::new();
    let ghost all = words(parts@);
    assert(all.take(0) =~= Seq::empty());
    for i in 0..parts.len()
        invariant
            all == words(parts@),
            out@ == joined(all.take(i as int), separator@),
    {
        if i > 0 {
            out.append(separator);
        }
        out.append(parts[i].as_str());
        proof {
            let t = all.take(i + 1);
            assert(t.drop_last() =~= all.take(i as int));
            assert(t.last() == parts@[i as int]@);
            if i == 0 {
                assert(out@ =~= t[0]);
            }
        }
    }
    assert(all.take(parts.len() as int) =~= all);
    out
}

/// A copy of each of `v`.
pub fn copy_all(v: &Vec<String>) -> (out: Vec<String>)
    ensures
        words(out@) == words(v@),
{
    let mut out: Vec<String> = Vec::new();
    for i in 0..v.len()
        invariant
            out.len() == i,
            forall|j: int| 0 <= j < i ==> #[trigger] out@[j]@ == v@[j]@,
    {
        out.push(v[i].clone());
    }
    assert(words(out@) =~= words(v@));
    out
}

/// Whether `s` has a first part of twelve bytes that ends with a whole character.
pub open spec fn has_short_form(s: Seq<char>) -> bool {
    vstd::utf8::is_char_boundary(vstd::utf8::encode_utf8(s), 12)
}

/// The first twelve bytes of `s`, by which a commit is known in messages.
pub open spec fn short_form(s: Seq<char>) -> Seq<char> {
    vstd::utf8::decode_utf8(vstd::utf8::encode_utf8(s).take(12))
}

/// The first twelve bytes of `s`.
pub fn shorten(s: &str) -> (out: String)
    requires
        has_short_form(s@),
    ensures
        out@ == short_form(s@),
{
    broadcast use vstd::utf8::encode_utf8_decode_utf8;

    let (short, _) = s.split_at(12);
    assert(vstd::utf8::encode_utf8(short@) =~= vstd::utf8::encode_utf8(s@).take(12));
    short.to_owned()
}

/// A commit written in ASCII with at least twelve characters has a short form: its first twelve
/// characters.
pub proof fn law_ascii_short_form(s: Seq<char>)
    requires
        vstd::utf8::is_ascii_chars(s),
        s.len() >= 12,
    ensures
        has_short_form(s),
        short_form(s) == s.take(12),
{
    broadcast use vstd::utf8::encode_utf8_decode_utf8;
    broadcast use vstd::utf8::encode_utf8_valid_utf8;

    let bytes = vstd::utf8::encode_utf8(s);
    let t = s.take(12);
    vstd::utf8::is_ascii_chars_encode_utf8(s);
    vstd::utf8::is_ascii_chars_encode_utf8(t);
    assert(vstd::utf8::encode_utf8(t) =~= bytes.take(12));
    if s.len() > 12 {
        vstd::utf8::is_char_boundary_iff_not_is_continuation_byte(bytes, 12);
        assert(s[12] as u8 == bytes[12]);
    } else {
        vstd::utf8::is_char_boundary_start_end_of_seq(bytes);
    }
}

/// What stands before and after the first `c`, put together again, is the text; and there is no `c`
/// in what stands before it.
pub proof fn law_split_parts(s: Seq<char>, c: char)
    ensures
        match split_first(s, c) {
            Some((left, right)) => left + seq![c] + right == s && !left.contains(c),
            None => !s.contains(c),
        },
{
    lemma_before(s, c);
    let n = before(s, c) as int;
    if n < s.len() {
        assert(s.take(n) + seq![c] + s.skip(n + 1) =~= s);
        assert(!s.take(n).contains(c));
    } else {
        assert(!s.contains(c));
    }
}

/// A text that is put together around a `c` is split into the same parts, where there is no `c`
/// before that one.
pub proof fn law_split_at_first(left: Seq<char>, right: Seq<char>, c: char)
    requires
        !left.contains(c),
    ensures
        split_first(left + seq![c] + right, c) == Some((left, right)),
{
    let s = left + seq![c] + right;
    let n = left.len();
    assert forall|i: int| 0 <= i < n implies s[i] != c by {
        assert(s[i] == left[i]);
    }
    assert(s[n as int] == c);
    lemma_before_is(s, c, n);
    assert(s.take(n as int) =~= left);
    assert(s.skip(n as int + 1) =~= right);
}

/// What is taken off the end of a text is every `c` there, and nothing else.
pub proof fn law_only_the_end_is_taken_off(s: Seq<char>, c: char)
    ensures
        without_trailing(s, c).len() <= s.len(),
        without_trailing(s, c) == s.take(without_trailing(s, c).len() as int),
        forall|i: int| without_trailing(s, c).len() <= i < s.len() ==> s[i] == c,
        without_trailing(s, c).len() > 0 ==> without_trailing(s, c).last() != c,
    decreases s.len(),
{
    if s.len() > 0 && s.last() == c {
        let t = s.drop_last();
        law_only_the_end_is_taken_off(t, c);
        let n = without_trailing(s, c).len() as int;
        assert(t.take(n) =~= s.take(n));
        assert forall|i: int| n <= i < s.len() implies s[i] == c by {
            if i < t.len() {
                assert(t[i] == s[i]);
            }
        }
    } else {
        assert(s.take(s.len() as int) =~= s);
    }
}

/// `leading` counts a stretch of one kind, and the stretch ends at a character of the other kind or
/// at the end of `s`.
proof fn lemma_leading(s: Seq<char>, white: bool)
    ensures
        leading(s, white) <= s.len(),
        forall|i: int| 0 <= i < leading(s, white) ==> white_space(#[trigger] s[i]) == white,
        leading(s, white) < s.len() ==> white_space(s[leading(s, white) as int]) != white,
    decreases s.len(),
{
    if s.len() != 0 && white_space(s[0]) == white {
        let t = s.skip(1);
        lemma_leading(t, white);
        assert forall|i: int| 0 <= i < leading(s, white) implies white_space(#[trigger] s[i]) == white by {
            if i > 0 {
                assert(s[i] == t[i - 1]);
            }
        }
        if leading(s, white) < s.len() {
            assert(s[leading(s, white) as int] == t[leading(t, white) as int]);
        }
    }
}

/// The first word of a text has no white space in it, white space before it only, and white space or
/// the end of the text after it. A text without a word is white space.
pub proof fn law_first_word(s: Seq<char>) -> (at: int)
    ensures
        match word(s) {
            Some(w) => {
                &&& 0 <= at && at + w.len() <= s.len() && w.len() > 0
                &&& w == s.subrange(at, at + w.len())
                &&& forall|i: int| 0 <= i < at ==> white_space(#[trigger] s[i])
                &&& forall|i: int| at <= i < at + w.len() ==> !white_space(#[trigger] s[i])
                &&& at + w.len() < s.len() ==> white_space(s[at + w.len()])
            },
            None => forall|i: int| 0 <= i < s.len() ==> white_space(#[trigger] s[i]),
        },
{
    lemma_leading(s, true);
    let at = leading(s, true) as int;
    let t = s.skip(at);
    lemma_leading(t, false);
    if t.len() > 0 {
        let n = leading(t, false) as int;
        assert(t[0] == s[at]);
        assert(t.take(n) =~= s.subrange(at, at + n));
        assert forall|i: int| at <= i < at + n implies !white_space(#[trigger] s[i]) by {
            assert(s[i] == t[i - at]);
        }
        assert(n < t.len() ==> t[n] == s[at + n]);
    }
    at
}

/// What is taken off the end is white space, and all of it.
proof fn lemma_trailing_space(s: Seq<char>)
    ensures
        without_trailing_space(s).len() <= s.len(),
        without_trailing_space(s) == s.take(without_trailing_space(s).len() as int),
        forall|i: int| without_trailing_space(s).len() <= i < s.len() ==> white_space(#[trigger] s[i]),
        without_trailing_space(s).len() > 0 ==> !white_space(without_trailing_space(s).last()),
    decreases s.len(),
{
    if s.len() > 0 && white_space(s.last()) {
        let t = s.drop_last();
        lemma_trailing_space(t);
        let n = without_trailing_space(s).len() as int;
        assert(t.take(n) =~= s.take(n));
        assert forall|i: int| n <= i < s.len() implies white_space(#[trigger] s[i]) by {
            if i < t.len() {
                assert(t[i] == s[i]);
            }
        }
    } else {
        assert(s.take(s.len() as int) =~= s);
    }
}

/// A trimmed text is the part of the text between the white space at its two ends.
pub proof fn law_trimmed(s: Seq<char>) -> (at: int)
    ensures
        0 <= at,
        at + trimmed(s).len() <= s.len(),
        trimmed(s) == s.subrange(at, at + trimmed(s).len()),
        forall|i: int| 0 <= i < at ==> white_space(#[trigger] s[i]),
        forall|i: int| at + trimmed(s).len() <= i < s.len() ==> white_space(#[trigger] s[i]),
        trimmed(s).len() > 0 ==> !white_space(trimmed(s)[0]) && !white_space(trimmed(s).last()),
{
    lemma_leading(s, true);
    let at = leading(s, true) as int;
    let t = s.skip(at);
    lemma_trailing_space(t);
    let n = trimmed(s).len() as int;
    assert(t.take(n) =~= s.subrange(at, at + n));
    assert forall|i: int| at + n <= i < s.len() implies white_space(#[trigger] s[i]) by {
        assert(s[i] == t[i - at]);
    }
    assert(n > 0 ==> t.take(n)[0] == s[at]);
    at
}

/// A text is a number where it has digits, and only digits behind an optional plus sign. One more
/// digit at its end makes it ten times as much and that digit.
pub proof fn law_decimal(s: Seq<char>, d: char)
    requires
        '0' <= d <= '9',
    ensures
        decimal(seq![d]) == Some((d as int - '0' as int) as nat),
        decimal(s) matches Some(n) ==> decimal(s.push(d)) == Some((10 * n + (d as int - '0' as int)) as nat),
        decimal(s) is Some <==> s.len() > 0 && (s[0] == '+' || '0' <= s[0] <= '9') && (s[0] == '+' ==> s.len() > 1)
            && forall|i: int| 1 <= i < s.len() ==> '0' <= #[trigger] s[i] <= '9',
        s.len() > 0 && s[0] != '+' ==> decimal(seq!['+'] + s) == decimal(s),
{
    let one = seq![d];
    assert(one.drop_last() =~= Seq::empty());
    assert(digits_value(one.drop_last()) == 0);
    assert(one.len() > 0 && one[0] == d);
    assert(digits_value(one) == (d as int - '0' as int));
    assert(decimal(one) == Some((d as int - '0' as int) as nat));
    let t = s.push(d);
    let p = seq!['+'] + s;
    assert(p[0] == '+');
    assert(p.skip(1) =~= s);
    assert(is_digit(d));
    if s.len() > 0 {
        assert(t[0] == s[0]);
        let digits = unsigned(s);
        let longer = unsigned(t);
        let k: int = if s[0] == '+' {
            1
        } else {
            0
        };
        assert(longer =~= digits.push(d));
        assert(longer.drop_last() =~= digits);
        assert(longer.last() == d);
        if decimal(s) is Some {
            assert forall|i: int| 0 <= i < longer.len() implies is_digit(#[trigger] longer[i]) by {
                if i < digits.len() {
                    assert(longer[i] == digits[i]);
                    assert(is_digit(digits[i]));
                } else {
                    assert(longer[i] == d);
                }
            }
            assert forall|i: int| 1 <= i < s.len() implies '0' <= #[trigger] s[i] <= '9' by {
                assert(is_digit(digits[i - k]));
            }
            assert(is_digit(digits[0]));
        }
        if (s[0] == '+' || '0' <= s[0] <= '9') && (s[0] == '+' ==> s.len() > 1) && forall|i: int|
            1 <= i < s.len() ==> '0' <= #[trigger] s[i] <= '9' {
            assert forall|i: int| 0 <= i < digits.len() implies is_digit(#[trigger] digits[i]) by {
                assert(digits[i] == s[i + k]);
            }
        }
    }
}

/// Texts are joined one after the other, with the separator between each and the next.
pub proof fn law_joined(parts: Seq<Seq<char>>, separator: Seq<char>, part: Seq<char>)
    ensures
        joined(Seq::empty(), separator) == Seq::<char>::empty(),
        joined(seq![part], separator) == part,
        parts.len() > 0 ==> joined(parts.push(part), separator) == joined(parts, separator) + separator + part,
{
    assert(parts.push(part).drop_last() =~= parts);
}

/// The short form of a text is as much of it as twelve bytes hold; and only a text of twelve bytes or
/// more has one.
pub proof fn law_short_form(s: Seq<char>)
    requires
        has_short_form(s),
    ensures
        vstd::utf8::encode_utf8(s).len() >= 12,
        vstd::utf8::encode_utf8(short_form(s)) == vstd::utf8::encode_utf8(s).take(12),
{
    broadcast use vstd::utf8::encode_utf8_valid_utf8;
    broadcast use vstd::utf8::decode_utf8_encode_utf8;

    let bytes = vstd::utf8::encode_utf8(s);
    vstd::utf8::valid_utf8_split(bytes, 12);
    assert(bytes.take(12) =~= bytes.subrange(0, 12));
}

/// Which texts have a short form: those in which a character ends after twelve bytes.
pub proof fn law_texts_with_short_form(s: Seq<char>)
    ensures
        has_short_form(s) <==> vstd::utf8::is_char_boundary(vstd::utf8::encode_utf8(s), 12),
{
}

/// Lists and texts that may be missing are seen as what they hold, one for one.
pub proof fn law_texts_are_seen_as_they_are(list: Seq<String>, text: String)
    ensures
        words(list).len() == list.len(),
        forall|i: int| 0 <= i < list.len() ==> #[trigger] words(list)[i] == list[i]@,
        maybe(Some(text)) == Some(text@),
        maybe(None::<String>) is None,
{
}

} // verus!
