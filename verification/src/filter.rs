//! Josh filters: the filter that a configuration asks for, and the older filter syntax.
use crate::config::{ConfigView, JoshConfig};
use crate::sync::FilterVersion;
use crate::text::{before, lemma_before, lemma_before_is};
use vstd::prelude::*;

verus! {

/// A `:rev(...)` block of a filter, up to the first closing bracket.
pub const REV_BLOCK: &'static str = r":rev\([^)]*\)";

/// An entry of a `:rev(...)` block: the delimiter before it, a full SHA and a colon.
pub const REV_ENTRY: &'static str = r"([,(])(0{40}|[0-9a-f]{40}):";

/// How a `:rev(...)` block opens.
pub open spec fn rev_open() -> Seq<char> {
    seq![':', 'r', 'e', 'v', '(']
}

/// Whether a `:rev(...)` block starts at the first character of `s`.
pub open spec fn opens_block(s: Seq<char>) -> bool {
    rev_open().is_prefix_of(s) && before(s, ')') < s.len()
}

/// The length of the block that starts at the first character of `s`, its brackets counted.
pub open spec fn block_len(s: Seq<char>) -> nat {
    before(s, ')') + 1
}

/// Whether `s` is one `:rev(...)` block, from end to end.
pub open spec fn is_block(s: Seq<char>) -> bool {
    opens_block(s) && block_len(s) == s.len()
}

/// A digit of a SHA.
pub open spec fn is_sha_digit(c: char) -> bool {
    '0' <= c <= '9' || 'a' <= c <= 'f'
}

/// A full SHA.
pub open spec fn is_sha(s: Seq<char>) -> bool {
    s.len() == 40 && forall|i: int| 0 <= i < s.len() ==> is_sha_digit(#[trigger] s[i])
}

/// The SHA that stands for no commit, or a part of it.
pub open spec fn is_null(s: Seq<char>) -> bool {
    forall|i: int| 0 <= i < s.len() ==> #[trigger] s[i] == '0'
}

/// A character that an entry of a block follows.
pub open spec fn is_delimiter(c: char) -> bool {
    c == ',' || c == '('
}

/// Whether an entry, delimiter included, starts at the first character of `s`.
pub open spec fn opens_entry(s: Seq<char>) -> bool {
    s.len() >= 42 && is_delimiter(s[0]) && is_sha(s.subrange(1, 41)) && s[41] == ':'
}

/// An entry in the newer syntax: the null SHA becomes `_`, any other SHA gets `<=` before it.
pub open spec fn entry_text(delimiter: Seq<char>, sha: Seq<char>) -> Seq<char> {
    if is_null(sha) {
        delimiter + seq!['_', ':']
    } else {
        delimiter + seq!['<', '='] + sha + seq![':']
    }
}

/// `s` with each of its entries, found from left to right, in the newer syntax.
pub open spec fn entries_text(s: Seq<char>) -> Seq<char>
    decreases s.len(),
{
    if s.len() == 0 {
        s
    } else if opens_entry(s) {
        entry_text(s.take(1), s.subrange(1, 41)) + entries_text(s.skip(42))
    } else {
        s.take(1) + entries_text(s.skip(1))
    }
}

/// `s` with the entries of each of its blocks, found from left to right, in the newer syntax.
pub open spec fn converted(s: Seq<char>) -> Seq<char>
    decreases s.len(),
{
    if s.len() == 0 {
        s
    } else if opens_block(s) {
        entries_text(s.take(block_len(s) as int)) + converted(s.skip(block_len(s) as int))
    } else {
        s.take(1) + converted(s.skip(1))
    }
}

/// `sha` as an entry in the newer syntax, after its delimiter.
fn convert_entry(delimiter: &str, sha: &str) -> (out: String)
    ensures
        out@ == entry_text(delimiter@, sha@),
{
    let mut null = true;
    for c in it: sha.chars()
        invariant
            it.seq() == sha@,
            null == is_null(sha@.take(it.index() as int)),
    {
        proof {
            let k = it.index() as int;
            assert(sha@.take(k + 1) =~= sha@.take(k).push(c));
            assert(sha@.take(k + 1)[k] == c);
            assert forall|i: int| 0 <= i < k implies sha@.take(k)[i] == #[trigger] sha@.take(k + 1)[i] by {}
        }
        null = null && c == '0';
    }
    assert(sha@.take(sha@.len() as int) =~= sha@);
    proof {
        reveal_strlit("_:");
        reveal_strlit("<=");
        reveal_strlit(":");
        assert("_:"@ =~= seq!['_', ':']);
        assert("<="@ =~= seq!['<', '=']);
        assert(":"@ =~= seq![':']);
    }
    let mut out = delimiter.to_owned();
    if null {
        out.append("_:");
    } else {
        out.append("<=");
        out.append(sha);
        out.append(":");
    }
    out
}

/// Calls `regex::Regex::replace_all` with the expression for an entry.
///
/// Claimed of it: the matches are taken from left to right and do not overlap; the first starts
/// at the first place where a delimiter, forty lower-case hexadecimal digits and a colon stand;
/// the two groups hold the delimiter and the digits; each match gives way to what `convert`
/// makes of its groups, and the rest of the text is kept.
#[verifier::external_body]
fn replace_entries(pattern: &str, block: &str, convert: impl Fn(&str, &str) -> String) -> (out: String)
    requires
        pattern@ == r"([,(])(0{40}|[0-9a-f]{40}):"@,
        forall|delimiter: &str, sha: &str| #[trigger] call_requires(convert, (delimiter, sha)),
        forall|delimiter: &str, sha: &str, made: String| #[trigger]
            call_ensures(convert, (delimiter, sha), made) ==> made@ == entry_text(delimiter@, sha@),
    ensures
        out@ == entries_text(block@),
{
    let entry = regex::Regex::new(pattern).unwrap();
    entry.replace_all(block, |caps: &regex::Captures| convert(&caps[1], &caps[2])).into_owned()
}

/// A `:rev(...)` block with its entries in the newer syntax.
fn convert_block(block: &str) -> (out: String)
    ensures
        out@ == entries_text(block@),
{
    replace_entries(REV_ENTRY, block, convert_entry)
}

/// Calls `regex::Regex::replace_all` with the expression for a block.
///
/// Claimed of it: the matches are taken from left to right and do not overlap; the first starts
/// at the first place where `:rev(` stands with a closing bracket somewhere after it, and ends at
/// the first closing bracket; each match gives way to what `convert` makes of it, and the rest of
/// the text is kept.
#[verifier::external_body]
fn replace_blocks(pattern: &str, input: &str, convert: impl Fn(&str) -> String) -> (out: String)
    requires
        pattern@ == r":rev\([^)]*\)"@,
        forall|block: &str| #[trigger] call_requires(convert, (block,)),
        forall|block: &str, made: String| #[trigger]
            call_ensures(convert, (block,), made) ==> made@ == entries_text(block@),
    ensures
        out@ == converted(input@),
{
    let rev_block = regex::Regex::new(pattern).unwrap();
    rev_block.replace_all(input, |block: &regex::Captures| convert(&block[0])).into_owned()
}

/// Converts filters from old `:rev(sha:filter)` syntax to new
/// `:rev(<=sha:filter)` syntax. Null SHAs (40 zeros) become `_`.
/// Only touches SHAs inside `:rev(...)` blocks.
pub fn convert_rev_syntax(input: &str) -> (out: String)
    ensures
        out@ == converted(input@),
{
    replace_blocks(REV_BLOCK, input, convert_block)
}

/// A filter with the options that keep trivial merges and normalise signatures.
pub open spec fn wrapped(filter: Seq<char>) -> Seq<char> {
    ":~(history=\"keep-trivial-merges\",gpgsig=\"norm-lf\")["@ + filter + "]"@
}

/// Wraps a filter with the backwards compatibility meta options for
/// trivial merge preservation and CRLF normalization in gpgsig headers.
///
/// `:your/filter` becomes
/// `:~(history="keep-trivial-merges",gpgsig="norm-lf")[:your/filter]`
pub fn wrap_compat(filter: &str) -> (out: String)
    ensures
        out@ == wrapped(filter@),
{
    let mut out = ":~(history=\"keep-trivial-merges\",gpgsig=\"norm-lf\")[".to_owned();
    out.append(filter);
    out.append("]");
    out
}

impl ConfigView {
    /// The filter that the configuration gives, as it stands there.
    pub open spec fn plain_filter(self) -> Seq<char> {
        match self.path {
            Some(path) => ":/"@ + path,
            None => self.filter->0,
        }
    }

    /// The filter that Josh is asked for.
    pub open spec fn josh_filter(self) -> Seq<char> {
        match self.filter_version {
            FilterVersion::Version1 => wrapped(converted(self.plain_filter())),
            FilterVersion::Version2 => self.plain_filter(),
        }
    }
}

/// The filter that Josh is asked for.
pub fn construct_josh_filter(config: &JoshConfig) -> (out: String)
    requires
        config@.valid(),
    ensures
        out@ == config@.josh_filter(),
{
    let filter = match &config.path {
        Some(path) => {
            let mut filter = ":/".to_owned();
            filter.append(path.as_str());
            filter
        },
        None => config.filter.as_ref().unwrap().clone(),
    };
    match config.filter_version {
        // Keep backwards compatibility with repositories that started with a legacy version of
        // Josh.
        FilterVersion::Version1 => {
            // Convert old :rev syntax
            let filter = convert_rev_syntax(filter.as_str());
            // Keep empty merges
            wrap_compat(filter.as_str())
        },
        // Use the current default behavior of Josh.
        FilterVersion::Version2 => filter,
    }
}

/// An entry is converted on its own.
pub proof fn law_entry_is_converted_on_its_own(delimiter: char, sha: Seq<char>, rest: Seq<char>)
    requires
        is_delimiter(delimiter),
        is_sha(sha),
    ensures
        entries_text(seq![delimiter] + sha + seq![':'] + rest) == entry_text(seq![delimiter], sha) + entries_text(rest),
{
    let s = seq![delimiter] + sha + seq![':'] + rest;
    assert(s.take(1) =~= seq![delimiter]);
    assert(s.subrange(1, 41) =~= sha);
    assert(s.skip(42) =~= rest);
    assert(opens_entry(s));
}

/// Text without delimiters is passed over when entries are looked for.
proof fn lemma_entries_pass(p: Seq<char>, t: Seq<char>)
    requires
        forall|i: int| 0 <= i < p.len() ==> !is_delimiter(#[trigger] p[i]),
    ensures
        entries_text(p + t) == p + entries_text(t),
    decreases p.len(),
{
    if p.len() == 0 {
        assert(p + t =~= t);
        assert(p + entries_text(t) =~= entries_text(t));
    } else {
        let q = p.skip(1);
        assert forall|i: int| 0 <= i < q.len() implies !is_delimiter(#[trigger] q[i]) by {
            assert(q[i] == p[i + 1]);
        }
        lemma_entries_pass(q, t);
        assert((p + t)[0] == p[0]);
        assert((p + t).skip(1) =~= q + t);
        assert((p + t).take(1) + (q + entries_text(t)) =~= p + entries_text(t));
    }
}

/// Where the converted text opens without delimiters, the text before opened in the same way.
proof fn lemma_entries_prefix(r: Seq<char>, k: nat)
    requires
        k <= entries_text(r).len(),
        forall|i: int| 0 <= i < k ==> !is_delimiter(#[trigger] entries_text(r)[i]),
    ensures
        k <= r.len(),
        r.take(k as int) == entries_text(r).take(k as int),
    decreases k,
{
    if k > 0 {
        if opens_entry(r) {
            assert(entries_text(r)[0] == r[0]);
            assert(false);
        } else {
            let q = r.skip(1);
            assert(entries_text(r) == r.take(1) + entries_text(q));
            let j: nat = (k - 1) as nat;
            assert forall|i: int| 0 <= i < j implies !is_delimiter(#[trigger] entries_text(q)[i]) by {
                assert(entries_text(q)[i] == entries_text(r)[i + 1]);
            }
            lemma_entries_prefix(q, j);
            assert forall|i: int| 0 <= i < k implies r[i] == entries_text(r)[i] by {
                if i > 0 {
                    assert(r[i] == q.take(j as int)[i - 1]);
                    assert(entries_text(r)[i] == entries_text(q).take(j as int)[i - 1]);
                }
            }
            assert(r.take(k as int) =~= entries_text(r).take(k as int));
        }
    }
}

/// An entry in the newer syntax is not taken for an entry again.
proof fn lemma_entry_text_stays(d: char, sha: Seq<char>, t: Seq<char>)
    requires
        is_delimiter(d),
        is_sha(sha),
    ensures
        entries_text(entry_text(seq![d], sha) + t) == entry_text(seq![d], sha) + entries_text(t),
{
    let e = entry_text(seq![d], sha);
    let p = e.skip(1);
    assert forall|i: int| 0 <= i < p.len() implies !is_delimiter(#[trigger] p[i]) by {
        if !is_null(sha) && 2 <= i < 42 {
            assert(p[i] == sha[i - 2]);
        }
    }
    lemma_entries_pass(p, t);
    let s = e + t;
    assert(s[0] == d);
    assert(!is_sha_digit(s[1]));
    assert(s.len() >= 42 ==> s.subrange(1, 41)[0] == s[1]);
    assert(!opens_entry(s));
    assert(s.skip(1) =~= p + t);
    assert(s.take(1) + (p + entries_text(t)) =~= e + entries_text(t));
}

/// Once the entries of a text are in the newer syntax, looking for them again changes nothing.
proof fn lemma_entries_idempotent(s: Seq<char>)
    ensures
        entries_text(entries_text(s)) == entries_text(s),
    decreases s.len(),
{
    if s.len() == 0 {
    } else if opens_entry(s) {
        let rest = s.skip(42);
        lemma_entries_idempotent(rest);
        assert(s.take(1) =~= seq![s[0]]);
        lemma_entry_text_stays(s[0], s.subrange(1, 41), entries_text(rest));
    } else {
        let rest = s.skip(1);
        lemma_entries_idempotent(rest);
        let x = entries_text(rest);
        let out = s.take(1) + x;
        assert(out[0] == s[0]);
        assert(out.skip(1) =~= x);
        assert(out.take(1) =~= s.take(1));
        if opens_entry(out) {
            assert forall|i: int| 0 <= i < 41 implies !is_delimiter(#[trigger] x[i]) by {
                assert(x[i] == out[i + 1]);
                if i < 40 {
                    assert(out[i + 1] == out.subrange(1, 41)[i]);
                    assert(is_sha_digit(out.subrange(1, 41)[i]));
                }
            }
            lemma_entries_prefix(rest, 41);
            assert(s.subrange(1, 41) =~= out.subrange(1, 41)) by {
                assert forall|i: int| 0 <= i < 40 implies #[trigger] s.subrange(1, 41)[i] == out.subrange(1, 41)[i] by {
                    assert(s[i + 1] == rest.take(41)[i]);
                    assert(out[i + 1] == x.take(41)[i]);
                }
            }
            assert(s[41] == rest.take(41)[40]);
            assert(out[41] == x.take(41)[40]);
            assert(opens_entry(s));
            assert(false);
        }
    }
}

/// A text that ends at its first closing bracket keeps its first character, and still ends at
/// its first closing bracket, when its entries are converted.
proof fn lemma_entries_close(s: Seq<char>)
    requires
        s.len() > 0,
        before(s, ')') == s.len() - 1,
    ensures
        entries_text(s).len() > 0,
        entries_text(s)[0] == s[0],
        before(entries_text(s), ')') == entries_text(s).len() - 1,
    decreases s.len(),
{
    lemma_before(s, ')');
    if opens_entry(s) {
        let rest = s.skip(42);
        let sha = s.subrange(1, 41);
        assert(s[s.len() - 1] == ')');
        assert(rest.len() > 0);
        assert forall|i: int| 0 <= i < rest.len() - 1 implies rest[i] != ')' by {
            assert(rest[i] == s[i + 42]);
        }
        assert(rest[rest.len() - 1] == s[s.len() - 1]);
        lemma_before_is(rest, ')', (rest.len() - 1) as nat);
        lemma_entries_close(rest);
        let x = entries_text(rest);
        lemma_before(x, ')');
        let e = entry_text(s.take(1), sha);
        let out = e + x;
        assert forall|i: int| 0 <= i < out.len() - 1 implies out[i] != ')' by {
            if i < e.len() {
                assert(out[i] == e[i]);
                if !is_null(sha) && 3 <= i < 43 {
                    assert(e[i] == sha[i - 3]);
                    assert(is_sha_digit(sha[i - 3]));
                }
            } else {
                assert(out[i] == x[i - e.len()]);
            }
        }
        assert(out[out.len() - 1] == x[x.len() - 1]);
        lemma_before_is(out, ')', (out.len() - 1) as nat);
    } else if s.len() == 1 {
        let rest = s.skip(1);
        assert(entries_text(rest) == rest);
        assert(s.take(1) + rest =~= s);
    } else {
        let rest = s.skip(1);
        assert forall|i: int| 0 <= i < rest.len() - 1 implies rest[i] != ')' by {
            assert(rest[i] == s[i + 1]);
        }
        assert(rest[rest.len() - 1] == s[s.len() - 1]);
        lemma_before_is(rest, ')', (rest.len() - 1) as nat);
        lemma_entries_close(rest);
        let x = entries_text(rest);
        lemma_before(x, ')');
        let out = s.take(1) + x;
        assert forall|i: int| 0 <= i < out.len() - 1 implies out[i] != ')' by {
            if i > 0 {
                assert(out[i] == x[i - 1]);
            }
        }
        assert(out[out.len() - 1] == x[x.len() - 1]);
        lemma_before_is(out, ')', (out.len() - 1) as nat);
    }
}

/// A block whose entries are converted is a block.
proof fn lemma_entries_of_block(b: Seq<char>)
    requires
        is_block(b),
    ensures
        is_block(entries_text(b)),
{
    lemma_before(b, ')');
    lemma_entries_close(b);
    let p = b.take(4);
    let t = b.skip(4);
    assert(p + t =~= b);
    assert(b.subrange(0, 5) == rev_open());
    assert forall|i: int| 0 <= i < 5 implies #[trigger] b[i] == rev_open()[i] by {
        assert(b.subrange(0, 5)[i] == b[i]);
    }
    lemma_entries_pass(p, t);
    assert forall|i: int| 0 <= i < t.len() - 1 implies t[i] != ')' by {
        assert(t[i] == b[i + 4]);
    }
    assert(t[t.len() - 1] == b[b.len() - 1]);
    lemma_before_is(t, ')', (t.len() - 1) as nat);
    lemma_entries_close(t);
    let c = entries_text(b);
    assert(c == p + entries_text(t));
    assert(c[4] == t[0]);
    lemma_before(c, ')');
    assert(c.len() >= 5);
    assert(rev_open() =~= c.subrange(0, 5));
}

/// What stands first in a text that opens with a block is converted on its own.
pub proof fn law_block_is_converted_on_its_own(block: Seq<char>, rest: Seq<char>)
    requires
        is_block(block),
    ensures
        converted(block + rest) == entries_text(block) + converted(rest),
{
    let s = block + rest;
    lemma_before(block, ')');
    assert forall|i: int| 0 <= i < block.len() - 1 implies s[i] != ')' by {
        assert(s[i] == block[i]);
    }
    assert(s[block.len() - 1] == block[block.len() - 1]);
    lemma_before_is(s, ')', (block.len() - 1) as nat);
    assert(s.subrange(0, 5) =~= block.subrange(0, 5));
    assert(opens_block(s));
    assert(s.take(block.len() as int) =~= block);
    assert(s.skip(block.len() as int) =~= rest);
}

/// Only blocks are touched: text in which no block starts is kept, whatever follows it.
pub proof fn law_text_outside_blocks_is_kept(text: Seq<char>, rest: Seq<char>)
    requires
        forall|i: int| 0 <= i < text.len() ==> !opens_block(#[trigger] (text + rest).skip(i)),
    ensures
        converted(text + rest) == text + converted(rest),
    decreases text.len(),
{
    let s = text + rest;
    if text.len() == 0 {
        assert(s =~= rest);
        assert(text + converted(rest) =~= converted(rest));
    } else {
        let t = text.skip(1);
        assert(s.skip(1) =~= t + rest);
        assert forall|i: int| 0 <= i < t.len() implies !opens_block(#[trigger] (t + rest).skip(i)) by {
            assert((t + rest).skip(i) =~= s.skip(i + 1));
        }
        law_text_outside_blocks_is_kept(t, rest);
        assert(s.skip(0) =~= s);
        assert(!opens_block(s));
        assert(s.take(1) + (t + converted(rest)) =~= text + converted(rest));
    }
}

/// A filter in which no block starts is left as it is.
pub proof fn law_filter_without_blocks_is_kept(filter: Seq<char>)
    requires
        forall|i: int| 0 <= i < filter.len() ==> !opens_block(#[trigger] filter.skip(i)),
    ensures
        converted(filter) == filter,
{
    let none = Seq::<char>::empty();
    assert(filter + none =~= filter);
    law_text_outside_blocks_is_kept(filter, none);
    assert(filter + converted(none) =~= filter);
}

/// Only SHAs are touched: a text in which no entry starts keeps every character.
pub proof fn law_text_without_entries_is_kept(s: Seq<char>)
    requires
        forall|i: int| 0 <= i < s.len() ==> !opens_entry(#[trigger] s.skip(i)),
    ensures
        entries_text(s) == s,
    decreases s.len(),
{
    if s.len() > 0 {
        let t = s.skip(1);
        assert forall|i: int| 0 <= i < t.len() implies !opens_entry(#[trigger] t.skip(i)) by {
            assert(t.skip(i) =~= s.skip(i + 1));
        }
        law_text_without_entries_is_kept(t);
        assert(s.skip(0) =~= s);
        assert(s.take(1) + t =~= s);
    }
}

/// A block with one entry: `:rev(sha:filter)` becomes `:rev(<=sha:filter)`, and `:rev(_:filter)`
/// where the SHA is the null SHA.
pub proof fn law_single_entry(sha: Seq<char>, filter: Seq<char>)
    requires
        is_sha(sha),
        forall|i: int| 0 <= i < filter.len() ==> #[trigger] filter[i] != ')',
        forall|i: int| 0 <= i < filter.len() ==> !opens_entry(#[trigger] filter.push(')').skip(i)),
    ensures
        converted(rev_open() + sha + seq![':'] + filter + seq![')']) == if is_null(sha) {
            rev_open() + seq!['_', ':'] + filter + seq![')']
        } else {
            rev_open() + seq!['<', '='] + sha + seq![':'] + filter + seq![')']
        },
{
    let s = rev_open() + sha + seq![':'] + filter + seq![')'];
    let tail = filter.push(')');
    let e = seq!['('] + sha + seq![':'] + tail;
    let head = seq![':', 'r', 'e', 'v'];
    assert(s =~= head + e);
    assert forall|i: int| 0 <= i < s.len() - 1 implies s[i] != ')' by {
        if i < 5 {
            assert(s[i] == rev_open()[i]);
        } else if i < 45 {
            assert(s[i] == sha[i - 5]);
        } else if i > 45 {
            assert(s[i] == filter[i - 46]);
        }
    }
    lemma_before_is(s, ')', (s.len() - 1) as nat);
    assert(rev_open() =~= s.subrange(0, 5));
    assert(is_block(s));
    let none = Seq::<char>::empty();
    assert(s + none =~= s);
    law_block_is_converted_on_its_own(s, none);
    assert(entries_text(s) + converted(none) =~= entries_text(s));
    lemma_entries_pass(head, e);
    assert(e.subrange(1, 41) =~= sha);
    assert(e.take(1) =~= seq!['(']);
    assert(e.skip(42) =~= tail);
    assert(opens_entry(e));
    assert forall|i: int| 0 <= i < tail.len() implies !opens_entry(#[trigger] tail.skip(i)) by {
        if i == filter.len() {
            assert(tail.skip(i).len() == 1);
        }
    }
    law_text_without_entries_is_kept(tail);
    assert(entries_text(s) == head + (entry_text(seq!['('], sha) + tail));
    if is_null(sha) {
        assert(head + (entry_text(seq!['('], sha) + tail) =~= rev_open() + seq!['_', ':'] + filter + seq![')']);
    } else {
        assert(head + (entry_text(seq!['('], sha) + tail) =~= rev_open() + seq!['<', '='] + sha + seq![':']
            + filter + seq![')']);
    }
}

/// Where the converted text opens without a colon, the text before opened in the same way.
proof fn lemma_converted_prefix(r: Seq<char>, k: nat)
    requires
        k <= converted(r).len(),
        forall|i: int| 0 <= i < k ==> #[trigger] converted(r)[i] != ':',
    ensures
        k <= r.len(),
        r.take(k as int) == converted(r).take(k as int),
    decreases k,
{
    if k > 0 {
        if opens_block(r) {
            let b = r.take(block_len(r) as int);
            lemma_first_block(r);
            lemma_entries_of_block(b);
            assert(entries_text(b)[0] == rev_open()[0]) by {
                assert(entries_text(b).subrange(0, 5)[0] == entries_text(b)[0]);
            }
            assert(converted(r)[0] == ':');
            assert(false);
        } else {
            let q = r.skip(1);
            assert(converted(r) == r.take(1) + converted(q));
            let j: nat = (k - 1) as nat;
            assert forall|i: int| 0 <= i < j implies #[trigger] converted(q)[i] != ':' by {
                assert(converted(q)[i] == converted(r)[i + 1]);
            }
            lemma_converted_prefix(q, j);
            assert forall|i: int| 0 <= i < k implies r[i] == converted(r)[i] by {
                if i > 0 {
                    assert(r[i] == q.take(j as int)[i - 1]);
                    assert(converted(r)[i] == converted(q).take(j as int)[i - 1]);
                }
            }
            assert(r.take(k as int) =~= converted(r).take(k as int));
        }
    }
}

/// The block that a text opens with is a block.
proof fn lemma_first_block(s: Seq<char>)
    requires
        opens_block(s),
    ensures
        block_len(s) <= s.len(),
        is_block(s.take(block_len(s) as int)),
{
    lemma_before(s, ')');
    let n = block_len(s) as int;
    let b = s.take(n);
    assert(s.subrange(0, 5) == rev_open());
    assert forall|i: int| 0 <= i < 5 implies #[trigger] s[i] == rev_open()[i] by {
        assert(s.subrange(0, 5)[i] == s[i]);
    }
    if n <= 5 {
        assert(s[n - 1] == rev_open()[n - 1]);
        assert(false);
    }
    lemma_before_is(b, ')', (n - 1) as nat);
    assert(rev_open() =~= b.subrange(0, 5));
}

/// A closing bracket in the converted text was there before.
proof fn lemma_converted_close(r: Seq<char>)
    requires
        before(converted(r), ')') < converted(r).len(),
    ensures
        before(r, ')') < r.len(),
    decreases r.len(),
{
    if r.len() > 0 && !opens_block(r) && r[0] != ')' {
        let q = r.skip(1);
        let x = converted(q);
        assert(converted(r) == r.take(1) + x);
        lemma_before(converted(r), ')');
        let k = before(converted(r), ')') as int;
        assert(k > 0);
        assert(x[k - 1] == ')');
        lemma_before(x, ')');
        assert(before(x, ')') < x.len());
        lemma_converted_close(q);
    }
}

/// Syntax that is already converted is left as it is.
pub proof fn law_conversion_is_idempotent(s: Seq<char>)
    ensures
        converted(converted(s)) == converted(s),
    decreases s.len(),
{
    if s.len() == 0 {
    } else if opens_block(s) {
        let n = block_len(s) as int;
        lemma_first_block(s);
        let b = s.take(n);
        let rest = s.skip(n);
        law_conversion_is_idempotent(rest);
        lemma_entries_of_block(b);
        lemma_entries_idempotent(b);
        law_block_is_converted_on_its_own(entries_text(b), converted(rest));
    } else {
        let rest = s.skip(1);
        law_conversion_is_idempotent(rest);
        let x = converted(rest);
        let out = s.take(1) + x;
        assert(out.skip(1) =~= x);
        assert(out.take(1) =~= s.take(1));
        if opens_block(out) {
            assert(out.subrange(0, 5) == rev_open());
            assert forall|i: int| 0 <= i < 5 implies #[trigger] out[i] == rev_open()[i] by {
                assert(out.subrange(0, 5)[i] == out[i]);
            }
            assert forall|i: int| 0 <= i < 4 implies #[trigger] x[i] != ':' by {
                assert(x[i] == out[i + 1]);
            }
            lemma_converted_prefix(rest, 4);
            assert forall|i: int| 0 <= i < 5 implies s[i] == rev_open()[i] by {
                if i > 0 {
                    assert(s[i] == rest.take(4)[i - 1]);
                    assert(out[i] == x.take(4)[i - 1]);
                }
                assert(out[i] == rev_open()[i]);
            }
            assert(rev_open() =~= s.subrange(0, 5));
            lemma_before(out, ')');
            let k = before(out, ')') as int;
            assert(k > 0);
            assert(x[k - 1] == ')');
            lemma_before(x, ')');
            lemma_converted_close(rest);
            lemma_before(rest, ')');
            lemma_before(s, ')');
            assert(s[before(rest, ')') as int + 1] == ')');
            assert(opens_block(s));
            assert(false);
        }
    }
}

/// The filter that Josh is asked for. In the first filter version it is always wrapped in the options
/// that keep trivial merges, whether it comes from a path or from a filter and whether or not there is
/// anything to convert in it; in the second it is taken as it is.
pub proof fn law_filter_of_version(config: ConfigView, plain: Seq<char>)
    requires
        config.path is Some != config.filter is Some,
        config.path matches Some(path) ==> plain == ":/"@ + path,
        config.filter matches Some(filter) ==> plain == filter,
    ensures
        config.filter_version == FilterVersion::Version1 ==> config.josh_filter()
            == ":~(history=\"keep-trivial-merges\",gpgsig=\"norm-lf\")["@ + converted(plain) + "]"@,
        config.filter_version == FilterVersion::Version2 ==> config.josh_filter() == plain,
{
}

/// A filter is wrapped whatever it is.
pub proof fn law_wrapped(filter: Seq<char>)
    ensures
        wrapped(filter) == ":~(history=\"keep-trivial-merges\",gpgsig=\"norm-lf\")["@ + filter + "]"@,
{
}

/// Whether a text opens with `:rev(`.
spec fn opens_rev(s: Seq<char>) -> bool {
    s.len() >= 5 && s[0] == ':' && s[1] == 'r' && s[2] == 'e' && s[3] == 'v' && s[4] == '('
}

/// A text opens with `:rev(` where its first characters are these.
proof fn lemma_opens_rev(s: Seq<char>)
    ensures
        opens_rev(s) <==> rev_open().is_prefix_of(s),
{
    if rev_open().is_prefix_of(s) {
        let t = s.subrange(0, 5);
        assert(t[0] == s[0] && t[1] == s[1] && t[2] == s[2] && t[3] == s[3] && t[4] == s[4]);
        assert(t == rev_open());
    }
    if opens_rev(s) {
        assert(s.subrange(0, 5) =~= rev_open());
    }
}

/// A text that opens with `:rev(` is converted up to its first closing bracket, which ends the block;
/// the conversion goes on after it.
pub proof fn law_block_ends_at_first_bracket(s: Seq<char>, n: int)
    requires
        s.len() >= 5,
        s[0] == ':' && s[1] == 'r' && s[2] == 'e' && s[3] == 'v' && s[4] == '(',
        0 <= n < s.len(),
        s[n] == ')',
        forall|i: int| 0 <= i < n ==> s[i] != ')',
    ensures
        converted(s) == entries_text(s.take(n + 1)) + converted(s.skip(n + 1)),
{
    lemma_opens_rev(s);
    lemma_before_is(s, ')', n as nat);
}

/// A text that does not open with `:rev(`, or has no closing bracket, keeps its first character, and
/// the conversion goes on after that.
pub proof fn law_other_text_is_kept(s: Seq<char>)
    requires
        s.len() >= 5 && s[0] == ':' && s[1] == 'r' && s[2] == 'e' && s[3] == 'v' && s[4] == '(' ==> !s.contains(')'),
    ensures
        s.len() == 0 ==> converted(s) == s,
        s.len() > 0 ==> converted(s) == s.take(1) + converted(s.skip(1)),
{
    lemma_opens_rev(s);
    lemma_before(s, ')');
    if before(s, ')') < s.len() {
        assert(s.contains(')'));
    }
}

/// A delimiter, a full SHA and a colon are converted: the null SHA becomes `_`, any other gets `<=`
/// before it. The conversion goes on after the colon.
pub proof fn law_entry_is_converted(s: Seq<char>)
    requires
        s.len() >= 42,
        s[0] == ',' || s[0] == '(',
        forall|i: int| 1 <= i < 41 ==> '0' <= #[trigger] s[i] <= '9' || 'a' <= s[i] <= 'f',
        s[41] == ':',
    ensures
        (forall|i: int| 1 <= i < 41 ==> #[trigger] s[i] == '0') ==> entries_text(s) == s.take(1) + seq!['_', ':']
            + entries_text(s.skip(42)),
        !(forall|i: int| 1 <= i < 41 ==> #[trigger] s[i] == '0') ==> entries_text(s) == s.take(1) + seq!['<', '=']
            + s.subrange(1, 41) + seq![':'] + entries_text(s.skip(42)),
{
    let sha = s.subrange(1, 41);
    assert forall|i: int| 0 <= i < sha.len() implies is_sha_digit(#[trigger] sha[i]) by {
        assert(sha[i] == s[i + 1]);
    }
    assert(opens_entry(s));
    if forall|i: int| 1 <= i < 41 ==> #[trigger] s[i] == '0' {
        assert(is_null(sha));
    } else {
        let i = choose|i: int| 1 <= i < 41 && #[trigger] s[i] != '0';
        assert(sha[i - 1] == s[i]);
        assert(!is_null(sha));
    }
}

/// A text that does not open with a delimiter, a full SHA and a colon keeps its first character, and
/// the conversion goes on after that.
pub proof fn law_other_entry_is_kept(s: Seq<char>)
    requires
        !(s.len() >= 42 && (s[0] == ',' || s[0] == '(') && s[41] == ':' && forall|i: int|
            1 <= i < 41 ==> '0' <= #[trigger] s[i] <= '9' || 'a' <= s[i] <= 'f'),
    ensures
        s.len() == 0 ==> entries_text(s) == s,
        s.len() > 0 ==> entries_text(s) == s.take(1) + entries_text(s.skip(1)),
{
    if opens_entry(s) {
        let sha = s.subrange(1, 41);
        assert forall|i: int| 1 <= i < 41 implies '0' <= #[trigger] s[i] <= '9' || 'a' <= s[i] <= 'f' by {
            assert(is_sha_digit(sha[i - 1]));
        }
    }
}

} // verus!
