//! Text primitives shared by the command reader and the reader of the
//! connection table: lossy decoding, white space, trimming and words.

use vstd::prelude::*;
use vstd::utf8::{decode_utf8, valid_utf8};

verus! {

/// The text that lossy UTF-8 decoding makes of `bytes`: valid sequences
/// decode to their characters, each malformed sequence to U+FFFD.
pub uninterp spec fn lossy_text(bytes: Seq<u8>) -> Seq<char>;

/// Whether `c` is white space: one of the 25 characters that have the
/// Unicode `White_Space` property. They are the controls from tab to
/// carriage return, the space, next line, the no-break space, the ogham
/// space mark, the spaces from en quad to hair space, the line and the
/// paragraph separator, and the narrow no-break, medium mathematical and
/// ideographic spaces.
pub open spec fn white_space(c: char) -> bool {
    let code = c as u32;
    ||| 0x09 <= code <= 0x0d
    ||| code == 0x20
    ||| code == 0x85
    ||| code == 0xa0
    ||| code == 0x1680
    ||| 0x2000 <= code <= 0x200a
    ||| code == 0x2028
    ||| code == 0x2029
    ||| code == 0x202f
    ||| code == 0x205f
    ||| code == 0x3000
}

/// Calls `String::from_utf8_lossy` and takes ownership of what it returns.
/// The decoded text is a function of the bytes alone, so the contract names
/// it; for bytes that are valid UTF-8 it is their plain decoding. What the
/// replacement makes of malformed bytes is not stated.
#[verifier::external_body]
pub(crate) fn decode_lossy(bytes: &[u8]) -> (text: String)
    ensures
        text@ == lossy_text(bytes@),
        valid_utf8(bytes@) ==> text@ == decode_utf8(bytes@),
{
    String::from_utf8_lossy(bytes).into_owned()
}

/// Whether `c` is white space.
pub fn is_whitespace(c: char) -> (b: bool)
    ensures
        b == white_space(c),
{
    let code: u32 = c as u32;
    (0x09 <= code && code <= 0x0d) || code == 0x20 || code == 0x85 || code == 0xa0 || code
        == 0x1680 || (0x2000 <= code && code <= 0x200a) || code == 0x2028 || code == 0x2029
        || code == 0x202f || code == 0x205f || code == 0x3000
}

/// `s` without its leading white space.
pub open spec fn skip_leading(s: Seq<char>) -> Seq<char>
    decreases s.len(),
{
    if s.len() > 0 && white_space(s[0]) {
        skip_leading(s.drop_first())
    } else {
        s
    }
}

/// `s` without its trailing white space.
pub open spec fn drop_trailing(s: Seq<char>) -> Seq<char>
    decreases s.len(),
{
    if s.len() > 0 && white_space(s.last()) {
        drop_trailing(s.drop_last())
    } else {
        s
    }
}

/// `s` without the white space that surrounds it.
pub open spec fn trimmed(s: Seq<char>) -> Seq<char> {
    drop_trailing(skip_leading(s))
}

/// The characters of `s`, in order.
pub fn chars_of(s: &str) -> (v: Vec<char>)
    ensures
        v@ == s@,
{
    let mut v: Vec<char> = Vec::new();
    for c in it: s.chars()
        invariant
            it.seq() == s@,
            v@ == it.seq().take(it.index() as int),
    {
        v.push(c);
        assert(it.seq().take(it.index() + 1) =~= it.seq().take(it.index() as int).push(c));
    }
    assert(s@.take(s@.len() as int) =~= s@);
    v
}

proof fn lemma_skip_leading(s: Seq<char>, lo: int)
    requires
        0 <= lo <= s.len(),
        forall|i: int| 0 <= i < lo ==> white_space(#[trigger] s[i]),
        lo < s.len() ==> !white_space(s[lo]),
    ensures
        skip_leading(s) == s.subrange(lo, s.len() as int),
    decreases lo,
{
    if lo == 0 {
        assert(s.subrange(0, s.len() as int) =~= s);
    } else {
        let rest = s.drop_first();
        assert forall|i: int| 0 <= i < lo - 1 implies white_space(#[trigger] rest[i]) by {
            assert(rest[i] == s[i + 1]);
        }
        lemma_skip_leading(rest, lo - 1);
        assert(rest.subrange(lo - 1, rest.len() as int) =~= s.subrange(lo, s.len() as int));
    }
}

proof fn lemma_drop_trailing(s: Seq<char>, hi: int)
    requires
        0 <= hi <= s.len(),
        forall|i: int| hi <= i < s.len() ==> white_space(#[trigger] s[i]),
        0 < hi ==> !white_space(s[hi - 1]),
    ensures
        drop_trailing(s) == s.subrange(0, hi),
    decreases s.len() - hi,
{
    if hi == s.len() {
        assert(s.subrange(0, hi) =~= s);
    } else {
        let rest = s.drop_last();
        lemma_drop_trailing(rest, hi);
        assert(rest.subrange(0, hi) =~= s.subrange(0, hi));
    }
}

/// The bounds of the trimmed part of `v`: the text between them is
/// `trimmed(v@)`.
pub fn trim_bounds(v: &Vec<char>) -> (bounds: (usize, usize))
    ensures
        bounds.0 <= bounds.1 <= v.len(),
        v@.subrange(bounds.0 as int, bounds.1 as int) == trimmed(v@),
{
    let n = v.len();
    let mut lo: usize = 0;
    while lo < n && is_whitespace(v[lo])
        invariant
            lo <= n,
            n == v.len(),
            forall|i: int| 0 <= i < lo ==> white_space(#[trigger] v@[i]),
        decreases n - lo,
    {
        lo = lo + 1;
    }
    let mut hi: usize = n;
    while hi > lo && is_whitespace(v[hi - 1])
        invariant
            lo <= hi <= n,
            n == v.len(),
            forall|i: int| hi <= i < n ==> white_space(#[trigger] v@[i]),
        decreases hi,
    {
        hi = hi - 1;
    }
    proof {
        let s = v@;
        lemma_skip_leading(s, lo as int);
        let rest = s.subrange(lo as int, n as int);
        assert forall|i: int| hi - lo <= i < rest.len() implies white_space(#[trigger] rest[i]) by {
            assert(rest[i] == s[i + lo]);
        }
        if hi > lo {
            assert(rest[hi - lo - 1] == s[hi - 1]);
        }
        lemma_drop_trailing(rest, hi - lo);
        assert(rest.subrange(0, hi - lo) =~= s.subrange(lo as int, hi as int));
    }
    (lo, hi)
}

/// How many characters there are in `s` before its first white space.
pub open spec fn word_len(s: Seq<char>) -> int
    decreases s.len(),
{
    if s.len() > 0 && !white_space(s[0]) {
        1 + word_len(s.drop_first())
    } else {
        0
    }
}

/// The word that `s` begins with: what stands before its first white space.
pub open spec fn first_word(s: Seq<char>) -> Seq<char> {
    s.subrange(0, word_len(s))
}

/// `s` without the word it begins with.
pub open spec fn after_word(s: Seq<char>) -> Seq<char> {
    s.subrange(word_len(s), s.len() as int)
}

/// The second of the words that white space parts `line` into, or the empty
/// text where there are fewer than two.
pub open spec fn second_word(line: Seq<char>) -> Seq<char> {
    first_word(skip_leading(after_word(skip_leading(line))))
}

/// Whether `word` ends in `tail`.
pub open spec fn ends_with(word: Seq<char>, tail: Seq<char>) -> bool {
    tail.len() <= word.len() && word.subrange(word.len() - tail.len(), word.len() as int) == tail
}

proof fn lemma_word_len(s: Seq<char>, k: int)
    requires
        0 <= k <= s.len(),
        forall|i: int| 0 <= i < k ==> !white_space(#[trigger] s[i]),
        k < s.len() ==> white_space(s[k]),
    ensures
        0 <= word_len(s) <= s.len(),
        word_len(s) == k,
    decreases k,
{
    if k > 0 {
        let rest = s.drop_first();
        assert forall|i: int| 0 <= i < k - 1 implies !white_space(#[trigger] rest[i]) by {
            assert(rest[i] == s[i + 1]);
        }
        if k < s.len() {
            assert(rest[k - 1] == s[k]);
        }
        lemma_word_len(rest, k - 1);
    }
}

/// The first place at or behind `from`, and before `hi`, where `v` holds no
/// white space; `hi` where there is none.
fn skip_space(v: &Vec<char>, from: usize, hi: usize) -> (p: usize)
    requires
        from <= hi <= v.len(),
    ensures
        from <= p <= hi,
        forall|i: int| from <= i < p ==> white_space(#[trigger] v@[i]),
        p < hi ==> !white_space(v@[p as int]),
{
    let mut p: usize = from;
    while p < hi && is_whitespace(v[p])
        invariant
            from <= p <= hi <= v.len(),
            forall|i: int| from <= i < p ==> white_space(#[trigger] v@[i]),
        decreases hi - p,
    {
        p = p + 1;
    }
    p
}

/// The first place at or behind `from`, and before `hi`, where `v` holds
/// white space; `hi` where there is none.
fn skip_word(v: &Vec<char>, from: usize, hi: usize) -> (p: usize)
    requires
        from <= hi <= v.len(),
    ensures
        from <= p <= hi,
        forall|i: int| from <= i < p ==> !white_space(#[trigger] v@[i]),
        p < hi ==> white_space(v@[p as int]),
{
    let mut p: usize = from;
    while p < hi && !is_whitespace(v[p])
        invariant
            from <= p <= hi <= v.len(),
            forall|i: int| from <= i < p ==> !white_space(#[trigger] v@[i]),
        decreases hi - p,
    {
        p = p + 1;
    }
    p
}

/// The bounds of what is left of the part of `v` from `lo` up to `hi` once
/// its leading white space is gone.
proof fn lemma_skip_leading_part(v: Seq<char>, lo: int, p: int, hi: int)
    requires
        0 <= lo <= p <= hi <= v.len(),
        forall|i: int| lo <= i < p ==> white_space(#[trigger] v[i]),
        p < hi ==> !white_space(v[p]),
    ensures
        skip_leading(v.subrange(lo, hi)) == v.subrange(p, hi),
{
    let part = v.subrange(lo, hi);
    assert forall|i: int| 0 <= i < p - lo implies white_space(#[trigger] part[i]) by {
        assert(part[i] == v[i + lo]);
    }
    if p < hi {
        assert(part[p - lo] == v[p]);
    }
    lemma_skip_leading(part, p - lo);
    assert(part.subrange(p - lo, part.len() as int) =~= v.subrange(p, hi));
}

/// The length of the word that the part of `v` from `lo` up to `hi` begins with.
proof fn lemma_word_len_part(v: Seq<char>, lo: int, p: int, hi: int)
    requires
        0 <= lo <= p <= hi <= v.len(),
        forall|i: int| lo <= i < p ==> !white_space(#[trigger] v[i]),
        p < hi ==> white_space(v[p]),
    ensures
        word_len(v.subrange(lo, hi)) == p - lo,
        first_word(v.subrange(lo, hi)) == v.subrange(lo, p),
        after_word(v.subrange(lo, hi)) == v.subrange(p, hi),
{
    let part = v.subrange(lo, hi);
    assert forall|i: int| 0 <= i < p - lo implies !white_space(#[trigger] part[i]) by {
        assert(part[i] == v[i + lo]);
    }
    if p < hi {
        assert(part[p - lo] == v[p]);
    }
    lemma_word_len(part, p - lo);
    assert(part.subrange(0, p - lo) =~= v.subrange(lo, p));
    assert(part.subrange(p - lo, part.len() as int) =~= v.subrange(p, hi));
}

/// The bounds of the second word in the part of `v` from `lo` up to `hi`.
pub fn second_word_bounds(v: &Vec<char>, lo: usize, hi: usize) -> (bounds: (usize, usize))
    requires
        lo <= hi <= v.len(),
    ensures
        lo <= bounds.0 <= bounds.1 <= hi,
        v@.subrange(bounds.0 as int, bounds.1 as int) == second_word(
            v@.subrange(lo as int, hi as int),
        ),
{
    let first = skip_space(v, lo, hi);
    let gap = skip_word(v, first, hi);
    let start = skip_space(v, gap, hi);
    let end = skip_word(v, start, hi);
    proof {
        lemma_skip_leading_part(v@, lo as int, first as int, hi as int);
        lemma_word_len_part(v@, first as int, gap as int, hi as int);
        lemma_skip_leading_part(v@, gap as int, start as int, hi as int);
        lemma_word_len_part(v@, start as int, end as int, hi as int);
    }
    (start, end)
}

/// Whether the part of `v` from `lo` up to `hi` ends in `tail`.
pub fn part_ends_with(v: &Vec<char>, lo: usize, hi: usize, tail: &Vec<char>) -> (found: bool)
    requires
        lo <= hi <= v.len(),
    ensures
        found == ends_with(v@.subrange(lo as int, hi as int), tail@),
{
    let n = tail.len();
    if n > hi - lo {
        return false;
    }
    let from = hi - n;
    let ghost word = v@.subrange(lo as int, hi as int);
    let ghost end = word.subrange(word.len() - n, word.len() as int);
    let mut i: usize = 0;
    while i < n
        invariant
            i <= n,
            n == tail.len(),
            from + n == hi,
            lo <= from,
            hi <= v.len(),
            word == v@.subrange(lo as int, hi as int),
            end == word.subrange(word.len() - n, word.len() as int),
            forall|k: int| 0 <= k < i ==> end[k] == tail@[k],
        decreases n - i,
    {
        assert(end[i as int] == v@[from + i]);
        if v[from + i] != tail[i] {
            return false;
        }
        i = i + 1;
    }
    assert(end =~= tail@);
    true
}

/// Where the last word of `t` begins, for a `t` that does not end in white
/// space: just behind its last white space.
pub open spec fn word_start(t: Seq<char>) -> int
    decreases t.len(),
{
    if t.len() == 0 || white_space(t.last()) {
        t.len() as int
    } else {
        word_start(t.drop_last())
    }
}

/// The last of the words that white space parts `line` into, or the empty
/// text where there is none.
pub open spec fn last_word(line: Seq<char>) -> Seq<char> {
    let t = drop_trailing(line);
    t.subrange(word_start(t), t.len() as int)
}

proof fn lemma_word_start(t: Seq<char>, w: int)
    requires
        0 <= w <= t.len(),
        forall|i: int| w <= i < t.len() ==> !white_space(#[trigger] t[i]),
        0 < w ==> white_space(t[w - 1]),
    ensures
        word_start(t) == w,
    decreases t.len() - w,
{
    if w < t.len() {
        lemma_word_start(t.drop_last(), w);
    }
}

/// The bounds of the last word in the part of `v` from `lo` up to `hi`.
pub fn last_word_bounds(v: &Vec<char>, lo: usize, hi: usize) -> (bounds: (usize, usize))
    requires
        lo <= hi <= v.len(),
    ensures
        lo <= bounds.0 <= bounds.1 <= hi,
        v@.subrange(bounds.0 as int, bounds.1 as int) == last_word(
            v@.subrange(lo as int, hi as int),
        ),
{
    let mut end: usize = hi;
    while end > lo && is_whitespace(v[end - 1])
        invariant
            lo <= end <= hi <= v.len(),
            forall|i: int| end <= i < hi ==> white_space(#[trigger] v@[i]),
        decreases end,
    {
        end = end - 1;
    }
    let mut start: usize = end;
    while start > lo && !is_whitespace(v[start - 1])
        invariant
            lo <= start <= end <= v.len(),
            forall|i: int| start <= i < end ==> !white_space(#[trigger] v@[i]),
        decreases start,
    {
        start = start - 1;
    }
    proof {
        let line = v@.subrange(lo as int, hi as int);
        assert forall|i: int| end - lo <= i < line.len() implies white_space(
            #[trigger] line[i],
        ) by {
            assert(line[i] == v@[i + lo]);
        }
        if end > lo {
            assert(line[end - lo - 1] == v@[end - 1]);
        }
        lemma_drop_trailing(line, end - lo);
        let t = line.subrange(0, end - lo);
        assert forall|i: int| start - lo <= i < t.len() implies !white_space(#[trigger] t[i]) by {
            assert(t[i] == v@[i + lo]);
        }
        if start > lo {
            assert(t[start - lo - 1] == v@[start - 1]);
        }
        lemma_word_start(t, start - lo);
        assert(t.subrange(start - lo, t.len() as int) =~= v@.subrange(start as int, end as int));
    }
    (start, end)
}

/// A copy of `s` without the white space that surrounds it.
pub fn trim(s: &str) -> (t: String)
    ensures
        t@ == trimmed(s@),
{
    let v = chars_of(s);
    let (lo, hi) = trim_bounds(&v);
    s.substring_char(lo, hi).to_owned()
}

} // verus!
