//! Character-level text helpers shared by the extraction and matching code.
//!
//! Text is handled as sequences of Unicode scalar values. Lengths that the
//! extraction rules measure in bytes are measured with `utf8_len`, the length
//! of the UTF-8 encoding.

use vstd::prelude::*;

verus! {

/// Number of bytes that UTF-8 uses for `c`.
pub open spec fn utf8_width(c: char) -> nat {
    if (c as u32) < 0x80 {
        1
    } else if (c as u32) < 0x800 {
        2
    } else if (c as u32) < 0x10000 {
        3
    } else {
        4
    }
}

/// Length in bytes of the UTF-8 encoding of `s`.
pub open spec fn utf8_len(s: Seq<char>) -> nat
    decreases s.len(),
{
    if s.len() == 0 {
        0
    } else {
        utf8_len(s.drop_last()) + utf8_width(s.last())
    }
}

/// ASCII letter.
pub open spec fn is_ascii_alpha(c: char) -> bool {
    ('a' <= c && c <= 'z') || ('A' <= c && c <= 'Z')
}

/// Unicode lowercase mapping of a whole string, as `str::to_lowercase` computes it.
pub uninterp spec fn unicode_lowercase(s: Seq<char>) -> Seq<char>;

/// Unicode `Uppercase` property of a character, as `char::is_uppercase` reports it.
pub uninterp spec fn unicode_is_uppercase(c: char) -> bool;

/// Unicode alphanumeric test of a character, as `char::is_alphanumeric` reports it.
pub uninterp spec fn unicode_is_alphanumeric(c: char) -> bool;

/// Unicode `White_Space` property of a character, as `char::is_whitespace` reports it.
pub uninterp spec fn unicode_is_whitespace(c: char) -> bool;

/// `pat` occurs in `s` starting at index `i`.
pub open spec fn occurs_at(s: Seq<char>, pat: Seq<char>, i: int) -> bool {
    0 <= i && i + pat.len() <= s.len() && s.subrange(i, i + pat.len()) == pat
}

/// `pat` occurs somewhere in `s`.
pub open spec fn contains(s: Seq<char>, pat: Seq<char>) -> bool {
    exists|i: int| occurs_at(s, pat, i)
}

/// `s` begins with `pat`.
pub open spec fn starts_with(s: Seq<char>, pat: Seq<char>) -> bool {
    occurs_at(s, pat, 0)
}

/// Index of the first occurrence of `pat` in `s` at or after `from`, if any.
pub open spec fn find_from(s: Seq<char>, pat: Seq<char>, from: int) -> Option<int>
    decreases s.len() + 1 - from,
{
    if from < 0 || from + pat.len() > s.len() {
        None
    } else if occurs_at(s, pat, from) {
        Some(from)
    } else {
        find_from(s, pat, from + 1)
    }
}

/// Index of the first occurrence of `pat` in `s`, if any.
pub open spec fn find(s: Seq<char>, pat: Seq<char>) -> Option<int> {
    find_from(s, pat, 0)
}

/// The characters of a string slice, in order.
pub fn chars_of(s: &str) -> (v: Vec<char>)
    ensures
        v@ == s@,
{
    let mut v: Vec<char> = Vec::new();
    for c in it: s.chars()
        invariant
            v@ == it.seq().take(it.index() as int),
    {
        v.push(c);
    }
    v
}

/// Appends one character to a string (`String::push`).
#[verifier::external_body]
pub(crate) fn push_char(s: &mut String, c: char)
    ensures
        final(s)@ == old(s)@.push(c),
{
    s.push(c);
}

/// A string holding exactly the given characters.
pub fn string_of(v: &[char]) -> (s: String)
    ensures
        s@ == v@,
{
    let mut s = String::new();
    let mut i: usize = 0;
    while i < v.len()
        invariant
            i <= v@.len(),
            s@ == v@.take(i as int),
        decreases v@.len() - i,
    {
        push_char(&mut s, v[i]);
        i = i + 1;
        assert(v@.take(i as int) =~= v@.take(i - 1).push(v@[i - 1]));
    }
    assert(v@.take(v@.len() as int) =~= v@);
    s
}

/// `str::to_lowercase`: the Unicode lowercase form of `s`.
#[verifier::external_body]
pub(crate) fn to_lowercase(s: &str) -> (r: String)
    ensures
        r@ == unicode_lowercase(s@),
{
    s.to_lowercase()
}

/// `char::is_uppercase`.
#[verifier::external_body]
pub(crate) fn is_uppercase(c: char) -> (b: bool)
    ensures
        b == unicode_is_uppercase(c),
{
    c.is_uppercase()
}

/// `char::is_alphanumeric`.
#[verifier::external_body]
pub(crate) fn is_alphanumeric(c: char) -> (b: bool)
    ensures
        b == unicode_is_alphanumeric(c),
{
    c.is_alphanumeric()
}

/// `char::is_whitespace`.
#[verifier::external_body]
pub(crate) fn is_whitespace(c: char) -> (b: bool)
    ensures
        b == unicode_is_whitespace(c),
{
    c.is_whitespace()
}

/// Lowercase form of a character sequence.
pub fn lowercase_chars(v: &[char]) -> (r: Vec<char>)
    ensures
        r@ == unicode_lowercase(v@),
{
    let s = string_of(v);
    let l = to_lowercase(s.as_str());
    chars_of(l.as_str())
}

/// UTF-8 width of one character.
pub fn char_width(c: char) -> (w: usize)
    ensures
        w == utf8_width(c),
{
    if (c as u32) < 0x80 {
        1
    } else if (c as u32) < 0x800 {
        2
    } else if (c as u32) < 0x10000 {
        3
    } else {
        4
    }
}

/// The UTF-8 length is at most four bytes per character.
pub proof fn lemma_utf8_len_bound(s: Seq<char>)
    ensures
        utf8_len(s) <= 4 * s.len(),
    decreases s.len(),
{
    if s.len() > 0 {
        lemma_utf8_len_bound(s.drop_last());
    }
}

/// Whether `pat` occurs in `s` at index `i`.
pub fn occurs_at_exec(s: &[char], pat: &[char], i: usize) -> (b: bool)
    ensures
        b == occurs_at(s@, pat@, i as int),
{
    if i > s.len() || pat.len() > s.len() - i {
        return false;
    }
    let mut k: usize = 0;
    while k < pat.len()
        invariant
            i + pat@.len() <= s@.len(),
            s@.len() == s.len(),
            k <= pat@.len(),
            forall|j: int| 0 <= j < k ==> s@[i + j] == pat@[j],
        decreases pat@.len() - k,
    {
        if s[i + k] != pat[k] {
            assert(s@.subrange(i as int, i + pat@.len())[k as int] != pat@[k as int]);
            return false;
        }
        k = k + 1;
    }
    assert(s@.subrange(i as int, i + pat@.len()) =~= pat@);
    true
}

/// Index of the first occurrence of `pat` in `s` at or after `from`.
pub fn find_from_exec(s: &[char], pat: &[char], from: usize) -> (r: Option<usize>)
    ensures
        match find_from(s@, pat@, from as int) {
            Some(i) => r == Some(i as usize),
            None => r is None,
        },
{
    if pat.len() == 0 {
        if from <= s.len() {
            assert(s@.subrange(from as int, from as int) =~= pat@);
            return Some(from);
        }
        return None;
    }
    let mut k: usize = from;
    while k <= s.len() && pat.len() <= s.len() - k
        invariant
            from <= k,
            pat@.len() > 0,
            find_from(s@, pat@, from as int) == find_from(s@, pat@, k as int),
        decreases s@.len() + 1 - k,
    {
        if occurs_at_exec(s, pat, k) {
            return Some(k);
        }
        k = k + 1;
    }
    None
}

/// The first occurrence found from `from` on is an occurrence, and none lies in between.
pub proof fn lemma_find_from(s: Seq<char>, pat: Seq<char>, from: int)
    requires
        0 <= from,
    ensures
        match find_from(s, pat, from) {
            Some(i) => from <= i && occurs_at(s, pat, i) && forall|j: int|
                from <= j < i ==> !occurs_at(s, pat, j),
            None => forall|j: int| from <= j ==> !occurs_at(s, pat, j),
        },
    decreases s.len() + 1 - from,
{
    if from + pat.len() > s.len() {
    } else if occurs_at(s, pat, from) {
    } else {
        lemma_find_from(s, pat, from + 1);
    }
}

/// `find` agrees with `contains`.
pub proof fn lemma_find_contains(s: Seq<char>, pat: Seq<char>)
    ensures
        find(s, pat) is Some <==> contains(s, pat),
{
    lemma_find_from(s, pat, 0);
    if find(s, pat) is Some {
        assert(occurs_at(s, pat, find(s, pat)->0));
    }
}

/// Whether `pat` occurs in `s`.
pub fn contains_exec(s: &[char], pat: &[char]) -> (b: bool)
    ensures
        b == contains(s@, pat@),
{
    proof {
        lemma_find_contains(s@, pat@);
    }
    find_from_exec(s, pat, 0).is_some()
}

/// Whether `s` begins with `pat`.
pub fn starts_with_exec(s: &[char], pat: &[char]) -> (b: bool)
    ensures
        b == starts_with(s@, pat@),
{
    occurs_at_exec(s, pat, 0)
}

} // verus!

verus! {

/// Whether two character sequences are equal.
pub fn chars_eq(a: &[char], b: &[char]) -> (r: bool)
    ensures
        r == (a@ == b@),
{
    if a.len() != b.len() {
        return false;
    }
    let mut i: usize = 0;
    while i < a.len()
        invariant
            a@.len() == b@.len(),
            i <= a@.len(),
            forall|j: int| 0 <= j < i ==> a@[j] == b@[j],
        decreases a@.len() - i,
    {
        if a[i] != b[i] {
            return false;
        }
        i = i + 1;
    }
    assert(a@ =~= b@);
    true
}

/// Whether two string slices hold the same characters.
pub fn str_eq(a: &str, b: &str) -> (r: bool)
    ensures
        r == (a@ == b@),
{
    let va = chars_of(a);
    let vb = chars_of(b);
    chars_eq(va.as_slice(), vb.as_slice())
}

} // verus!

verus! {

/// Length in bytes of the UTF-8 encoding of `v`, counted in a `u128`.
pub fn utf8_len_wide(v: &[char]) -> (n: u128)
    ensures
        n == utf8_len(v@),
{
    let len = v.len();
    let mut n: u128 = 0;
    let mut i: usize = 0;
    while i < len
        invariant
            i <= v@.len(),
            len == v@.len(),
            n == utf8_len(v@.take(i as int)),
        decreases v@.len() - i,
    {
        proof {
            lemma_utf8_len_bound(v@.take(i as int));
        }
        assert(v@.take(i + 1).drop_last() =~= v@.take(i as int));
        n = n + char_width(v[i]) as u128;
        i = i + 1;
    }
    assert(v@.take(v@.len() as int) =~= v@);
    n
}

/// `l` without one trailing carriage return.
pub open spec fn strip_cr(l: Seq<char>) -> Seq<char> {
    if l.len() > 0 && l.last() == '\r' {
        l.drop_last()
    } else {
        l
    }
}

/// The lines of `s` after the partial line `cur`, as `str::lines` yields
/// them: split at `\n`, a `\r` before the `\n` dropped, no empty last line.
pub open spec fn lines_after(s: Seq<char>, cur: Seq<char>) -> Seq<Seq<char>>
    decreases s.len(),
{
    if s.len() == 0 {
        if cur.len() == 0 {
            Seq::empty()
        } else {
            seq![cur]
        }
    } else if s[0] == '\n' {
        seq![strip_cr(cur)] + lines_after(s.skip(1), Seq::empty())
    } else {
        lines_after(s.skip(1), cur.push(s[0]))
    }
}

/// The lines of `s` (`str::lines`).
pub open spec fn lines(s: Seq<char>) -> Seq<Seq<char>> {
    lines_after(s, Seq::empty())
}

/// The lines of a character sequence (see `lines`).
pub fn split_lines(s: &[char]) -> (r: Vec<Vec<char>>)
    ensures
        r@.len() == lines(s@).len(),
        forall|k: int| 0 <= k < r@.len() ==> #[trigger] r@[k]@ == lines(s@)[k],
{
    let mut out: Vec<Vec<char>> = Vec::new();
    let ghost mut acc: Seq<Seq<char>> = Seq::empty();
    let mut cur: Vec<char> = Vec::new();
    let mut i: usize = 0;
    assert(s@.skip(0) =~= s@);
    assert(acc + lines_after(s@, cur@) =~= lines(s@));
    while i < s.len()
        invariant
            i <= s@.len(),
            out@.len() == acc.len(),
            forall|k: int| 0 <= k < out@.len() ==> #[trigger] out@[k]@ == acc[k],
            acc + lines_after(s@.skip(i as int), cur@) == lines(s@),
        decreases s@.len() - i,
    {
        let ghost rest = s@.skip(i as int);
        assert(rest.skip(1) =~= s@.skip(i + 1));
        if s[i] == '\n' {
            let mut line = cur;
            if line.len() > 0 && line[line.len() - 1] == '\r' {
                line.pop();
            }
            assert(line@ =~= strip_cr(cur@));
            proof {
                assert(acc.push(line@) + lines_after(s@.skip(i + 1), Seq::empty()) =~= acc + (seq![strip_cr(cur@)]
                    + lines_after(rest.skip(1), Seq::empty())));
                acc = acc.push(line@);
            }
            out.push(line);
            cur = Vec::new();
        } else {
            cur.push(s[i]);
        }
        i = i + 1;
    }
    assert(s@.skip(i as int) =~= Seq::<char>::empty());
    if cur.len() > 0 {
        proof {
            acc = acc.push(cur@);
        }
        out.push(cur);
    }
    out
}

/// `c` is removed by a trim: whitespace, or, when `alnum` is set, any
/// character that is not alphanumeric.
pub open spec fn strippable(c: char, alnum: bool) -> bool {
    if alnum {
        !unicode_is_alphanumeric(c)
    } else {
        unicode_is_whitespace(c)
    }
}

/// `s` without leading strippable characters.
pub open spec fn trim_start_by(s: Seq<char>, alnum: bool) -> Seq<char>
    decreases s.len(),
{
    if s.len() > 0 && strippable(s[0], alnum) {
        trim_start_by(s.skip(1), alnum)
    } else {
        s
    }
}

/// `s` without trailing strippable characters.
pub open spec fn trim_end_by(s: Seq<char>, alnum: bool) -> Seq<char>
    decreases s.len(),
{
    if s.len() > 0 && strippable(s.last(), alnum) {
        trim_end_by(s.drop_last(), alnum)
    } else {
        s
    }
}

/// `s` without leading and trailing whitespace (`str::trim`).
pub open spec fn trim(s: Seq<char>) -> Seq<char> {
    trim_end_by(trim_start_by(s, false), false)
}

/// `s` without leading and trailing characters that are not alphanumeric
/// (`str::trim_matches(|c| !c.is_alphanumeric())`).
pub open spec fn trim_non_alnum(s: Seq<char>) -> Seq<char> {
    trim_end_by(trim_start_by(s, true), true)
}

proof fn lemma_trim_start(s: Seq<char>, a: int, alnum: bool)
    requires
        0 <= a <= s.len(),
        forall|j: int| 0 <= j < a ==> strippable(#[trigger] s[j], alnum),
        a == s.len() || !strippable(s[a], alnum),
    ensures
        trim_start_by(s, alnum) == s.skip(a),
    decreases a,
{
    if a == 0 {
        assert(s.skip(0) =~= s);
    } else {
        assert(strippable(s[0], alnum));
        let t = s.skip(1);
        assert forall|j: int| 0 <= j < a - 1 implies strippable(#[trigger] t[j], alnum) by {
            assert(t[j] == s[j + 1]);
        }
        if a < s.len() {
            assert(t[a - 1] == s[a]);
        }
        lemma_trim_start(t, a - 1, alnum);
        assert(t.skip(a - 1) =~= s.skip(a));
    }
}

proof fn lemma_trim_end(s: Seq<char>, b: int, alnum: bool)
    requires
        0 <= b <= s.len(),
        forall|j: int| b <= j < s.len() ==> strippable(#[trigger] s[j], alnum),
        b == 0 || !strippable(s[b - 1], alnum),
    ensures
        trim_end_by(s, alnum) == s.take(b),
    decreases s.len() - b,
{
    if b == s.len() {
        assert(s.take(b) =~= s);
    } else {
        assert(strippable(s.last(), alnum));
        let t = s.drop_last();
        assert forall|j: int| b <= j < t.len() implies strippable(#[trigger] t[j], alnum) by {
            assert(t[j] == s[j]);
        }
        if b > 0 {
            assert(t[b - 1] == s[b - 1]);
        }
        lemma_trim_end(t, b, alnum);
        assert(t.take(b) =~= s.take(b));
    }
}

fn strippable_exec(c: char, alnum: bool) -> (b: bool)
    ensures
        b == strippable(c, alnum),
{
    if alnum {
        !is_alphanumeric(c)
    } else {
        is_whitespace(c)
    }
}

/// `v` without leading and trailing strippable characters.
pub fn trim_by(v: &[char], alnum: bool) -> (r: Vec<char>)
    ensures
        r@ == trim_end_by(trim_start_by(v@, alnum), alnum),
{
    let mut a: usize = 0;
    while a < v.len() && strippable_exec(v[a], alnum)
        invariant
            a <= v@.len(),
            forall|j: int| 0 <= j < a ==> strippable(#[trigger] v@[j], alnum),
        decreases v@.len() - a,
    {
        a = a + 1;
    }
    proof {
        lemma_trim_start(v@, a as int, alnum);
    }
    let ghost t = v@.skip(a as int);
    let mut b: usize = v.len();
    while b > a && strippable_exec(v[b - 1], alnum)
        invariant
            a <= b <= v@.len(),
            t == v@.skip(a as int),
            forall|j: int| b - a <= j < t.len() ==> strippable(#[trigger] t[j], alnum),
        decreases b,
    {
        assert(t[b - 1 - a] == v@[b - 1]);
        b = b - 1;
    }
    proof {
        if b > a {
            assert(t[b - a - 1] == v@[b - 1]);
        }
        lemma_trim_end(t, b - a, alnum);
    }
    let mut r: Vec<char> = Vec::new();
    let mut k: usize = a;
    while k < b
        invariant
            a <= k <= b <= v@.len(),
            r@ == v@.subrange(a as int, k as int),
        decreases b - k,
    {
        r.push(v[k]);
        k = k + 1;
        assert(r@ =~= v@.subrange(a as int, k as int));
    }
    assert(t.take(b - a) =~= v@.subrange(a as int, b as int));
    r
}

/// `v` without leading whitespace (`str::trim_start`).
pub fn trim_start_chars(v: &[char]) -> (r: Vec<char>)
    ensures
        r@ == trim_start_by(v@, false),
{
    let mut a: usize = 0;
    while a < v.len() && strippable_exec(v[a], false)
        invariant
            a <= v@.len(),
            forall|j: int| 0 <= j < a ==> strippable(#[trigger] v@[j], false),
        decreases v@.len() - a,
    {
        a = a + 1;
    }
    proof {
        lemma_trim_start(v@, a as int, false);
    }
    let mut r: Vec<char> = Vec::new();
    let mut k: usize = a;
    while k < v.len()
        invariant
            a <= k <= v@.len(),
            r@ == v@.subrange(a as int, k as int),
        decreases v@.len() - k,
    {
        r.push(v[k]);
        k = k + 1;
        assert(r@ =~= v@.subrange(a as int, k as int));
    }
    assert(r@ =~= v@.skip(a as int));
    r
}

/// `v` without leading and trailing whitespace (see `trim`).
pub fn trim_chars(v: &[char]) -> (r: Vec<char>)
    ensures
        r@ == trim(v@),
{
    trim_by(v, false)
}

} // verus!

verus! {

/// The words of `s` after the partial word `cur`: maximal runs of
/// non-whitespace characters (`str::split_whitespace`).
pub open spec fn words_after(s: Seq<char>, cur: Seq<char>) -> Seq<Seq<char>>
    decreases s.len(),
{
    if s.len() == 0 {
        if cur.len() > 0 {
            seq![cur]
        } else {
            Seq::empty()
        }
    } else if unicode_is_whitespace(s[0]) {
        (if cur.len() > 0 {
            seq![cur]
        } else {
            Seq::empty()
        }) + words_after(s.skip(1), Seq::empty())
    } else {
        words_after(s.skip(1), cur.push(s[0]))
    }
}

/// The whitespace-separated words of `s`.
pub open spec fn words(s: Seq<char>) -> Seq<Seq<char>> {
    words_after(s, Seq::empty())
}

/// The words of a character sequence (see `words`).
pub fn split_words(s: &[char]) -> (r: Vec<Vec<char>>)
    ensures
        r@.len() == words(s@).len(),
        forall|k: int| 0 <= k < r@.len() ==> #[trigger] r@[k]@ == words(s@)[k],
{
    let mut out: Vec<Vec<char>> = Vec::new();
    let ghost mut acc: Seq<Seq<char>> = Seq::empty();
    let mut cur: Vec<char> = Vec::new();
    let mut i: usize = 0;
    assert(s@.skip(0) =~= s@);
    assert(acc + words_after(s@, cur@) =~= words(s@));
    while i < s.len()
        invariant
            i <= s@.len(),
            out@.len() == acc.len(),
            forall|k: int| 0 <= k < out@.len() ==> #[trigger] out@[k]@ == acc[k],
            acc + words_after(s@.skip(i as int), cur@) == words(s@),
        decreases s@.len() - i,
    {
        let ghost rest = s@.skip(i as int);
        assert(rest.skip(1) =~= s@.skip(i + 1));
        if is_whitespace(s[i]) {
            if cur.len() > 0 {
                proof {
                    assert(acc.push(cur@) + words_after(s@.skip(i + 1), Seq::empty()) =~= acc + (seq![cur@]
                        + words_after(rest.skip(1), Seq::empty())));
                    acc = acc.push(cur@);
                }
                out.push(cur);
            } else {
                assert(Seq::<Seq<char>>::empty() + words_after(rest.skip(1), Seq::empty()) =~= words_after(
                    rest.skip(1),
                    Seq::empty(),
                ));
            }
            cur = Vec::new();
        } else {
            cur.push(s[i]);
        }
        i = i + 1;
    }
    assert(s@.skip(i as int) =~= Seq::<char>::empty());
    if cur.len() > 0 {
        proof {
            acc = acc.push(cur@);
        }
        out.push(cur);
    }
    out
}

/// The words joined with single spaces.
pub open spec fn join_words(ws: Seq<Seq<char>>) -> Seq<char>
    decreases ws.len(),
{
    if ws.len() == 0 {
        Seq::empty()
    } else if ws.len() == 1 {
        ws[0]
    } else {
        join_words(ws.drop_last()) + seq![' '] + ws.last()
    }
}

/// The words `ws[from..to]` joined with single spaces.
pub fn join_range(ws: &Vec<Vec<char>>, from: usize, to: usize) -> (r: Vec<char>)
    requires
        from <= to <= ws@.len(),
    ensures
        r@ == join_words(ws@.subrange(from as int, to as int).map_values(|w: Vec<char>| w@)),
{
    let mut r: Vec<char> = Vec::new();
    let mut k: usize = from;
    while k < to
        invariant
            from <= k <= to <= ws@.len(),
            r@ == join_words(ws@.subrange(from as int, k as int).map_values(|w: Vec<char>| w@)),
        decreases to - k,
    {
        let ghost prev = ws@.subrange(from as int, k as int).map_values(|w: Vec<char>| w@);
        let ghost next = ws@.subrange(from as int, k + 1).map_values(|w: Vec<char>| w@);
        assert(next.drop_last() =~= prev);
        assert(next.last() == ws@[k as int]@);
        if k > from {
            r.push(' ');
        }
        let w = &ws[k];
        let mut j: usize = 0;
        let ghost base = r@;
        while j < w.len()
            invariant
                j <= w@.len(),
                r@ == base + w@.take(j as int),
            decreases w@.len() - j,
        {
            r.push(w[j]);
            j = j + 1;
            assert(r@ =~= base + w@.take(j as int));
        }
        assert(w@.take(j as int) =~= w@);
        k = k + 1;
        assert(r@ =~= join_words(next));
    }
    r
}

} // verus!

verus! {

/// Every word is non-empty.
pub proof fn lemma_words_nonempty(s: Seq<char>, cur: Seq<char>)
    ensures
        forall|k: int| 0 <= k < words_after(s, cur).len() ==> #[trigger] words_after(s, cur)[k].len() > 0,
    decreases s.len(),
{
    if s.len() == 0 {
        if cur.len() > 0 {
            assert(words_after(s, cur) == seq![cur]);
        }
    } else if unicode_is_whitespace(s[0]) {
        lemma_words_nonempty(s.skip(1), Seq::empty());
        let head: Seq<Seq<char>> = if cur.len() > 0 { seq![cur] } else { Seq::empty() };
        let tail = words_after(s.skip(1), Seq::empty());
        assert(words_after(s, cur) == head + tail);
        assert forall|k: int| 0 <= k < (head + tail).len() implies #[trigger] (head + tail)[k].len() > 0 by {
            if k >= head.len() {
                assert((head + tail)[k] == tail[k - head.len()]);
            }
        }
    } else {
        assert(words_after(s, cur) == words_after(s.skip(1), cur.push(s[0])));
        lemma_words_nonempty(s.skip(1), cur.push(s[0]));
    }
}

} // verus!

verus! {

/// The pieces of `s` split on `pat` (`str::split` with a string pattern),
/// scanning from index `from`, the current piece starting at `start`: each
/// occurrence of `pat`, found left to right without overlap, ends a piece.
pub open spec fn split_scan(s: Seq<char>, pat: Seq<char>, from: int, start: int) -> Seq<Seq<char>>
    decreases s.len() - from,
{
    if pat.len() == 0 || from < 0 || from + pat.len() > s.len() {
        seq![s.subrange(start, s.len() as int)]
    } else if occurs_at(s, pat, from) {
        seq![s.subrange(start, from)] + split_scan(s, pat, from + pat.len(), from + pat.len())
    } else {
        split_scan(s, pat, from + 1, start)
    }
}

/// The pieces of `s` between the occurrences of a non-empty `pat`.
pub open spec fn split_on(s: Seq<char>, pat: Seq<char>) -> Seq<Seq<char>> {
    split_scan(s, pat, 0, 0)
}

/// Splits `s` on the non-empty pattern `pat` (see `split_on`).
pub fn split_on_exec(s: &[char], pat: &[char]) -> (r: Vec<Vec<char>>)
    requires
        pat@.len() > 0,
    ensures
        r@.map_values(|p: Vec<char>| p@) == split_on(s@, pat@),
{
    let mut out: Vec<Vec<char>> = Vec::new();
    let mut start: usize = 0;
    let mut from: usize = 0;
    while from <= s.len() && pat.len() <= s.len() - from
        invariant
            pat@.len() > 0,
            start <= from <= s@.len(),
            split_on(s@, pat@) == out@.map_values(|p: Vec<char>| p@) + split_scan(
                s@,
                pat@,
                from as int,
                start as int,
            ),
        decreases s@.len() - from,
    {
        if occurs_at_exec(s, pat, from) {
            let mut piece: Vec<char> = Vec::new();
            let mut k: usize = start;
            while k < from
                invariant
                    start <= k <= from <= s@.len(),
                    piece@ == s@.subrange(start as int, k as int),
                decreases from - k,
            {
                piece.push(s[k]);
                k = k + 1;
                assert(piece@ =~= s@.subrange(start as int, k as int));
            }
            let ghost before = out@.map_values(|p: Vec<char>| p@);
            out.push(piece);
            assert(out@.map_values(|p: Vec<char>| p@) =~= before.push(s@.subrange(start as int, from as int)));
            from = from + pat.len();
            start = from;
            assert(before + split_scan(s@, pat@, (from - pat@.len()) as int, start - pat@.len()) =~= before.push(
                s@.subrange(start - pat@.len(), from - pat@.len()),
            ) + split_scan(s@, pat@, from as int, start as int));
        } else {
            from = from + 1;
        }
    }
    let mut piece: Vec<char> = Vec::new();
    let mut k: usize = start;
    while k < s.len()
        invariant
            start <= k <= s@.len(),
            piece@ == s@.subrange(start as int, k as int),
        decreases s@.len() - k,
    {
        piece.push(s[k]);
        k = k + 1;
        assert(piece@ =~= s@.subrange(start as int, k as int));
    }
    let ghost before = out@.map_values(|p: Vec<char>| p@);
    out.push(piece);
    assert(out@.map_values(|p: Vec<char>| p@) =~= before.push(s@.subrange(start as int, s@.len() as int)));
    assert(before + split_scan(s@, pat@, from as int, start as int) =~= before.push(
        s@.subrange(start as int, s@.len() as int),
    ));
    out
}

} // verus!
