//! Extraction of factual claims from a long text.

use vstd::prelude::*;
use crate::crawler::extract::has_digit;
use crate::text::{lemma_words_nonempty, chars_of, contains, lowercase_chars, split_words, string_of, trim, trim_chars, unicode_is_uppercase,
    unicode_lowercase, utf8_len, utf8_len_wide, words, is_uppercase, contains_exec};

verus! {

/// A sentence separator for claims.
pub open spec fn claim_separator(c: char) -> bool {
    c == '.' || c == '!' || c == '?'
}

/// The sentences of `s` after the partial one `cur` (split at `.`, `!`, `?`).
pub open spec fn sentences_after(s: Seq<char>, cur: Seq<char>) -> Seq<Seq<char>>
    decreases s.len(),
{
    if s.len() == 0 {
        seq![cur]
    } else if claim_separator(s[0]) {
        seq![cur] + sentences_after(s.skip(1), Seq::empty())
    } else {
        sentences_after(s.skip(1), cur.push(s[0]))
    }
}

/// The (lowercase) sentence states a fact: it holds one of the verbs of
/// existence, possession, measure, composition or discovery.
pub open spec fn factual_pattern(low: Seq<char>) -> bool {
    ||| contains(low, " is "@) ||| contains(low, " are "@) ||| contains(low, " was "@) ||| contains(low, " were "@)
    ||| contains(low, " has "@) ||| contains(low, " have "@) ||| contains(low, " had "@)
    ||| contains(low, " contains "@) ||| contains(low, " measures "@) ||| contains(low, " weighs "@)
    ||| contains(low, " consists "@) ||| contains(low, " comprises "@) ||| contains(low, " founded "@)
    ||| contains(low, " discovered "@) ||| contains(low, " invented "@)
}

/// Some word after the first begins with an uppercase letter.
pub open spec fn has_proper_noun(s: Seq<char>) -> bool {
    exists|k: int| 1 <= k < words(s).len() && unicode_is_uppercase(#[trigger] words(s)[k][0])
}

/// The claim a raw sentence gives: the trimmed sentence with a final `.`,
/// when it has at least 15 bytes, a factual verb, and a number or a proper
/// noun.
pub open spec fn claim_of(raw: Seq<char>) -> Option<Seq<char>> {
    let s = trim(raw);
    if utf8_len(s) >= 15 && factual_pattern(unicode_lowercase(s)) && (has_digit(s) || has_proper_noun(s)) {
        Some(s.push('.'))
    } else {
        None
    }
}

/// The claims of the sentences `ps`, after those in `acc`, without repeats.
pub open spec fn claims_from(ps: Seq<Seq<char>>, acc: Seq<Seq<char>>) -> Seq<Seq<char>>
    decreases ps.len(),
{
    if ps.len() == 0 {
        acc
    } else {
        match claim_of(ps[0]) {
            Some(c) => if acc.contains(c) {
                claims_from(ps.skip(1), acc)
            } else {
                claims_from(ps.skip(1), acc.push(c))
            },
            None => claims_from(ps.skip(1), acc),
        }
    }
}

/// The claims of a text.
pub open spec fn text_claims(text: Seq<char>) -> Seq<Seq<char>> {
    claims_from(sentences_after(text, Seq::empty()), Seq::empty())
}

fn split_sentences(s: &[char]) -> (r: Vec<Vec<char>>)
    ensures
        r@.len() == sentences_after(s@, Seq::empty()).len(),
        forall|k: int| 0 <= k < r@.len() ==> #[trigger] r@[k]@ == sentences_after(s@, Seq::empty())[k],
{
    let mut out: Vec<Vec<char>> = Vec::new();
    let ghost mut acc: Seq<Seq<char>> = Seq::empty();
    let mut cur: Vec<char> = Vec::new();
    let mut i: usize = 0;
    assert(s@.skip(0) =~= s@);
    assert(acc + sentences_after(s@, cur@) =~= sentences_after(s@, Seq::empty()));
    while i < s.len()
        invariant
            i <= s@.len(),
            out@.len() == acc.len(),
            forall|k: int| 0 <= k < out@.len() ==> #[trigger] out@[k]@ == acc[k],
            acc + sentences_after(s@.skip(i as int), cur@) == sentences_after(s@, Seq::empty()),
        decreases s@.len() - i,
    {
        let ghost rest = s@.skip(i as int);
        assert(rest.skip(1) =~= s@.skip(i + 1));
        if s[i] == '.' || s[i] == '!' || s[i] == '?' {
            proof {
                assert(acc.push(cur@) + sentences_after(s@.skip(i + 1), Seq::empty()) =~= acc + (seq![cur@]
                    + sentences_after(rest.skip(1), Seq::empty())));
                acc = acc.push(cur@);
            }
            out.push(cur);
            cur = Vec::new();
        } else {
            cur.push(s[i]);
        }
        i = i + 1;
    }
    assert(s@.skip(i as int) =~= Seq::<char>::empty());
    proof {
        acc = acc.push(cur@);
    }
    out.push(cur);
    out
}

fn has(low: &[char], word: &str) -> (b: bool)
    ensures
        b == contains(low@, word@),
{
    let w = chars_of(word);
    contains_exec(low, w.as_slice())
}

fn factual_pattern_exec(low: &[char]) -> (b: bool)
    ensures
        b == factual_pattern(low@),
{
    has(low, " is ") || has(low, " are ") || has(low, " was ") || has(low, " were ") || has(low, " has ") || has(
        low,
        " have ",
    ) || has(low, " had ") || has(low, " contains ") || has(low, " measures ") || has(low, " weighs ") || has(
        low,
        " consists ",
    ) || has(low, " comprises ") || has(low, " founded ") || has(low, " discovered ") || has(low, " invented ")
}

fn has_digit_chars(s: &[char]) -> (b: bool)
    ensures
        b == has_digit(s@),
{
    let mut i: usize = 0;
    while i < s.len()
        invariant
            i <= s@.len(),
            forall|j: int| 0 <= j < i ==> !('0' <= #[trigger] s@[j] <= '9'),
        decreases s@.len() - i,
    {
        if '0' <= s[i] && s[i] <= '9' {
            return true;
        }
        i = i + 1;
    }
    false
}

fn has_proper_noun_exec(s: &[char]) -> (b: bool)
    ensures
        b == has_proper_noun(s@),
{
    let ws = split_words(s);
    let mut k: usize = 1;
    while k < ws.len()
        invariant
            ws@.len() == words(s@).len(),
            forall|m: int| 0 <= m < ws@.len() ==> #[trigger] ws@[m]@ == words(s@)[m],
            1 <= k,
            forall|m: int| 1 <= m < k && m < ws@.len() ==> !unicode_is_uppercase(#[trigger] words(s@)[m][0]),
        decreases ws@.len() - k,
    {
        assert(ws@[k as int]@ == words(s@)[k as int]);
        if ws[k].len() > 0 && is_uppercase(ws[k][0]) {
            return true;
        }
        proof {
            lemma_words_nonempty(s@, Seq::empty());
            assert(words(s@)[k as int].len() > 0);
        }
        k = k + 1;
    }
    false
}

/// The factual claims of a long text: it is split into sentences at `.`,
/// `!` and `?`; each trimmed sentence of at least 15 bytes that has a
/// factual verb and a number or a proper noun becomes a claim ending in
/// `.`; repeats are dropped (see `claim_of`).
pub fn extract_claims(text: &str) -> (r: Vec<String>)
    ensures
        r@.len() == text_claims(text@).len(),
        forall|k: int| 0 <= k < r@.len() ==> #[trigger] r@[k]@ == text_claims(text@)[k],
{
    let c = chars_of(text);
    let ps = split_sentences(c.as_slice());
    let ghost all = sentences_after(text@, Seq::empty());
    let mut found: Vec<Vec<char>> = Vec::new();
    let ghost mut acc: Seq<Seq<char>> = Seq::empty();
    let mut i: usize = 0;
    assert(all.skip(0) =~= all);
    while i < ps.len()
        invariant
            all == sentences_after(text@, Seq::empty()),
            ps@.len() == all.len(),
            forall|k: int| 0 <= k < ps@.len() ==> #[trigger] ps@[k]@ == all[k],
            i <= ps@.len(),
            found@.len() == acc.len(),
            forall|k: int| 0 <= k < acc.len() ==> #[trigger] found@[k]@ == acc[k],
            text_claims(text@) == claims_from(all.skip(i as int), acc),
        decreases ps@.len() - i,
    {
        let ghost rest = all.skip(i as int);
        assert(rest[0] == all[i as int]);
        assert(rest.skip(1) =~= all.skip(i + 1));
        let s = trim_chars(ps[i].as_slice());
        let len = utf8_len_wide(s.as_slice());
        if len >= 15 {
            let low = lowercase_chars(s.as_slice());
            if factual_pattern_exec(low.as_slice()) && (has_digit_chars(s.as_slice()) || has_proper_noun_exec(
                s.as_slice(),
            )) {
                let mut claim = s;
                claim.push('.');
                let mut seen = false;
                let mut q: usize = 0;
                while q < found.len()
                    invariant
                        q <= found@.len(),
                        seen ==> acc.contains(claim@),
                        forall|k: int| 0 <= k < acc.len() ==> #[trigger] found@[k]@ == acc[k],
                        found@.len() == acc.len(),
                        !seen ==> forall|k: int| 0 <= k < q ==> #[trigger] acc[k] != claim@,
                    decreases found@.len() - q,
                {
                    if crate::text::chars_eq(found[q].as_slice(), claim.as_slice()) {
                        assert(acc[q as int] == claim@);
                        seen = true;
                    }
                    q = q + 1;
                }
                if !seen {
                    proof {
                        acc = acc.push(claim@);
                    }
                    found.push(claim);
                }
            }
        }
        i = i + 1;
    }
    assert(all.skip(i as int) =~= Seq::<Seq<char>>::empty());
    let mut r: Vec<String> = Vec::new();
    let mut k: usize = 0;
    while k < found.len()
        invariant
            k <= found@.len(),
            r@.len() == k,
            forall|m: int| 0 <= m < k ==> #[trigger] r@[m]@ == found@[m]@,
        decreases found@.len() - k,
    {
        r.push(string_of(found[k].as_slice()));
        k = k + 1;
    }
    r
}

proof fn lemma_claims_distinct(ps: Seq<Seq<char>>, acc: Seq<Seq<char>>)
    requires
        forall|i: int, j: int| 0 <= i < j < acc.len() ==> acc[i] != acc[j],
    ensures
        forall|i: int, j: int| 0 <= i < j < claims_from(ps, acc).len() ==> claims_from(ps, acc)[i] != claims_from(ps, acc)[j],
    decreases ps.len(),
{
    if ps.len() > 0 {
        match claim_of(ps[0]) {
            Some(c) => if acc.contains(c) {
                assert(claims_from(ps, acc) == claims_from(ps.skip(1), acc));
                lemma_claims_distinct(ps.skip(1), acc);
            } else {
                let a2 = acc.push(c);
                assert forall|i: int, j: int| 0 <= i < j < a2.len() implies a2[i] != a2[j] by {
                    if j == acc.len() {
                        assert(a2[i] == acc[i]);
                        if acc[i] == c {
                            assert(acc.contains(c));
                        }
                    }
                }
                assert(claims_from(ps, acc) == claims_from(ps.skip(1), a2));
                lemma_claims_distinct(ps.skip(1), a2);
            },
            None => {
                assert(claims_from(ps, acc) == claims_from(ps.skip(1), acc));
                lemma_claims_distinct(ps.skip(1), acc);
            },
        }
    }
}

proof fn lemma_claims_from_covers(ps: Seq<Seq<char>>, acc: Seq<Seq<char>>)
    ensures
        forall|c: Seq<char>| acc.contains(c) ==> #[trigger] claims_from(ps, acc).contains(c),
        forall|j: int|
            0 <= j < ps.len() && (#[trigger] claim_of(ps[j])) is Some ==> claims_from(ps, acc).contains(
                claim_of(ps[j])->0,
            ),
        forall|c: Seq<char>|
            #[trigger] claims_from(ps, acc).contains(c) ==> acc.contains(c) || exists|j: int|
                0 <= j < ps.len() && claim_of(#[trigger] ps[j]) == Some(c),
    decreases ps.len(),
{
    if ps.len() > 0 {
        let rest = ps.skip(1);
        let acc2 = match claim_of(ps[0]) {
            Some(c) => if acc.contains(c) {
                acc
            } else {
                acc.push(c)
            },
            None => acc,
        };
        assert(claims_from(ps, acc) == claims_from(rest, acc2));
        lemma_claims_from_covers(rest, acc2);
        assert forall|c: Seq<char>| acc.contains(c) implies #[trigger] claims_from(ps, acc).contains(c) by {
            if acc2 != acc {
                let k = choose|k: int| 0 <= k < acc.len() && acc[k] == c;
                assert(acc2[k] == c);
            }
            assert(acc2.contains(c));
        }
        assert forall|j: int|
            0 <= j < ps.len() && (#[trigger] claim_of(ps[j])) is Some implies claims_from(ps, acc).contains(
                claim_of(ps[j])->0,
            ) by {
            if j == 0 {
                let c = claim_of(ps[0])->0;
                if !acc.contains(c) {
                    assert(acc2[acc.len() as int] == c);
                }
                assert(acc2.contains(c));
            } else {
                assert(rest[j - 1] == ps[j]);
                assert(claim_of(rest[j - 1]) is Some);
            }
        }
        assert forall|c: Seq<char>| #[trigger] claims_from(ps, acc).contains(c) implies acc.contains(c) || exists|
            j: int,
        | 0 <= j < ps.len() && claim_of(#[trigger] ps[j]) == Some(c) by {
            if !acc.contains(c) {
                if acc2.contains(c) {
                    let k = choose|k: int| 0 <= k < acc2.len() && acc2[k] == c;
                    if k < acc.len() {
                        assert(acc2[k] == acc[k]);
                    }
                    assert(claim_of(ps[0]) == Some(c));
                } else {
                    let j = choose|j: int| 0 <= j < rest.len() && claim_of(#[trigger] rest[j]) == Some(c);
                    assert(rest[j] == ps[j + 1]);
                }
            }
        }
    }
}

/// The claims of a text are exactly its sentences that state a measured or
/// named fact: every sentence (split at `.`, `!`, `?`) that, trimmed, has
/// at least 15 bytes, a factual verb and an ASCII digit gives the claim
/// "sentence." whether or not it names anything, and so does one with a
/// factual verb and a capitalised word after the first; every claim is
/// such a sentence followed by `.`.
pub proof fn lemma_claims_are_factual_sentences(text: Seq<char>)
    ensures
        forall|j: int|
            0 <= j < sentences_after(text, Seq::empty()).len() ==> {
                let s = trim(#[trigger] sentences_after(text, Seq::empty())[j]);
                utf8_len(s) >= 15 && factual_pattern(unicode_lowercase(s)) && ((exists|i: int|
                    0 <= i < s.len() && '0' <= #[trigger] s[i] <= '9') || has_proper_noun(s))
                    ==> text_claims(text).contains(s.push('.'))
            },
        forall|c: Seq<char>|
            #[trigger] text_claims(text).contains(c) ==> exists|j: int|
                0 <= j < sentences_after(text, Seq::empty()).len() && {
                    let s = trim(#[trigger] sentences_after(text, Seq::empty())[j]);
                    &&& c == s.push('.')
                    &&& utf8_len(s) >= 15
                    &&& factual_pattern(unicode_lowercase(s))
                    &&& (has_digit(s) || has_proper_noun(s))
                },
{
    let ps = sentences_after(text, Seq::empty());
    lemma_claims_from_covers(ps, Seq::empty());
    assert forall|j: int| 0 <= j < ps.len() implies {
        let s = trim(#[trigger] ps[j]);
        utf8_len(s) >= 15 && factual_pattern(unicode_lowercase(s)) && ((exists|i: int|
            0 <= i < s.len() && '0' <= #[trigger] s[i] <= '9') || has_proper_noun(s))
            ==> text_claims(text).contains(s.push('.'))
    } by {
        let s = trim(ps[j]);
        if utf8_len(s) >= 15 && factual_pattern(unicode_lowercase(s)) && ((exists|i: int|
            0 <= i < s.len() && '0' <= #[trigger] s[i] <= '9') || has_proper_noun(s)) {
            assert(claim_of(ps[j]) == Some(s.push('.')));
        }
    }
    assert forall|c: Seq<char>| #[trigger] text_claims(text).contains(c) implies exists|j: int|
        0 <= j < ps.len() && {
            let s = trim(#[trigger] ps[j]);
            &&& c == s.push('.')
            &&& utf8_len(s) >= 15
            &&& factual_pattern(unicode_lowercase(s))
            &&& (has_digit(s) || has_proper_noun(s))
        } by {
        let j = choose|j: int| 0 <= j < ps.len() && claim_of(#[trigger] ps[j]) == Some(c);
        assert(ps[j] == ps[j]);
    }
}

/// The claims of a text never repeat.
pub proof fn lemma_claims_distinct_in(text: Seq<char>)
    ensures
        forall|i: int, j: int| 0 <= i < j < text_claims(text).len() ==> text_claims(text)[i] != text_claims(text)[j],
{
    lemma_claims_distinct(sentences_after(text, Seq::empty()), Seq::empty());
}

} // verus!
