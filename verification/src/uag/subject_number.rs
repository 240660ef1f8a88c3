//! The subject of a numeric fact and the text of its first number, used to
//! compare facts that state different values for the same thing.

use vstd::prelude::*;
use crate::crawler::spider::{byte_index_exec, byte_index_from, lemma_byte_index_range, strip_all, strip_all_exec};
use crate::text::{chars_of, find, find_from, find_from_exec, lemma_find_from, lowercase_chars, string_of, trim, trim_chars,
    unicode_lowercase, utf8_len, utf8_len_wide};

verus! {

/// The verbs that separate the subject from the value, tried in order.
pub open spec fn value_verbs() -> Seq<Seq<char>> {
    seq![" is "@, " has "@, " was "@, " are "@, " have "@, " measures "@]
}

/// The text before and after the first verb of `vs` (in order) that occurs
/// in the lowercase text `low`, cut from `t` at the verb's byte offsets in
/// `low`: `None` where an offset is no character boundary of `t` (the cut
/// fails), `Some(None)` where no verb occurs.
pub open spec fn split_at_verb(t: Seq<char>, low: Seq<char>, vs: Seq<Seq<char>>) -> Option<
    Option<(Seq<char>, Seq<char>)>,
>
    decreases vs.len(),
{
    if vs.len() == 0 {
        Some(None)
    } else {
        match find(low, vs[0]) {
            None => split_at_verb(t, low, vs.skip(1)),
            Some(p) => {
                let b = utf8_len(low.take(p)) as int;
                match (byte_index_from(t, b, 0), byte_index_from(t, b + utf8_len(vs[0]), 0)) {
                    (Some(k), Some(k2)) => Some(Some((t.take(k), t.skip(k2)))),
                    _ => None,
                }
            },
        }
    }
}

/// A subject as compared: trimmed, lowercased, without leading "the ",
/// "a " and "an " (each stripped as often as it repeats, in that order).
pub open spec fn normal_subject(s: Seq<char>) -> Seq<char> {
    strip_all(strip_all(strip_all(unicode_lowercase(trim(s)), "the "@), "a "@), "an "@)
}

/// The first number written in `s`, as text: from the first digit on, the
/// digits and the '.' that follow, commas skipped, up to the first other
/// character.
pub open spec fn first_number_from(s: Seq<char>, found: bool, acc: Seq<char>) -> Seq<char>
    decreases s.len(),
{
    if s.len() == 0 {
        acc
    } else {
        let c = s[0];
        if ('0' <= c && c <= '9') || (c == '.' && found) {
            first_number_from(s.skip(1), true, acc.push(c))
        } else if c == ',' && found {
            first_number_from(s.skip(1), found, acc)
        } else if found {
            acc
        } else {
            first_number_from(s.skip(1), found, acc)
        }
    }
}

/// The subject and the text of the value of a fact such as "Earth has a
/// diameter of 12742 km": `None` where the cut at the verb fails (see
/// `split_at_verb`); `Some(None)` where no verb occurs, the subject has
/// fewer than 3 bytes or no digit follows the verb.
pub open spec fn subject_and_number(fact: Seq<char>) -> Option<Option<(Seq<char>, Seq<char>)>> {
    match split_at_verb(fact, unicode_lowercase(fact), value_verbs()) {
        None => None,
        Some(None) => Some(None),
        Some(Some((subject, rest))) => {
            let s = normal_subject(subject);
            let n = first_number_from(rest, false, Seq::empty());
            if utf8_len(s) < 3 || n.len() == 0 {
                Some(None)
            } else {
                Some(Some((s, n)))
            }
        },
    }
}

/// The verb of `value_verbs()` at index `i`.
fn value_verb(i: usize) -> (v: Vec<char>)
    requires
        i < 6,
    ensures
        v@ == value_verbs()[i as int],
{
    if i == 0 {
        chars_of(" is ")
    } else if i == 1 {
        chars_of(" has ")
    } else if i == 2 {
        chars_of(" was ")
    } else if i == 3 {
        chars_of(" are ")
    } else if i == 4 {
        chars_of(" have ")
    } else {
        chars_of(" measures ")
    }
}

/// The characters of `s` from index `from` up to `to`.
fn slice_chars(s: &[char], from: usize, to: usize) -> (r: Vec<char>)
    requires
        from <= to <= s@.len(),
    ensures
        r@ == s@.subrange(from as int, to as int),
{
    let mut r: Vec<char> = Vec::new();
    let mut j: usize = from;
    while j < to
        invariant
            from <= j <= to <= s@.len(),
            r@ == s@.subrange(from as int, j as int),
        decreases to - j,
    {
        r.push(s[j]);
        j = j + 1;
        assert(r@ =~= s@.subrange(from as int, j as int));
    }
    r
}

/// `split_at_verb` on the verbs of `value_verbs()`.
fn split_at_verb_exec(t: &[char], low: &[char]) -> (r: Option<Option<(Vec<char>, Vec<char>)>>)
    ensures
        match split_at_verb(t@, low@, value_verbs()) {
            None => r is None,
            Some(None) => r matches Some(None),
            Some(Some((a, b))) => r matches Some(Some((x, y))) && x@ == a && y@ == b,
        },
{
    let mut i: usize = 0;
    assert(value_verbs().skip(0) =~= value_verbs());
    while i < 6
        invariant
            i <= 6,
            split_at_verb(t@, low@, value_verbs()) == split_at_verb(t@, low@, value_verbs().skip(i as int)),
        decreases 6 - i,
    {
        let v = value_verb(i);
        let ghost vs = value_verbs().skip(i as int);
        assert(vs[0] == v@);
        assert(vs.skip(1) =~= value_verbs().skip(i + 1));
        proof {
            lemma_find_from(low@, v@, 0);
        }
        let vsl = v.as_slice();
        let found = find_from_exec(low, vsl, 0);
        let nlow = low.len();
        match found {
            None => {},
            Some(p) => {
                assert(find_from(low@, v@, 0) matches Some(q) && q <= nlow && q == p);
                let pre = slice_chars(low, 0, p);
                let b = utf8_len_wide(pre.as_slice());
                let vb = utf8_len_wide(v.as_slice());
                proof {
                    crate::text::lemma_utf8_len_bound(low@.take(p as int));
                    crate::text::lemma_utf8_len_bound(v@);
                    assert(pre@ == low@.take(p as int));
                    assert(find(low@, vs[0]) == Some(p as int));
                    assert(split_at_verb(t@, low@, vs) == (match (
                        byte_index_from(t@, b as int, 0),
                        byte_index_from(t@, b + vb, 0),
                    ) {
                        (Some(k), Some(k2)) => Some(Some((t@.take(k), t@.skip(k2)))),
                        _ => None,
                    }));
                }
                let k1 = byte_index_exec(t, b);
                let k2 = byte_index_exec(t, b + vb);
                proof {
                    lemma_byte_index_range(t@, b as int, 0);
                    lemma_byte_index_range(t@, b + vb, 0);
                }
                match (k1, k2) {
                    (Some(k1), Some(k2)) => {
                        let x = slice_chars(t, 0, k1);
                        let y = slice_chars(t, k2, t.len());
                        assert(x@ == t@.take(k1 as int));
                        assert(y@ == t@.skip(k2 as int));
                        return Some(Some((x, y)));
                    },
                    _ => {
                        return None;
                    },
                }
            },
        }
        i = i + 1;
    }
    Some(None)
}

/// The text of the first number of `s` (see `first_number_from`).
fn first_number_exec(s: &[char]) -> (r: Vec<char>)
    ensures
        r@ == first_number_from(s@, false, Seq::empty()),
{
    let mut acc: Vec<char> = Vec::new();
    let mut found: bool = false;
    let mut i: usize = 0;
    assert(s@.skip(0) =~= s@);
    while i < s.len()
        invariant
            i <= s@.len(),
            first_number_from(s@, false, Seq::empty()) == first_number_from(s@.skip(i as int), found, acc@),
        decreases s@.len() - i,
    {
        let c = s[i];
        assert(s@.skip(i as int)[0] == c);
        assert(s@.skip(i as int).skip(1) =~= s@.skip(i + 1));
        if ('0' <= c && c <= '9') || (c == '.' && found) {
            acc.push(c);
            found = true;
        } else if c == ',' && found {
        } else if found {
            return acc;
        }
        i = i + 1;
    }
    acc
}

/// The subject and the value text of a fact, or `None` where the cut at the
/// verb would fall inside a character (see `subject_and_number`).
pub fn try_subject_and_number(fact: &str) -> (r: Option<Option<(String, String)>>)
    ensures
        match subject_and_number(fact@) {
            None => r is None,
            Some(None) => r matches Some(None),
            Some(Some((s, n))) => r matches Some(Some((x, y))) && x@ == s && y@ == n,
        },
{
    let t = chars_of(fact);
    let low = lowercase_chars(t.as_slice());
    match split_at_verb_exec(t.as_slice(), low.as_slice()) {
        None => None,
        Some(None) => Some(None),
        Some(Some((subject, rest))) => {
            let trimmed = trim_chars(subject.as_slice());
            let lowered = lowercase_chars(trimmed.as_slice());
            let s1 = strip_all_exec(lowered, chars_of("the ").as_slice());
            let s2 = strip_all_exec(s1, chars_of("a ").as_slice());
            let s3 = strip_all_exec(s2, chars_of("an ").as_slice());
            let n = first_number_exec(rest.as_slice());
            let slen = utf8_len_wide(s3.as_slice());
            if slen < 3 || n.len() == 0 {
                Some(None)
            } else {
                Some(Some((string_of(s3.as_slice()), string_of(n.as_slice()))))
            }
        },
    }
}

} // verus!
