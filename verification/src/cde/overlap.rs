//! Overlap of word and trigram sets: the counts behind Jaccard
//! similarities (the shared part and the whole of two sets).

use vstd::prelude::*;
use crate::text::{chars_eq, chars_of, lowercase_chars, unicode_lowercase};

verus! {

/// The views of a list of character vectors.
pub open spec fn char_views(v: Seq<Vec<char>>) -> Seq<Seq<char>> {
    v.map_values(|x: Vec<char>| x@)
}

fn contains_chars(v: &Vec<Vec<char>>, x: &[char]) -> (b: bool)
    ensures
        b == char_views(v@).contains(x@),
{
    let mut i: usize = 0;
    while i < v.len()
        invariant
            i <= v@.len(),
            forall|j: int| 0 <= j < i ==> (#[trigger] v@[j])@ != x@,
        decreases v@.len() - i,
    {
        if chars_eq(v[i].as_slice(), x) {
            assert(char_views(v@)[i as int] == x@);
            return true;
        }
        i = i + 1;
    }
    proof {
        if char_views(v@).contains(x@) {
            let j = choose|j: int| 0 <= j < char_views(v@).len() && char_views(v@)[j] == x@;
            assert(v@[j]@ == x@);
        }
    }
    false
}

fn distinct(v: &Vec<Vec<char>>) -> (d: Vec<Vec<char>>)
    ensures
        char_views(d@).no_duplicates(),
        char_views(d@).to_set() == char_views(v@).to_set(),
{
    let mut out: Vec<Vec<char>> = Vec::new();
    let mut i: usize = 0;
    assert(char_views(v@).take(0).to_set() =~= Set::<Seq<char>>::empty());
    assert(char_views(out@).to_set() =~= Set::<Seq<char>>::empty());
    while i < v.len()
        invariant
            i <= v@.len(),
            char_views(out@).no_duplicates(),
            char_views(out@).to_set() == char_views(v@).take(i as int).to_set(),
        decreases v@.len() - i,
    {
        let ghost before = char_views(out@);
        let ghost x = v@[i as int]@;
        proof {
            assert(char_views(v@).take(i + 1) =~= char_views(v@).take(i as int).push(x));
            char_views(v@).take(i as int).lemma_push_to_set_commute(x);
        }
        if !contains_chars(&out, v[i].as_slice()) {
            out.push(v[i].clone());
            proof {
                assert(char_views(out@) =~= before.push(x));
                before.lemma_push_to_set_commute(x);
                assert forall|p: int, q: int| 0 <= p < q < char_views(out@).len() implies char_views(out@)[p]
                    != char_views(out@)[q] by {
                    if q == before.len() {
                        assert(before.contains(before[p]));
                    }
                }
            }
        } else {
            proof {
                assert(before.to_set().contains(x));
                assert(before.to_set().insert(x) =~= before.to_set());
            }
        }
        i = i + 1;
    }
    assert(char_views(v@).take(i as int) =~= char_views(v@));
    out
}

/// The shared part and the whole of the sets of strings of `a` and `b`:
/// the sizes of their intersection and of their union.
pub fn overlap_counts(a: &Vec<Vec<char>>, b: &Vec<Vec<char>>) -> (r: (usize, u128))
    ensures
        r.0 == char_views(a@).to_set().intersect(char_views(b@).to_set()).len(),
        r.1 == char_views(a@).to_set().union(char_views(b@).to_set()).len(),
{
    let da = distinct(a);
    let db = distinct(b);
    let ghost sa = char_views(a@).to_set();
    let ghost sb = char_views(b@).to_set();
    let ghost va = char_views(da@);
    let mut shared: Vec<Vec<char>> = Vec::new();
    let mut i: usize = 0;
    assert(char_views(shared@).to_set() =~= Set::<Seq<char>>::empty());
    assert(va.take(0).to_set() =~= Set::<Seq<char>>::empty());
    while i < da.len()
        invariant
            va == char_views(da@),
            va.no_duplicates(),
            va.to_set() == sa,
            char_views(db@).to_set() == sb,
            i <= da@.len(),
            shared@.len() <= i,
            char_views(shared@).no_duplicates(),
            char_views(shared@).to_set() == va.take(i as int).to_set().intersect(sb),
        decreases da@.len() - i,
    {
        let ghost before = char_views(shared@);
        let ghost x = va[i as int];
        proof {
            assert(va.take(i + 1) =~= va.take(i as int).push(x));
            va.take(i as int).lemma_push_to_set_commute(x);
            assert(!va.take(i as int).contains(x)) by {
                if va.take(i as int).contains(x) {
                    let j = choose|j: int| 0 <= j < i && va.take(i as int)[j] == x;
                    assert(va[j] == va[i as int]);
                }
            }
        }
        if contains_chars(&db, da[i].as_slice()) {
            shared.push(da[i].clone());
            proof {
                assert(char_views(shared@) =~= before.push(x));
                before.lemma_push_to_set_commute(x);
                assert(!before.contains(x)) by {
                    if before.contains(x) {
                        assert(before.to_set().contains(x));
                    }
                }
                assert forall|p: int, q: int| 0 <= p < q < char_views(shared@).len() implies char_views(shared@)[p]
                    != char_views(shared@)[q] by {
                    if q == before.len() {
                        assert(before.contains(before[p]));
                    }
                }
                assert(char_views(shared@).to_set() =~= va.take(i + 1).to_set().intersect(sb));
            }
        } else {
            proof {
                assert(!sb.contains(x));
                assert(va.take(i + 1).to_set().intersect(sb) =~= va.take(i as int).to_set().intersect(sb));
            }
        }
        i = i + 1;
    }
    proof {
        assert(va.take(i as int) =~= va);
        char_views(shared@).unique_seq_to_set();
        va.unique_seq_to_set();
        char_views(db@).unique_seq_to_set();
        vstd::set_lib::lemma_set_intersect_union_lens(sa, sb);
        assert(sa + sb == sa.union(sb));
    }
    let n: usize = shared.len();
    let total: u128 = da.len() as u128 + db.len() as u128 - n as u128;
    (n, total)
}

/// The character trigrams of a text in lowercase: every run of three
/// consecutive characters; a text of one or two characters is its own only
/// trigram, an empty text has none.
pub open spec fn trigram_list(s: Seq<char>) -> Seq<Seq<char>> {
    let c = unicode_lowercase(s);
    if c.len() < 3 {
        if c.len() > 0 {
            seq![c]
        } else {
            Seq::empty()
        }
    } else {
        Seq::new((c.len() - 2) as nat, |i: int| c.subrange(i, i + 3))
    }
}

fn trigrams(s: &str) -> (r: Vec<Vec<char>>)
    ensures
        char_views(r@) == trigram_list(s@),
{
    let sc = chars_of(s);
    let c = lowercase_chars(sc.as_slice());
    let mut out: Vec<Vec<char>> = Vec::new();
    if c.len() < 3 {
        if c.len() > 0 {
            out.push(c);
        }
        assert(char_views(out@) =~= trigram_list(s@));
        return out;
    }
    let mut i: usize = 0;
    while i < c.len() - 2
        invariant
            c@ == unicode_lowercase(s@),
            c@.len() >= 3,
            i <= c@.len() - 2,
            char_views(out@) == trigram_list(s@).take(i as int),
        decreases c@.len() - i,
    {
        let t: Vec<char> = vec![c[i], c[i + 1], c[i + 2]];
        assert(t@ =~= c@.subrange(i as int, i + 3));
        let ghost before = char_views(out@);
        out.push(t);
        assert(char_views(out@) =~= before.push(c@.subrange(i as int, i + 3)));
        assert(trigram_list(s@).take(i + 1) =~= trigram_list(s@).take(i as int).push(trigram_list(s@)[i as int]));
        i = i + 1;
    }
    assert(trigram_list(s@).take(i as int) =~= trigram_list(s@));
    out
}

/// The shared and total numbers of distinct trigrams of two texts (see
/// `trigram_list`); their ratio is the texts' trigram similarity.
pub fn trigram_overlap(a: &str, b: &str) -> (r: (usize, u128))
    ensures
        r.0 == trigram_list(a@).to_set().intersect(trigram_list(b@).to_set()).len(),
        r.1 == trigram_list(a@).to_set().union(trigram_list(b@).to_set()).len(),
{
    let ta = trigrams(a);
    let tb = trigrams(b);
    overlap_counts(&ta, &tb)
}

/// The views of a list of strings.
pub open spec fn string_views(v: Seq<String>) -> Seq<Seq<char>> {
    v.map_values(|x: String| x@)
}

fn to_char_vecs(v: &Vec<String>) -> (r: Vec<Vec<char>>)
    ensures
        char_views(r@) == string_views(v@),
{
    let mut out: Vec<Vec<char>> = Vec::new();
    let mut i: usize = 0;
    while i < v.len()
        invariant
            i <= v@.len(),
            char_views(out@) == string_views(v@).take(i as int),
        decreases v@.len() - i,
    {
        let ghost before = char_views(out@);
        out.push(chars_of(v[i].as_str()));
        assert(char_views(out@) =~= before.push(v@[i as int]@));
        assert(string_views(v@).take(i + 1) =~= string_views(v@).take(i as int).push(v@[i as int]@));
        i = i + 1;
    }
    assert(string_views(v@).take(i as int) =~= string_views(v@));
    out
}

/// The shared and total numbers of distinct words of two word lists; their
/// ratio is the lists' keyword overlap.
pub fn word_overlap(a: &Vec<String>, b: &Vec<String>) -> (r: (usize, u128))
    ensures
        r.0 == string_views(a@).to_set().intersect(string_views(b@).to_set()).len(),
        r.1 == string_views(a@).to_set().union(string_views(b@).to_set()).len(),
{
    let ca = to_char_vecs(a);
    let cb = to_char_vecs(b);
    overlap_counts(&ca, &cb)
}

} // verus!

verus! {

/// The overlap of two sets does not depend on their order, and a set
/// overlaps itself fully: the shared part is the whole.
pub proof fn lemma_overlap_symmetric_and_full(a: Set<Seq<char>>, b: Set<Seq<char>>)
    ensures
        a.intersect(b).len() == b.intersect(a).len(),
        a.union(b).len() == b.union(a).len(),
        a.intersect(a).len() == a.union(a).len(),
{
    assert(a.intersect(b) =~= b.intersect(a));
    assert(a.union(b) =~= b.union(a));
    assert(a.intersect(a) =~= a.union(a));
}

} // verus!
