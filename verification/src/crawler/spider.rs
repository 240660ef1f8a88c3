//! Topic discovery for the semantic spider: concepts named in a text,
//! the subject of a fact sentence, and the seed topics.

use vstd::prelude::*;
use crate::text::{chars_eq, chars_of, contains, contains_exec, find, split_on, split_on_exec, find_from_exec, join_range, join_words, lemma_find_from,
    lowercase_chars, split_words, starts_with, string_of, trim, trim_by, trim_non_alnum, unicode_is_uppercase,
    unicode_lowercase, utf8_len, utf8_len_wide, words, is_uppercase};
use super::extract::{has_digit, ExtractedFact};

verus! {

/// A topic waiting to be crawled.
#[derive(Debug, Clone)]
pub struct Seed {
    /// The topic (an encyclopedia title).
    pub topic: String,
    /// Distance from the initial seeds.
    pub depth: u32,
    /// Knowledge domain.
    pub domain: String,
}

/// What crawling one topic gave: facts, and new topics to crawl.
#[derive(Debug, Clone)]
pub struct CrawlResult {
    /// Facts found.
    pub facts: Vec<ExtractedFact>,
    /// New (topic, domain) seeds.
    pub new_seeds: Vec<(String, String)>,
}

/// The starting seeds, across knowledge domains.
pub open spec fn initial_seed_table() -> Seq<(&'static str, &'static str)> {
    seq![
        ("Earth", "geography"),
        ("Continents", "geography"),
        ("Oceans", "geography"),
        ("Countries of the world", "geography"),
        ("Speed of light", "science"),
        ("Periodic table", "science"),
        ("Solar system", "science"),
        ("DNA", "science"),
        ("Gravity", "science"),
        ("Photosynthesis", "science"),
        ("Atom", "science"),
        ("World War II", "history"),
        ("Roman Empire", "history"),
        ("Industrial Revolution", "history"),
        ("Ancient Egypt", "history"),
        ("Internet", "technology"),
        ("Computer", "technology"),
        ("Electricity", "technology"),
        ("Human body", "health"),
        ("Vaccines", "health"),
        ("Heart", "health"),
        ("Climate change", "climate"),
        ("Carbon dioxide", "climate"),
        ("United Nations", "politics"),
        ("European Union", "politics"),
        ("Pi", "science"),
        ("Prime number", "science"),
        ("Water", "science")
    ]
}

/// The starting seeds as (topic, domain) pairs.
pub fn initial_seeds() -> (r: Vec<(String, String)>)
    ensures
        r@.len() == initial_seed_table().len(),
        forall|k: int|
            0 <= k < r@.len() ==> (#[trigger] r@[k]).0@ == initial_seed_table()[k].0@ && r@[k].1@
                == initial_seed_table()[k].1@,
{
    let t: [(&str, &str); 28] = [
        ("Earth", "geography"),
        ("Continents", "geography"),
        ("Oceans", "geography"),
        ("Countries of the world", "geography"),
        ("Speed of light", "science"),
        ("Periodic table", "science"),
        ("Solar system", "science"),
        ("DNA", "science"),
        ("Gravity", "science"),
        ("Photosynthesis", "science"),
        ("Atom", "science"),
        ("World War II", "history"),
        ("Roman Empire", "history"),
        ("Industrial Revolution", "history"),
        ("Ancient Egypt", "history"),
        ("Internet", "technology"),
        ("Computer", "technology"),
        ("Electricity", "technology"),
        ("Human body", "health"),
        ("Vaccines", "health"),
        ("Heart", "health"),
        ("Climate change", "climate"),
        ("Carbon dioxide", "climate"),
        ("United Nations", "politics"),
        ("European Union", "politics"),
        ("Pi", "science"),
        ("Prime number", "science"),
        ("Water", "science")
    ];
    let mut r: Vec<(String, String)> = Vec::new();
    let mut i: usize = 0;
    while i < 28
        invariant
            i <= 28,
            t@ == initial_seed_table(),
            r@.len() == i,
            forall|k: int|
                0 <= k < i ==> (#[trigger] r@[k]).0@ == initial_seed_table()[k].0@ && r@[k].1@
                    == initial_seed_table()[k].1@,
        decreases 28 - i,
    {
        let (a, b) = t[i];
        r.push((String::from_str(a), String::from_str(b)));
        i = i + 1;
    }
    r
}

/// Words that never start a concept although capitalised.
pub open spec fn skip_word(w: Seq<char>) -> bool {
    ||| w == "The"@
    ||| w == "A"@
    ||| w == "An"@
    ||| w == "In"@
    ||| w == "On"@
    ||| w == "At"@
    ||| w == "By"@
    ||| w == "For"@
    ||| w == "And"@
    ||| w == "Or"@
    ||| w == "But"@
    ||| w == "With"@
    ||| w == "From"@
    ||| w == "To"@
    ||| w == "Of"@
    ||| w == "Is"@
    ||| w == "Was"@
    ||| w == "Are"@
    ||| w == "Were"@
    ||| w == "Has"@
    ||| w == "Had"@
    ||| w == "Its"@
    ||| w == "Their"@
    ||| w == "This"@
    ||| w == "That"@
    ||| w == "It"@
    ||| w == "He"@
    ||| w == "She"@
    ||| w == "They"@
    ||| w == "Which"@
    ||| w == "Who"@
    ||| w == "When"@
    ||| w == "Where"@
    ||| w == "What"@
    ||| w == "How"@
    ||| w == "Not"@
    ||| w == "Also"@
    ||| w == "However"@
    ||| w == "Although"@
    ||| w == "Because"@
    ||| w == "Since"@
    ||| w == "During"@
    ||| w == "After"@
    ||| w == "Before"@
}

/// A cleaned word that starts or continues a concept: capitalised and not a
/// function word.
pub open spec fn starts_concept(w: Seq<char>) -> bool {
    w.len() > 0 && unicode_is_uppercase(w[0]) && !skip_word(w)
}

/// End of the run of concept words of `cs` that begins at `j`.
pub open spec fn run_end(cs: Seq<Seq<char>>, j: int) -> int
    decreases cs.len() - j,
{
    if 0 <= j < cs.len() && starts_concept(cs[j]) {
        run_end(cs, j + 1)
    } else {
        j
    }
}

/// A run of concept words ends after its start, within the words, and
/// at a word that does not continue it.
pub proof fn lemma_run_end(cs: Seq<Seq<char>>, j: int)
    ensures
        run_end(cs, j) >= j,
        j >= 0 ==> run_end(cs, j) <= if j <= cs.len() { cs.len() as int } else { j },
        forall|m: int| j <= m < run_end(cs, j) ==> starts_concept(#[trigger] cs[m]),
        0 <= run_end(cs, j) < cs.len() ==> !starts_concept(cs[run_end(cs, j)]),
    decreases cs.len() - j,
{
    if 0 <= j < cs.len() && starts_concept(cs[j]) {
        lemma_run_end(cs, j + 1);
    }
}

/// The concepts of one sentence, given its cleaned words `cs`, scanned from
/// index `i`, after the concepts `acc` already found: a maximal run of
/// concept words forms a concept (joined with spaces), kept when it has at
/// least 3 bytes and is new.
pub open spec fn concepts_in(cs: Seq<Seq<char>>, i: int, acc: Seq<Seq<char>>) -> Seq<Seq<char>>
    decreases cs.len() - i,
{
    if i < 0 || i >= cs.len() {
        acc
    } else if starts_concept(cs[i]) {
        let e = run_end(cs, i + 1);
        let c = join_words(cs.subrange(i, e));
        proof {
            lemma_run_end(cs, i + 1);
        }
        concepts_in(
            cs,
            e,
            if utf8_len(c) >= 3 && !acc.contains(c) {
                acc.push(c)
            } else {
                acc
            },
        )
    } else {
        concepts_in(cs, i + 1, acc)
    }
}

/// A sentence separator for concept extraction.
pub open spec fn is_separator(c: char) -> bool {
    c == '.' || c == ',' || c == ';'
}

/// The pieces of `s` between separators, after the partial piece `cur`
/// (`str::split` on `.`, `,` and `;`).
pub open spec fn pieces_after(s: Seq<char>, cur: Seq<char>) -> Seq<Seq<char>>
    decreases s.len(),
{
    if s.len() == 0 {
        seq![cur]
    } else if is_separator(s[0]) {
        seq![cur] + pieces_after(s.skip(1), Seq::empty())
    } else {
        pieces_after(s.skip(1), cur.push(s[0]))
    }
}

/// The cleaned words of a sentence: each word without its leading and
/// trailing non-alphanumeric characters.
pub open spec fn cleaned_words(sentence: Seq<char>) -> Seq<Seq<char>> {
    words(sentence).map_values(|w: Seq<char>| trim_non_alnum(w))
}

/// The concepts of the sentences `ps`, after those in `acc`; the first word
/// of each sentence is never a concept start.
pub open spec fn concepts_of(ps: Seq<Seq<char>>, acc: Seq<Seq<char>>) -> Seq<Seq<char>>
    decreases ps.len(),
{
    if ps.len() == 0 {
        acc
    } else {
        concepts_of(ps.skip(1), concepts_in(cleaned_words(ps[0]), 1, acc))
    }
}

/// The concepts named in a text.
pub open spec fn text_concepts(text: Seq<char>) -> Seq<Seq<char>> {
    concepts_of(pieces_after(text, Seq::empty()), Seq::empty())
}

fn split_pieces(s: &[char]) -> (r: Vec<Vec<char>>)
    ensures
        r@.len() == pieces_after(s@, Seq::empty()).len(),
        forall|k: int| 0 <= k < r@.len() ==> #[trigger] r@[k]@ == pieces_after(s@, Seq::empty())[k],
{
    let mut out: Vec<Vec<char>> = Vec::new();
    let ghost mut acc: Seq<Seq<char>> = Seq::empty();
    let mut cur: Vec<char> = Vec::new();
    let mut i: usize = 0;
    assert(s@.skip(0) =~= s@);
    assert(acc + pieces_after(s@, cur@) =~= pieces_after(s@, Seq::empty()));
    while i < s.len()
        invariant
            i <= s@.len(),
            out@.len() == acc.len(),
            forall|k: int| 0 <= k < out@.len() ==> #[trigger] out@[k]@ == acc[k],
            acc + pieces_after(s@.skip(i as int), cur@) == pieces_after(s@, Seq::empty()),
        decreases s@.len() - i,
    {
        let ghost rest = s@.skip(i as int);
        assert(rest.skip(1) =~= s@.skip(i + 1));
        if s[i] == '.' || s[i] == ',' || s[i] == ';' {
            proof {
                assert(acc.push(cur@) + pieces_after(s@.skip(i + 1), Seq::empty()) =~= acc + (seq![cur@]
                    + pieces_after(rest.skip(1), Seq::empty())));
                acc = acc.push(cur@);
            }
            out.push(cur);
            cur = Vec::new();
        } else {
            cur.push(s[i]);
        }
        i = i + 1;
    }
    assert(s@.skip(i as int) =~= Seq::<char>::empty());
    proof {
        acc = acc.push(cur@);
    }
    out.push(cur);
    out
}

fn is_word(w: &[char], lit: &str) -> (b: bool)
    ensures
        b == (w@ == lit@),
{
    let l = chars_of(lit);
    chars_eq(w, l.as_slice())
}

fn starts_concept_exec(w: &[char]) -> (b: bool)
    ensures
        b == starts_concept(w@),
{
    w.len() > 0 && is_uppercase(w[0]) && !(is_word(w, "The") || is_word(w, "A") || is_word(w, "An") || is_word(w, "In") || is_word(w, "On") || is_word(w, "At") || is_word(w, "By") || is_word(w, "For") || is_word(w, "And") || is_word(w, "Or") || is_word(w, "But") || is_word(w, "With") || is_word(w, "From") || is_word(w, "To") || is_word(w, "Of") || is_word(w, "Is") || is_word(w, "Was") || is_word(w, "Are") || is_word(w, "Were") || is_word(w, "Has") || is_word(w, "Had") || is_word(w, "Its") || is_word(w, "Their") || is_word(w, "This") || is_word(w, "That") || is_word(w, "It") || is_word(w, "He") || is_word(w, "She") || is_word(w, "They") || is_word(w, "Which") || is_word(w, "Who") || is_word(w, "When") || is_word(w, "Where") || is_word(w, "What") || is_word(w, "How") || is_word(w, "Not") || is_word(w, "Also") || is_word(w, "However") || is_word(w, "Although") || is_word(w, "Because") || is_word(w, "Since") || is_word(w, "During") || is_word(w, "After") || is_word(w, "Before"))
}

fn cleaned_words_exec(sentence: &[char]) -> (r: Vec<Vec<char>>)
    ensures
        r@.len() == cleaned_words(sentence@).len(),
        forall|k: int| 0 <= k < r@.len() ==> #[trigger] r@[k]@ == cleaned_words(sentence@)[k],
{
    let ws = split_words(sentence);
    let mut r: Vec<Vec<char>> = Vec::new();
    let mut k: usize = 0;
    while k < ws.len()
        invariant
            ws@.len() == words(sentence@).len(),
            forall|m: int| 0 <= m < ws@.len() ==> #[trigger] ws@[m]@ == words(sentence@)[m],
            k <= ws@.len(),
            r@.len() == k,
            forall|m: int| 0 <= m < k ==> #[trigger] r@[m]@ == cleaned_words(sentence@)[m],
        decreases ws@.len() - k,
    {
        r.push(trim_by(ws[k].as_slice(), true));
        k = k + 1;
    }
    r
}

fn seen_text(found: &Vec<Vec<char>>, c: &[char]) -> (b: bool)
    ensures
        b == exists|k: int| 0 <= k < found@.len() && #[trigger] found@[k]@ == c@,
{
    let mut k: usize = 0;
    while k < found.len()
        invariant
            k <= found@.len(),
            forall|j: int| 0 <= j < k ==> #[trigger] found@[j]@ != c@,
        decreases found@.len() - k,
    {
        if chars_eq(found[k].as_slice(), c) {
            return true;
        }
        k = k + 1;
    }
    false
}

/// The concepts (runs of capitalised words, as proper nouns) named in a
/// text, in order of first appearance, to be used as new seed topics (see
/// `concepts_in`).
pub fn extract_concepts(text: &str) -> (r: Vec<String>)
    ensures
        r@.len() == text_concepts(text@).len(),
        forall|k: int| 0 <= k < r@.len() ==> #[trigger] r@[k]@ == text_concepts(text@)[k],
{
    let c = chars_of(text);
    let ps = split_pieces(c.as_slice());
    let ghost all = pieces_after(text@, Seq::empty());
    let mut found: Vec<Vec<char>> = Vec::new();
    let ghost mut acc: Seq<Seq<char>> = Seq::empty();
    let mut pi: usize = 0;
    assert(all.skip(0) =~= all);
    while pi < ps.len()
        invariant
            all == pieces_after(text@, Seq::empty()),
            ps@.len() == all.len(),
            forall|k: int| 0 <= k < ps@.len() ==> #[trigger] ps@[k]@ == all[k],
            pi <= ps@.len(),
            found@.len() == acc.len(),
            forall|k: int| 0 <= k < acc.len() ==> #[trigger] found@[k]@ == acc[k],
            text_concepts(text@) == concepts_of(all.skip(pi as int), acc),
        decreases ps@.len() - pi,
    {
        let ghost rest = all.skip(pi as int);
        assert(rest[0] == all[pi as int]);
        assert(rest.skip(1) =~= all.skip(pi + 1));
        let cs = cleaned_words_exec(ps[pi].as_slice());
        let ghost csv = cleaned_words(all[pi as int]);
        assert(cs@.map_values(|w: Vec<char>| w@) =~= csv);
        let ghost acc0 = acc;
        let mut i: usize = 1;
        while i < cs.len()
            invariant
                csv == cleaned_words(all[pi as int]),
                cs@.map_values(|w: Vec<char>| w@) == csv,
                1 <= i,
                found@.len() == acc.len(),
                forall|k: int| 0 <= k < acc.len() ==> #[trigger] found@[k]@ == acc[k],
                concepts_in(csv, 1, acc0) == concepts_in(csv, i as int, acc),
            decreases cs@.len() - i,
        {
            assert(csv[i as int] == cs@[i as int]@);
            if starts_concept_exec(cs[i].as_slice()) {
                let mut j: usize = i + 1;
                proof {
                    lemma_run_end(csv, i + 1);
                }
                while j < cs.len() && starts_concept_exec(cs[j].as_slice())
                    invariant
                        csv == cs@.map_values(|w: Vec<char>| w@),
                        i + 1 <= j <= cs@.len(),
                        run_end(csv, i + 1) == run_end(csv, j as int),
                    decreases cs@.len() - j,
                {
                    assert(csv[j as int] == cs@[j as int]@);
                    j = j + 1;
                }
                proof {
                    if j < cs@.len() {
                        assert(csv[j as int] == cs@[j as int]@);
                    }
                }
                let concept = join_range(&cs, i, j);
                assert(cs@.subrange(i as int, j as int).map_values(|w: Vec<char>| w@) =~= csv.subrange(
                    i as int,
                    j as int,
                ));
                let clen = utf8_len_wide(concept.as_slice());
                if clen >= 3 && !seen_text(&found, concept.as_slice()) {
                    proof {
                        assert forall|k: int| 0 <= k < acc.len() implies acc[k] != concept@ by {
                            assert(found@[k]@ == acc[k]);
                        }
                        acc = acc.push(concept@);
                    }
                    found.push(concept);
                } else {
                    proof {
                        if clen >= 3 {
                            let k = choose|k: int| 0 <= k < found@.len() && #[trigger] found@[k]@ == concept@;
                            assert(acc[k] == concept@);
                        }
                    }
                }
                i = j;
            } else {
                i = i + 1;
            }
        }
        pi = pi + 1;
    }
    assert(all.skip(pi as int) =~= Seq::<Seq<char>>::empty());
    let mut r: Vec<String> = Vec::new();
    let mut k: usize = 0;
    while k < found.len()
        invariant
            k <= found@.len(),
            r@.len() == k,
            forall|m: int| 0 <= m < k ==> #[trigger] r@[m]@ == found@[m]@,
        decreases found@.len() - k,
    {
        r.push(string_of(found[k].as_slice()));
        k = k + 1;
    }
    r
}

} // verus!

verus! {

/// The verbs that separate a fact's subject from the rest, tried in order.
pub open spec fn subject_delimiters() -> Seq<Seq<char>> {
    seq![" is "@, " has "@, " was "@, " are "@, " were "@, " covers "@, " measures "@, " contains "@]
}

/// The index `k >= from` at which the UTF-8 prefix of `t` reaches exactly
/// `b` bytes, if there is one.
pub open spec fn byte_index_from(t: Seq<char>, b: int, from: int) -> Option<int>
    decreases t.len() + 1 - from,
{
    if from < 0 || from > t.len() {
        None
    } else if utf8_len(t.take(from)) == b {
        Some(from)
    } else {
        byte_index_from(t, b, from + 1)
    }
}

/// `s` with every leading repetition of `p` removed (`str::trim_start_matches`).
pub open spec fn strip_all(s: Seq<char>, p: Seq<char>) -> Seq<char>
    decreases s.len(),
{
    if p.len() > 0 && starts_with(s, p) {
        strip_all(s.skip(p.len() as int), p)
    } else {
        s
    }
}

/// A subject without leading articles and surrounding whitespace.
pub open spec fn clean_subject(s: Seq<char>) -> Seq<char> {
    trim(strip_all(strip_all(strip_all(s, "The "@), "A "@), "An "@))
}

/// The subject found with the delimiters `ds` in `t`, whose lowercase form
/// is `low`: `None` where the delimiter's byte offset in `low` is no
/// character boundary of `t` (slicing `t` there fails), `Some(None)` where no
/// delimiter gives a non-empty subject.
pub open spec fn subject_by(t: Seq<char>, low: Seq<char>, ds: Seq<Seq<char>>) -> Option<Option<Seq<char>>>
    decreases ds.len(),
{
    if ds.len() == 0 {
        Some(None)
    } else {
        match find(low, ds[0]) {
            None => subject_by(t, low, ds.skip(1)),
            Some(p) => match byte_index_from(t, utf8_len(low.take(p)) as int, 0) {
                None => None,
                Some(k) => if clean_subject(t.take(k)).len() > 0 {
                    Some(Some(clean_subject(t.take(k))))
                } else {
                    subject_by(t, low, ds.skip(1))
                },
            },
        }
    }
}

/// The subject search on `text` does not slice inside a character.
pub open spec fn subject_defined(text: Seq<char>) -> bool {
    subject_by(text, unicode_lowercase(text), subject_delimiters()) is Some
}

/// The first (at most) three words joined with spaces.
pub open spec fn first_words(text: Seq<char>) -> Seq<char> {
    let ws = words(text);
    join_words(if ws.len() <= 3 { ws } else { ws.take(3) })
}

/// The main subject of a fact sentence: the text before the first
/// delimiter verb (see `subject_delimiters`) that leaves a non-empty subject
/// once leading articles are stripped; otherwise the first three words.
pub open spec fn subject_of(text: Seq<char>) -> Seq<char> {
    match subject_by(text, unicode_lowercase(text), subject_delimiters()) {
        Some(Some(s)) => s,
        _ => first_words(text),
    }
}

pub(crate) fn strip_all_exec(s: Vec<char>, p: &[char]) -> (r: Vec<char>)
    ensures
        r@ == strip_all(s@, p@),
    decreases s@.len(),
{
    if p.len() > 0 && crate::text::starts_with_exec(s.as_slice(), p) {
        let mut rest: Vec<char> = Vec::new();
        let mut k: usize = p.len();
        while k < s.len()
            invariant
                p@.len() <= k <= s@.len(),
                rest@ == s@.subrange(p@.len() as int, k as int),
            decreases s@.len() - k,
        {
            rest.push(s[k]);
            k = k + 1;
            assert(rest@ =~= s@.subrange(p@.len() as int, k as int));
        }
        assert(rest@ =~= s@.skip(p@.len() as int));
        strip_all_exec(rest, p)
    } else {
        s
    }
}

fn clean_subject_exec(s: Vec<char>) -> (r: Vec<char>)
    ensures
        r@ == clean_subject(s@),
{
    let the = chars_of("The ");
    let a = chars_of("A ");
    let an = chars_of("An ");
    let s1 = strip_all_exec(s, the.as_slice());
    let s2 = strip_all_exec(s1, a.as_slice());
    let s3 = strip_all_exec(s2, an.as_slice());
    crate::text::trim_chars(s3.as_slice())
}

pub(crate) proof fn lemma_byte_index_range(t: Seq<char>, b: int, from: int)
    ensures
        byte_index_from(t, b, from) matches Some(k) ==> from <= k <= t.len() && utf8_len(t.take(k)) == b,
    decreases t.len() + 1 - from,
{
    if 0 <= from <= t.len() && utf8_len(t.take(from)) != b {
        lemma_byte_index_range(t, b, from + 1);
    }
}

pub(crate) fn byte_index_exec(t: &[char], b: u128) -> (r: Option<usize>)
    ensures
        r matches Some(k) ==> byte_index_from(t@, b as int, 0) == Some(k as int),
        r is None ==> byte_index_from(t@, b as int, 0) is None,
{
    let n = t.len();
    let mut k: usize = 0;
    let mut bytes: u128 = 0;
    loop
        invariant
            n == t@.len(),
            k <= n,
            bytes == utf8_len(t@.take(k as int)),
            byte_index_from(t@, b as int, 0) == byte_index_from(t@, b as int, k as int),
        decreases n - k,
    {
        if bytes == b {
            return Some(k);
        }
        if k == n {
            assert(byte_index_from(t@, b as int, k + 1) is None);
            return None;
        }
        proof {
            crate::text::lemma_utf8_len_bound(t@.take(k as int));
        }
        assert(t@.take(k + 1).drop_last() =~= t@.take(k as int));
        bytes = bytes + crate::text::char_width(t[k]) as u128;
        k = k + 1;
    }
}

fn delimiter(i: usize) -> (d: Vec<char>)
    requires
        i < 8,
    ensures
        d@ == subject_delimiters()[i as int],
{
    if i == 0 {
        chars_of(" is ")
    } else if i == 1 {
        chars_of(" has ")
    } else if i == 2 {
        chars_of(" was ")
    } else if i == 3 {
        chars_of(" are ")
    } else if i == 4 {
        chars_of(" were ")
    } else if i == 5 {
        chars_of(" covers ")
    } else if i == 6 {
        chars_of(" measures ")
    } else {
        chars_of(" contains ")
    }
}

/// The main subject of a fact sentence (see `subject_of`). The text before a
/// delimiter is cut at the delimiter's byte offset in the lowercase text, so
/// the search must not cut inside a character (`subject_defined`); for text
/// whose lowercase form has the same UTF-8 length prefixes, such as ASCII,
/// it never does. See `try_extract_subject` for any text.
pub fn extract_subject(text: &str) -> (s: String)
    requires
        subject_defined(text@),
    ensures
        s@ == subject_of(text@),
{
    match subject_search(text) {
        Some(Some(s)) => string_of(s.as_slice()),
        _ => {
            let c = chars_of(text);
            let ws = split_words(c.as_slice());
            let end = if ws.len() <= 3 { ws.len() } else { 3 };
            let r = join_range(&ws, 0, end);
            assert(ws@.subrange(0, end as int).map_values(|w: Vec<char>| w@) =~= (if words(text@).len() <= 3 {
                words(text@)
            } else {
                words(text@).take(3)
            }));
            string_of(r.as_slice())
        },
    }
}

/// The main subject of a fact sentence, or `None` where the delimiter
/// search would cut inside a character (see `extract_subject`).
pub fn try_extract_subject(text: &str) -> (r: Option<String>)
    ensures
        r is Some <==> subject_defined(text@),
        r matches Some(s) ==> s@ == subject_of(text@),
{
    match subject_search(text) {
        None => None,
        Some(_) => Some(extract_subject(text)),
    }
}

fn subject_search(text: &str) -> (r: Option<Option<Vec<char>>>)
    ensures
        match subject_by(text@, unicode_lowercase(text@), subject_delimiters()) {
            None => r is None,
            Some(None) => r == Some(Option::<Vec<char>>::None),
            Some(Some(s)) => r matches Some(Some(v)) && v@ == s,
        },
{
    let c = chars_of(text);
    let low = lowercase_chars(c.as_slice());
    let ghost ds = subject_delimiters();
    assert(ds.len() == 8);
    let mut i: usize = 0;
    assert(ds.skip(0) =~= ds);
    while i < 8
        invariant
            c@ == text@,
            low@ == unicode_lowercase(text@),
            ds == subject_delimiters(),
            i <= 8,
            ds.len() == 8,
            subject_by(text@, low@, ds) == subject_by(text@, low@, ds.skip(i as int)),
        decreases 8 - i,
    {
        let ghost rest = ds.skip(i as int);
        assert(rest[0] == ds[i as int]);
        assert(rest.skip(1) =~= ds.skip(i + 1));
        let d = delimiter(i);
        proof {
            lemma_find_from(low@, d@, 0);
        }
        match find_from_exec(low.as_slice(), d.as_slice(), 0) {
            None => {},
            Some(p) => {
                let b = utf8_len_wide(vstd::slice::slice_subrange(low.as_slice(), 0, p));
                assert(low@.subrange(0, p as int) =~= low@.take(p as int));
                proof {
                    lemma_byte_index_range(c@, b as int, 0);
                    assert(rest.len() > 0);
                }
                match byte_index_exec(c.as_slice(), b) {
                    None => {
                        return None;
                    },
                    Some(k) => {
                        let mut sub: Vec<char> = Vec::new();
                        let mut j: usize = 0;
                        while j < k
                            invariant
                                k <= c@.len(),
                                j <= k,
                                sub@ == c@.take(j as int),
                            decreases k - j,
                        {
                            sub.push(c[j]);
                            j = j + 1;
                            assert(sub@ =~= c@.take(j as int));
                        }
                        assert(sub@ == text@.take(k as int));
                        assert(find(low@, d@) == Some(p as int));
                        assert(byte_index_from(text@, utf8_len(low@.take(p as int)) as int, 0) == Some(k as int));
                        assert(subject_by(text@, low@, rest) == (if clean_subject(text@.take(k as int)).len() > 0 {
                            Some(Some(clean_subject(text@.take(k as int))))
                        } else {
                            subject_by(text@, low@, rest.skip(1))
                        }));
                        let clean = clean_subject_exec(sub);
                        if clean.len() > 0 {
                            return Some(Some(clean));
                        }
                    },
                }
            },
        }
        i = i + 1;
    }
    assert(ds.skip(8) =~= Seq::<Seq<char>>::empty());
    Some(None)
}

} // verus!

verus! {

/// The lowercase sentence `low` reads as a statement: it holds " is ",
/// " was ", " has ", " are ", " were ", " contains ", " founded " or
/// " discovered ".
pub open spec fn summary_pattern(low: Seq<char>) -> bool {
    ||| contains(low, " is "@) ||| contains(low, " was "@) ||| contains(low, " has "@)
    ||| contains(low, " are "@) ||| contains(low, " were "@) ||| contains(low, " contains "@)
    ||| contains(low, " founded "@) ||| contains(low, " discovered "@)
}

/// A trimmed summary sentence is kept when it has 20 to 300 bytes and reads
/// as a statement or holds a digit.
pub open spec fn summary_keeps(s: Seq<char>) -> bool {
    20 <= utf8_len(s) <= 300 && (summary_pattern(unicode_lowercase(s)) || has_digit(s))
}

/// `s` closed by a full stop: unchanged when it ends with '.', else with
/// '.' appended.
pub open spec fn with_period(s: Seq<char>) -> Seq<char> {
    if s.len() > 0 && s.last() == '.' {
        s
    } else {
        s.push('.')
    }
}

/// The fact sentences chosen from the remaining pieces `ps` after those in
/// `acc`: each piece is trimmed and, when kept, closed by a full stop; the
/// choice stops at ten.
pub open spec fn summary_from(ps: Seq<Seq<char>>, acc: Seq<Seq<char>>) -> Seq<Seq<char>>
    decreases ps.len(),
{
    if ps.len() == 0 || acc.len() >= 10 {
        acc
    } else {
        let s = trim(ps[0]);
        summary_from(ps.skip(1), if summary_keeps(s) { acc.push(with_period(s)) } else { acc })
    }
}

/// The fact sentences of an encyclopedia summary: its pieces between ". ".
pub open spec fn summary_sentences(extract: Seq<char>) -> Seq<Seq<char>> {
    summary_from(split_on(extract, ". "@), Seq::empty())
}

fn summary_pattern_exec(low: &[char]) -> (b: bool)
    ensures
        b == summary_pattern(low@),
{
    contains_exec(low, chars_of(" is ").as_slice()) || contains_exec(low, chars_of(" was ").as_slice())
        || contains_exec(low, chars_of(" has ").as_slice()) || contains_exec(low, chars_of(" are ").as_slice())
        || contains_exec(low, chars_of(" were ").as_slice()) || contains_exec(
        low,
        chars_of(" contains ").as_slice(),
    ) || contains_exec(low, chars_of(" founded ").as_slice()) || contains_exec(
        low,
        chars_of(" discovered ").as_slice(),
    )
}

/// Chooses up to ten facts from the summary `extract` of an encyclopedia
/// page (see `summary_sentences`), each tagged with `domain` and `source`.
pub fn summary_facts(extract: &str, domain: &str, source: &str) -> (r: Vec<ExtractedFact>)
    ensures
        r@.len() == summary_sentences(extract@).len(),
        forall|k: int|
            0 <= k < r@.len() ==> {
                &&& (#[trigger] r@[k]).text@ == summary_sentences(extract@)[k]
                &&& r@[k].domain@ == domain@
                &&& r@[k].source@ == source@
            },
{
    let ec = chars_of(extract);
    let sep = chars_of(". ");
    proof {
        reveal_strlit(". ");
    }
    let ps = split_on_exec(ec.as_slice(), sep.as_slice());
    let ghost all = split_on(extract@, ". "@);
    let mut facts: Vec<ExtractedFact> = Vec::new();
    let ghost mut acc: Seq<Seq<char>> = Seq::empty();
    let mut k: usize = 0;
    assert(all.skip(0) =~= all);
    assert(ps@.map_values(|p: Vec<char>| p@) == all);
    while k < ps.len() && facts.len() < 10
        invariant
            all == split_on(extract@, ". "@),
            ps@.len() == all.len(),
            forall|j: int| 0 <= j < ps@.len() ==> #[trigger] ps@[j]@ == all[j],
            k <= ps@.len(),
            facts@.len() == acc.len(),
            forall|j: int|
                0 <= j < facts@.len() ==> {
                    &&& (#[trigger] facts@[j]).text@ == acc[j]
                    &&& facts@[j].domain@ == domain@
                    &&& facts@[j].source@ == source@
                },
            summary_sentences(extract@) == summary_from(all.skip(k as int), acc),
        decreases ps@.len() - k,
    {
        let ghost rest = all.skip(k as int);
        assert(rest[0] == all[k as int]);
        assert(rest.skip(1) =~= all.skip(k + 1));
        assert(ps@.map_values(|p: Vec<char>| p@)[k as int] == ps@[k as int]@);
        let s = crate::text::trim_chars(ps[k].as_slice());
        let len = utf8_len_wide(s.as_slice());
        if 20 <= len && len <= 300 {
            let low = lowercase_chars(s.as_slice());
            if summary_pattern_exec(low.as_slice()) || crate::crawler::extract::has_digit_exec(s.as_slice()) {
                let mut text = s.clone();
                if !(s.len() > 0 && s[s.len() - 1] == '.') {
                    text.push('.');
                }
                assert(text@ == with_period(s@));
                facts.push(
                    ExtractedFact {
                        text: string_of(text.as_slice()),
                        domain: String::from_str(domain),
                        source: String::from_str(source),
                    },
                );
                proof {
                    acc = acc.push(with_period(s@));
                }
            }
        }
        k = k + 1;
    }
    if k >= ps.len() {
        assert(all.skip(k as int) =~= Seq::<Seq<char>>::empty());
    }
    facts
}

} // verus!

verus! {

/// A summary gives at most ten facts, each closed by a full stop.
pub proof fn lemma_summary_at_most_ten(ps: Seq<Seq<char>>, acc: Seq<Seq<char>>)
    requires
        acc.len() <= 10,
        forall|i: int| 0 <= i < acc.len() ==> (#[trigger] acc[i]).len() > 0 && acc[i].last() == '.',
    ensures
        summary_from(ps, acc).len() <= 10,
        forall|i: int|
            0 <= i < summary_from(ps, acc).len() ==> (#[trigger] summary_from(ps, acc)[i]).len() > 0 && summary_from(
                ps,
                acc,
            )[i].last() == '.',
    decreases ps.len(),
{
    if ps.len() > 0 && acc.len() < 10 {
        let s = trim(ps[0]);
        if summary_keeps(s) {
            let a2 = acc.push(with_period(s));
            assert forall|i: int| 0 <= i < a2.len() implies (#[trigger] a2[i]).len() > 0 && a2[i].last() == '.' by {
                if i < acc.len() {
                    assert(a2[i] == acc[i]);
                }
            }
            lemma_summary_at_most_ten(ps.skip(1), a2);
        } else {
            lemma_summary_at_most_ten(ps.skip(1), acc);
        }
    }
}

} // verus!
