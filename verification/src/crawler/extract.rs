//! Selection of factual sentences from the visible text of a page.

use vstd::prelude::*;
use crate::text::{chars_of, contains, contains_exec, lines, lowercase_chars, split_lines, starts_with,
    starts_with_exec, string_of, trim, trim_chars, unicode_lowercase, utf8_len, utf8_len_wide};
use super::html::{strip_html, visible_text};

verus! {

/// A fact extracted from a source, with its knowledge domain.
#[derive(Debug, Clone)]
pub struct ExtractedFact {
    /// The fact, one sentence.
    pub text: String,
    /// Knowledge domain (science, geography, ...).
    pub domain: String,
    /// Where the fact comes from (`wikipedia:<page>`, `varcavia:curated`, ...).
    pub source: String,
}

/// `s` holds an ASCII digit.
pub open spec fn has_digit(s: Seq<char>) -> bool {
    exists|i: int| 0 <= i < s.len() && '0' <= #[trigger] s[i] <= '9'
}

/// The lowercase text `low` mentions a unit of measure or a magnitude word.
pub open spec fn mentions_unit(low: Seq<char>) -> bool {
    ||| contains(low, "km"@) ||| contains(low, "kg"@) ||| contains(low, "m/s"@) ||| contains(low, "mph"@)
    ||| contains(low, "celsius"@) ||| contains(low, "fahrenheit"@) ||| contains(low, "metres"@)
    ||| contains(low, "meters"@) ||| contains(low, "miles"@) ||| contains(low, "pounds"@)
    ||| contains(low, "tons"@) ||| contains(low, "tonnes"@) ||| contains(low, "billion"@)
    ||| contains(low, "million"@) ||| contains(low, "trillion"@) ||| contains(low, "percent"@)
    ||| contains(low, "%"@) ||| contains(low, "years"@) ||| contains(low, "century"@)
    ||| contains(low, "centuries"@) ||| contains(low, "degrees"@) ||| contains(low, "square"@)
    ||| contains(low, "cubic"@) ||| contains(low, "litres"@) ||| contains(low, "liters"@)
    ||| contains(low, "watts"@) ||| contains(low, "volts"@)
}

/// `s` holds a number and, in lowercase, a unit.
pub open spec fn number_with_unit(s: Seq<char>) -> bool {
    has_digit(s) && mentions_unit(unicode_lowercase(s))
}

pub(crate) fn has_digit_exec(s: &[char]) -> (b: bool)
    ensures
        b == has_digit(s@),
{
    let mut i: usize = 0;
    while i < s.len()
        invariant
            i <= s@.len(),
            forall|j: int| 0 <= j < i ==> !('0' <= #[trigger] s@[j] <= '9'),
        decreases s@.len() - i,
    {
        if '0' <= s[i] && s[i] <= '9' {
            return true;
        }
        i = i + 1;
    }
    false
}

fn has(low: &[char], word: &str) -> (b: bool)
    ensures
        b == contains(low@, word@),
{
    let w = chars_of(word);
    contains_exec(low, w.as_slice())
}

fn mentions_unit_exec(low: &[char]) -> (b: bool)
    ensures
        b == mentions_unit(low@),
{
    has(low, "km") || has(low, "kg") || has(low, "m/s") || has(low, "mph") || has(low, "celsius") || has(
        low,
        "fahrenheit",
    ) || has(low, "metres") || has(low, "meters") || has(low, "miles") || has(low, "pounds") || has(low, "tons")
        || has(low, "tonnes") || has(low, "billion") || has(low, "million") || has(low, "trillion") || has(
        low,
        "percent",
    ) || has(low, "%") || has(low, "years") || has(low, "century") || has(low, "centuries") || has(low, "degrees")
        || has(low, "square") || has(low, "cubic") || has(low, "litres") || has(low, "liters") || has(low, "watts")
        || has(low, "volts")
}

fn number_with_unit_chars(s: &[char]) -> (b: bool)
    ensures
        b == number_with_unit(s@),
{
    if !has_digit_exec(s) {
        return false;
    }
    let low = lowercase_chars(s);
    mentions_unit_exec(low.as_slice())
}

/// Whether the text holds a number and a unit of measure (km, percent,
/// billion, ...; case-insensitive).
pub fn contains_number_with_unit(s: &str) -> (b: bool)
    ensures
        b == number_with_unit(s@),
{
    let c = chars_of(s);
    number_with_unit_chars(c.as_slice())
}

/// The `.` at index `k` closes a sentence: it lies more than 15 bytes into
/// the text and is followed by nothing, a space, a newline or a non-ASCII
/// character.
pub open spec fn closes_sentence(t: Seq<char>, k: int) -> bool {
    &&& t[k] == '.'
    &&& utf8_len(t.take(k)) > 15
    &&& (k + 1 == t.len() || (t[k + 1] as u32) >= 0x80 || t[k + 1] == ' ' || t[k + 1] == '\n')
}

/// Index of the first `.` at or after `k` that closes a sentence.
pub open spec fn sentence_end_from(t: Seq<char>, k: int) -> Option<int>
    decreases t.len() - k,
{
    if k < 0 || k >= t.len() {
        None
    } else if closes_sentence(t, k) {
        Some(k)
    } else {
        sentence_end_from(t, k + 1)
    }
}

/// The first sentence of `t`: up to and including the first closing `.`, or
/// all of `t` when there is none.
pub open spec fn first_sentence_of(t: Seq<char>) -> Seq<char> {
    match sentence_end_from(t, 0) {
        Some(k) => t.take(k + 1),
        None => t,
    }
}

fn first_sentence_chars(t: &[char]) -> (r: Vec<char>)
    ensures
        r@ == first_sentence_of(t@),
{
    let n = t.len();
    let mut bytes: u128 = 0;
    let mut k: usize = 0;
    while k < n
        invariant
            n == t@.len(),
            k <= n,
            bytes == utf8_len(t@.take(k as int)),
            sentence_end_from(t@, 0) == sentence_end_from(t@, k as int),
        decreases n - k,
    {
        proof {
            crate::text::lemma_utf8_len_bound(t@.take(k as int));
        }
        if t[k] == '.' && bytes > 15 && (k + 1 == n || t[k + 1] as u32 >= 0x80 || t[k + 1] == ' ' || t[k + 1] == '\n') {
            let mut r: Vec<char> = Vec::new();
            let mut j: usize = 0;
            while j <= k
                invariant
                    k < n == t@.len(),
                    j <= k + 1,
                    r@ == t@.take(j as int),
                decreases k + 1 - j,
            {
                r.push(t[j]);
                j = j + 1;
                assert(r@ =~= t@.take(j as int));
            }
            return r;
        }
        assert(t@.take(k + 1).drop_last() =~= t@.take(k as int));
        bytes = bytes + crate::text::char_width(t[k]) as u128;
        k = k + 1;
    }
    let mut r: Vec<char> = Vec::new();
    let mut j: usize = 0;
    while j < n
        invariant
            n == t@.len(),
            j <= n,
            r@ == t@.take(j as int),
        decreases n - j,
    {
        r.push(t[j]);
        j = j + 1;
        assert(r@ =~= t@.take(j as int));
    }
    assert(t@.take(n as int) =~= t@);
    r
}

/// The first sentence of a text (see `first_sentence_of`).
pub fn first_sentence(text: &str) -> (s: String)
    ensures
        s@ == first_sentence_of(text@),
{
    let c = chars_of(text);
    let r = first_sentence_chars(c.as_slice());
    string_of(r.as_slice())
}

/// A line that carries no fact: a reference, a navigation heading or a
/// mention of the encyclopedia itself.
pub open spec fn skipped_line(l: Seq<char>) -> bool {
    ||| starts_with(l, "["@) ||| starts_with(l, "{"@) ||| starts_with(l, "Retrieved"@)
    ||| starts_with(l, "See also"@) ||| starts_with(l, "References"@) ||| starts_with(l, "External links"@)
    ||| contains(l, "Wikipedia"@) ||| contains(l, "citation needed"@) ||| contains(l, "edit]"@)
}

/// A line that reads as a statement of fact.
pub open spec fn factual(l: Seq<char>) -> bool {
    ||| contains(l, " is "@) ||| contains(l, " are "@) ||| contains(l, " was "@) ||| contains(l, " has "@)
    ||| contains(l, " have "@) ||| contains(l, " measures "@) ||| contains(l, " weighs "@)
    ||| contains(l, " contains "@) ||| number_with_unit(l)
}

/// The facts chosen from the remaining lines `ls`, after those in `acc`:
/// each line is trimmed; one of 20 to 300 bytes that is not skipped and is
/// factual gives its first sentence, kept when it has at least 20 bytes and
/// is new; the selection stops at ten facts.
pub open spec fn facts_from(ls: Seq<Seq<char>>, acc: Seq<Seq<char>>) -> Seq<Seq<char>>
    decreases ls.len(),
{
    if ls.len() == 0 {
        acc
    } else {
        let l = trim(ls[0]);
        if 20 <= utf8_len(l) <= 300 && !skipped_line(l) {
            let f = first_sentence_of(l);
            let acc2 = if factual(l) && utf8_len(f) >= 20 && !acc.contains(f) {
                acc.push(f)
            } else {
                acc
            };
            if acc2.len() >= 10 {
                acc2
            } else {
                facts_from(ls.skip(1), acc2)
            }
        } else {
            facts_from(ls.skip(1), acc)
        }
    }
}

/// The fact sentences of an HTML page.
pub open spec fn page_facts(html: Seq<char>) -> Seq<Seq<char>> {
    facts_from(lines(visible_text(html)), Seq::empty())
}

/// The facts of a selection are distinct, number at most ten, and each has
/// at least 20 bytes.
pub open spec fn well_selected(fs: Seq<Seq<char>>) -> bool {
    &&& fs.len() <= 10
    &&& forall|i: int, j: int| 0 <= i < j < fs.len() ==> fs[i] != fs[j]
    &&& forall|i: int| 0 <= i < fs.len() ==> utf8_len(#[trigger] fs[i]) >= 20
}

proof fn lemma_facts_from_selected(ls: Seq<Seq<char>>, acc: Seq<Seq<char>>)
    requires
        well_selected(acc),
        acc.len() < 10,
    ensures
        well_selected(facts_from(ls, acc)),
    decreases ls.len(),
{
    if ls.len() > 0 {
        let l = trim(ls[0]);
        if 20 <= utf8_len(l) <= 300 && !skipped_line(l) {
            let f = first_sentence_of(l);
            if factual(l) && utf8_len(f) >= 20 && !acc.contains(f) {
                let acc2 = acc.push(f);
                assert forall|i: int, j: int| 0 <= i < j < acc2.len() implies acc2[i] != acc2[j] by {
                    if j == acc.len() {
                        assert(acc2[i] == acc[i]);
                    }
                }
                assert forall|i: int| 0 <= i < acc2.len() implies utf8_len(#[trigger] acc2[i]) >= 20 by {
                    if i < acc.len() {
                        assert(acc2[i] == acc[i]);
                    }
                }
                if acc2.len() < 10 {
                    lemma_facts_from_selected(ls.skip(1), acc2);
                }
            } else {
                lemma_facts_from_selected(ls.skip(1), acc);
            }
        } else {
            lemma_facts_from_selected(ls.skip(1), acc);
        }
    }
}

/// A line of a page from which a fact may come: trimmed, it has 20 to 300
/// bytes, is not a reference or navigation line, and states something: it
/// has one of the verbs " is ", " are ", " was ", " has ", " have ",
/// " measures ", " weighs ", " contains ", or a number with a unit.
pub open spec fn fact_line(l: Seq<char>) -> bool {
    let t = trim(l);
    &&& 20 <= utf8_len(t) <= 300
    &&& !skipped_line(t)
    &&& (contains(t, " is "@) || contains(t, " are "@) || contains(t, " was "@) || contains(t, " has "@)
        || contains(t, " have "@) || contains(t, " measures "@) || contains(t, " weighs "@)
        || contains(t, " contains "@) || number_with_unit(t))
}

/// Each fact comes from a line of `all`: it is the first sentence of that
/// trimmed line, and the line is a fact line.
pub open spec fn drawn_from(fs: Seq<Seq<char>>, all: Seq<Seq<char>>) -> bool {
    forall|i: int|
        0 <= i < fs.len() ==> exists|j: int|
            0 <= j < all.len() && fact_line(#[trigger] all[j]) && #[trigger] fs[i] == first_sentence_of(trim(all[j]))
}

proof fn lemma_facts_from_drawn(all: Seq<Seq<char>>, m: int, acc: Seq<Seq<char>>)
    requires
        0 <= m <= all.len(),
        drawn_from(acc, all),
    ensures
        drawn_from(facts_from(all.skip(m), acc), all),
    decreases all.len() - m,
{
    let ls = all.skip(m);
    if ls.len() > 0 {
        assert(ls[0] == all[m]);
        assert(ls.skip(1) =~= all.skip(m + 1));
        let l = trim(ls[0]);
        if 20 <= utf8_len(l) <= 300 && !skipped_line(l) {
            let f = first_sentence_of(l);
            let acc2 = if factual(l) && utf8_len(f) >= 20 && !acc.contains(f) {
                acc.push(f)
            } else {
                acc
            };
            assert(drawn_from(acc2, all)) by {
                assert forall|i: int| 0 <= i < acc2.len() implies exists|j: int|
                    0 <= j < all.len() && fact_line(#[trigger] all[j]) && #[trigger] acc2[i] == first_sentence_of(
                        trim(all[j]),
                    ) by {
                    if i < acc.len() {
                        assert(acc2[i] == acc[i]);
                    } else {
                        assert(fact_line(all[m]));
                        assert(acc2[i] == first_sentence_of(trim(all[m])));
                    }
                }
            }
            if acc2.len() < 10 {
                lemma_facts_from_drawn(all, m + 1, acc2);
            }
        } else {
            lemma_facts_from_drawn(all, m + 1, acc);
        }
    }
}

/// Every fact of a page is the first sentence of one of its lines that
/// states something: a line with a factual verb or a number with a unit,
/// of 20 to 300 bytes once trimmed, and not a reference or navigation line.
pub proof fn lemma_page_facts_come_from_fact_lines(html: Seq<char>)
    ensures
        drawn_from(page_facts(html), lines(visible_text(html))),
{
    let all = lines(visible_text(html));
    assert(all.skip(0) =~= all);
    lemma_facts_from_drawn(all, 0, Seq::empty());
}

/// The facts extracted from any page are distinct, at most ten, and at
/// least 20 bytes long each.
pub proof fn lemma_page_facts_selected(html: Seq<char>)
    ensures
        well_selected(page_facts(html)),
{
    lemma_facts_from_selected(lines(visible_text(html)), Seq::empty());
}

fn skipped_line_exec(l: &[char]) -> (b: bool)
    ensures
        b == skipped_line(l@),
{
    starts_with_exec(l, chars_of("[").as_slice()) || starts_with_exec(l, chars_of("{").as_slice())
        || starts_with_exec(l, chars_of("Retrieved").as_slice()) || starts_with_exec(
        l,
        chars_of("See also").as_slice(),
    ) || starts_with_exec(l, chars_of("References").as_slice()) || starts_with_exec(
        l,
        chars_of("External links").as_slice(),
    ) || has(l, "Wikipedia") || has(l, "citation needed") || has(l, "edit]")
}

fn factual_exec(l: &[char]) -> (b: bool)
    ensures
        b == factual(l@),
{
    has(l, " is ") || has(l, " are ") || has(l, " was ") || has(l, " has ") || has(l, " have ") || has(
        l,
        " measures ",
    ) || has(l, " weighs ") || has(l, " contains ") || number_with_unit_chars(l)
}

fn seen_before(texts: &Vec<Vec<char>>, f: &[char]) -> (b: bool)
    ensures
        b == exists|k: int| 0 <= k < texts@.len() && #[trigger] texts@[k]@ == f@,
{
    let mut k: usize = 0;
    while k < texts.len()
        invariant
            k <= texts@.len(),
            forall|j: int| 0 <= j < k ==> #[trigger] texts@[j]@ != f@,
        decreases texts@.len() - k,
    {
        if crate::text::chars_eq(texts[k].as_slice(), f) {
            return true;
        }
        k = k + 1;
    }
    false
}

/// Extracts up to ten facts from the HTML of an encyclopedia page (see
/// `facts_from`), each tagged with `domain` and the source `wikipedia:<page>`.
pub fn extract_facts_from_html(html: &str, domain: &str, page: &str) -> (r: Vec<ExtractedFact>)
    ensures
        r@.len() == page_facts(html@).len(),
        forall|k: int|
            0 <= k < r@.len() ==> {
                &&& (#[trigger] r@[k]).text@ == page_facts(html@)[k]
                &&& r@[k].domain@ == domain@
                &&& r@[k].source@ == "wikipedia:"@ + page@
            },
{
    let mut source = String::from_str("wikipedia:");
    source.append(page);
    let text = strip_html(html);
    let tc = chars_of(text.as_str());
    let ls = split_lines(tc.as_slice());
    let ghost all = lines(visible_text(html@));
    let mut facts: Vec<ExtractedFact> = Vec::new();
    let mut texts: Vec<Vec<char>> = Vec::new();
    let ghost mut acc: Seq<Seq<char>> = Seq::empty();
    let mut k: usize = 0;
    assert(all.skip(0) =~= all);
    while k < ls.len()
        invariant
            all == lines(visible_text(html@)),
            ls@.len() == all.len(),
            forall|j: int| 0 <= j < ls@.len() ==> #[trigger] ls@[j]@ == all[j],
            source@ == "wikipedia:"@ + page@,
            k <= ls@.len(),
            acc.len() < 10,
            texts@.len() == acc.len(),
            facts@.len() == acc.len(),
            forall|j: int| 0 <= j < acc.len() ==> #[trigger] texts@[j]@ == acc[j],
            forall|j: int|
                0 <= j < facts@.len() ==> {
                    &&& (#[trigger] facts@[j]).text@ == acc[j]
                    &&& facts@[j].domain@ == domain@
                    &&& facts@[j].source@ == "wikipedia:"@ + page@
                },
            page_facts(html@) == facts_from(all.skip(k as int), acc),
        decreases ls@.len() - k,
    {
        let ghost rest = all.skip(k as int);
        assert(rest[0] == all[k as int]);
        assert(rest.skip(1) =~= all.skip(k + 1));
        let line = trim_chars(ls[k].as_slice());
        let len = utf8_len_wide(line.as_slice());
        if 20 <= len && len <= 300 && !skipped_line_exec(line.as_slice()) {
            if factual_exec(line.as_slice()) {
                let f = first_sentence_chars(line.as_slice());
                let flen = utf8_len_wide(f.as_slice());
                if flen >= 20 && !seen_before(&texts, f.as_slice()) {
                    proof {
                        assert forall|j: int| 0 <= j < acc.len() implies acc[j] != f@ by {
                            assert(texts@[j]@ == acc[j]);
                        }
                        assert(!acc.contains(f@));
                    }
                    let fs = string_of(f.as_slice());
                    facts.push(ExtractedFact { text: fs, domain: String::from_str(domain), source: source.clone() });
                    texts.push(f);
                    proof {
                        acc = acc.push(f@);
                    }
                } else {
                    proof {
                        if flen >= 20 {
                            let j = choose|j: int| 0 <= j < texts@.len() && #[trigger] texts@[j]@ == f@;
                            assert(acc[j] == f@);
                        }
                    }
                }
            }
            if facts.len() >= 10 {
                return facts;
            }
        }
        k = k + 1;
    }
    assert(all.skip(k as int) =~= Seq::<Seq<char>>::empty());
    facts
}

} // verus!
