//! Keyword extraction and unit normalisation for matching facts that are
//! worded differently.

use vstd::prelude::*;
use crate::text::{chars_eq, chars_of, find_from, find_from_exec, is_alphanumeric, is_ascii_alpha, lemma_find_from,
    lowercase_chars, string_of, unicode_is_alphanumeric, unicode_lowercase, utf8_len, utf8_len_wide};

verus! {

/// Unit spellings and their canonical form, in the order they are applied:
/// multi-word spellings come before the words they contain.
pub open spec fn unit_table() -> Seq<(Seq<char>, Seq<char>)> {
    seq![
        ("meters per second"@, "m/s"@),
        ("metres per second"@, "m/s"@),
        ("square kilometres"@, "sq_km"@),
        ("square kilometers"@, "sq_km"@),
        ("sq km"@, "sq_km"@),
        ("km2"@, "sq_km"@),
        ("degrees celsius"@, "celsius"@),
        ("degrees c"@, "celsius"@),
        ("degrees fahrenheit"@, "fahrenheit"@),
        ("degrees kelvin"@, "kelvin"@),
        ("per cent"@, "percent"@),
        ("kilometres"@, "km"@),
        ("kilometers"@, "km"@),
        ("kilometre"@, "km"@),
        ("kilometer"@, "km"@),
        ("metres"@, "m"@),
        ("meters"@, "m"@),
        ("metre"@, "m"@),
        ("meter"@, "m"@),
        ("celsius"@, "celsius"@),
        ("°c"@, "celsius"@),
        ("fahrenheit"@, "fahrenheit"@),
        ("°f"@, "fahrenheit"@),
        ("kelvin"@, "kelvin"@),
        ("kilograms"@, "kg"@),
        ("kilogrammes"@, "kg"@),
        ("kilogram"@, "kg"@),
        ("miles"@, "mi"@),
        ("feet"@, "ft"@),
        ("pounds"@, "lb"@),
        ("lbs"@, "lb"@),
        ("litres"@, "l"@),
        ("liters"@, "l"@),
        ("litre"@, "l"@),
        ("liter"@, "l"@),
        ("percent"@, "percent"@)
    ]
}

/// The documented spellings of each unit, by its canonical form: metres per
/// second, square kilometres, degrees Celsius, Fahrenheit and Kelvin,
/// percent, kilometres, metres, kilograms, miles, feet, pounds and litres.
pub open spec fn unit_spellings(canonical: Seq<char>) -> Set<Seq<char>> {
    Set::new(
        |s: Seq<char>|
            {
                ||| canonical == "m/s"@ && (s == "meters per second"@ || s == "metres per second"@)
                ||| canonical == "sq_km"@ && (s == "square kilometres"@ || s == "square kilometers"@ || s
                    == "sq km"@ || s == "km2"@)
                ||| canonical == "celsius"@ && (s == "degrees celsius"@ || s == "degrees c"@ || s == "celsius"@
                    || s == "°c"@)
                ||| canonical == "fahrenheit"@ && (s == "degrees fahrenheit"@ || s == "fahrenheit"@ || s
                    == "°f"@)
                ||| canonical == "kelvin"@ && (s == "degrees kelvin"@ || s == "kelvin"@)
                ||| canonical == "percent"@ && (s == "per cent"@ || s == "percent"@)
                ||| canonical == "km"@ && (s == "kilometres"@ || s == "kilometers"@ || s == "kilometre"@ || s
                    == "kilometer"@)
                ||| canonical == "m"@ && (s == "metres"@ || s == "meters"@ || s == "metre"@ || s == "meter"@)
                ||| canonical == "kg"@ && (s == "kilograms"@ || s == "kilogrammes"@ || s == "kilogram"@)
                ||| canonical == "mi"@ && s == "miles"@
                ||| canonical == "ft"@ && s == "feet"@
                ||| canonical == "lb"@ && (s == "pounds"@ || s == "lbs"@)
                ||| canonical == "l"@ && (s == "litres"@ || s == "liters"@ || s == "litre"@ || s == "liter"@)
            },
    )
}

/// Unit normalisation rewrites each spelling only to the canonical form of
/// its own unit: every rule of the table replaces a spelling of a unit by
/// that unit's canonical form (so "miles" becomes "mi", never "km").
#[verifier::rlimit(100)]
#[verifier::spinoff_prover]
pub proof fn lemma_units_keep_their_unit()
    ensures
        forall|k: int|
            0 <= k < unit_table().len() ==> unit_spellings(#[trigger] unit_table()[k].1).contains(unit_table()[k].0),
{
    let t = unit_table();
    assert forall|k: int| 0 <= k < t.len() implies unit_spellings(#[trigger] t[k].1).contains(t[k].0) by {
        assert(0 <= k < 36);
        if k == 0 { assert(unit_spellings(t[0].1).contains(t[0].0)); }
        else if k == 1 { assert(unit_spellings(t[1].1).contains(t[1].0)); }
        else if k == 2 { assert(unit_spellings(t[2].1).contains(t[2].0)); }
        else if k == 3 { assert(unit_spellings(t[3].1).contains(t[3].0)); }
        else if k == 4 { assert(unit_spellings(t[4].1).contains(t[4].0)); }
        else if k == 5 { assert(unit_spellings(t[5].1).contains(t[5].0)); }
        else if k == 6 { assert(unit_spellings(t[6].1).contains(t[6].0)); }
        else if k == 7 { assert(unit_spellings(t[7].1).contains(t[7].0)); }
        else if k == 8 { assert(unit_spellings(t[8].1).contains(t[8].0)); }
        else if k == 9 { assert(unit_spellings(t[9].1).contains(t[9].0)); }
        else if k == 10 { assert(unit_spellings(t[10].1).contains(t[10].0)); }
        else if k == 11 { assert(unit_spellings(t[11].1).contains(t[11].0)); }
        else if k == 12 { assert(unit_spellings(t[12].1).contains(t[12].0)); }
        else if k == 13 { assert(unit_spellings(t[13].1).contains(t[13].0)); }
        else if k == 14 { assert(unit_spellings(t[14].1).contains(t[14].0)); }
        else if k == 15 { assert(unit_spellings(t[15].1).contains(t[15].0)); }
        else if k == 16 { assert(unit_spellings(t[16].1).contains(t[16].0)); }
        else if k == 17 { assert(unit_spellings(t[17].1).contains(t[17].0)); }
        else if k == 18 { assert(unit_spellings(t[18].1).contains(t[18].0)); }
        else if k == 19 { assert(unit_spellings(t[19].1).contains(t[19].0)); }
        else if k == 20 { assert(unit_spellings(t[20].1).contains(t[20].0)); }
        else if k == 21 { assert(unit_spellings(t[21].1).contains(t[21].0)); }
        else if k == 22 { assert(unit_spellings(t[22].1).contains(t[22].0)); }
        else if k == 23 { assert(unit_spellings(t[23].1).contains(t[23].0)); }
        else if k == 24 { assert(unit_spellings(t[24].1).contains(t[24].0)); }
        else if k == 25 { assert(unit_spellings(t[25].1).contains(t[25].0)); }
        else if k == 26 { assert(unit_spellings(t[26].1).contains(t[26].0)); }
        else if k == 27 { assert(unit_spellings(t[27].1).contains(t[27].0)); }
        else if k == 28 { assert(unit_spellings(t[28].1).contains(t[28].0)); }
        else if k == 29 { assert(unit_spellings(t[29].1).contains(t[29].0)); }
        else if k == 30 { assert(unit_spellings(t[30].1).contains(t[30].0)); }
        else if k == 31 { assert(unit_spellings(t[31].1).contains(t[31].0)); }
        else if k == 32 { assert(unit_spellings(t[32].1).contains(t[32].0)); }
        else if k == 33 { assert(unit_spellings(t[33].1).contains(t[33].0)); }
        else if k == 34 { assert(unit_spellings(t[34].1).contains(t[34].0)); }
        else { assert(unit_spellings(t[35].1).contains(t[35].0)); }
    }
}

/// Every documented spelling of a unit is rewritten by some rule of the
/// table to that unit's canonical form.
#[verifier::rlimit(100)]
#[verifier::spinoff_prover]
pub proof fn lemma_every_spelling_has_a_rule()
    ensures
        forall|c: Seq<char>, w: Seq<char>|
            #[trigger] unit_spellings(c).contains(w) ==> exists|k: int|
                0 <= k < unit_table().len() && #[trigger] unit_table()[k] == (w, c),
{
    let t = unit_table();
    assert forall|c: Seq<char>, w: Seq<char>| #[trigger] unit_spellings(c).contains(w) implies exists|k: int|
        0 <= k < t.len() && #[trigger] t[k] == (w, c) by {
        if c == "m/s"@ && w == "meters per second"@ {
            assert(t[0] == (w, c));
        } else if c == "m/s"@ && w == "metres per second"@ {
            assert(t[1] == (w, c));
        } else if c == "sq_km"@ && w == "square kilometres"@ {
            assert(t[2] == (w, c));
        } else if c == "sq_km"@ && w == "square kilometers"@ {
            assert(t[3] == (w, c));
        } else if c == "sq_km"@ && w == "sq km"@ {
            assert(t[4] == (w, c));
        } else if c == "sq_km"@ && w == "km2"@ {
            assert(t[5] == (w, c));
        } else if c == "celsius"@ && w == "degrees celsius"@ {
            assert(t[6] == (w, c));
        } else if c == "celsius"@ && w == "degrees c"@ {
            assert(t[7] == (w, c));
        } else if c == "fahrenheit"@ && w == "degrees fahrenheit"@ {
            assert(t[8] == (w, c));
        } else if c == "kelvin"@ && w == "degrees kelvin"@ {
            assert(t[9] == (w, c));
        } else if c == "percent"@ && w == "per cent"@ {
            assert(t[10] == (w, c));
        } else if c == "km"@ && w == "kilometres"@ {
            assert(t[11] == (w, c));
        } else if c == "km"@ && w == "kilometers"@ {
            assert(t[12] == (w, c));
        } else if c == "km"@ && w == "kilometre"@ {
            assert(t[13] == (w, c));
        } else if c == "km"@ && w == "kilometer"@ {
            assert(t[14] == (w, c));
        } else if c == "m"@ && w == "metres"@ {
            assert(t[15] == (w, c));
        } else if c == "m"@ && w == "meters"@ {
            assert(t[16] == (w, c));
        } else if c == "m"@ && w == "metre"@ {
            assert(t[17] == (w, c));
        } else if c == "m"@ && w == "meter"@ {
            assert(t[18] == (w, c));
        } else if c == "celsius"@ && w == "celsius"@ {
            assert(t[19] == (w, c));
        } else if c == "celsius"@ && w == "°c"@ {
            assert(t[20] == (w, c));
        } else if c == "fahrenheit"@ && w == "fahrenheit"@ {
            assert(t[21] == (w, c));
        } else if c == "fahrenheit"@ && w == "°f"@ {
            assert(t[22] == (w, c));
        } else if c == "kelvin"@ && w == "kelvin"@ {
            assert(t[23] == (w, c));
        } else if c == "kg"@ && w == "kilograms"@ {
            assert(t[24] == (w, c));
        } else if c == "kg"@ && w == "kilogrammes"@ {
            assert(t[25] == (w, c));
        } else if c == "kg"@ && w == "kilogram"@ {
            assert(t[26] == (w, c));
        } else if c == "mi"@ && w == "miles"@ {
            assert(t[27] == (w, c));
        } else if c == "ft"@ && w == "feet"@ {
            assert(t[28] == (w, c));
        } else if c == "lb"@ && w == "pounds"@ {
            assert(t[29] == (w, c));
        } else if c == "lb"@ && w == "lbs"@ {
            assert(t[30] == (w, c));
        } else if c == "l"@ && w == "litres"@ {
            assert(t[31] == (w, c));
        } else if c == "l"@ && w == "liters"@ {
            assert(t[32] == (w, c));
        } else if c == "l"@ && w == "litre"@ {
            assert(t[33] == (w, c));
        } else if c == "l"@ && w == "liter"@ {
            assert(t[34] == (w, c));
        } else if c == "percent"@ && w == "percent"@ {
            assert(t[35] == (w, c));
        }
    }
}

/// `r` with every whole-word occurrence of `needle` found from index `from`
/// on replaced by `canon`, scanning left to right; an occurrence is whole
/// when no ASCII letter touches it on either side. After a replacement the
/// scan resumes behind the replacement, otherwise at the next character.
pub open spec fn replace_words(r: Seq<char>, needle: Seq<char>, canon: Seq<char>, from: int) -> Seq<char>
    decreases r.len() - from,
{
    if from < 0 || from > r.len() || needle.len() == 0 {
        r
    } else {
        match find_from(r, needle, from) {
            None => r,
            Some(p) => {
                proof {
                    lemma_find_from(r, needle, from);
                }
                let e = p + needle.len();
                let before_ok = p == 0 || !is_ascii_alpha(r[p - 1]);
                let after_ok = e >= r.len() || !is_ascii_alpha(r[e]);
                if before_ok && after_ok {
                    replace_words(r.take(p) + canon + r.skip(e), needle, canon, p + canon.len())
                } else {
                    replace_words(r, needle, canon, p + 1)
                }
            },
        }
    }
}

/// The replacements of `table` applied in order to `r`.
pub open spec fn apply_units(r: Seq<char>, table: Seq<(Seq<char>, Seq<char>)>) -> Seq<char>
    decreases table.len(),
{
    if table.len() == 0 {
        r
    } else {
        apply_units(replace_words(r, table[0].0, table[0].1, 0), table.skip(1))
    }
}

/// The lowercase text with unit spellings normalised.
pub open spec fn normalized(text: Seq<char>) -> Seq<char> {
    apply_units(unicode_lowercase(text), unit_table())
}

fn replace_words_exec(r: Vec<char>, needle: &[char], canon: &[char]) -> (out: Vec<char>)
    requires
        needle@.len() > 0,
    ensures
        out@ == replace_words(r@, needle@, canon@, 0),
{
    let mut cur = r;
    let mut from: usize = 0;
    loop
        invariant
            needle@.len() > 0,
            from <= cur@.len(),
            replace_words(r@, needle@, canon@, 0) == replace_words(cur@, needle@, canon@, from as int),
        decreases cur@.len() - from,
    {
        proof {
            lemma_find_from(cur@, needle@, from as int);
        }
        let cl = cur.len();
        match find_from_exec(cur.as_slice(), needle, from) {
            None => {
                return cur;
            },
            Some(p) => {
                assert(p + needle@.len() <= cur@.len()) by {
                    let i = find_from(cur@, needle@, from as int)->0;
                    assert(p == i);
                }
                let e = p + needle.len();
                let before_ok = p == 0 || !(('a' <= cur[p - 1] && cur[p - 1] <= 'z') || ('A' <= cur[p - 1] && cur[p
                    - 1] <= 'Z'));
                let after_ok = e >= cur.len() || !(('a' <= cur[e] && cur[e] <= 'z') || ('A' <= cur[e] && cur[e]
                    <= 'Z'));
                if before_ok && after_ok {
                    let mut next: Vec<char> = Vec::new();
                    let mut k: usize = 0;
                    while k < p
                        invariant
                            p <= cur@.len(),
                            k <= p,
                            next@ == cur@.take(k as int),
                        decreases p - k,
                    {
                        next.push(cur[k]);
                        k = k + 1;
                        assert(next@ =~= cur@.take(k as int));
                    }
                    let mut j: usize = 0;
                    while j < canon.len()
                        invariant
                            p <= cur@.len(),
                            j <= canon@.len(),
                            next@ == cur@.take(p as int) + canon@.take(j as int),
                        decreases canon@.len() - j,
                    {
                        next.push(canon[j]);
                        j = j + 1;
                        assert(next@ =~= cur@.take(p as int) + canon@.take(j as int));
                    }
                    assert(canon@.take(j as int) =~= canon@);
                    let mut k2: usize = e;
                    while k2 < cur.len()
                        invariant
                            e <= k2 <= cur@.len(),
                            next@ == cur@.take(p as int) + canon@ + cur@.subrange(e as int, k2 as int),
                        decreases cur@.len() - k2,
                    {
                        next.push(cur[k2]);
                        k2 = k2 + 1;
                        assert(next@ =~= cur@.take(p as int) + canon@ + cur@.subrange(e as int, k2 as int));
                    }
                    assert(cur@.subrange(e as int, k2 as int) =~= cur@.skip(e as int));
                    let nl = next.len();
                    assert(nl == p + canon@.len() + (cur@.len() - e));
                    from = p + canon.len();
                    cur = next;
                } else {
                    from = p + 1;
                }
            },
        }
    }
}

fn unit_pairs() -> (t: Vec<(Vec<char>, Vec<char>)>)
    ensures
        t@.len() == unit_table().len(),
        forall|k: int| 0 <= k < t@.len() ==> (#[trigger] t@[k]).0@ == unit_table()[k].0 && t@[k].1@ == unit_table()[k].1,
{
    let a: [(&str, &str); 36] = [
        ("meters per second", "m/s"),
        ("metres per second", "m/s"),
        ("square kilometres", "sq_km"),
        ("square kilometers", "sq_km"),
        ("sq km", "sq_km"),
        ("km2", "sq_km"),
        ("degrees celsius", "celsius"),
        ("degrees c", "celsius"),
        ("degrees fahrenheit", "fahrenheit"),
        ("degrees kelvin", "kelvin"),
        ("per cent", "percent"),
        ("kilometres", "km"),
        ("kilometers", "km"),
        ("kilometre", "km"),
        ("kilometer", "km"),
        ("metres", "m"),
        ("meters", "m"),
        ("metre", "m"),
        ("meter", "m"),
        ("celsius", "celsius"),
        ("°c", "celsius"),
        ("fahrenheit", "fahrenheit"),
        ("°f", "fahrenheit"),
        ("kelvin", "kelvin"),
        ("kilograms", "kg"),
        ("kilogrammes", "kg"),
        ("kilogram", "kg"),
        ("miles", "mi"),
        ("feet", "ft"),
        ("pounds", "lb"),
        ("lbs", "lb"),
        ("litres", "l"),
        ("liters", "l"),
        ("litre", "l"),
        ("liter", "l"),
        ("percent", "percent")
    ];
    let ghost lits = a@;
    let mut t: Vec<(Vec<char>, Vec<char>)> = Vec::new();
    let mut i: usize = 0;
    while i < 36
        invariant
            i <= 36,
            a@ == seq![
        ("meters per second", "m/s"),
        ("metres per second", "m/s"),
        ("square kilometres", "sq_km"),
        ("square kilometers", "sq_km"),
        ("sq km", "sq_km"),
        ("km2", "sq_km"),
        ("degrees celsius", "celsius"),
        ("degrees c", "celsius"),
        ("degrees fahrenheit", "fahrenheit"),
        ("degrees kelvin", "kelvin"),
        ("per cent", "percent"),
        ("kilometres", "km"),
        ("kilometers", "km"),
        ("kilometre", "km"),
        ("kilometer", "km"),
        ("metres", "m"),
        ("meters", "m"),
        ("metre", "m"),
        ("meter", "m"),
        ("celsius", "celsius"),
        ("°c", "celsius"),
        ("fahrenheit", "fahrenheit"),
        ("°f", "fahrenheit"),
        ("kelvin", "kelvin"),
        ("kilograms", "kg"),
        ("kilogrammes", "kg"),
        ("kilogram", "kg"),
        ("miles", "mi"),
        ("feet", "ft"),
        ("pounds", "lb"),
        ("lbs", "lb"),
        ("litres", "l"),
        ("liters", "l"),
        ("litre", "l"),
        ("liter", "l"),
        ("percent", "percent")
            ],
            t@.len() == i,
            forall|k: int| 0 <= k < i ==> (#[trigger] t@[k]).0@ == unit_table()[k].0 && t@[k].1@ == unit_table()[k].1,
        decreases 36 - i,
    {
        let (v, c) = a[i];
        t.push((chars_of(v), chars_of(c)));
        i = i + 1;
    }
    t
}

fn normalized_chars(text: &str) -> (r: Vec<char>)
    ensures
        r@ == normalized(text@),
{
    let c = chars_of(text);
    let mut cur = lowercase_chars(c.as_slice());
    let table = unit_pairs();
    let ghost all = unit_table();
    let mut i: usize = 0;
    assert(all.skip(0) =~= all);
    while i < table.len()
        invariant
            all == unit_table(),
            table@.len() == all.len(),
            forall|k: int| 0 <= k < table@.len() ==> (#[trigger] table@[k]).0@ == all[k].0 && table@[k].1@ == all[k].1,
            i <= table@.len(),
            normalized(text@) == apply_units(cur@, all.skip(i as int)),
        decreases table@.len() - i,
    {
        let ghost rest = all.skip(i as int);
        assert(rest[0] == all[i as int]);
        assert(rest.skip(1) =~= all.skip(i + 1));
        assert(table@[i as int].0@.len() > 0) by {
                        reveal_strlit("meters per second");
            reveal_strlit("metres per second");
            reveal_strlit("square kilometres");
            reveal_strlit("square kilometers");
            reveal_strlit("sq km");
            reveal_strlit("km2");
            reveal_strlit("degrees celsius");
            reveal_strlit("degrees c");
            reveal_strlit("degrees fahrenheit");
            reveal_strlit("degrees kelvin");
            reveal_strlit("per cent");
            reveal_strlit("kilometres");
            reveal_strlit("kilometers");
            reveal_strlit("kilometre");
            reveal_strlit("kilometer");
            reveal_strlit("metres");
            reveal_strlit("meters");
            reveal_strlit("metre");
            reveal_strlit("meter");
            reveal_strlit("celsius");
            reveal_strlit("°c");
            reveal_strlit("fahrenheit");
            reveal_strlit("°f");
            reveal_strlit("kelvin");
            reveal_strlit("kilograms");
            reveal_strlit("kilogrammes");
            reveal_strlit("kilogram");
            reveal_strlit("miles");
            reveal_strlit("feet");
            reveal_strlit("pounds");
            reveal_strlit("lbs");
            reveal_strlit("litres");
            reveal_strlit("liters");
            reveal_strlit("litre");
            reveal_strlit("liter");
            reveal_strlit("percent");
        }
        cur = replace_words_exec(cur, table[i].0.as_slice(), table[i].1.as_slice());
        i = i + 1;
    }
    assert(all.skip(i as int) =~= Seq::<(Seq<char>, Seq<char>)>::empty());
    cur
}

/// The lowercase text with unit spellings normalised to canonical units
/// (km, m, m/s, sq_km, celsius, kg, ...; see `unit_table`). Only whole words
/// are replaced.
pub fn normalize_units(text: &str) -> (r: String)
    ensures
        r@ == normalized(text@),
{
    let v = normalized_chars(text);
    string_of(v.as_slice())
}

/// A separator between keywords: neither alphanumeric nor `_`.
pub open spec fn keyword_separator(c: char) -> bool {
    !unicode_is_alphanumeric(c) && c != '_'
}

/// The pieces of `s` between keyword separators, after the partial piece
/// `cur` (empty pieces included).
pub open spec fn split_after(s: Seq<char>, cur: Seq<char>) -> Seq<Seq<char>>
    decreases s.len(),
{
    if s.len() == 0 {
        seq![cur]
    } else if keyword_separator(s[0]) {
        seq![cur] + split_after(s.skip(1), Seq::empty())
    } else {
        split_after(s.skip(1), cur.push(s[0]))
    }
}

/// Words that carry no content.
pub open spec fn stop_word(w: Seq<char>) -> bool {
    ||| w == "a"@
    ||| w == "an"@
    ||| w == "the"@
    ||| w == "is"@
    ||| w == "are"@
    ||| w == "was"@
    ||| w == "were"@
    ||| w == "be"@
    ||| w == "been"@
    ||| w == "being"@
    ||| w == "have"@
    ||| w == "has"@
    ||| w == "had"@
    ||| w == "do"@
    ||| w == "does"@
    ||| w == "did"@
    ||| w == "will"@
    ||| w == "would"@
    ||| w == "could"@
    ||| w == "should"@
    ||| w == "may"@
    ||| w == "might"@
    ||| w == "shall"@
    ||| w == "can"@
    ||| w == "need"@
    ||| w == "dare"@
    ||| w == "ought"@
    ||| w == "of"@
    ||| w == "in"@
    ||| w == "to"@
    ||| w == "for"@
    ||| w == "with"@
    ||| w == "on"@
    ||| w == "at"@
    ||| w == "from"@
    ||| w == "by"@
    ||| w == "about"@
    ||| w == "as"@
    ||| w == "into"@
    ||| w == "through"@
    ||| w == "during"@
    ||| w == "before"@
    ||| w == "after"@
    ||| w == "above"@
    ||| w == "below"@
    ||| w == "between"@
    ||| w == "under"@
    ||| w == "over"@
    ||| w == "up"@
    ||| w == "down"@
    ||| w == "out"@
    ||| w == "off"@
    ||| w == "then"@
    ||| w == "than"@
    ||| w == "and"@
    ||| w == "but"@
    ||| w == "or"@
    ||| w == "nor"@
    ||| w == "not"@
    ||| w == "so"@
    ||| w == "yet"@
    ||| w == "both"@
    ||| w == "either"@
    ||| w == "neither"@
    ||| w == "each"@
    ||| w == "every"@
    ||| w == "all"@
    ||| w == "any"@
    ||| w == "few"@
    ||| w == "more"@
    ||| w == "most"@
    ||| w == "other"@
    ||| w == "some"@
    ||| w == "such"@
    ||| w == "no"@
    ||| w == "only"@
    ||| w == "same"@
    ||| w == "that"@
    ||| w == "this"@
    ||| w == "it"@
    ||| w == "its"@
    ||| w == "also"@
    ||| w == "very"@
    ||| w == "often"@
    ||| w == "just"@
    ||| w == "approximately"@
    ||| w == "roughly"@
    ||| w == "around"@
    ||| w == "nearly"@
    ||| w == "estimated"@
    ||| w == "known"@
    ||| w == "called"@
    ||| w == "named"@
    ||| w == "considered"@
    ||| w == "located"@
    ||| w == "found"@
}

/// Every character is an ASCII digit.
pub open spec fn all_digits(w: Seq<char>) -> bool {
    forall|i: int| 0 <= i < w.len() ==> '0' <= #[trigger] w[i] <= '9'
}

/// A lowercased piece that counts as a keyword: at least 2 bytes, not a
/// stop word, not a bare number.
pub open spec fn is_keyword(w: Seq<char>) -> bool {
    utf8_len(w) >= 2 && !stop_word(w) && !all_digits(w)
}

/// The keywords among the pieces `ps`, each lowercased.
pub open spec fn keywords_of(ps: Seq<Seq<char>>) -> Seq<Seq<char>>
    decreases ps.len(),
{
    if ps.len() == 0 {
        Seq::empty()
    } else {
        let w = unicode_lowercase(ps.last());
        keywords_of(ps.drop_last()) + (if is_keyword(w) {
            seq![w]
        } else {
            Seq::empty()
        })
    }
}

/// The content words of a normalised text.
pub open spec fn text_keywords(normal: Seq<char>) -> Seq<Seq<char>> {
    keywords_of(split_after(normal, Seq::empty()))
}

fn is_word(w: &[char], lit: &str) -> (b: bool)
    ensures
        b == (w@ == lit@),
{
    let l = chars_of(lit);
    chars_eq(w, l.as_slice())
}

fn stop_word_exec(w: &[char]) -> (b: bool)
    ensures
        b == stop_word(w@),
{
    is_word(w, "a") || is_word(w, "an") || is_word(w, "the") || is_word(w, "is") || is_word(w, "are") || is_word(w, "was") || is_word(w, "were") || is_word(w, "be") || is_word(w, "been") || is_word(w, "being") || is_word(w, "have") || is_word(w, "has") || is_word(w, "had") || is_word(w, "do") || is_word(w, "does") || is_word(w, "did") || is_word(w, "will") || is_word(w, "would") || is_word(w, "could") || is_word(w, "should") || is_word(w, "may") || is_word(w, "might") || is_word(w, "shall") || is_word(w, "can") || is_word(w, "need") || is_word(w, "dare") || is_word(w, "ought") || is_word(w, "of") || is_word(w, "in") || is_word(w, "to") || is_word(w, "for") || is_word(w, "with") || is_word(w, "on") || is_word(w, "at") || is_word(w, "from") || is_word(w, "by") || is_word(w, "about") || is_word(w, "as") || is_word(w, "into") || is_word(w, "through") || is_word(w, "during") || is_word(w, "before") || is_word(w, "after") || is_word(w, "above") || is_word(w, "below") || is_word(w, "between") || is_word(w, "under") || is_word(w, "over") || is_word(w, "up") || is_word(w, "down") || is_word(w, "out") || is_word(w, "off") || is_word(w, "then") || is_word(w, "than") || is_word(w, "and") || is_word(w, "but") || is_word(w, "or") || is_word(w, "nor") || is_word(w, "not") || is_word(w, "so") || is_word(w, "yet") || is_word(w, "both") || is_word(w, "either") || is_word(w, "neither") || is_word(w, "each") || is_word(w, "every") || is_word(w, "all") || is_word(w, "any") || is_word(w, "few") || is_word(w, "more") || is_word(w, "most") || is_word(w, "other") || is_word(w, "some") || is_word(w, "such") || is_word(w, "no") || is_word(w, "only") || is_word(w, "same") || is_word(w, "that") || is_word(w, "this") || is_word(w, "it") || is_word(w, "its") || is_word(w, "also") || is_word(w, "very") || is_word(w, "often") || is_word(w, "just") || is_word(w, "approximately") || is_word(w, "roughly") || is_word(w, "around") || is_word(w, "nearly") || is_word(w, "estimated") || is_word(w, "known") || is_word(w, "called") || is_word(w, "named") || is_word(w, "considered") || is_word(w, "located") || is_word(w, "found")
}

fn is_keyword_exec(w: &[char]) -> (b: bool)
    ensures
        b == is_keyword(w@),
{
    if utf8_len_wide(w) < 2 || stop_word_exec(w) {
        return false;
    }
    let mut i: usize = 0;
    while i < w.len()
        invariant
            i <= w@.len(),
            utf8_len(w@) >= 2,
            !stop_word(w@),
            forall|j: int| 0 <= j < i ==> '0' <= #[trigger] w@[j] <= '9',
        decreases w@.len() - i,
    {
        if !('0' <= w[i] && w[i] <= '9') {
            assert(!all_digits(w@));
            return true;
        }
        i = i + 1;
    }
    false
}

fn split_keyword_pieces(s: &[char]) -> (r: Vec<Vec<char>>)
    ensures
        r@.len() == split_after(s@, Seq::empty()).len(),
        forall|k: int| 0 <= k < r@.len() ==> #[trigger] r@[k]@ == split_after(s@, Seq::empty())[k],
{
    let mut out: Vec<Vec<char>> = Vec::new();
    let ghost mut acc: Seq<Seq<char>> = Seq::empty();
    let mut cur: Vec<char> = Vec::new();
    let mut i: usize = 0;
    assert(s@.skip(0) =~= s@);
    assert(acc + split_after(s@, cur@) =~= split_after(s@, Seq::empty()));
    while i < s.len()
        invariant
            i <= s@.len(),
            out@.len() == acc.len(),
            forall|k: int| 0 <= k < out@.len() ==> #[trigger] out@[k]@ == acc[k],
            acc + split_after(s@.skip(i as int), cur@) == split_after(s@, Seq::empty()),
        decreases s@.len() - i,
    {
        let ghost rest = s@.skip(i as int);
        assert(rest.skip(1) =~= s@.skip(i + 1));
        if !is_alphanumeric(s[i]) && s[i] != '_' {
            proof {
                assert(acc.push(cur@) + split_after(s@.skip(i + 1), Seq::empty()) =~= acc + (seq![cur@]
                    + split_after(rest.skip(1), Seq::empty())));
                acc = acc.push(cur@);
            }
            out.push(cur);
            cur = Vec::new();
        } else {
            cur.push(s[i]);
        }
        i = i + 1;
    }
    assert(s@.skip(i as int) =~= Seq::<char>::empty());
    proof {
        acc = acc.push(cur@);
    }
    out.push(cur);
    out
}

/// The content words of a fact, lowercased, in order: the normalised text
/// (see `normalize_units`) is split at every character that is neither
/// alphanumeric nor `_`; stop words, pieces under 2 bytes and bare numbers
/// are dropped.
pub fn extract_keywords(text: &str) -> (r: Vec<String>)
    ensures
        r@.len() == text_keywords(normalized(text@)).len(),
        forall|k: int| 0 <= k < r@.len() ==> #[trigger] r@[k]@ == text_keywords(normalized(text@))[k],
{
    let normal = normalize_units(text);
    let nc = chars_of(normal.as_str());
    let ps = split_keyword_pieces(nc.as_slice());
    let ghost all = split_after(nc@, Seq::empty());
    let mut r: Vec<String> = Vec::new();
    let ghost mut acc: Seq<Seq<char>> = Seq::empty();
    let mut i: usize = 0;
    while i < ps.len()
        invariant
            ps@.len() == all.len(),
            forall|k: int| 0 <= k < ps@.len() ==> #[trigger] ps@[k]@ == all[k],
            i <= ps@.len(),
            acc == keywords_of(all.take(i as int)),
            r@.len() == acc.len(),
            forall|k: int| 0 <= k < r@.len() ==> #[trigger] r@[k]@ == acc[k],
        decreases ps@.len() - i,
    {
        assert(all.take(i + 1).drop_last() =~= all.take(i as int));
        let w = lowercase_chars(ps[i].as_slice());
        if is_keyword_exec(w.as_slice()) {
            r.push(string_of(w.as_slice()));
            proof {
                acc = acc.push(w@);
            }
        } else {
            assert(acc + Seq::<Seq<char>>::empty() =~= acc);
        }
        proof {
            assert(keywords_of(all.take(i + 1)) =~= acc);
        }
        i = i + 1;
    }
    assert(all.take(i as int) =~= all);
    r
}

} // verus!

verus! {

/// Every extracted keyword is a content word: lowercase form of a piece of
/// the text, at least 2 bytes, neither a stop word nor a bare number.
pub proof fn lemma_keywords_are_content_words(ps: Seq<Seq<char>>)
    ensures
        forall|k: int|
            0 <= k < keywords_of(ps).len() ==> {
                &&& is_keyword(#[trigger] keywords_of(ps)[k])
                &&& exists|j: int| 0 <= j < ps.len() && keywords_of(ps)[k] == unicode_lowercase(ps[j])
            },
    decreases ps.len(),
{
    if ps.len() > 0 {
        let t = ps.drop_last();
        lemma_keywords_are_content_words(t);
        let w = unicode_lowercase(ps.last());
        let tail: Seq<Seq<char>> = if is_keyword(w) {
            seq![w]
        } else {
            Seq::empty()
        };
        assert(keywords_of(ps) == keywords_of(t) + tail);
        assert forall|k: int| 0 <= k < keywords_of(ps).len() implies {
            &&& is_keyword(#[trigger] keywords_of(ps)[k])
            &&& exists|j: int| 0 <= j < ps.len() && keywords_of(ps)[k] == unicode_lowercase(ps[j])
        } by {
            if k < keywords_of(t).len() {
                assert(keywords_of(ps)[k] == keywords_of(t)[k]);
                let j = choose|j: int| 0 <= j < t.len() && keywords_of(t)[k] == unicode_lowercase(t[j]);
                assert(t[j] == ps[j]);
            } else {
                assert(keywords_of(ps)[k] == w);
                assert(ps.last() == ps[ps.len() - 1]);
            }
        }
    }
}

} // verus!

verus! {

/// The order of magnitude a number word gives to the number before it.
#[derive(Debug, Clone, Copy, PartialEq, Eq, Structural)]
pub enum Magnitude {
    /// No number word.
    One,
    /// "thousand".
    Thousand,
    /// "million".
    Million,
    /// "billion".
    Billion,
    /// "trillion".
    Trillion,
}

/// The magnitude named at the start of `rest` (whitespace skipped): the
/// words are tried in the order billion, million, trillion, thousand.
pub open spec fn magnitude_of(rest: Seq<char>) -> Magnitude {
    let r = crate::text::trim_start_by(rest, false);
    if crate::text::starts_with(r, "billion"@) {
        Magnitude::Billion
    } else if crate::text::starts_with(r, "million"@) {
        Magnitude::Million
    } else if crate::text::starts_with(r, "trillion"@) {
        Magnitude::Trillion
    } else if crate::text::starts_with(r, "thousand"@) {
        Magnitude::Thousand
    } else {
        Magnitude::One
    }
}

/// A character that continues a written number: a digit, '.' or ','.
pub open spec fn numeric_char(c: char) -> bool {
    ('0' <= c && c <= '9') || c == '.' || c == ','
}

/// Where the run of number characters starting at `i` ends.
pub open spec fn numeric_run_end(c: Seq<char>, i: int) -> int
    decreases c.len() - i,
{
    if i < 0 || i >= c.len() || !numeric_char(c[i]) {
        i
    } else {
        numeric_run_end(c, i + 1)
    }
}

/// `s` without its commas.
pub open spec fn without_commas(s: Seq<char>) -> Seq<char>
    decreases s.len(),
{
    if s.len() == 0 {
        s
    } else {
        without_commas(s.drop_last()) + if s.last() == ',' {
            Seq::empty()
        } else {
            seq![s.last()]
        }
    }
}

/// A run of number characters ends inside the text, and every character
/// before its end continues the number.
pub proof fn lemma_numeric_run_end(c: Seq<char>, i: int)
    requires
        0 <= i <= c.len(),
    ensures
        i <= numeric_run_end(c, i) <= c.len(),
        forall|k: int| i <= k < numeric_run_end(c, i) ==> numeric_char(#[trigger] c[k]),
        numeric_run_end(c, i) < c.len() ==> !numeric_char(c[numeric_run_end(c, i)]),
    decreases c.len() - i,
{
    if i < c.len() && numeric_char(c[i]) {
        lemma_numeric_run_end(c, i + 1);
    }
}

/// The written numbers of the lowercase text `c` from index `i` on: each
/// maximal run of digits, '.' and ',' that starts with a digit, without its
/// commas, with the magnitude named after it.
pub open spec fn number_tokens_from(c: Seq<char>, i: int) -> Seq<(Seq<char>, Magnitude)>
    decreases c.len() - i,
{
    if i < 0 || i >= c.len() {
        Seq::empty()
    } else if '0' <= c[i] && c[i] <= '9' {
        let j = numeric_run_end(c, i);
        proof {
            lemma_numeric_run_end(c, i);
        }
        seq![(without_commas(c.subrange(i, j)), magnitude_of(c.skip(j)))] + number_tokens_from(c, j)
    } else {
        number_tokens_from(c, i + 1)
    }
}

/// The written numbers of a text, in lowercase (see `number_tokens_from`).
pub open spec fn number_tokens_of(text: Seq<char>) -> Seq<(Seq<char>, Magnitude)> {
    number_tokens_from(unicode_lowercase(text), 0)
}

fn magnitude_exec(c: &[char], j: usize) -> (m: Magnitude)
    requires
        j <= c@.len(),
    ensures
        m == magnitude_of(c@.skip(j as int)),
{
    let mut rest: Vec<char> = Vec::new();
    let mut k: usize = j;
    while k < c.len()
        invariant
            j <= k <= c@.len(),
            rest@ == c@.subrange(j as int, k as int),
        decreases c@.len() - k,
    {
        rest.push(c[k]);
        k = k + 1;
        assert(rest@ =~= c@.subrange(j as int, k as int));
    }
    assert(rest@ =~= c@.skip(j as int));
    let t = crate::text::trim_start_chars(rest.as_slice());
    if crate::text::starts_with_exec(t.as_slice(), chars_of("billion").as_slice()) {
        Magnitude::Billion
    } else if crate::text::starts_with_exec(t.as_slice(), chars_of("million").as_slice()) {
        Magnitude::Million
    } else if crate::text::starts_with_exec(t.as_slice(), chars_of("trillion").as_slice()) {
        Magnitude::Trillion
    } else if crate::text::starts_with_exec(t.as_slice(), chars_of("thousand").as_slice()) {
        Magnitude::Thousand
    } else {
        Magnitude::One
    }
}

} // verus!

verus! {

fn without_commas_exec(c: &[char], i: usize, j: usize) -> (r: Vec<char>)
    requires
        i <= j <= c@.len(),
    ensures
        r@ == without_commas(c@.subrange(i as int, j as int)),
{
    let mut r: Vec<char> = Vec::new();
    let mut k: usize = i;
    assert(c@.subrange(i as int, i as int) =~= Seq::<char>::empty());
    while k < j
        invariant
            i <= k <= j <= c@.len(),
            r@ == without_commas(c@.subrange(i as int, k as int)),
        decreases j - k,
    {
        assert(c@.subrange(i as int, k + 1).drop_last() =~= c@.subrange(i as int, k as int));
        if c[k] != ',' {
            r.push(c[k]);
        }
        k = k + 1;
        assert(r@ =~= without_commas(c@.subrange(i as int, k as int)));
    }
    r
}

/// The written numbers of a text (see `number_tokens_of`): each as its
/// characters without commas, with the magnitude named after it. Parsing
/// them as numbers is left to the caller.
pub fn number_tokens(text: &str) -> (r: Vec<(String, Magnitude)>)
    ensures
        r@.map_values(|t: (String, Magnitude)| (t.0@, t.1)) == number_tokens_of(text@),
{
    let tc = chars_of(text);
    let c = lowercase_chars(tc.as_slice());
    let mut out: Vec<(String, Magnitude)> = Vec::new();
    let mut i: usize = 0;
    assert(out@.map_values(|t: (String, Magnitude)| (t.0@, t.1)) =~= Seq::<(Seq<char>, Magnitude)>::empty());
    while i < c.len()
        invariant
            c@ == unicode_lowercase(text@),
            i <= c@.len(),
            number_tokens_of(text@) == out@.map_values(|t: (String, Magnitude)| (t.0@, t.1)) + number_tokens_from(
                c@,
                i as int,
            ),
        decreases c@.len() - i,
    {
        if '0' <= c[i] && c[i] <= '9' {
            proof {
                lemma_numeric_run_end(c@, i as int);
            }
            let mut j: usize = i;
            while j < c.len() && (('0' <= c[j] && c[j] <= '9') || c[j] == '.' || c[j] == ',')
                invariant
                    i <= j <= c@.len(),
                    numeric_run_end(c@, i as int) == numeric_run_end(c@, j as int),
                decreases c@.len() - j,
            {
                j = j + 1;
            }
            let digits = without_commas_exec(c.as_slice(), i, j);
            let m = magnitude_exec(c.as_slice(), j);
            let ghost before = out@.map_values(|t: (String, Magnitude)| (t.0@, t.1));
            out.push((string_of(digits.as_slice()), m));
            assert(out@.map_values(|t: (String, Magnitude)| (t.0@, t.1)) =~= before.push((digits@, m)));
            assert(before.push((digits@, m)) + number_tokens_from(c@, j as int) =~= before + (seq![(digits@, m)]
                + number_tokens_from(c@, j as int)));
            i = j;
        } else {
            i = i + 1;
        }
    }
    assert(out@.map_values(|t: (String, Magnitude)| (t.0@, t.1)) + number_tokens_from(c@, i as int)
        =~= out@.map_values(|t: (String, Magnitude)| (t.0@, t.1)));
    out
}

} // verus!
