//! Fact sentences built from knowledge-base answers: a property of a topic,
//! and the life of a person.

use vstd::prelude::*;
use crate::text::{char_width, chars_of, contains, contains_exec, lemma_utf8_len_bound, starts_with,
    starts_with_exec, str_eq, string_of, to_lowercase, unicode_lowercase, utf8_len, utf8_len_wide};

verus! {

/// Words whose presence in a property's name (in any case) marks it as
/// technical metadata rather than a fact.
pub open spec fn noise_words() -> Seq<&'static str> {
    seq![
        "height", "width", "duration", "aspect ratio", "number of pages",
        "Commons category", "Commons gallery", "image", "Wikimedia",
        "template", "taxon", "Unicode", "topic's main category",
        "category", "icon", "logo", "flag", "coat of arms", "page banner",
        "pronunciation", "IPA", "described by source", "maintained by",
        "instance of", "subclass of", "facet of", "topic's main template",
        "Stack Exchange tag", "Freebase ID", "GND ID", "VIAF ID",
        "Library of Congress", "ISNI", "BnF ID", "NKC ID",
        "subreddit", "hashtag", "GitHub", "Twitter", "Facebook",
    ]
}

/// The lowercase property name `low` holds one of the noise words, in
/// lowercase.
pub open spec fn noise_property(low: Seq<char>) -> bool {
    exists|i: int| 0 <= i < noise_words().len() && contains(low, unicode_lowercase((#[trigger] noise_words()[i])@))
}

/// The first characters of `s` whose UTF-8 encoding has exactly `n` bytes,
/// looking from `k` characters on; `None` when `n` falls inside a
/// character or beyond the end.
pub open spec fn take_bytes_from(s: Seq<char>, n: nat, k: int) -> Option<Seq<char>>
    decreases s.len() - k,
{
    if k < 0 || k > s.len() || utf8_len(s.take(k)) > n {
        None
    } else if utf8_len(s.take(k)) == n {
        Some(s.take(k))
    } else if k == s.len() {
        None
    } else {
        take_bytes_from(s, n, k + 1)
    }
}

/// The prefix of `s` of exactly `n` bytes, if `n` ends a character
/// (`str::get(..n)`).
pub open spec fn take_bytes(s: Seq<char>, n: nat) -> Option<Seq<char>> {
    take_bytes_from(s, n, 0)
}

/// How a value is written in a fact: a date-time value (holding 'T' and
/// '-', longer than 10 bytes) by its first four bytes, the year, where they
/// end a character; any other value as it is.
pub open spec fn formatted_value(val: Seq<char>) -> Seq<char> {
    if contains(val, seq!['T']) && contains(val, seq!['-']) && utf8_len(val) > 10 {
        match take_bytes(val, 4) {
            Some(p) => p,
            None => val,
        }
    } else {
        val
    }
}

/// The fact that a property `prop` of `topic` has the value `val`
/// (`val_is_number`: the value reads as a number). None for an internal
/// property (starting with 'P'), an entity or link value (starting with 'Q'
/// or "http"), a property under 3 bytes or a value under 2, a noise
/// property, a bare number under 6 bytes, or a sentence not strictly
/// between 20 and 300 bytes.
pub open spec fn property_fact_of(topic: Seq<char>, prop: Seq<char>, val: Seq<char>, val_is_number: bool) -> Option<
    Seq<char>,
> {
    if starts_with(prop, seq!['P']) || starts_with(val, seq!['Q']) || starts_with(val, "http"@) {
        None
    } else if utf8_len(prop) < 3 || utf8_len(val) < 2 {
        None
    } else if noise_property(unicode_lowercase(prop)) {
        None
    } else if val_is_number && utf8_len(val) < 6 {
        None
    } else {
        let text = "The "@ + prop + " of "@ + topic + " is "@ + formatted_value(val) + "."@;
        if 20 < utf8_len(text) && utf8_len(text) < 300 {
            Some(text)
        } else {
            None
        }
    }
}

fn take_bytes_exec(s: &[char], n: usize) -> (r: Option<Vec<char>>)
    ensures
        match take_bytes(s@, n as nat) {
            None => r is None,
            Some(p) => r matches Some(v) && v@ == p,
        },
{
    let mut k: usize = 0;
    let mut bytes: usize = 0;
    let mut prefix: Vec<char> = Vec::new();
    assert(s@.take(0) =~= Seq::<char>::empty());
    while k < s.len() && bytes < n
        invariant
            k <= s@.len(),
            bytes == utf8_len(s@.take(k as int)),
            bytes <= n,
            prefix@ == s@.take(k as int),
            take_bytes(s@, n as nat) == take_bytes_from(s@, n as nat, k as int),
        decreases s@.len() - k,
    {
        assert(s@.take(k + 1).drop_last() =~= s@.take(k as int));
        let w = char_width(s[k]);
        prefix.push(s[k]);
        k = k + 1;
        assert(prefix@ =~= s@.take(k as int));
        if w > n - bytes {
            assert(utf8_len(s@.take(k as int)) > n);
            return None;
        }
        bytes = bytes + w;
    }
    if bytes == n {
        Some(prefix)
    } else {
        None
    }
}

fn noise_property_exec(low: &[char]) -> (b: bool)
    ensures
        b == noise_property(low@),
{
    let words: Vec<&str> = vec![
        "height", "width", "duration", "aspect ratio", "number of pages",
        "Commons category", "Commons gallery", "image", "Wikimedia",
        "template", "taxon", "Unicode", "topic's main category",
        "category", "icon", "logo", "flag", "coat of arms", "page banner",
        "pronunciation", "IPA", "described by source", "maintained by",
        "instance of", "subclass of", "facet of", "topic's main template",
        "Stack Exchange tag", "Freebase ID", "GND ID", "VIAF ID",
        "Library of Congress", "ISNI", "BnF ID", "NKC ID",
        "subreddit", "hashtag", "GitHub", "Twitter", "Facebook",
    ];
    assert(words@ == noise_words());
    let mut i: usize = 0;
    while i < words.len()
        invariant
            words@ == noise_words(),
            i <= words@.len(),
            forall|j: int| 0 <= j < i ==> !contains(low@, unicode_lowercase((#[trigger] noise_words()[j])@)),
        decreases words@.len() - i,
    {
        let w = to_lowercase(words[i]);
        let wc = chars_of(w.as_str());
        if contains_exec(low, wc.as_slice()) {
            assert(contains(low@, unicode_lowercase(noise_words()[i as int]@)));
            return true;
        }
        i = i + 1;
    }
    false
}

/// The fact sentence for a property value of a topic, if it is kept (see
/// `property_fact_of`).
pub fn property_fact(topic: &str, prop: &str, val: &str, val_is_number: bool) -> (r: Option<String>)
    ensures
        match property_fact_of(topic@, prop@, val@, val_is_number) {
            None => r is None,
            Some(t) => r matches Some(s) && s@ == t,
        },
{
    let pc = chars_of(prop);
    let vc = chars_of(val);
    let p_letter: Vec<char> = vec!['P'];
    let q_letter: Vec<char> = vec!['Q'];
    assert(p_letter@ =~= seq!['P']);
    assert(q_letter@ =~= seq!['Q']);
    let http = chars_of("http");
    if starts_with_exec(pc.as_slice(), p_letter.as_slice()) || starts_with_exec(vc.as_slice(), q_letter.as_slice())
        || starts_with_exec(vc.as_slice(), http.as_slice()) {
        return None;
    }
    let plen = utf8_len_wide(pc.as_slice());
    let vlen = utf8_len_wide(vc.as_slice());
    if plen < 3 || vlen < 2 {
        return None;
    }
    let low = to_lowercase(prop);
    let lc = chars_of(low.as_str());
    if noise_property_exec(lc.as_slice()) {
        return None;
    }
    if val_is_number && vlen < 6 {
        return None;
    }
    let t_letter: Vec<char> = vec!['T'];
    let dash: Vec<char> = vec!['-'];
    assert(t_letter@ =~= seq!['T']);
    assert(dash@ =~= seq!['-']);
    let formatted: Vec<char> = if contains_exec(vc.as_slice(), t_letter.as_slice()) && contains_exec(
        vc.as_slice(),
        dash.as_slice(),
    ) && vlen > 10 {
        match take_bytes_exec(vc.as_slice(), 4) {
            Some(p) => p,
            None => vc.clone(),
        }
    } else {
        vc.clone()
    };
    assert(formatted@ == formatted_value(val@));
    let mut text = String::from_str("The ");
    text.append(prop);
    text.append(" of ");
    text.append(topic);
    text.append(" is ");
    let f = string_of(formatted.as_slice());
    text.append(f.as_str());
    text.append(".");
    let tc = chars_of(text.as_str());
    let tlen = utf8_len_wide(tc.as_slice());
    if 20 < tlen && tlen < 300 {
        Some(text)
    } else {
        None
    }
}

/// The fact sentence about a person from what is known of them: born and
/// died with an occupation, "<name> was a <occupation> who lived from
/// <birth> to <death>."; alive with one, "<name> is a <occupation> born in
/// <birth>."; without one, "<name> lived from <birth> to <death>."; none
/// without a birth, or without both death and occupation. An occupation
/// that starts with 'Q' (an entity id) counts as unknown.
pub open spec fn person_fact_of(name: Seq<char>, birth: Option<Seq<char>>, death: Option<Seq<char>>, occupation: Option<
    Seq<char>,
>) -> Option<Seq<char>> {
    let occ = match occupation {
        Some(o) => if starts_with(o, seq!['Q']) {
            None
        } else {
            Some(o)
        },
        None => None,
    };
    match (birth, death, occ) {
        (Some(b), Some(d), Some(o)) => Some(name + " was a "@ + o + " who lived from "@ + b + " to "@ + d + "."@),
        (Some(b), None, Some(o)) => Some(name + " is a "@ + o + " born in "@ + b + "."@),
        (Some(b), Some(d), None) => Some(name + " lived from "@ + b + " to "@ + d + "."@),
        _ => None,
    }
}

/// The fact sentence about a person (see `person_fact_of`).
pub fn person_fact(name: &str, birth: Option<&str>, death: Option<&str>, occupation: Option<&str>) -> (r: Option<
    String,
>)
    ensures
        match person_fact_of(
            name@,
            match birth {
                Some(b) => Some(b@),
                None => None,
            },
            match death {
                Some(d) => Some(d@),
                None => None,
            },
            match occupation {
                Some(o) => Some(o@),
                None => None,
            },
        ) {
            None => r is None,
            Some(t) => r matches Some(s) && s@ == t,
        },
{
    let q_letter: Vec<char> = vec!['Q'];
    assert(q_letter@ =~= seq!['Q']);
    let occ: Option<&str> = match occupation {
        Some(o) => {
            let oc = chars_of(o);
            if starts_with_exec(oc.as_slice(), q_letter.as_slice()) {
                None
            } else {
                Some(o)
            }
        },
        None => None,
    };
    match (birth, death, occ) {
        (Some(b), Some(d), Some(o)) => {
            let mut s = String::from_str(name);
            s.append(" was a ");
            s.append(o);
            s.append(" who lived from ");
            s.append(b);
            s.append(" to ");
            s.append(d);
            s.append(".");
            Some(s)
        },
        (Some(b), None, Some(o)) => {
            let mut s = String::from_str(name);
            s.append(" is a ");
            s.append(o);
            s.append(" born in ");
            s.append(b);
            s.append(".");
            Some(s)
        },
        (Some(b), Some(d), None) => {
            let mut s = String::from_str(name);
            s.append(" lived from ");
            s.append(b);
            s.append(" to ");
            s.append(d);
            s.append(".");
            Some(s)
        },
        _ => None,
    }
}

} // verus!
