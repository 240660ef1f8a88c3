//! Reduction of an HTML page to its visible text.

use vstd::prelude::*;
use crate::text::{chars_of, find, lemma_find_from, lemma_utf8_len_bound, find_from_exec, lowercase_chars, occurs_at, occurs_at_exec, string_of,
    unicode_lowercase, utf8_len, utf8_len_wide};

verus! {

/// `i + step`, but no further than `n`.
pub open spec fn advance(i: int, step: int, n: int) -> int {
    if i + step > n {
        n
    } else {
        i + step
    }
}

/// The (at most) ten characters of `c` from index `i` on.
pub open spec fn window(c: Seq<char>, i: int) -> Seq<char> {
    c.subrange(i, if i + 10 <= c.len() { i + 10 } else { c.len() as int })
}

/// Script and style flags after a `<` at index `i` of the lowercase text `low`.
pub open spec fn tag_flags(low: Seq<char>, i: int, in_script: bool, in_style: bool) -> (bool, bool) {
    if occurs_at(low, "<script"@, i) {
        (true, in_style)
    } else if occurs_at(low, "<style"@, i) {
        (in_script, true)
    } else if occurs_at(low, "</script"@, i) {
        (false, in_style)
    } else if occurs_at(low, "</style"@, i) {
        (in_script, false)
    } else {
        (in_script, in_style)
    }
}

/// Visible text of `c` from index `i` on, in the given scanner state; `low`
/// is the lowercase form of `c`, where `<script` and `<style` tags are looked
/// for. Tags and the contents of scripts and styles are dropped; `&amp;`,
/// `&lt;`, `&gt;`, `&quot;` are decoded; a numeric entity `&#...;` whose `;`
/// lies within ten characters is dropped, skipping as many characters as its
/// UTF-8 length up to the `;` plus one.
pub open spec fn visible_from(c: Seq<char>, low: Seq<char>, i: int, in_tag: bool, in_script: bool, in_style: bool) -> Seq<char>
    decreases c.len() - i,
{
    if i < 0 || i >= c.len() {
        Seq::empty()
    } else if !in_tag && c[i] == '<' {
        let f = tag_flags(low, i, in_script, in_style);
        visible_from(c, low, i + 1, true, f.0, f.1)
    } else if in_tag {
        visible_from(c, low, i + 1, c[i] != '>', in_script, in_style)
    } else if in_script || in_style {
        visible_from(c, low, i + 1, false, in_script, in_style)
    } else if c[i] == '&' && occurs_at(c, "&amp;"@, i) {
        proof {
            reveal_strlit("&amp;");
        }
        seq!['&'] + visible_from(c, low, i + 5, false, in_script, in_style)
    } else if c[i] == '&' && occurs_at(c, "&lt;"@, i) {
        proof {
            reveal_strlit("&lt;");
        }
        seq!['<'] + visible_from(c, low, i + 4, false, in_script, in_style)
    } else if c[i] == '&' && occurs_at(c, "&gt;"@, i) {
        proof {
            reveal_strlit("&gt;");
        }
        seq!['>'] + visible_from(c, low, i + 4, false, in_script, in_style)
    } else if c[i] == '&' && occurs_at(c, "&quot;"@, i) {
        proof {
            reveal_strlit("&quot;");
        }
        seq!['"'] + visible_from(c, low, i + 6, false, in_script, in_style)
    } else if c[i] == '&' && occurs_at(c, "&#"@, i) && find(window(c, i), seq![';']) is Some {
        let p = find(window(c, i), seq![';'])->0;
        let step = utf8_len(window(c, i).take(p)) + 1;
        visible_from(c, low, advance(i, step as int, c.len() as int), false, in_script, in_style)
    } else {
        seq![c[i]] + visible_from(c, low, i + 1, false, in_script, in_style)
    }
}

/// Visible text of an HTML document.
pub open spec fn visible_text(html: Seq<char>) -> Seq<char> {
    visible_from(html, unicode_lowercase(html), 0, false, false, false)
}

/// Removes HTML tags, scripts and styles and decodes the common entities
/// (see `visible_from`).
pub fn strip_html(html: &str) -> (out: String)
    ensures
        out@ == visible_text(html@),
{
    let c = chars_of(html);
    let low = lowercase_chars(c.as_slice());
    let script_open = chars_of("<script");
    let style_open = chars_of("<style");
    let script_close = chars_of("</script");
    let style_close = chars_of("</style");
    let amp = chars_of("&amp;");
    let lt = chars_of("&lt;");
    let gt = chars_of("&gt;");
    let quot = chars_of("&quot;");
    let hash = chars_of("&#");
    let semi: Vec<char> = vec![';'];
    let n = c.len();
    let ghost total = visible_text(html@);
    let mut out: Vec<char> = Vec::new();
    let mut in_tag = false;
    let mut in_script = false;
    let mut in_style = false;
    let mut i: usize = 0;
    while i < n
        invariant
            n == c@.len(),
            c@ == html@,
            low@ == unicode_lowercase(html@),
            script_open@ == "<script"@,
            style_open@ == "<style"@,
            script_close@ == "</script"@,
            style_close@ == "</style"@,
            amp@ == "&amp;"@,
            lt@ == "&lt;"@,
            gt@ == "&gt;"@,
            quot@ == "&quot;"@,
            hash@ == "&#"@,
            semi@ == seq![';'],
            i <= n,
            total == visible_text(html@),
            out@ + visible_from(c@, low@, i as int, in_tag, in_script, in_style) == total,
        decreases n - i,
    {
        let ghost before = visible_from(c@, low@, i as int, in_tag, in_script, in_style);
        proof {
            reveal_strlit("&amp;");
            reveal_strlit("&lt;");
            reveal_strlit("&gt;");
            reveal_strlit("&quot;");
        }
        if !in_tag && c[i] == '<' {
            in_tag = true;
            if occurs_at_exec(low.as_slice(), script_open.as_slice(), i) {
                in_script = true;
            } else if occurs_at_exec(low.as_slice(), style_open.as_slice(), i) {
                in_style = true;
            } else if occurs_at_exec(low.as_slice(), script_close.as_slice(), i) {
                in_script = false;
            } else if occurs_at_exec(low.as_slice(), style_close.as_slice(), i) {
                in_style = false;
            }
            i = i + 1;
        } else if in_tag {
            if c[i] == '>' {
                in_tag = false;
            }
            i = i + 1;
        } else if in_script || in_style {
            i = i + 1;
        } else if c[i] == '&' && occurs_at_exec(c.as_slice(), amp.as_slice(), i) {
            out.push('&');
            assert(out@ + visible_from(c@, low@, i + 5, false, in_script, in_style) =~= out@.drop_last() + before);
            i = i + 5;
        } else if c[i] == '&' && occurs_at_exec(c.as_slice(), lt.as_slice(), i) {
            out.push('<');
            assert(out@ + visible_from(c@, low@, i + 4, false, in_script, in_style) =~= out@.drop_last() + before);
            i = i + 4;
        } else if c[i] == '&' && occurs_at_exec(c.as_slice(), gt.as_slice(), i) {
            out.push('>');
            assert(out@ + visible_from(c@, low@, i + 4, false, in_script, in_style) =~= out@.drop_last() + before);
            i = i + 4;
        } else if c[i] == '&' && occurs_at_exec(c.as_slice(), quot.as_slice(), i) {
            out.push('"');
            assert(out@ + visible_from(c@, low@, i + 6, false, in_script, in_style) =~= out@.drop_last() + before);
            i = i + 6;
        } else {
            let mut skipped = false;
            if c[i] == '&' && occurs_at_exec(c.as_slice(), hash.as_slice(), i) {
                let end = if n - i >= 10 { i + 10 } else { n };
                let w = vstd::slice::slice_subrange(c.as_slice(), i, end);
                assert(w@ =~= window(c@, i as int));
                proof {
                    lemma_find_from(w@, semi@, 0);
                }
                match find_from_exec(w, semi.as_slice(), 0) {
                    Some(p) => {
                        let bytes = utf8_len_wide(vstd::slice::slice_subrange(w, 0, p));
                        assert(w@.subrange(0, p as int) =~= window(c@, i as int).take(p as int));
                        proof {
                            lemma_utf8_len_bound(w@.subrange(0, p as int));
                        }
                        let step = bytes + 1;
                        if step > (n - i) as u128 {
                            i = n;
                        } else {
                            i = i + step as usize;
                        }
                        skipped = true;
                    },
                    None => {},
                }
            }
            if !skipped {
                out.push(c[i]);
                assert(out@ + visible_from(c@, low@, i + 1, false, in_script, in_style) =~= out@.drop_last() + before);
                i = i + 1;
            }
        }
    }
    string_of(out.as_slice())
}

} // verus!
