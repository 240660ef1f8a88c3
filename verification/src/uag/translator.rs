//! The document grammars of the format translator: the elements of a simple
//! XML text, one nesting level at a time, and the records of a CSV text.

use vstd::prelude::*;
use crate::text::{chars_of, contains, contains_exec, find, find_from, find_from_exec, lemma_find_from, lines,
    split_lines, split_on, split_on_exec, string_of, trim, trim_chars, trim_end_by, trim_start_by};

verus! {

/// What an XML element holds, as plain values.
pub enum XmlContentView {
    /// A self-closing element.
    Empty,
    /// Text without child elements, trimmed.
    Text(Seq<char>),
    /// Content with child elements, as written.
    Children(Seq<char>),
}

/// What an XML element holds.
#[derive(Debug, Clone)]
pub enum XmlContent {
    /// A self-closing element (`<tag/>`).
    Empty,
    /// Text without child elements, trimmed.
    Text(String),
    /// Content with child elements, as written; its elements are read with
    /// `xml_elements`.
    Children(String),
}

impl View for XmlContent {
    type V = XmlContentView;

    open spec fn view(&self) -> XmlContentView {
        match self {
            XmlContent::Empty => XmlContentView::Empty,
            XmlContent::Text(t) => XmlContentView::Text(t@),
            XmlContent::Children(c) => XmlContentView::Children(c@),
        }
    }
}

/// An XML element: its tag and what it holds.
#[derive(Debug, Clone)]
pub struct XmlElement {
    /// The tag name, trimmed.
    pub tag: String,
    /// What the element holds.
    pub content: XmlContent,
}

/// An element as plain values.
pub open spec fn element_view(e: XmlElement) -> (Seq<char>, XmlContentView) {
    (e.tag@, e.content@)
}

/// The closing tag of `tag`: `</tag>`.
pub open spec fn closing_tag(tag: Seq<char>) -> Seq<char> {
    seq!['<', '/'] + tag + seq!['>']
}

/// The first element of `r` and what follows it, or `None` where reading
/// stops. The element starts at the first '<', unless a '/' follows it (a
/// closing tag). When "/>" occurs at or after that '<', the element is
/// self-closing, named by the trimmed text between them, and reading goes
/// on right after the "/>". Otherwise the tag is the trimmed text up to the
/// first '>', and the element's content runs from there to the first
/// occurrence of its closing tag in `r`: content holding a '<' has
/// children, other content is its trimmed text. Reading goes on after the
/// closing tag, trimmed. It stops where no '<', '>' or closing tag is found,
/// or where the closing tag is found before the content starts.
pub open spec fn xml_step(r: Seq<char>) -> Option<(Seq<char>, XmlContentView, Seq<char>)> {
    match find(r, seq!['<']) {
        None => None,
        Some(ts) => if ts + 1 < r.len() && r[ts + 1] == '/' {
            None
        } else {
            match find_from(r, seq!['/', '>'], ts) {
                Some(p) => Some((trim(r.subrange(ts + 1, p)), XmlContentView::Empty, r.skip(p + 2))),
                None => match find_from(r, seq!['>'], ts) {
                    None => None,
                    Some(g) => {
                        let tag = trim(r.subrange(ts + 1, g));
                        match find(r, closing_tag(tag)) {
                            None => None,
                            Some(cp) => if cp <= g {
                                None
                            } else {
                                let inner = r.subrange(g + 1, cp);
                                let c = if contains(inner, seq!['<']) {
                                    XmlContentView::Children(inner)
                                } else {
                                    XmlContentView::Text(trim(inner))
                                };
                                Some((tag, c, trim(r.skip(cp + closing_tag(tag).len()))))
                            },
                        }
                    },
                },
            }
        },
    }
}

/// Trimming never lengthens a sequence.
proof fn lemma_trim_shorter(s: Seq<char>)
    ensures
        trim(s).len() <= s.len(),
{
    lemma_trim_start_shorter(s);
    lemma_trim_end_shorter(trim_start_by(s, false));
}

proof fn lemma_trim_start_shorter(s: Seq<char>)
    ensures
        trim_start_by(s, false).len() <= s.len(),
    decreases s.len(),
{
    if s.len() > 0 {
        lemma_trim_start_shorter(s.skip(1));
    }
}

proof fn lemma_trim_end_shorter(s: Seq<char>)
    ensures
        trim_end_by(s, false).len() <= s.len(),
    decreases s.len(),
{
    if s.len() > 0 {
        lemma_trim_end_shorter(s.drop_last());
    }
}

/// What follows an element is shorter than the text it was read from.
pub proof fn lemma_xml_step_shrinks(r: Seq<char>)
    ensures
        xml_step(r) matches Some((_, _, rest)) ==> rest.len() < r.len(),
{
    lemma_find_from(r, seq!['<'], 0);
    if let Some(ts) = find(r, seq!['<']) {
        lemma_find_from(r, seq!['/', '>'], ts);
        lemma_find_from(r, seq!['>'], ts);
        if let Some(g) = find_from(r, seq!['>'], ts) {
            let tag = trim(r.subrange(ts + 1, g));
            lemma_find_from(r, closing_tag(tag), 0);
            if let Some(cp) = find(r, closing_tag(tag)) {
                lemma_trim_shorter(r.skip(cp + closing_tag(tag).len()));
            }
        }
    }
}

/// The elements read from `r` after those in `acc`, one after another
/// (see `xml_step`), until reading stops or `r` is empty.
pub open spec fn xml_scan(r: Seq<char>, acc: Seq<(Seq<char>, XmlContentView)>) -> Seq<(Seq<char>, XmlContentView)>
    decreases r.len(),
{
    if r.len() == 0 {
        acc
    } else {
        match xml_step(r) {
            None => acc,
            Some((tag, c, rest)) => {
                proof {
                    lemma_xml_step_shrinks(r);
                }
                xml_scan(rest, acc.push((tag, c)))
            },
        }
    }
}

/// The elements at the top level of an XML fragment.
pub open spec fn xml_level(content: Seq<char>) -> Seq<(Seq<char>, XmlContentView)> {
    xml_scan(trim(content), Seq::empty())
}

fn slice_chars(v: &[char], a: usize, b: usize) -> (r: Vec<char>)
    requires
        a <= b <= v@.len(),
    ensures
        r@ == v@.subrange(a as int, b as int),
{
    let mut r: Vec<char> = Vec::new();
    let mut k: usize = a;
    while k < b
        invariant
            a <= k <= b <= v@.len(),
            r@ == v@.subrange(a as int, k as int),
        decreases b - k,
    {
        r.push(v[k]);
        k = k + 1;
        assert(r@ =~= v@.subrange(a as int, k as int));
    }
    r
}

fn xml_step_exec(r: &[char]) -> (res: Option<(XmlElement, Vec<char>)>)
    ensures
        match xml_step(r@) {
            None => res is None,
            Some((tag, c, rest)) => res matches Some((e, v)) && e.tag@ == tag && e.content@ == c && v@ == rest,
        },
{
    let len: usize = r.len();
    let lt: Vec<char> = vec!['<'];
    let sc: Vec<char> = vec!['/', '>'];
    let gt: Vec<char> = vec!['>'];
    assert(lt@ =~= seq!['<']);
    assert(sc@ =~= seq!['/', '>']);
    assert(gt@ =~= seq!['>']);
    proof {
        lemma_find_from(r@, seq!['<'], 0);
    }
    let ts: usize = match find_from_exec(r, lt.as_slice(), 0) {
        None => return None,
        Some(i) => i,
    };
    assert(r@.subrange(ts as int, ts + 1)[0] == '<');
    if ts + 1 < len && r[ts + 1] == '/' {
        return None;
    }
    proof {
        lemma_find_from(r@, seq!['/', '>'], ts as int);
        lemma_find_from(r@, seq!['>'], ts as int);
    }
    match find_from_exec(r, sc.as_slice(), ts) {
        Some(p) => {
            if p == ts {
                assert(r@.subrange(p as int, p + 2)[0] == '/');
            }
            let raw = slice_chars(r, ts + 1, p);
            let tag = trim_chars(raw.as_slice());
            let rest = slice_chars(r, p + 2, len);
            assert(rest@ =~= r@.skip(p + 2));
            return Some((XmlElement { tag: string_of(tag.as_slice()), content: XmlContent::Empty }, rest));
        },
        None => {},
    }
    let g: usize = match find_from_exec(r, gt.as_slice(), ts) {
        None => return None,
        Some(i) => i,
    };
    if g == ts {
        assert(r@.subrange(g as int, g + 1)[0] == '>');
    }
    let raw = slice_chars(r, ts + 1, g);
    let tag = trim_chars(raw.as_slice());
    let mut close: Vec<char> = vec!['<', '/'];
    let mut k: usize = 0;
    while k < tag.len()
        invariant
            k <= tag@.len(),
            close@ == seq!['<', '/'] + tag@.take(k as int),
        decreases tag@.len() - k,
    {
        close.push(tag[k]);
        k = k + 1;
        assert(close@ =~= seq!['<', '/'] + tag@.take(k as int));
    }
    close.push('>');
    assert(close@ =~= closing_tag(tag@));
    proof {
        lemma_find_from(r@, closing_tag(tag@), 0);
    }
    let cp: usize = match find_from_exec(r, close.as_slice(), 0) {
        None => return None,
        Some(i) => i,
    };
    if cp <= g {
        return None;
    }
    let inner = slice_chars(r, g + 1, cp);
    let content = if contains_exec(inner.as_slice(), lt.as_slice()) {
        XmlContent::Children(string_of(inner.as_slice()))
    } else {
        let t = trim_chars(inner.as_slice());
        XmlContent::Text(string_of(t.as_slice()))
    };
    let after = slice_chars(r, cp + close.len(), len);
    assert(after@ =~= r@.skip(cp + closing_tag(tag@).len()));
    let rest = trim_chars(after.as_slice());
    Some((XmlElement { tag: string_of(tag.as_slice()), content }, rest))
}

/// The elements at the top level of an XML fragment (see `xml_step`); the
/// elements of an element with children are read from its content in turn.
pub fn xml_elements(content: &str) -> (r: Vec<XmlElement>)
    ensures
        r@.map_values(|e: XmlElement| element_view(e)) == xml_level(content@),
{
    let c = chars_of(content);
    let mut rem: Vec<char> = trim_chars(c.as_slice());
    let mut out: Vec<XmlElement> = Vec::new();
    assert(out@.map_values(|e: XmlElement| element_view(e)) =~= Seq::<(Seq<char>, XmlContentView)>::empty());
    loop
        invariant
            xml_level(content@) == xml_scan(rem@, out@.map_values(|e: XmlElement| element_view(e))),
        ensures
            xml_level(content@) == out@.map_values(|e: XmlElement| element_view(e)),
        decreases rem@.len(),
    {
        if rem.len() == 0 {
            break;
        }
        proof {
            lemma_xml_step_shrinks(rem@);
        }
        match xml_step_exec(rem.as_slice()) {
            None => break,
            Some((e, rest)) => {
                let ghost before = out@.map_values(|e: XmlElement| element_view(e));
                let ghost ev = element_view(e);
                out.push(e);
                assert(out@.map_values(|e: XmlElement| element_view(e)) =~= before.push(ev));
                rem = rest;
            },
        }
    }
    out
}

/// The body of an XML text: trimmed, and, when it opens with "<?", what
/// follows the first "?>" after that, trimmed (the whole trimmed text when
/// there is no "?>").
pub open spec fn xml_body_of(xml: Seq<char>) -> Seq<char> {
    let c = trim(xml);
    if c.len() >= 2 && c[0] == '<' && c[1] == '?' {
        match find(c.skip(2), seq!['?', '>']) {
            Some(q) => trim(c.skip(2).skip(q + 2)),
            None => c,
        }
    } else {
        c
    }
}

/// The body of an XML text, without its declaration (see `xml_body_of`).
pub fn xml_body(xml: &str) -> (r: String)
    ensures
        r@ == xml_body_of(xml@),
{
    let x = chars_of(xml);
    let c = trim_chars(x.as_slice());
    if c.len() >= 2 && c[0] == '<' && c[1] == '?' {
        let rest = slice_chars(c.as_slice(), 2, c.len());
        assert(rest@ =~= c@.skip(2));
        let pat: Vec<char> = vec!['?', '>'];
        assert(pat@ =~= seq!['?', '>']);
        proof {
            lemma_find_from(rest@, seq!['?', '>'], 0);
        }
        match find_from_exec(rest.as_slice(), pat.as_slice(), 0) {
            Some(q) => {
                let after = slice_chars(rest.as_slice(), q + 2, rest.len());
                assert(after@ =~= rest@.skip(q + 2));
                let t = trim_chars(after.as_slice());
                string_of(t.as_slice())
            },
            None => string_of(c.as_slice()),
        }
    } else {
        string_of(c.as_slice())
    }
}

/// The cells of a CSV line: its pieces between commas, trimmed.
pub open spec fn csv_cells(line: Seq<char>) -> Seq<Seq<char>> {
    split_on(line, seq![',']).map_values(|p: Seq<char>| trim(p))
}

/// The record of a CSV line under `headers`: each header with the cell in
/// its column, or an empty cell where the line is shorter.
pub open spec fn csv_record(headers: Seq<Seq<char>>, line: Seq<char>) -> Seq<(Seq<char>, Seq<char>)> {
    let cells = csv_cells(line);
    Seq::new(headers.len(), |i: int| (headers[i], if i < cells.len() { cells[i] } else { Seq::empty() }))
}

/// The records of the lines `ls` under `headers`, blank lines skipped.
pub open spec fn csv_rows(headers: Seq<Seq<char>>, ls: Seq<Seq<char>>) -> Seq<Seq<(Seq<char>, Seq<char>)>>
    decreases ls.len(),
{
    if ls.len() == 0 {
        Seq::empty()
    } else {
        let before = csv_rows(headers, ls.drop_last());
        if trim(ls.last()).len() == 0 {
            before
        } else {
            before.push(csv_record(headers, ls.last()))
        }
    }
}

/// The records of a CSV text: `None` when it has no line; else the cells of
/// the first line are the headers and each further non-blank line is a
/// record.
pub open spec fn csv_table(csv: Seq<char>) -> Option<Seq<Seq<(Seq<char>, Seq<char>)>>> {
    let ls = lines(csv);
    if ls.len() == 0 {
        None
    } else {
        Some(csv_rows(csv_cells(ls[0]), ls.skip(1)))
    }
}

/// A record as plain values.
pub open spec fn record_view(r: Vec<(String, String)>) -> Seq<(Seq<char>, Seq<char>)> {
    r@.map_values(|c: (String, String)| (c.0@, c.1@))
}

fn csv_cells_exec(line: &[char]) -> (r: Vec<Vec<char>>)
    ensures
        r@.map_values(|c: Vec<char>| c@) == csv_cells(line@),
{
    let comma: Vec<char> = vec![','];
    assert(comma@ =~= seq![',']);
    let pieces = split_on_exec(line, comma.as_slice());
    let ghost ps = pieces@.map_values(|p: Vec<char>| p@);
    let mut out: Vec<Vec<char>> = Vec::new();
    let mut i: usize = 0;
    while i < pieces.len()
        invariant
            ps == pieces@.map_values(|p: Vec<char>| p@),
            ps == split_on(line@, seq![',']),
            i <= pieces@.len(),
            out@.map_values(|c: Vec<char>| c@) == ps.take(i as int).map_values(|p: Seq<char>| trim(p)),
        decreases pieces@.len() - i,
    {
        let t = trim_chars(pieces[i].as_slice());
        let ghost before = out@.map_values(|c: Vec<char>| c@);
        out.push(t);
        proof {
            assert(ps[i as int] == pieces@[i as int]@);
            assert(out@.map_values(|c: Vec<char>| c@) =~= before.push(trim(ps[i as int])));
            assert(ps.take(i + 1).map_values(|p: Seq<char>| trim(p)) =~= ps.take(i as int).map_values(
                |p: Seq<char>| trim(p),
            ).push(trim(ps[i as int])));
        }
        i = i + 1;
    }
    assert(ps.take(i as int) =~= ps);
    out
}

fn csv_record_exec(headers: &Vec<Vec<char>>, line: &[char]) -> (r: Vec<(String, String)>)
    ensures
        record_view(r) == csv_record(headers@.map_values(|h: Vec<char>| h@), line@),
{
    let ghost hs = headers@.map_values(|h: Vec<char>| h@);
    let cells = csv_cells_exec(line);
    let ghost cs = cells@.map_values(|c: Vec<char>| c@);
    let mut out: Vec<(String, String)> = Vec::new();
    let mut i: usize = 0;
    while i < headers.len()
        invariant
            hs == headers@.map_values(|h: Vec<char>| h@),
            cs == cells@.map_values(|c: Vec<char>| c@),
            cs == csv_cells(line@),
            i <= headers@.len(),
            record_view(out) == csv_record(hs, line@).take(i as int),
        decreases headers@.len() - i,
    {
        let h = string_of(headers[i].as_slice());
        let v = if i < cells.len() {
            string_of(cells[i].as_slice())
        } else {
            String::new()
        };
        let ghost before = record_view(out);
        out.push((h, v));
        proof {
            assert(hs[i as int] == headers@[i as int]@);
            if i < cells@.len() {
                assert(cs[i as int] == cells@[i as int]@);
            }
            assert(record_view(out) =~= before.push(csv_record(hs, line@)[i as int]));
            assert(csv_record(hs, line@).take(i + 1) =~= csv_record(hs, line@).take(i as int).push(
                csv_record(hs, line@)[i as int],
            ));
        }
        i = i + 1;
    }
    assert(csv_record(hs, line@).take(i as int) =~= csv_record(hs, line@));
    out
}

/// The records of a CSV text (see `csv_table`), each a list of (header,
/// cell) pairs in the order of the headers.
pub fn csv_records(csv: &str) -> (r: Option<Vec<Vec<(String, String)>>>)
    ensures
        match csv_table(csv@) {
            None => r is None,
            Some(rows) => r matches Some(v) && v@.map_values(|rec: Vec<(String, String)>| record_view(rec)) == rows,
        },
{
    let c = chars_of(csv);
    let ls = split_lines(c.as_slice());
    let ghost all = lines(csv@);
    assert(ls@.map_values(|l: Vec<char>| l@) =~= all);
    if ls.len() == 0 {
        return None;
    }
    let headers = csv_cells_exec(ls[0].as_slice());
    let ghost hs = headers@.map_values(|h: Vec<char>| h@);
    let mut rows: Vec<Vec<(String, String)>> = Vec::new();
    let mut k: usize = 1;
    assert(all.skip(1).take(0) =~= Seq::<Seq<char>>::empty());
    while k < ls.len()
        invariant
            all == lines(csv@),
            ls@.len() == all.len(),
            forall|j: int| 0 <= j < ls@.len() ==> #[trigger] ls@[j]@ == all[j],
            1 <= k <= ls@.len(),
            hs == headers@.map_values(|h: Vec<char>| h@),
            hs == csv_cells(all[0]),
            rows@.map_values(|rec: Vec<(String, String)>| record_view(rec)) == csv_rows(
                hs,
                all.skip(1).take(k - 1),
            ),
        decreases ls@.len() - k,
    {
        let ghost before = rows@.map_values(|rec: Vec<(String, String)>| record_view(rec));
        let ghost prefix = all.skip(1).take(k as int);
        assert(prefix.drop_last() =~= all.skip(1).take(k - 1));
        assert(prefix.last() == all[k as int]);
        let t = trim_chars(ls[k].as_slice());
        if t.len() > 0 {
            let rec = csv_record_exec(&headers, ls[k].as_slice());
            let ghost rv = record_view(rec);
            rows.push(rec);
            assert(rows@.map_values(|rec: Vec<(String, String)>| record_view(rec)) =~= before.push(rv));
        }
        k = k + 1;
    }
    assert(all.skip(1).take(k - 1) =~= all.skip(1));
    Some(rows)
}

} // verus!

verus! {

/// A conversion the translator performs.
#[derive(Debug, Clone, Copy, PartialEq, Eq, Structural)]
pub enum Translation {
    /// JSON array of objects to CSV.
    JsonToCsv,
    /// CSV text to a JSON array of objects.
    CsvToJson,
    /// JSON to XML.
    JsonToXml,
    /// XML text to JSON.
    XmlToJson,
    /// JSON to pretty-printed JSON.
    JsonToJson,
}

/// The conversion between two format names, if it is supported.
pub open spec fn translation_for(from: Seq<char>, to: Seq<char>) -> Option<Translation> {
    if from == "json"@ && to == "csv"@ {
        Some(Translation::JsonToCsv)
    } else if from == "csv"@ && to == "json"@ {
        Some(Translation::CsvToJson)
    } else if from == "json"@ && to == "xml"@ {
        Some(Translation::JsonToXml)
    } else if from == "xml"@ && to == "json"@ {
        Some(Translation::XmlToJson)
    } else if from == "json"@ && to == "json"@ {
        Some(Translation::JsonToJson)
    } else {
        None
    }
}

/// Chooses the conversion from format `from` to format `to`; an
/// unsupported pair is refused with `UnsupportedFormat("<from> → <to>")`.
pub fn translation_of(from: &str, to: &str) -> (r: Result<Translation, super::UagError>)
    ensures
        match translation_for(from@, to@) {
            Some(t) => r == Ok::<Translation, super::UagError>(t),
            None => r matches Err(super::UagError::UnsupportedFormat(m)) && m@ == from@ + " → "@ + to@,
        },
{
    let json = "json";
    let csv = "csv";
    let xml = "xml";
    if crate::text::str_eq(from, json) && crate::text::str_eq(to, csv) {
        Ok(Translation::JsonToCsv)
    } else if crate::text::str_eq(from, csv) && crate::text::str_eq(to, json) {
        Ok(Translation::CsvToJson)
    } else if crate::text::str_eq(from, json) && crate::text::str_eq(to, xml) {
        Ok(Translation::JsonToXml)
    } else if crate::text::str_eq(from, xml) && crate::text::str_eq(to, json) {
        Ok(Translation::XmlToJson)
    } else if crate::text::str_eq(from, json) && crate::text::str_eq(to, json) {
        Ok(Translation::JsonToJson)
    } else {
        let mut m = String::from_str(from);
        m.append(" → ");
        m.append(to);
        Err(super::UagError::UnsupportedFormat(m))
    }
}

} // verus!

verus! {

/// Every CSV record lists the headers, in order, each with one cell.
pub proof fn lemma_csv_records_follow_headers(headers: Seq<Seq<char>>, ls: Seq<Seq<char>>)
    ensures
        forall|k: int|
            0 <= k < csv_rows(headers, ls).len() ==> {
                &&& (#[trigger] csv_rows(headers, ls)[k]).len() == headers.len()
                &&& forall|i: int| 0 <= i < headers.len() ==> csv_rows(headers, ls)[k][i].0 == headers[i]
            },
    decreases ls.len(),
{
    if ls.len() > 0 {
        lemma_csv_records_follow_headers(headers, ls.drop_last());
        let before = csv_rows(headers, ls.drop_last());
        assert forall|k: int| 0 <= k < csv_rows(headers, ls).len() implies {
            &&& (#[trigger] csv_rows(headers, ls)[k]).len() == headers.len()
            &&& forall|i: int| 0 <= i < headers.len() ==> csv_rows(headers, ls)[k][i].0 == headers[i]
        } by {
            if k < before.len() {
                assert(csv_rows(headers, ls)[k] == before[k]);
            }
        }
    }
}

} // verus!
