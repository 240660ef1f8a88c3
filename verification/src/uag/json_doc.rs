//! JSON documents as plain values, and their rendering as XML and as CSV by
//! the format translator.

use vstd::prelude::*;
use super::format::{xml_escape, xml_escaped};
use super::UagError;
use crate::text::str_eq;

verus! {

/// A JSON value. A number is held by its JSON text; an array and an object
/// also carry their compact JSON text, which is what a CSV cell shows of
/// them. An object's members are in the document's order, each key once.
#[derive(Debug)]
pub enum JsonValue {
    Null,
    Bool(bool),
    /// The JSON text of the number.
    Number(String),
    Str(String),
    /// The items, and the compact JSON text of the array.
    Array(Vec<JsonValue>, String),
    /// The members, and the compact JSON text of the object.
    Object(Vec<(String, JsonValue)>, String),
}

/// `true` or `false`.
pub open spec fn bool_text(b: bool) -> Seq<char> {
    if b {
        "true"@
    } else {
        "false"@
    }
}

/// An element with text content: `pad<tag>text</tag>` and a newline.
pub open spec fn text_element(tag: Seq<char>, pad: Seq<char>, text: Seq<char>) -> Seq<char> {
    pad + "<"@ + tag + ">"@ + text + "</"@ + tag + ">\n"@
}

/// The XML of a value under `tag`, each line indented by `pad`: an object
/// is an element holding one element per member (indented two spaces
/// more), an array repeats its items under the same tag, a string is
/// escaped, a number or a boolean is written as is, and null is `<tag/>`.
pub open spec fn xml_text(v: JsonValue, tag: Seq<char>, pad: Seq<char>) -> Seq<char>
    decreases v,
{
    match v {
        JsonValue::Object(fields, _) => pad + "<"@ + tag + ">\n"@ + xml_fields(fields@, pad + "  "@) + pad + "</"@
            + tag + ">\n"@,
        JsonValue::Array(items, _) => xml_items(items@, tag, pad),
        JsonValue::Str(s) => text_element(tag, pad, xml_escaped(s@)),
        JsonValue::Number(n) => text_element(tag, pad, n@),
        JsonValue::Bool(b) => text_element(tag, pad, bool_text(b)),
        JsonValue::Null => pad + "<"@ + tag + "/>\n"@,
    }
}

/// The XML of an object's members, each under its key.
pub open spec fn xml_fields(fields: Seq<(String, JsonValue)>, pad: Seq<char>) -> Seq<char>
    decreases fields,
{
    if fields.len() == 0 {
        Seq::empty()
    } else {
        xml_fields(fields.drop_last(), pad) + xml_text(fields.last().1, fields.last().0@, pad)
    }
}

/// The XML of an array's items, each under `tag`.
pub open spec fn xml_items(items: Seq<JsonValue>, tag: Seq<char>, pad: Seq<char>) -> Seq<char>
    decreases items,
{
    if items.len() == 0 {
        Seq::empty()
    } else {
        xml_items(items.drop_last(), tag, pad) + xml_text(items.last(), tag, pad)
    }
}

/// The XML document of a value: the declaration, then the value under the
/// tag `root`.
pub open spec fn xml_document(v: JsonValue) -> Seq<char> {
    "<?xml version=\"1.0\" encoding=\"UTF-8\"?>\n"@ + xml_text(v, "root"@, Seq::empty())
}

/// Appends the XML of `v` under `tag`, indented by `pad` (see `xml_text`).
fn xml_into(v: &JsonValue, tag: &str, pad: &str, out: &mut String)
    ensures
        final(out)@ == old(out)@ + xml_text(*v, tag@, pad@),
    decreases v,
{
    match v {
        JsonValue::Object(fields, text) => {
            let ghost start = out@;
            out.append(pad);
            out.append("<");
            out.append(tag);
            out.append(">\n");
            let mut child = String::from_str(pad);
            child.append("  ");
            let ghost head = out@;
            let mut i: usize = 0;
            assert(fields@.take(0) =~= Seq::<(String, JsonValue)>::empty());
            while i < fields.len()
                invariant
                    i <= fields@.len(),
                    child@ == pad@ + "  "@,
                    *v == JsonValue::Object(*fields, *text),
                    out@ == head + xml_fields(fields@.take(i as int), child@),
                decreases fields@.len() - i,
            {
                proof {
                    assert(decreases_to!(*v => (*v)->Object_0));
                    assert(decreases_to!(*fields => fields@));
                    assert(decreases_to!(fields@ => fields@[i as int]));
                    assert(decreases_to!(fields@[i as int] => fields@[i as int].1));
                }
                xml_into(&fields[i].1, fields[i].0.as_str(), child.as_str(), out);
                assert(fields@.take(i + 1).drop_last() =~= fields@.take(i as int));
                i = i + 1;
            }
            assert(fields@.take(i as int) =~= fields@);
            out.append(pad);
            out.append("</");
            out.append(tag);
            out.append(">\n");
        },
        JsonValue::Array(items, text) => {
            let ghost head = out@;
            let mut i: usize = 0;
            assert(items@.take(0) =~= Seq::<JsonValue>::empty());
            while i < items.len()
                invariant
                    i <= items@.len(),
                    out@ == head + xml_items(items@.take(i as int), tag@, pad@),
                    *v == JsonValue::Array(*items, *text),
                decreases items@.len() - i,
            {
                proof {
                    assert(decreases_to!(*v => (*v)->Array_0));
                    assert(decreases_to!(*items => items@));
                    assert(decreases_to!(items@ => items@[i as int]));
                }
                xml_into(&items[i], tag, pad, out);
                assert(items@.take(i + 1).drop_last() =~= items@.take(i as int));
                i = i + 1;
            }
            assert(items@.take(i as int) =~= items@);
        },
        JsonValue::Str(s) => {
            let e = xml_escape(s.as_str());
            text_into(tag, pad, e.as_str(), out);
        },
        JsonValue::Number(n) => {
            text_into(tag, pad, n.as_str(), out);
        },
        JsonValue::Bool(b) => {
            if *b {
                text_into(tag, pad, "true", out);
            } else {
                text_into(tag, pad, "false", out);
            }
        },
        JsonValue::Null => {
            out.append(pad);
            out.append("<");
            out.append(tag);
            out.append("/>\n");
        },
    }
}

/// Appends `text_element(tag, pad, text)`.
fn text_into(tag: &str, pad: &str, text: &str, out: &mut String)
    ensures
        final(out)@ == old(out)@ + text_element(tag@, pad@, text@),
{
    out.append(pad);
    out.append("<");
    out.append(tag);
    out.append(">");
    out.append(text);
    out.append("</");
    out.append(tag);
    out.append(">\n");
}

/// The XML document of a JSON value (see `xml_document`).
pub fn json_to_xml(data: &JsonValue) -> (s: String)
    ensures
        s@ == xml_document(*data),
{
    let mut out = String::from_str("<?xml version=\"1.0\" encoding=\"UTF-8\"?>\n");
    proof {
        reveal_strlit("");
        assert(""@ =~= Seq::<char>::empty());
    }
    xml_into(data, "root", "", &mut out);
    out
}

/// What a CSV cell shows of a value: a string as it is, anything else as
/// its JSON text.
pub open spec fn cell_text(v: JsonValue) -> Seq<char> {
    match v {
        JsonValue::Str(s) => s@,
        JsonValue::Number(n) => n@,
        JsonValue::Bool(b) => bool_text(b),
        JsonValue::Null => "null"@,
        JsonValue::Array(_, t) => t@,
        JsonValue::Object(_, t) => t@,
    }
}

/// The value of the first member named `key`, if any.
pub open spec fn lookup(fields: Seq<(String, JsonValue)>, key: Seq<char>) -> Option<JsonValue>
    decreases fields.len(),
{
    if fields.len() == 0 {
        None
    } else if fields[0].0@ == key {
        Some(fields[0].1)
    } else {
        lookup(fields.skip(1), key)
    }
}

/// The keys of an object's members, in order.
pub open spec fn field_keys(fields: Seq<(String, JsonValue)>) -> Seq<Seq<char>> {
    Seq::new(fields.len(), |i: int| fields[i].0@)
}

/// The cells of an object under the headers: the member's cell text, empty
/// where the object has no such member.
pub open spec fn row_cells(headers: Seq<Seq<char>>, fields: Seq<(String, JsonValue)>) -> Seq<Seq<char>> {
    Seq::new(
        headers.len(),
        |i: int|
            match lookup(fields, headers[i]) {
                Some(v) => cell_text(v),
                None => Seq::empty(),
            },
    )
}

/// Texts joined with commas.
pub open spec fn join_comma(cells: Seq<Seq<char>>) -> Seq<char>
    decreases cells.len(),
{
    if cells.len() == 0 {
        Seq::empty()
    } else if cells.len() == 1 {
        cells[0]
    } else {
        join_comma(cells.drop_last()) + ","@ + cells.last()
    }
}

/// One line per object among the items (other items are skipped).
pub open spec fn csv_rows(items: Seq<JsonValue>, headers: Seq<Seq<char>>) -> Seq<char>
    decreases items.len(),
{
    if items.len() == 0 {
        Seq::empty()
    } else {
        csv_rows(items.drop_last(), headers) + match items.last() {
            JsonValue::Object(f, _) => join_comma(row_cells(headers, f@)) + "\n"@,
            _ => Seq::empty(),
        }
    }
}

/// The CSV text of a JSON array of objects, or the message of its refusal:
/// an empty array gives an empty text; otherwise the header line holds the
/// first object's keys, and each object gives a line of its cells.
pub open spec fn csv_of(v: JsonValue) -> Result<Seq<char>, Seq<char>> {
    match v {
        JsonValue::Array(items, _) => if items@.len() == 0 {
            Ok(Seq::empty())
        } else {
            match items@[0] {
                JsonValue::Object(f0, _) => Ok(
                    join_comma(field_keys(f0@)) + "\n"@ + csv_rows(items@, field_keys(f0@)),
                ),
                _ => Err("Array deve contenere oggetti"@),
            }
        },
        _ => Err("Input deve essere un array JSON"@),
    }
}

proof fn lemma_join_step(cells: Seq<Seq<char>>, j: int)
    requires
        0 <= j < cells.len(),
    ensures
        join_comma(cells.take(j + 1)) == (if j == 0 {
            cells[0]
        } else {
            join_comma(cells.take(j)) + ","@ + cells[j]
        }),
{
    assert(cells.take(j + 1).drop_last() =~= cells.take(j));
}

/// The cell text of a value (see `cell_text`).
fn cell_text_exec(v: &JsonValue) -> (s: String)
    ensures
        s@ == cell_text(*v),
{
    match v {
        JsonValue::Str(t) => String::from_str(t.as_str()),
        JsonValue::Number(n) => String::from_str(n.as_str()),
        JsonValue::Bool(b) => if *b {
            String::from_str("true")
        } else {
            String::from_str("false")
        },
        JsonValue::Null => String::from_str("null"),
        JsonValue::Array(_, t) => String::from_str(t.as_str()),
        JsonValue::Object(_, t) => String::from_str(t.as_str()),
    }
}

/// The index of the first member named `key` (see `lookup`).
fn lookup_exec(fields: &Vec<(String, JsonValue)>, key: &str) -> (r: Option<usize>)
    ensures
        match lookup(fields@, key@) {
            Some(x) => r matches Some(i) && i < fields@.len() && fields@[i as int].1 == x,
            None => r is None,
        },
{
    let mut i: usize = 0;
    assert(fields@.skip(0) =~= fields@);
    while i < fields.len()
        invariant
            i <= fields@.len(),
            lookup(fields@, key@) == lookup(fields@.skip(i as int), key@),
        decreases fields@.len() - i,
    {
        assert(fields@.skip(i as int)[0] == fields@[i as int]);
        assert(fields@.skip(i as int).skip(1) =~= fields@.skip(i + 1));
        if str_eq(fields[i].0.as_str(), key) {
            return Some(i);
        }
        i = i + 1;
    }
    None
}

/// Appends the header line's keys joined with commas.
fn keys_into(headers: &Vec<(String, JsonValue)>, out: &mut String)
    ensures
        final(out)@ == old(out)@ + join_comma(field_keys(headers@)),
{
    let ghost head = out@;
    let ghost keys = field_keys(headers@);
    let mut j: usize = 0;
    assert(keys.take(0) =~= Seq::<Seq<char>>::empty());
    while j < headers.len()
        invariant
            j <= headers@.len(),
            keys == field_keys(headers@),
            out@ == head + join_comma(keys.take(j as int)),
        decreases headers@.len() - j,
    {
        proof {
            lemma_join_step(keys, j as int);
        }
        if j > 0 {
            out.append(",");
        }
        out.append(headers[j].0.as_str());
        j = j + 1;
    }
    assert(keys.take(j as int) =~= keys);
}

/// Appends an object's cells under the headers, joined with commas.
fn row_into(headers: &Vec<(String, JsonValue)>, fields: &Vec<(String, JsonValue)>, out: &mut String)
    ensures
        final(out)@ == old(out)@ + join_comma(row_cells(field_keys(headers@), fields@)),
{
    let ghost head = out@;
    let ghost cells = row_cells(field_keys(headers@), fields@);
    let mut j: usize = 0;
    assert(cells.take(0) =~= Seq::<Seq<char>>::empty());
    while j < headers.len()
        invariant
            j <= headers@.len(),
            cells == row_cells(field_keys(headers@), fields@),
            out@ == head + join_comma(cells.take(j as int)),
        decreases headers@.len() - j,
    {
        proof {
            lemma_join_step(cells, j as int);
        }
        if j > 0 {
            out.append(",");
        }
        match lookup_exec(fields, headers[j].0.as_str()) {
            Some(k) => {
                let c = cell_text_exec(&fields[k].1);
                out.append(c.as_str());
            },
            None => {
                proof {
                    reveal_strlit("");
                }
                assert(cells[j as int] =~= Seq::<char>::empty());
            },
        }
        j = j + 1;
    }
    assert(cells.take(j as int) =~= cells);
}

/// The CSV text of a JSON array of objects (see `csv_of`); a value that is
/// not an array, or an array whose first item is not an object, is refused
/// with `TranslationFailed`.
pub fn json_to_csv(data: &JsonValue) -> (r: Result<String, UagError>)
    ensures
        match csv_of(*data) {
            Ok(t) => r matches Ok(s) && s@ == t,
            Err(m) => r matches Err(UagError::TranslationFailed(e)) && e@ == m,
        },
{
    match data {
        JsonValue::Array(items, _) => {
            if items.len() == 0 {
                return Ok(String::new());
            }
            match &items[0] {
                JsonValue::Object(first, _) => {
                    let mut out = String::new();
                    keys_into(first, &mut out);
                    out.append("\n");
                    let ghost head = out@;
                    let ghost keys = field_keys(first@);
                    let mut i: usize = 0;
                    assert(items@.take(0) =~= Seq::<JsonValue>::empty());
                    while i < items.len()
                        invariant
                            i <= items@.len(),
                            keys == field_keys(first@),
                            out@ == head + csv_rows(items@.take(i as int), keys),
                        decreases items@.len() - i,
                    {
                        assert(items@.take(i + 1).drop_last() =~= items@.take(i as int));
                        match &items[i] {
                            JsonValue::Object(f, _) => {
                                row_into(first, f, &mut out);
                                out.append("\n");
                            },
                            _ => {},
                        }
                        i = i + 1;
                    }
                    assert(items@.take(i as int) =~= items@);
                    Ok(out)
                },
                _ => Err(UagError::TranslationFailed(String::from_str("Array deve contenere oggetti"))),
            }
        },
        _ => Err(UagError::TranslationFailed(String::from_str("Input deve essere un array JSON"))),
    }
}

} // verus!
