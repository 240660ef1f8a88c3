use varcavia::uag::format::xml_escape;
use varcavia::uag::json_doc::{json_to_csv, json_to_xml, JsonValue};
use varcavia::uag::translator::{csv_records, translation_of, xml_body, xml_elements, Translation, XmlContent, XmlElement};
use varcavia::uag::UagError;

fn describe(elements: &[XmlElement]) -> Vec<(String, String)> {
    elements
        .iter()
        .map(|e| {
            let c = match &e.content {
                XmlContent::Empty => "empty".to_string(),
                XmlContent::Text(t) => format!("text:{t}"),
                XmlContent::Children(c) => format!("children:{c}"),
            };
            (e.tag.clone(), c)
        })
        .collect()
}

fn pairs(v: &[(&str, &str)]) -> Vec<(String, String)> {
    v.iter().map(|(a, b)| (a.to_string(), b.to_string())).collect()
}

#[test]
fn xml_levels_are_read_one_at_a_time() {
    let top = xml_elements("<root><city>Roma</city><temp>22</temp></root>");
    assert_eq!(describe(&top), pairs(&[("root", "children:<city>Roma</city><temp>22</temp>")]));
    let inner = match &top[0].content {
        XmlContent::Children(c) => xml_elements(c),
        _ => panic!("root has children"),
    };
    assert_eq!(describe(&inner), pairs(&[("city", "text:Roma"), ("temp", "text:22")]));
}

#[test]
fn xml_text_and_tags_are_trimmed() {
    let e = xml_elements("  < name >  Ada Lovelace  </name>\n <y>1</y> ");
    assert_eq!(describe(&e), pairs(&[("name", "text:Ada Lovelace"), ("y", "text:1")]));
}

#[test]
fn xml_self_closing_marker_anywhere_after_the_tag_wins() {
    let e = xml_elements("<a/><b>x</b>");
    assert_eq!(describe(&e), pairs(&[("a", "empty"), ("b", "text:x")]));
    let e = xml_elements("<a>x</a><b/>");
    assert_eq!(describe(&e), pairs(&[("a>x</a><b", "empty")]));
}

#[test]
fn xml_reading_stops_without_a_closing_tag() {
    assert!(xml_elements("</a><b>x</b>").is_empty());
    assert!(xml_elements("<a>x</b>").is_empty());
    assert!(xml_elements("plain text").is_empty());
    assert!(xml_elements("").is_empty());
    let e = xml_elements("<a>1</a><b>2");
    assert_eq!(describe(&e), pairs(&[("a", "text:1")]));
}

#[test]
fn xml_declaration_is_skipped() {
    assert_eq!(xml_body("<?xml version=\"1.0\"?><data><val>42</val></data>"), "<data><val>42</val></data>");
    assert_eq!(xml_body("  <a>1</a>  "), "<a>1</a>");
    assert_eq!(xml_body("<?never closed <a>1</a>"), "<?never closed <a>1</a>");
    let e = xml_elements(&xml_body("<?xml version=\"1.0\"?><data><val>42</val></data>"));
    assert_eq!(describe(&e), pairs(&[("data", "children:<val>42</val>")]));
}

#[test]
fn csv_records_pair_headers_with_cells() {
    let r = csv_records("city,temp\nRoma,22\nMilano,18").unwrap();
    assert_eq!(r, vec![pairs(&[("city", "Roma"), ("temp", "22")]), pairs(&[("city", "Milano"), ("temp", "18")])]);
}

#[test]
fn csv_blank_lines_and_short_rows() {
    let r = csv_records(" a , b \r\n\n  \n1\n2,3,4\n").unwrap();
    assert_eq!(r, vec![pairs(&[("a", "1"), ("b", "")]), pairs(&[("a", "2"), ("b", "3")])]);
    assert_eq!(csv_records("only,headers"), Some(vec![]));
    assert_eq!(csv_records(""), None);
}

#[test]
fn supported_translations() {
    assert_eq!(translation_of("json", "csv").unwrap(), Translation::JsonToCsv);
    assert_eq!(translation_of("csv", "json").unwrap(), Translation::CsvToJson);
    assert_eq!(translation_of("json", "xml").unwrap(), Translation::JsonToXml);
    assert_eq!(translation_of("xml", "json").unwrap(), Translation::XmlToJson);
    assert_eq!(translation_of("json", "json").unwrap(), Translation::JsonToJson);
}

#[test]
fn test_unsupported_format() {
    let result = translation_of("yaml", "toml");
    assert!(result.is_err());
    match result {
        Err(UagError::UnsupportedFormat(m)) => assert_eq!(m, "yaml → toml"),
        other => panic!("unexpected {other:?}"),
    }
    assert!(translation_of("xml", "csv").is_err());
    assert!(translation_of("JSON", "csv").is_err());
}

#[test]
fn test_xml_escape() {
    assert_eq!(xml_escape("a < b & c > d"), "a &lt; b &amp; c &gt; d");
    assert_eq!(xml_escape("\"quoted\" 'single'"), "&quot;quoted&quot; 'single'");
}

fn s(t: &str) -> JsonValue {
    JsonValue::Str(t.to_string())
}

fn n(t: &str) -> JsonValue {
    JsonValue::Number(t.to_string())
}

fn obj(members: Vec<(&str, JsonValue)>, text: &str) -> JsonValue {
    JsonValue::Object(members.into_iter().map(|(k, v)| (k.to_string(), v)).collect(), text.to_string())
}

fn arr(items: Vec<JsonValue>, text: &str) -> JsonValue {
    JsonValue::Array(items, text.to_string())
}

#[test]
fn test_json_to_csv() {
    let data = arr(
        vec![
            obj(vec![("city", s("Roma")), ("temp", n("22"))], r#"{"city":"Roma","temp":22}"#),
            obj(vec![("city", s("Milano")), ("temp", n("18"))], r#"{"city":"Milano","temp":18}"#),
        ],
        "",
    );
    let csv = json_to_csv(&data).unwrap();
    assert!(csv.contains("city"));
    assert!(csv.contains("Roma"));
    assert!(csv.contains("Milano"));
    assert_eq!(csv, "city,temp\nRoma,22\nMilano,18\n");
}

#[test]
fn csv_cells_missing_members_and_refusals() {
    let data = arr(
        vec![
            obj(vec![("a", n("1")), ("b", JsonValue::Null)], ""),
            s("skipped"),
            obj(vec![("b", arr(vec![n("1")], "[1]")), ("c", JsonValue::Bool(true))], ""),
        ],
        "",
    );
    assert_eq!(json_to_csv(&data).unwrap(), "a,b\n1,null\n,[1]\n");
    assert_eq!(json_to_csv(&arr(vec![], "[]")).unwrap(), "");
    match json_to_csv(&s("x")) {
        Err(UagError::TranslationFailed(m)) => assert_eq!(m, "Input deve essere un array JSON"),
        other => panic!("unexpected {other:?}"),
    }
    match json_to_csv(&arr(vec![n("1")], "[1]")) {
        Err(UagError::TranslationFailed(m)) => assert_eq!(m, "Array deve contenere oggetti"),
        other => panic!("unexpected {other:?}"),
    }
}

#[test]
fn test_json_to_xml() {
    let data = obj(vec![("city", s("Roma")), ("temp", n("22"))], "");
    let xml = json_to_xml(&data);
    assert!(xml.contains("<?xml"));
    assert!(xml.contains("<city>Roma</city>"));
    assert!(xml.contains("<temp>22</temp>"));
    assert_eq!(
        xml,
        "<?xml version=\"1.0\" encoding=\"UTF-8\"?>\n<root>\n  <city>Roma</city>\n  <temp>22</temp>\n</root>\n"
    );
}

#[test]
fn test_json_array_to_xml() {
    let data = obj(
        vec![("items", arr(vec![obj(vec![("name", s("a"))], ""), obj(vec![("name", s("b"))], "")], ""))],
        "",
    );
    let xml = json_to_xml(&data);
    assert!(xml.contains("<name>a</name>"));
    assert!(xml.contains("<name>b</name>"));
}

#[test]
fn xml_escapes_strings_and_closes_null() {
    let data = obj(vec![("q", s("a<b & \"c\"")), ("none", JsonValue::Null), ("ok", JsonValue::Bool(false))], "");
    assert_eq!(
        json_to_xml(&data),
        "<?xml version=\"1.0\" encoding=\"UTF-8\"?>\n<root>\n  <q>a&lt;b &amp; &quot;c&quot;</q>\n  <none/>\n  <ok>false</ok>\n</root>\n"
    );
}
