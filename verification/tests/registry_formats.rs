use node_xlsx::format::Format;
use node_xlsx::registry::{create_format, Registry};
use node_xlsx::value::{JsNumber, JsObject, JsStr, JsValue};

fn num(x: f64) -> JsNumber {
    JsNumber { bits: x.to_bits(), int: x as i64, neg: x < 0.0, repr: format!("{}", x) }
}

fn jstr(t: &str) -> JsValue {
    JsValue::Str(JsStr { text: t.to_string(), number: t.parse::<f64>().ok().map(num) })
}

fn obj(entries: Vec<(&str, JsValue)>) -> JsObject {
    JsObject { entries: entries.into_iter().map(|(k, v)| (k.to_string(), v)).collect() }
}

fn format_payload(id: f64, bold: bool) -> JsObject {
    obj(vec![("id", JsValue::Number(num(id))), ("bold", JsValue::Bool(bold))])
}

#[test]
fn same_id_builds_exactly_one_format() {
    let mut reg: Registry<Format> = Registry::new();
    let id1 = create_format(&format_payload(7.0, true), &mut reg).unwrap();
    let id2 = create_format(&format_payload(7.0, true), &mut reg).unwrap();
    assert_eq!(id1, 7);
    assert_eq!(id2, 7);
    assert_eq!(reg.entries.len(), 1);
}

#[test]
fn first_payload_under_an_id_wins() {
    let mut reg: Registry<Format> = Registry::new();
    create_format(&format_payload(3.0, true), &mut reg).unwrap();
    // a different payload under the same id is ignored unread
    create_format(&format_payload(3.0, false), &mut reg).unwrap();
    assert_eq!(reg.entries.len(), 1);
    assert_eq!(reg.entries[0].1.bold, Some(true));
    // even a malformed payload is ignored once the id is cached
    let bad = obj(vec![("id", JsValue::Number(num(3.0))), ("bold", jstr("yes"))]);
    assert!(create_format(&bad, &mut reg).is_ok());
}

#[test]
fn distinct_ids_build_distinct_formats() {
    let mut reg: Registry<Format> = Registry::new();
    create_format(&format_payload(1.0, true), &mut reg).unwrap();
    create_format(&format_payload(2.0, false), &mut reg).unwrap();
    assert_eq!(reg.entries.len(), 2);
    assert!(reg.get(1).unwrap().bold == Some(true));
    assert!(reg.get(2).unwrap().bold == Some(false));
    assert!(reg.get(9).is_none());
}

#[test]
fn malformed_fresh_payload_fails() {
    let mut reg: Registry<Format> = Registry::new();
    let bad = obj(vec![("id", JsValue::Number(num(4.0))), ("bold", jstr("yes"))]);
    let e = create_format(&bad, &mut reg).unwrap_err();
    assert!(e.message.contains("Error parsing Format:"));
    assert_eq!(reg.entries.len(), 0);
    let no_id = obj(vec![("bold", JsValue::Bool(true))]);
    assert!(create_format(&no_id, &mut reg).is_err());
}

#[test]
fn format_attributes_decode() {
    let payload = obj(vec![
        ("id", JsValue::Number(num(1.0))),
        ("align", jstr("center")),
        ("bold", JsValue::Bool(true)),
        ("fontSize", JsValue::Number(num(14.0))),
        ("numFmt", jstr("0.00")),
        (
            "fontColor",
            JsValue::Object(obj(vec![
                ("red", JsValue::Number(num(255.0))),
                ("green", JsValue::Number(num(128.0))),
                ("blue", JsValue::Number(num(0.0))),
            ])),
        ),
    ]);
    let f = Format::from_js_object(&payload).unwrap();
    assert!(f.bold == Some(true));
    assert!(f.font_size == Some(14));
    assert_eq!(f.num_fmt.as_deref(), Some("0.00"));
    let c = f.font_color.unwrap();
    assert_eq!(c.to_rgb(), 0xFF8000);
}
