use node_xlsx::ops::SheetOp;
use node_xlsx::value::{JsNumber, JsObject, JsStr, JsValue};
use node_xlsx::workbook::{buffer_to_base64, NodeXlsxWorkbook};

fn num(x: f64) -> JsNumber {
    JsNumber { bits: x.to_bits(), int: x as i64, neg: x < 0.0, repr: format!("{}", x) }
}

fn jstr(t: &str) -> JsValue {
    JsValue::Str(JsStr { text: t.to_string(), number: t.parse::<f64>().ok().map(num) })
}

fn obj(entries: Vec<(&str, JsValue)>) -> JsObject {
    JsObject { entries: entries.into_iter().map(|(k, v)| (k.to_string(), v)).collect() }
}

fn cell(col: f64, row: f64, tag: &str, value: JsValue) -> JsValue {
    JsValue::Object(obj(vec![
        ("col", JsValue::Number(num(col))),
        ("row", JsValue::Number(num(row))),
        ("cellType", jstr(tag)),
        ("value", value),
    ]))
}

/// Runs the assembly scripts of a decoded workbook against the document
/// encoder and returns the encoded bytes.
fn encode(workbook: &NodeXlsxWorkbook) -> Vec<u8> {
    let mut native = rust_xlsxwriter::Workbook::new();
    for sheet in &workbook.sheets {
        let mut ws = rust_xlsxwriter::Worksheet::new();
        for op in sheet.to_ops() {
            match op {
                SheetOp::SetName { name } => {
                    ws.set_name(&name).unwrap();
                }
                SheetOp::WriteString { row, col, value } => {
                    ws.write_string(row, col, &value).unwrap();
                }
                SheetOp::WriteNumber { row, col, value } => {
                    ws.write_number(row, col, f64::from_bits(value)).unwrap();
                }
                SheetOp::WriteUrl { row, col, url } => {
                    let mut u = rust_xlsxwriter::Url::new(url.url);
                    if let Some(text) = url.text {
                        u = u.set_text(text);
                    }
                    if let Some(tip) = url.tip {
                        u = u.set_tip(tip);
                    }
                    ws.write_url(row, col, u).unwrap();
                }
                _ => panic!("op not covered by this test executor"),
            }
        }
        native.push_worksheet(ws);
    }
    native.save_to_buffer().unwrap()
}


fn sample_workbook() -> NodeXlsxWorkbook {
    let o = obj(vec![(
        "sheets",
        JsValue::Array(vec![JsValue::Object(obj(vec![
            ("name", jstr("S1")),
            (
                "cells",
                JsValue::Array(vec![
                    cell(0.0, 0.0, "string", jstr("name")),
                    cell(1.0, 0.0, "string", jstr("value")),
                    cell(0.0, 1.0, "number", JsValue::Number(num(1.5))),
                    cell(1.0, 1.0, "number", JsValue::Number(num(42.0))),
                    cell(0.0, 2.0, "link", jstr("https://example.com/")),
                ]),
            ),
        ]))]),
    )]);
    NodeXlsxWorkbook::from_js_object(&o).unwrap()
}

#[test]
fn buffer_starts_with_archive_magic() {
    let o = obj(vec![(
        "sheets",
        JsValue::Array(vec![JsValue::Object(obj(vec![
            ("name", jstr("S1")),
            (
                "cells",
                JsValue::Array(vec![
                    cell(0.0, 0.0, "string", jstr("hi")),
                    cell(0.0, 1.0, "number", JsValue::Number(num(42.0))),
                ]),
            ),
        ]))]),
    )]);
    let w = NodeXlsxWorkbook::from_js_object(&o).unwrap();
    let buffer = encode(&w);
    assert!(!buffer.is_empty());
    assert_eq!(&buffer[0..2], b"PK");
}

#[test]
fn base64_save_decodes_to_the_same_bytes() {
    let w = sample_workbook();
    let buffer = encode(&w);
    let b64 = buffer_to_base64(&buffer).unwrap();
    let decoded = base64::Engine::decode(&base64::engine::general_purpose::STANDARD, &b64).unwrap();
    assert_eq!(decoded, buffer);
    assert_eq!(b64.len(), 4 * ((buffer.len() + 2) / 3));
}

#[test]
fn encoding_is_deterministic_across_save_paths() {
    let w1 = sample_workbook();
    let w2 = sample_workbook();
    let buffer1 = encode(&w1);
    let buffer2 = encode(&w2);
    assert_eq!(buffer1, buffer2);
}

#[test]
fn workbook_without_sheets_key_fails() {
    let o = obj(vec![]);
    assert!(NodeXlsxWorkbook::from_js_object(&o).is_err());
}

#[test]
fn bad_cell_in_any_sheet_aborts_the_workbook() {
    let o = obj(vec![(
        "sheets",
        JsValue::Array(vec![
            JsValue::Object(obj(vec![
                ("name", jstr("Good")),
                ("cells", JsValue::Array(vec![cell(0.0, 0.0, "string", jstr("x"))])),
            ])),
            JsValue::Object(obj(vec![
                ("name", jstr("Bad")),
                ("cells", JsValue::Array(vec![cell(99999.0, 0.0, "string", jstr("y"))])),
            ])),
        ]),
    )]);
    assert!(NodeXlsxWorkbook::from_js_object(&o).is_err());
}
