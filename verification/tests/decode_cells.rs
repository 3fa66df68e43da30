use node_xlsx::cell::{decode_col, decode_row, NodeXlsxCell};
use node_xlsx::border::format_border_from_js_string;
use node_xlsx::conditional_format::icon::icon_from_js_string;
use node_xlsx::conditional_format::rule::set_value_to_writer_variant;
use node_xlsx::format::{align_from_js_string, Format};
use node_xlsx::registry::Registry;
use node_xlsx::table::util::string_to_table_style;
use node_xlsx::types::NodeXlsxTypes;
use node_xlsx::util::any_to_number;
use node_xlsx::value::{JsNumber, JsObject, JsStr, JsValue};

fn num(x: f64) -> JsNumber {
    JsNumber { bits: x.to_bits(), int: x as i64, neg: x < 0.0, repr: format!("{}", x) }
}

fn jstr(t: &str) -> JsValue {
    JsValue::Str(JsStr { text: t.to_string(), number: t.parse::<f64>().ok().map(num) })
}

fn obj(entries: Vec<(&str, JsValue)>) -> JsObject {
    JsObject { entries: entries.into_iter().map(|(k, v)| (k.to_string(), v)).collect() }
}

fn cell_obj(col: f64, row: f64) -> JsObject {
    obj(vec![
        ("col", JsValue::Number(num(col))),
        ("row", JsValue::Number(num(row))),
        ("cellType", jstr("string")),
        ("value", jstr("x")),
    ])
}

#[test]
fn in_range_coordinates_decode() {
    let o = cell_obj(0.0, 0.0);
    assert_eq!(decode_col(&o).unwrap(), 0);
    assert_eq!(decode_row(&o).unwrap(), 0);
    let o = cell_obj(16383.0, 1048575.0);
    assert_eq!(decode_col(&o).unwrap(), 16383);
    assert_eq!(decode_row(&o).unwrap(), 1048575);
}

#[test]
fn out_of_range_column_fails_with_bounds_error() {
    let o = cell_obj(16384.0, 0.0);
    let e = decode_col(&o).unwrap_err();
    assert_eq!(e.message, "Column with illegal number 16384");
    let o = cell_obj(-1.0, 0.0);
    assert!(decode_col(&o).is_err());
}

#[test]
fn out_of_range_row_fails_with_bounds_error() {
    let o = cell_obj(0.0, 1048576.0);
    let e = decode_row(&o).unwrap_err();
    assert_eq!(e.message, "Row with illegal number 1048576");
    let o = cell_obj(0.0, -3.0);
    assert!(decode_row(&o).is_err());
}

#[test]
fn whole_cell_decodes_and_out_of_range_cell_fails() {
    let mut reg: Registry<Format> = Registry::new();
    let c = NodeXlsxCell::from_js_object(&cell_obj(5.0, 7.0), &mut reg).unwrap();
    assert_eq!(c.col, 5);
    assert_eq!(c.row, 7);
    assert!(c.format.is_none());
    let e = NodeXlsxCell::from_js_object(&cell_obj(16384.0, 7.0), &mut reg).unwrap_err();
    assert!(e.message.contains("Column with illegal number 16384"));
    assert!(e.message.contains("Error parsing cell:"));
}

#[test]
fn cell_type_tags_are_case_insensitive() {
    let t = NodeXlsxTypes::from_js_string(Some(&"NUMBER".to_string()), &JsValue::Number(num(4.5)))
        .unwrap();
    assert!(matches!(t, NodeXlsxTypes::Number(b) if b == 4.5f64.to_bits()));
    let t = NodeXlsxTypes::from_js_string(Some(&"String".to_string()), &jstr("hi")).unwrap();
    assert!(matches!(t, NodeXlsxTypes::Text(s) if s == "hi"));
}

#[test]
fn untagged_or_unknown_tag_coerces_to_string() {
    let t = NodeXlsxTypes::from_js_string(None, &JsValue::Number(num(3.0))).unwrap();
    assert!(matches!(t, NodeXlsxTypes::Unknown(s) if s == "3"));
    let t = NodeXlsxTypes::from_js_string(Some(&"mystery".to_string()), &JsValue::Null).unwrap();
    assert!(matches!(t, NodeXlsxTypes::Unknown(s) if s.is_empty()));
}

#[test]
fn number_coercion_rules() {
    let n = any_to_number(&JsValue::Number(num(2.5))).unwrap();
    assert_eq!(n.bits, 2.5f64.to_bits());
    let n = any_to_number(&jstr("42")).unwrap();
    assert_eq!(n.bits, 42.0f64.to_bits());
    let n = any_to_number(&JsValue::Null).unwrap();
    assert_eq!(n.bits, 0);
    let n = any_to_number(&JsValue::Undefined).unwrap();
    assert_eq!(n.int, 0);
    let e = any_to_number(&jstr("not a number")).unwrap_err();
    assert_eq!(e.message, "Value cannot be converted to number: \"not a number\"");
    assert!(any_to_number(&JsValue::Bool(true)).is_err());
}

#[test]
fn out_of_range_date_decodes_to_epoch() {
    // a timestamp far outside chrono's representable range
    let huge = 300_000_000_000_000_000i64;
    assert!(chrono::DateTime::from_timestamp_millis(huge).is_none());
    let mut bad = num(0.0);
    bad.int = huge;
    let t = NodeXlsxTypes::from_js_string(Some(&"date".to_string()), &JsValue::Date(bad)).unwrap();
    assert!(matches!(t, NodeXlsxTypes::Date(ms) if ms == 0));
    // an ordinary timestamp is kept as it is
    let t = NodeXlsxTypes::from_js_string(
        Some(&"date".to_string()),
        &JsValue::Date(num(1662921288000.0)),
    )
    .unwrap();
    assert!(matches!(t, NodeXlsxTypes::Date(ms) if ms == 1662921288000));
}

#[test]
fn unrecognized_keywords_fail_verbatim() {
    let e = format_border_from_js_string("wavy").unwrap_err();
    assert_eq!(e.message, "Unknown border type: wavy");
    let e = align_from_js_string("sideways").unwrap_err();
    assert_eq!(e.message, "Unknown align type: sideways");
    let e = icon_from_js_string("sixSmileys").unwrap_err();
    assert_eq!(e.message, "Invalid ConditionalFormatIconType: sixSmileys");
    let e = string_to_table_style("pastel3").unwrap_err();
    assert_eq!(e.message, "Unknown table style: pastel3");
}

#[test]
fn recognized_keywords_decode() {
    assert!(format_border_from_js_string("medium_dash_dot_dot").is_ok());
    assert!(align_from_js_string("verticalCenter").is_ok());
    assert!(icon_from_js_string("fiveBoxes").is_ok());
    assert!(string_to_table_style("dark11").is_ok());
    assert!(string_to_table_style("none").is_ok());
}

#[test]
fn between_rule_requires_two_operands() {
    let e = set_value_to_writer_variant("between", 1.0f64.to_bits(), None).unwrap_err();
    assert_eq!(e.message, "Missing second value for 'between' rule");
    let r = set_value_to_writer_variant("between", 1.0f64.to_bits(), Some(9.0f64.to_bits()));
    assert!(r.is_ok());
    let e = set_value_to_writer_variant("notBetween", 1.0f64.to_bits(), None).unwrap_err();
    assert_eq!(e.message, "Missing second value for 'notBetween' rule");
    let e = set_value_to_writer_variant("overlaps", 1.0f64.to_bits(), None).unwrap_err();
    assert_eq!(e.message, "Invalid ConditionalFormatType: overlaps");
}
