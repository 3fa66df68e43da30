use node_xlsx::ops::SheetOp;
use node_xlsx::sheet::NodeXlsxSheet;
use node_xlsx::value::{JsNumber, JsObject, JsStr, JsValue};

fn num(x: f64) -> JsNumber {
    JsNumber { bits: x.to_bits(), int: x as i64, neg: x < 0.0, repr: format!("{}", x) }
}

fn jstr(t: &str) -> JsValue {
    JsValue::Str(JsStr { text: t.to_string(), number: t.parse::<f64>().ok().map(num) })
}

fn obj(entries: Vec<(&str, JsValue)>) -> JsObject {
    JsObject { entries: entries.into_iter().map(|(k, v)| (k.to_string(), v)).collect() }
}

fn formula_cell(col: f64, row: f64, dynamic: bool, with_format: bool) -> JsValue {
    let mut formula = vec![("formula", jstr("=SUM(A1:A3)"))];
    if dynamic {
        formula.push(("dynamic", JsValue::Bool(true)));
    }
    let mut entries = vec![
        ("col", JsValue::Number(num(col))),
        ("row", JsValue::Number(num(row))),
        ("cellType", jstr("formula")),
        ("value", JsValue::Object(obj(formula))),
    ];
    if with_format {
        entries.push((
            "format",
            JsValue::Object(obj(vec![
                ("id", JsValue::Number(num(col))),
                ("bold", JsValue::Bool(true)),
            ])),
        ));
    }
    JsValue::Object(obj(entries))
}

fn sheet_with_cells(cells: Vec<JsValue>) -> JsObject {
    obj(vec![("name", jstr("S1")), ("cells", JsValue::Array(cells))])
}

#[test]
fn formula_cells_route_to_four_distinct_writes() {
    let o = sheet_with_cells(vec![
        formula_cell(0.0, 0.0, true, false),
        formula_cell(1.0, 0.0, true, true),
        formula_cell(2.0, 0.0, false, false),
        formula_cell(3.0, 0.0, false, true),
    ]);
    let s = NodeXlsxSheet::from_js_object(&o).unwrap();
    let ops = s.to_ops();
    assert_eq!(ops.len(), 5);
    assert!(matches!(ops[0], SheetOp::SetName { .. }));
    assert!(matches!(ops[1], SheetOp::WriteDynamicFormula { .. }));
    assert!(matches!(ops[2], SheetOp::WriteDynamicFormulaWithFormat { .. }));
    assert!(matches!(ops[3], SheetOp::WriteFormula { .. }));
    assert!(matches!(ops[4], SheetOp::WriteFormulaWithFormat { .. }));
}

#[test]
fn assembly_order_is_fixed() {
    let o = obj(vec![
        ("name", jstr("Order")),
        (
            "cells",
            JsValue::Array(vec![JsValue::Object(obj(vec![
                ("col", JsValue::Number(num(0.0))),
                ("row", JsValue::Number(num(0.0))),
                ("cellType", jstr("string")),
                ("value", jstr("hello")),
            ]))]),
        ),
        (
            "conditionalFormats",
            JsValue::Array(vec![JsValue::Object(obj(vec![
                ("firstRow", JsValue::Number(num(0.0))),
                ("lastRow", JsValue::Number(num(5.0))),
                ("firstColumn", JsValue::Number(num(0.0))),
                ("lastColumn", JsValue::Number(num(2.0))),
                (
                    "format",
                    JsValue::Object(obj(vec![
                        ("type", jstr("duplicate")),
                        ("id", JsValue::Number(num(1.0))),
                        ("invert", JsValue::Bool(false)),
                    ])),
                ),
            ]))]),
        ),
        (
            "rowConfigs",
            JsValue::Array(vec![JsValue::Object(obj(vec![
                ("index", JsValue::Number(num(2.0))),
                (
                    "size",
                    JsValue::Object(obj(vec![
                        ("value", JsValue::Number(num(30.0))),
                        ("unit", jstr("PX")),
                    ])),
                ),
                ("hidden", JsValue::Bool(true)),
            ]))]),
        ),
    ]);
    let s = NodeXlsxSheet::from_js_object(&o).unwrap();
    let ops = s.to_ops();
    assert!(matches!(ops[0], SheetOp::SetName { ref name } if name == "Order"));
    assert!(
        matches!(ops[1], SheetOp::AddConditionalFormat { first_row: 0, last_row: 5, first_column: 0, last_column: 2, id: 1 })
    );
    assert!(matches!(ops[2], SheetOp::SetRowHeightPixels { row: 2, height: 30 }));
    assert!(matches!(ops[3], SheetOp::SetRowHidden { row: 2 }));
    assert!(matches!(ops[4], SheetOp::WriteString { row: 0, col: 0, ref value } if value == "hello"));
    assert_eq!(ops.len(), 5);
}

#[test]
fn conditional_format_variants_register_once_per_id() {
    let cf = |id: f64| {
        JsValue::Object(obj(vec![
            ("firstRow", JsValue::Number(num(0.0))),
            ("lastRow", JsValue::Number(num(1.0))),
            ("firstColumn", JsValue::Number(num(0.0))),
            ("lastColumn", JsValue::Number(num(1.0))),
            (
                "format",
                JsValue::Object(obj(vec![
                    ("type", jstr("blank")),
                    ("id", JsValue::Number(num(id))),
                    ("invert", JsValue::Bool(true)),
                ])),
            ),
        ]))
    };
    let o = obj(vec![
        ("name", jstr("CF")),
        ("conditionalFormats", JsValue::Array(vec![cf(9.0), cf(9.0), cf(4.0)])),
    ]);
    let s = NodeXlsxSheet::from_js_object(&o).unwrap();
    assert_eq!(s.conditional_formats.len(), 3);
    assert_eq!(s.conditional_format_map.entries.len(), 2);
}

#[test]
fn unknown_rule_kind_fails_verbatim() {
    let o = obj(vec![
        ("name", jstr("CF")),
        (
            "conditionalFormats",
            JsValue::Array(vec![JsValue::Object(obj(vec![
                ("firstRow", JsValue::Number(num(0.0))),
                ("lastRow", JsValue::Number(num(1.0))),
                ("firstColumn", JsValue::Number(num(0.0))),
                ("lastColumn", JsValue::Number(num(1.0))),
                (
                    "format",
                    JsValue::Object(obj(vec![
                        ("type", jstr("rainbow")),
                        ("id", JsValue::Number(num(1.0))),
                    ])),
                ),
            ]))]),
        ),
    ]);
    let e = NodeXlsxSheet::from_js_object(&o).unwrap_err();
    assert_eq!(e.message, "Invalid ConditionalFormatType: rainbow");
}

#[test]
fn cell_between_rule_errors_propagate() {
    let o = obj(vec![
        ("name", jstr("CF")),
        (
            "conditionalFormats",
            JsValue::Array(vec![JsValue::Object(obj(vec![
                ("firstRow", JsValue::Number(num(0.0))),
                ("lastRow", JsValue::Number(num(1.0))),
                ("firstColumn", JsValue::Number(num(0.0))),
                ("lastColumn", JsValue::Number(num(1.0))),
                (
                    "format",
                    JsValue::Object(obj(vec![
                        ("type", jstr("cell")),
                        ("id", JsValue::Number(num(1.0))),
                        (
                            "rule",
                            JsValue::Object(obj(vec![
                                ("type", jstr("between")),
                                ("value", JsValue::Number(num(1.0))),
                            ])),
                        ),
                    ])),
                ),
            ]))]),
        ),
    ]);
    let e = NodeXlsxSheet::from_js_object(&o).unwrap_err();
    assert_eq!(e.message, "Missing second value for 'between' rule");
}

#[test]
fn conditional_format_bounds_error_names_the_number() {
    let o = obj(vec![
        ("name", jstr("CF")),
        (
            "conditionalFormats",
            JsValue::Array(vec![JsValue::Object(obj(vec![
                ("firstRow", JsValue::Number(num(2000000.0))),
                ("lastRow", JsValue::Number(num(1.0))),
                ("firstColumn", JsValue::Number(num(0.0))),
                ("lastColumn", JsValue::Number(num(1.0))),
                (
                    "format",
                    JsValue::Object(obj(vec![
                        ("type", jstr("blank")),
                        ("id", JsValue::Number(num(1.0))),
                        ("invert", JsValue::Bool(false)),
                    ])),
                ),
            ]))]),
        ),
    ]);
    let e = NodeXlsxSheet::from_js_object(&o).unwrap_err();
    assert_eq!(e.message, "Row with illegal number 2000000");
}

#[test]
fn sheet_without_name_fails() {
    let o = obj(vec![("cells", JsValue::Array(vec![]))]);
    assert!(NodeXlsxSheet::from_js_object(&o).is_err());
}
