use node_xlsx::conditional_format::data_bar::DataBar;
use node_xlsx::conditional_format::icon::{CustomIcon, Icon};
use node_xlsx::conditional_format::text::Text;
use node_xlsx::conditional_format::top::{ConditionalFormatTopRule, Top};
use node_xlsx::format::Format;
use node_xlsx::registry::Registry;
use node_xlsx::sheet::config::{RowColumnConfig, SizeType, Type};
use node_xlsx::table::util::TableFunction;
use node_xlsx::table::NodeXlsxTable;
use node_xlsx::util::{any_to_string, any_to_url, object_to_formula};
use node_xlsx::value::{JsNumber, JsObject, JsStr, JsValue};

fn num(x: f64) -> JsNumber {
    JsNumber { bits: x.to_bits(), int: x as i64, neg: x < 0.0, repr: format!("{}", x) }
}

fn jstr(t: &str) -> JsValue {
    JsValue::Str(JsStr { text: t.to_string(), number: t.parse::<f64>().ok().map(num) })
}

fn obj(entries: Vec<(&str, JsValue)>) -> JsObject {
    JsObject { entries: entries.into_iter().map(|(k, v)| (k.to_string(), v)).collect() }
}

#[test]
fn string_coercion_of_plain_values() {
    assert_eq!(any_to_string(&JsValue::Null), "");
    assert_eq!(any_to_string(&JsValue::Undefined), "");
    assert_eq!(any_to_string(&JsValue::Bool(true)), "true");
    assert_eq!(any_to_string(&JsValue::Number(num(7.0))), "7");
    assert_eq!(any_to_string(&jstr("plain")), "plain");
}

#[test]
fn url_coercion_accepts_string_and_object() {
    let u = any_to_url(&jstr("https://a.example/")).unwrap();
    assert_eq!(u.url, "https://a.example/");
    assert!(u.text.is_none());
    let u = any_to_url(&JsValue::Object(obj(vec![
        ("url", jstr("https://b.example/")),
        ("text", jstr("B")),
        ("tip", jstr("the b site")),
    ])))
    .unwrap();
    assert_eq!(u.url, "https://b.example/");
    assert_eq!(u.text.as_deref(), Some("B"));
    assert_eq!(u.tip.as_deref(), Some("the b site"));
    let e = any_to_url(&JsValue::Bool(false)).unwrap_err();
    assert_eq!(e.message, "Value cannot be converted to URL: false");
}

#[test]
fn formula_object_decodes_with_flags() {
    let (f, dynamic) = object_to_formula(&obj(vec![
        ("formula", jstr("=A1+A2")),
        ("result", jstr("3")),
        ("useFutureFunctions", JsValue::Bool(true)),
        ("dynamic", JsValue::Bool(true)),
    ]))
    .unwrap();
    assert_eq!(f.formula, "=A1+A2");
    assert_eq!(f.result.as_deref(), Some("3"));
    assert_eq!(f.use_future_functions, Some(true));
    assert!(f.use_table_functions.is_none());
    assert!(dynamic);
    let (_, dynamic) = object_to_formula(&obj(vec![("formula", jstr("=B1"))])).unwrap();
    assert!(!dynamic);
}

#[test]
fn row_and_column_configs_decode_with_units() {
    let mut reg: Registry<Format> = Registry::new();
    let c = RowColumnConfig::from_js_object(
        &obj(vec![
            ("index", JsValue::Number(num(4.0))),
            (
                "size",
                JsValue::Object(obj(vec![("value", JsValue::Number(num(25.0)))])),
            ),
        ]),
        Type::ROW,
        &mut reg,
    )
    .unwrap();
    assert_eq!(c.index, 4);
    assert!(matches!(c.size.as_ref().unwrap().unit, SizeType::AUTO));
    let c = RowColumnConfig::from_js_object(
        &obj(vec![
            ("index", JsValue::Number(num(2.0))),
            (
                "size",
                JsValue::Object(obj(vec![
                    ("value", JsValue::Number(num(40.0))),
                    ("unit", jstr("Px")),
                ])),
            ),
            ("hidden", JsValue::Bool(false)),
        ]),
        Type::COLUMN,
        &mut reg,
    )
    .unwrap();
    assert!(matches!(c.size.as_ref().unwrap().unit, SizeType::PX));
    assert_eq!(c.hidden, Some(false));
    let e = RowColumnConfig::from_js_object(
        &obj(vec![
            ("index", JsValue::Number(num(1.0))),
            (
                "size",
                JsValue::Object(obj(vec![
                    ("value", JsValue::Number(num(9.0))),
                    ("unit", jstr("inches")),
                ])),
            ),
        ]),
        Type::ROW,
        &mut reg,
    )
    .unwrap_err();
    assert!(e.message.contains("Invalid sizeType: inches"));
}

#[test]
fn table_decodes_columns_and_style() {
    let mut reg: Registry<Format> = Registry::new();
    let t = NodeXlsxTable::from_js_object(
        &obj(vec![
            ("name", jstr("Inventory")),
            ("autoFilter", JsValue::Bool(true)),
            ("bandedColumns", JsValue::Bool(false)),
            ("bandedRows", JsValue::Bool(true)),
            (
                "columns",
                JsValue::Array(vec![JsValue::Object(obj(vec![
                    ("header", jstr("Total")),
                    (
                        "totalFunction",
                        JsValue::Object(obj(vec![("type", jstr("sum"))])),
                    ),
                ]))]),
            ),
            ("firstColumnHighlighted", JsValue::Bool(false)),
            ("lastColumnHighlighted", JsValue::Bool(false)),
            ("headerRow", JsValue::Bool(true)),
            ("style", jstr("medium9")),
            ("totalRow", JsValue::Bool(true)),
        ]),
        &mut reg,
    )
    .unwrap();
    assert_eq!(t.name.as_deref(), Some("Inventory"));
    assert_eq!(t.columns.len(), 1);
    assert_eq!(t.columns[0].header.as_deref(), Some("Total"));
    assert!(matches!(t.columns[0].total_function, Some(TableFunction::Sum)));
    assert!(t.style.is_some());
}

#[test]
fn custom_total_function_requires_a_formula() {
    let e = node_xlsx::table::util::object_to_table_function(&obj(vec![("type", jstr("custom"))])).unwrap_err();
    assert_eq!(e.message, "Custom function requires a formula");
    let f = node_xlsx::table::util::object_to_table_function(&obj(vec![
        ("type", jstr("custom")),
        ("formula", JsValue::Object(obj(vec![("formula", jstr("=SUM(X)"))]))),
    ]))
    .unwrap();
    assert!(matches!(f, TableFunction::Custom(_)));
}

#[test]
fn data_bar_decodes_rules_and_colors() {
    let d = DataBar::from_js_value(&obj(vec![
        ("direction", jstr("leftToRight")),
        (
            "fillColor",
            JsValue::Object(obj(vec![
                ("red", JsValue::Number(num(0.0))),
                ("green", JsValue::Number(num(0.0))),
                ("blue", JsValue::Number(num(255.0))),
            ])),
        ),
        (
            "minRule",
            JsValue::Object(obj(vec![
                ("type", jstr("number")),
                ("value", JsValue::Number(num(0.0))),
            ])),
        ),
        ("solidFill", JsValue::Bool(true)),
    ]))
    .unwrap();
    assert!(d.direction.is_some());
    assert!(d.fill_color.is_some());
    assert!(d.min_rule.is_some());
    assert_eq!(d.solid_fill, Some(true));
    let e = DataBar::from_js_value(&obj(vec![("direction", jstr("upwards"))])).unwrap_err();
    assert_eq!(e.message, "Invalid value for bar direction: upwards");
}

#[test]
fn icon_set_requires_index_with_icon_type() {
    let e = CustomIcon::from_js_object(&obj(vec![
        ("greaterThan", JsValue::Bool(false)),
        ("noIcon", JsValue::Bool(false)),
        ("iconType", jstr("threeFlags")),
    ]))
    .unwrap_err();
    assert_eq!(e.message, "iconTypeIndex is required when icon is set");
    let i = Icon::from_js_object(&obj(vec![
        ("reverse", JsValue::Bool(false)),
        ("showIconsOnly", JsValue::Bool(true)),
        ("icons", JsValue::Array(vec![])),
        ("iconType", jstr("fiveArrows")),
    ]))
    .unwrap();
    assert!(i.show_icons_only);
    assert!(i.icons.is_empty());
}

#[test]
fn text_and_top_read_stop_if_true_as_string() {
    let mut reg: Registry<Format> = Registry::new();
    let t = Text::from_js_object(
        &obj(vec![
            (
                "rule",
                JsValue::Object(obj(vec![("type", jstr("beginsWith")), ("value", jstr("ab"))])),
            ),
            ("stopIfTrue", jstr("true")),
        ]),
        &mut reg,
    )
    .unwrap();
    assert_eq!(t.stop_if_true, Some(true));
    let t = Top::from_js_object(
        &obj(vec![
            (
                "rule",
                JsValue::Object(obj(vec![
                    ("type", jstr("topPercent")),
                    ("value", JsValue::Number(num(10.0))),
                ])),
            ),
            ("stopIfTrue", jstr("no")),
        ]),
        &mut reg,
    )
    .unwrap();
    assert_eq!(t.stop_if_true, Some(false));
    assert!(matches!(t.rule, ConditionalFormatTopRule::TopPercent(10)));
}
