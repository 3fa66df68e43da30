use vstd::prelude::*;
use crate::error::NodeXlsxError;
use crate::text::{concat2, str_eq};
use crate::util::Formula;
use crate::value::{JsObject, JsValue, missing_prop_msg};

verus! {

/// A named table style from the closed set of light, medium and dark
/// styles.
#[derive(Debug, Clone, Copy)]
pub enum TableStyle {
    NoStyle,
    Light1,
    Light2,
    Light3,
    Light4,
    Light5,
    Light6,
    Light7,
    Light8,
    Light9,
    Light10,
    Light11,
    Light12,
    Light13,
    Light14,
    Light15,
    Light16,
    Light17,
    Light18,
    Light19,
    Light20,
    Light21,
    Medium1,
    Medium2,
    Medium3,
    Medium4,
    Medium5,
    Medium6,
    Medium7,
    Medium8,
    Medium9,
    Medium10,
    Medium11,
    Medium12,
    Medium13,
    Medium14,
    Medium15,
    Medium16,
    Medium17,
    Medium18,
    Medium19,
    Medium20,
    Medium21,
    Medium22,
    Medium23,
    Medium24,
    Medium25,
    Medium26,
    Medium27,
    Medium28,
    Dark1,
    Dark2,
    Dark3,
    Dark4,
    Dark5,
    Dark6,
    Dark7,
    Dark8,
    Dark9,
    Dark10,
    Dark11,
}

/// The closed keyword table for table styles.
pub open spec fn spec_table_style(s: Seq<char>) -> Option<TableStyle> {
    if s == "none"@ {
        Some(TableStyle::NoStyle)
    } else if s == "light1"@ {
        Some(TableStyle::Light1)
    } else if s == "light2"@ {
        Some(TableStyle::Light2)
    } else if s == "light3"@ {
        Some(TableStyle::Light3)
    } else if s == "light4"@ {
        Some(TableStyle::Light4)
    } else if s == "light5"@ {
        Some(TableStyle::Light5)
    } else if s == "light6"@ {
        Some(TableStyle::Light6)
    } else if s == "light7"@ {
        Some(TableStyle::Light7)
    } else if s == "light8"@ {
        Some(TableStyle::Light8)
    } else if s == "light9"@ {
        Some(TableStyle::Light9)
    } else if s == "light10"@ {
        Some(TableStyle::Light10)
    } else if s == "light11"@ {
        Some(TableStyle::Light11)
    } else if s == "light12"@ {
        Some(TableStyle::Light12)
    } else if s == "light13"@ {
        Some(TableStyle::Light13)
    } else if s == "light14"@ {
        Some(TableStyle::Light14)
    } else if s == "light15"@ {
        Some(TableStyle::Light15)
    } else if s == "light16"@ {
        Some(TableStyle::Light16)
    } else if s == "light17"@ {
        Some(TableStyle::Light17)
    } else if s == "light18"@ {
        Some(TableStyle::Light18)
    } else if s == "light19"@ {
        Some(TableStyle::Light19)
    } else if s == "light20"@ {
        Some(TableStyle::Light20)
    } else if s == "light21"@ {
        Some(TableStyle::Light21)
    } else if s == "medium1"@ {
        Some(TableStyle::Medium1)
    } else if s == "medium2"@ {
        Some(TableStyle::Medium2)
    } else if s == "medium3"@ {
        Some(TableStyle::Medium3)
    } else if s == "medium4"@ {
        Some(TableStyle::Medium4)
    } else if s == "medium5"@ {
        Some(TableStyle::Medium5)
    } else if s == "medium6"@ {
        Some(TableStyle::Medium6)
    } else if s == "medium7"@ {
        Some(TableStyle::Medium7)
    } else if s == "medium8"@ {
        Some(TableStyle::Medium8)
    } else if s == "medium9"@ {
        Some(TableStyle::Medium9)
    } else if s == "medium10"@ {
        Some(TableStyle::Medium10)
    } else if s == "medium11"@ {
        Some(TableStyle::Medium11)
    } else if s == "medium12"@ {
        Some(TableStyle::Medium12)
    } else if s == "medium13"@ {
        Some(TableStyle::Medium13)
    } else if s == "medium14"@ {
        Some(TableStyle::Medium14)
    } else if s == "medium15"@ {
        Some(TableStyle::Medium15)
    } else if s == "medium16"@ {
        Some(TableStyle::Medium16)
    } else if s == "medium17"@ {
        Some(TableStyle::Medium17)
    } else if s == "medium18"@ {
        Some(TableStyle::Medium18)
    } else if s == "medium19"@ {
        Some(TableStyle::Medium19)
    } else if s == "medium20"@ {
        Some(TableStyle::Medium20)
    } else if s == "medium21"@ {
        Some(TableStyle::Medium21)
    } else if s == "medium22"@ {
        Some(TableStyle::Medium22)
    } else if s == "medium23"@ {
        Some(TableStyle::Medium23)
    } else if s == "medium24"@ {
        Some(TableStyle::Medium24)
    } else if s == "medium25"@ {
        Some(TableStyle::Medium25)
    } else if s == "medium26"@ {
        Some(TableStyle::Medium26)
    } else if s == "medium27"@ {
        Some(TableStyle::Medium27)
    } else if s == "medium28"@ {
        Some(TableStyle::Medium28)
    } else if s == "dark1"@ {
        Some(TableStyle::Dark1)
    } else if s == "dark2"@ {
        Some(TableStyle::Dark2)
    } else if s == "dark3"@ {
        Some(TableStyle::Dark3)
    } else if s == "dark4"@ {
        Some(TableStyle::Dark4)
    } else if s == "dark5"@ {
        Some(TableStyle::Dark5)
    } else if s == "dark6"@ {
        Some(TableStyle::Dark6)
    } else if s == "dark7"@ {
        Some(TableStyle::Dark7)
    } else if s == "dark8"@ {
        Some(TableStyle::Dark8)
    } else if s == "dark9"@ {
        Some(TableStyle::Dark9)
    } else if s == "dark10"@ {
        Some(TableStyle::Dark10)
    } else if s == "dark11"@ {
        Some(TableStyle::Dark11)
    } else {
        None
    }
}

/// Decodes a table-style keyword; an unrecognized keyword is an error
/// that names the offending string verbatim.
pub fn string_to_table_style(s: &str) -> (r: Result<TableStyle, NodeXlsxError>)
    ensures
        match r {
            Ok(t) => spec_table_style(s@) == Some(t),
            Err(e) => spec_table_style(s@) is None && e.message@ == "Unknown table style: "@ + s@,
        },
{
    if str_eq(s, "none") {
        Ok(TableStyle::NoStyle)
    } else if str_eq(s, "light1") {
        Ok(TableStyle::Light1)
    } else if str_eq(s, "light2") {
        Ok(TableStyle::Light2)
    } else if str_eq(s, "light3") {
        Ok(TableStyle::Light3)
    } else if str_eq(s, "light4") {
        Ok(TableStyle::Light4)
    } else if str_eq(s, "light5") {
        Ok(TableStyle::Light5)
    } else if str_eq(s, "light6") {
        Ok(TableStyle::Light6)
    } else if str_eq(s, "light7") {
        Ok(TableStyle::Light7)
    } else if str_eq(s, "light8") {
        Ok(TableStyle::Light8)
    } else if str_eq(s, "light9") {
        Ok(TableStyle::Light9)
    } else if str_eq(s, "light10") {
        Ok(TableStyle::Light10)
    } else if str_eq(s, "light11") {
        Ok(TableStyle::Light11)
    } else if str_eq(s, "light12") {
        Ok(TableStyle::Light12)
    } else if str_eq(s, "light13") {
        Ok(TableStyle::Light13)
    } else if str_eq(s, "light14") {
        Ok(TableStyle::Light14)
    } else if str_eq(s, "light15") {
        Ok(TableStyle::Light15)
    } else if str_eq(s, "light16") {
        Ok(TableStyle::Light16)
    } else if str_eq(s, "light17") {
        Ok(TableStyle::Light17)
    } else if str_eq(s, "light18") {
        Ok(TableStyle::Light18)
    } else if str_eq(s, "light19") {
        Ok(TableStyle::Light19)
    } else if str_eq(s, "light20") {
        Ok(TableStyle::Light20)
    } else if str_eq(s, "light21") {
        Ok(TableStyle::Light21)
    } else if str_eq(s, "medium1") {
        Ok(TableStyle::Medium1)
    } else if str_eq(s, "medium2") {
        Ok(TableStyle::Medium2)
    } else if str_eq(s, "medium3") {
        Ok(TableStyle::Medium3)
    } else if str_eq(s, "medium4") {
        Ok(TableStyle::Medium4)
    } else if str_eq(s, "medium5") {
        Ok(TableStyle::Medium5)
    } else if str_eq(s, "medium6") {
        Ok(TableStyle::Medium6)
    } else if str_eq(s, "medium7") {
        Ok(TableStyle::Medium7)
    } else if str_eq(s, "medium8") {
        Ok(TableStyle::Medium8)
    } else if str_eq(s, "medium9") {
        Ok(TableStyle::Medium9)
    } else if str_eq(s, "medium10") {
        Ok(TableStyle::Medium10)
    } else if str_eq(s, "medium11") {
        Ok(TableStyle::Medium11)
    } else if str_eq(s, "medium12") {
        Ok(TableStyle::Medium12)
    } else if str_eq(s, "medium13") {
        Ok(TableStyle::Medium13)
    } else if str_eq(s, "medium14") {
        Ok(TableStyle::Medium14)
    } else if str_eq(s, "medium15") {
        Ok(TableStyle::Medium15)
    } else if str_eq(s, "medium16") {
        Ok(TableStyle::Medium16)
    } else if str_eq(s, "medium17") {
        Ok(TableStyle::Medium17)
    } else if str_eq(s, "medium18") {
        Ok(TableStyle::Medium18)
    } else if str_eq(s, "medium19") {
        Ok(TableStyle::Medium19)
    } else if str_eq(s, "medium20") {
        Ok(TableStyle::Medium20)
    } else if str_eq(s, "medium21") {
        Ok(TableStyle::Medium21)
    } else if str_eq(s, "medium22") {
        Ok(TableStyle::Medium22)
    } else if str_eq(s, "medium23") {
        Ok(TableStyle::Medium23)
    } else if str_eq(s, "medium24") {
        Ok(TableStyle::Medium24)
    } else if str_eq(s, "medium25") {
        Ok(TableStyle::Medium25)
    } else if str_eq(s, "medium26") {
        Ok(TableStyle::Medium26)
    } else if str_eq(s, "medium27") {
        Ok(TableStyle::Medium27)
    } else if str_eq(s, "medium28") {
        Ok(TableStyle::Medium28)
    } else if str_eq(s, "dark1") {
        Ok(TableStyle::Dark1)
    } else if str_eq(s, "dark2") {
        Ok(TableStyle::Dark2)
    } else if str_eq(s, "dark3") {
        Ok(TableStyle::Dark3)
    } else if str_eq(s, "dark4") {
        Ok(TableStyle::Dark4)
    } else if str_eq(s, "dark5") {
        Ok(TableStyle::Dark5)
    } else if str_eq(s, "dark6") {
        Ok(TableStyle::Dark6)
    } else if str_eq(s, "dark7") {
        Ok(TableStyle::Dark7)
    } else if str_eq(s, "dark8") {
        Ok(TableStyle::Dark8)
    } else if str_eq(s, "dark9") {
        Ok(TableStyle::Dark9)
    } else if str_eq(s, "dark10") {
        Ok(TableStyle::Dark10)
    } else if str_eq(s, "dark11") {
        Ok(TableStyle::Dark11)
    } else {
        Err(NodeXlsxError::new(concat2("Unknown table style: ", s)))
    }
}

/// A total-row aggregation, `Custom` carrying its own formula.
#[derive(Debug)]
pub enum TableFunction {
    NoFunction,
    Average,
    Count,
    CountNumbers,
    Max,
    Min,
    Sum,
    StdDev,
    Var,
    Custom(Formula),
}

/// The aggregation a host object decodes to: a required `type` keyword
/// from the closed nine-entry set, with `custom` additionally requiring a
/// formula and failing when it is absent.
pub open spec fn spec_table_function(o: JsObject) -> Result<TableFunction, Seq<char>> {
    match o.spec_get("type"@) {
        JsValue::Str(t) => if t.text@ == "none"@ {
            Ok(TableFunction::NoFunction)
        } else if t.text@ == "average"@ {
            Ok(TableFunction::Average)
        } else if t.text@ == "count"@ {
            Ok(TableFunction::Count)
        } else if t.text@ == "countNumbers"@ {
            Ok(TableFunction::CountNumbers)
        } else if t.text@ == "max"@ {
            Ok(TableFunction::Max)
        } else if t.text@ == "min"@ {
            Ok(TableFunction::Min)
        } else if t.text@ == "sum"@ {
            Ok(TableFunction::Sum)
        } else if t.text@ == "stdDev"@ {
            Ok(TableFunction::StdDev)
        } else if t.text@ == "var"@ {
            Ok(TableFunction::Var)
        } else if t.text@ == "custom"@ {
            match o.spec_get("formula"@) {
                JsValue::Object(fo) => match crate::util::spec_object_to_formula(fo) {
                    Ok(p) => Ok(TableFunction::Custom(p.0)),
                    Err(m) => Err(m),
                },
                JsValue::Undefined => Err("Custom function requires a formula"@),
                _ => Err(missing_prop_msg("formula"@, "object"@)),
            }
        } else {
            Err("Unknown table function type: "@ + t.text@)
        },
        _ => Err(missing_prop_msg("type"@, "string"@)),
    }
}

/// Decodes a total-row aggregation object; see `spec_table_function`.
pub fn object_to_table_function(o: &JsObject) -> (r: Result<TableFunction, NodeXlsxError>)
    ensures
        crate::error::matches_spec(r, spec_table_function(*o)),
{
    let t = match o.get_string("type") {
        Ok(t) => t,
        Err(e) => {
            return Err(e);
        },
    };
    if str_eq(t.as_str(), "none") {
        Ok(TableFunction::NoFunction)
    } else if str_eq(t.as_str(), "average") {
        Ok(TableFunction::Average)
    } else if str_eq(t.as_str(), "count") {
        Ok(TableFunction::Count)
    } else if str_eq(t.as_str(), "countNumbers") {
        Ok(TableFunction::CountNumbers)
    } else if str_eq(t.as_str(), "max") {
        Ok(TableFunction::Max)
    } else if str_eq(t.as_str(), "min") {
        Ok(TableFunction::Min)
    } else if str_eq(t.as_str(), "sum") {
        Ok(TableFunction::Sum)
    } else if str_eq(t.as_str(), "stdDev") {
        Ok(TableFunction::StdDev)
    } else if str_eq(t.as_str(), "var") {
        Ok(TableFunction::Var)
    } else if str_eq(t.as_str(), "custom") {
        match o.get_opt_object("formula") {
            Ok(Some(fo)) => match crate::util::object_to_formula(fo) {
                Ok(p) => Ok(TableFunction::Custom(p.0)),
                Err(e) => Err(e),
            },
            Ok(Option::None) => Err(
                NodeXlsxError::new("Custom function requires a formula".to_owned()),
            ),
            Err(e) => Err(e),
        }
    } else {
        Err(NodeXlsxError::new(concat2("Unknown table function type: ", t.as_str())))
    }
}


} // verus!
