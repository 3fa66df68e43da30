use vstd::prelude::*;
use crate::error::NodeXlsxError;
use crate::text::{concat2, str_eq};
use crate::util::ms_or_epoch;
use crate::value::{JsObject, JsValue, missing_prop_msg};

verus! {

/// The kind of value a scale, bar or icon rule compares against.
#[derive(Debug, Clone, Copy)]
pub enum ConditionalFormatType {
    Number,
    Percent,
    Formula,
    Percentile,
    Automatic,
    Lowest,
    Highest,
}

/// A rule operand: a string, the encoding of a host number, or a
/// timestamp in milliseconds with the epoch fallback already applied.
#[derive(Debug)]
pub enum ConditionalFormatValue {
    Text(String),
    Number(u64),
    DateTime(i64),
}

/// The closed keyword table for rule kinds.
pub open spec fn spec_cf_type(s: Seq<char>) -> Option<ConditionalFormatType> {
    if s == "number"@ {
        Some(ConditionalFormatType::Number)
    } else if s == "percent"@ {
        Some(ConditionalFormatType::Percent)
    } else if s == "formula"@ {
        Some(ConditionalFormatType::Formula)
    } else if s == "percentile"@ {
        Some(ConditionalFormatType::Percentile)
    } else if s == "automatic"@ {
        Some(ConditionalFormatType::Automatic)
    } else if s == "lowest"@ {
        Some(ConditionalFormatType::Lowest)
    } else if s == "highest"@ {
        Some(ConditionalFormatType::Highest)
    } else {
        None
    }
}

/// Decodes a rule-kind keyword; an unrecognized keyword is an error that
/// names the offending string verbatim.
pub fn type_from_js_string(s: &str) -> (r: Result<ConditionalFormatType, NodeXlsxError>)
    ensures
        match r {
            Ok(t) => spec_cf_type(s@) == Some(t),
            Err(e) => spec_cf_type(s@) is None && e.message@ == "Invalid ConditionalFormatType: "@
                + s@,
        },
{
    if str_eq(s, "number") {
        Ok(ConditionalFormatType::Number)
    } else if str_eq(s, "percent") {
        Ok(ConditionalFormatType::Percent)
    } else if str_eq(s, "formula") {
        Ok(ConditionalFormatType::Formula)
    } else if str_eq(s, "percentile") {
        Ok(ConditionalFormatType::Percentile)
    } else if str_eq(s, "automatic") {
        Ok(ConditionalFormatType::Automatic)
    } else if str_eq(s, "lowest") {
        Ok(ConditionalFormatType::Lowest)
    } else if str_eq(s, "highest") {
        Ok(ConditionalFormatType::Highest)
    } else {
        Err(NodeXlsxError::new(concat2("Invalid ConditionalFormatType: ", s)))
    }
}

/// Whether `cv` is the rule-operand reading of the host value `v`.
pub open spec fn spec_cf_value_ok(v: JsValue, cv: ConditionalFormatValue) -> bool {
    match v {
        JsValue::Str(s) => cv matches ConditionalFormatValue::Text(t) && t == s.text,
        JsValue::Number(n) => cv matches ConditionalFormatValue::Number(b) && b == n.bits,
        JsValue::Date(n) => cv matches ConditionalFormatValue::DateTime(ms) && ms == ms_or_epoch(
            n.int,
        ),
        _ => false,
    }
}

/// Whether a host value has no rule-operand reading.
pub open spec fn spec_cf_value_fails(v: JsValue) -> bool {
    match v {
        JsValue::Str(_) => false,
        JsValue::Number(_) => false,
        JsValue::Date(_) => false,
        _ => true,
    }
}

pub open spec fn cf_value_err_msg(v: JsValue) -> Seq<char> {
    "Invalid ConditionalFormatValue: "@ + v.spec_repr()
}

/// Decodes a rule operand: a string, a number, or a date.
pub fn value_from_js_value(v: &JsValue) -> (r: Result<ConditionalFormatValue, NodeXlsxError>)
    ensures
        match r {
            Ok(cv) => spec_cf_value_ok(*v, cv),
            Err(e) => spec_cf_value_fails(*v) && e.message@ == cf_value_err_msg(*v),
        },
        r is Err <==> spec_cf_value_fails(*v),
{
    match v {
        JsValue::Str(s) => Ok(ConditionalFormatValue::Text(s.text.clone())),
        JsValue::Number(n) => Ok(ConditionalFormatValue::Number(n.bits)),
        JsValue::Date(n) => Ok(
            ConditionalFormatValue::DateTime(crate::util::js_date_to_naive_date_time(n)),
        ),
        _ => {
            let rep = v.repr();
            Err(NodeXlsxError::new(concat2("Invalid ConditionalFormatValue: ", rep.as_str())))
        },
    }
}

/// A scale, bar or icon threshold rule: its kind plus one operand.
#[derive(Debug)]
pub struct NodeXlsxFormatTypeRule {
    pub r_type: ConditionalFormatType,
    pub value: ConditionalFormatValue,
}

impl NodeXlsxFormatTypeRule {
    /// The rule a host object decodes to: a required `type` keyword and a
    /// required `value` operand.
    pub open spec fn spec_from_js_value(o: JsObject) -> Result<NodeXlsxFormatTypeRule, Seq<char>> {
        match o.spec_get("type"@) {
            JsValue::Str(t) => match spec_cf_type(t.text@) {
                Some(rt) => if spec_cf_value_fails(o.spec_get("value"@)) {
                    Err(cf_value_err_msg(o.spec_get("value"@)))
                } else {
                    Ok(NodeXlsxFormatTypeRule { r_type: rt, value: spec_cf_value_of(o.spec_get("value"@)) })
                },
                _ => Err("Invalid ConditionalFormatType: "@ + t.text@),
            },
            _ => Err(missing_prop_msg("type"@, "string"@)),
        }
    }

    pub fn from_js_value(o: &JsObject) -> (r: Result<NodeXlsxFormatTypeRule, NodeXlsxError>)
        ensures
            crate::error::matches_spec(r, Self::spec_from_js_value(*o)),
    {
        let t = match o.get_string("type") {
            Ok(t) => t,
            Err(e) => {
                return Err(e);
            },
        };
        let r_type = match type_from_js_string(t.as_str()) {
            Ok(rt) => rt,
            Err(e) => {
                return Err(e);
            },
        };
        let undef = JsValue::Undefined;
        let vref = match o.lookup("value") {
            Some(v) => v,
            None => &undef,
        };
        let value = match value_from_js_value(vref) {
            Ok(cv) => cv,
            Err(e) => {
                return Err(e);
            },
        };
        Ok(NodeXlsxFormatTypeRule { r_type, value })
    }
}

/// The rule-operand reading of a host value that has one.
pub open spec fn spec_cf_value_of(v: JsValue) -> ConditionalFormatValue
    recommends
        !spec_cf_value_fails(v),
{
    match v {
        JsValue::Str(s) => ConditionalFormatValue::Text(s.text),
        JsValue::Number(n) => ConditionalFormatValue::Number(n.bits),
        JsValue::Date(n) => ConditionalFormatValue::DateTime(ms_or_epoch(n.int)),
        _ => ConditionalFormatValue::Number(0),
    }
}

/// One comparison of a cell-comparison rule, over one operand type.
#[derive(Debug)]
pub enum ConditionalFormatCellRule<T> {
    EqualTo(T),
    NotEqualTo(T),
    GreaterThan(T),
    GreaterThanOrEqualTo(T),
    LessThan(T),
    LessThanOrEqualTo(T),
    Between(T, T),
    NotBetween(T, T),
}

/// A cell-comparison rule, discriminated by its operand type.
#[derive(Debug)]
pub enum NodeXlsxConditionalFormatCellRule {
    Text(ConditionalFormatCellRule<String>),
    Number(ConditionalFormatCellRule<u64>),
    DateTime(ConditionalFormatCellRule<i64>),
}

/// The comparison a cell-rule keyword names, applied to its operands;
/// `between` and `notBetween` require the second operand and fail with an
/// error naming the keyword when it is missing.
pub open spec fn spec_cell_rule<T>(r_type: Seq<char>, value: T, optional_value: Option<T>) -> Result<
    ConditionalFormatCellRule<T>,
    Seq<char>,
> {
    if r_type == "equalTo"@ {
        Ok(ConditionalFormatCellRule::EqualTo(value))
    } else if r_type == "notEqualTo"@ {
        Ok(ConditionalFormatCellRule::NotEqualTo(value))
    } else if r_type == "greaterThan"@ {
        Ok(ConditionalFormatCellRule::GreaterThan(value))
    } else if r_type == "greaterThanOrEqualTo"@ {
        Ok(ConditionalFormatCellRule::GreaterThanOrEqualTo(value))
    } else if r_type == "lessThan"@ {
        Ok(ConditionalFormatCellRule::LessThan(value))
    } else if r_type == "lessThanOrEqualTo"@ {
        Ok(ConditionalFormatCellRule::LessThanOrEqualTo(value))
    } else if r_type == "between"@ {
        match optional_value {
            Some(ov) => Ok(ConditionalFormatCellRule::Between(value, ov)),
            None => Err("Missing second value for 'between' rule"@),
        }
    } else if r_type == "notBetween"@ {
        match optional_value {
            Some(ov) => Ok(ConditionalFormatCellRule::NotBetween(value, ov)),
            None => Err("Missing second value for 'notBetween' rule"@),
        }
    } else {
        Err("Invalid ConditionalFormatType: "@ + r_type)
    }
}

/// Builds the comparison a cell-rule keyword names; see `spec_cell_rule`.
pub fn set_value_to_writer_variant<T>(r_type: &str, value: T, optional_value: Option<T>) -> (r:
    Result<ConditionalFormatCellRule<T>, NodeXlsxError>)
    ensures
        crate::error::matches_spec(r, spec_cell_rule(r_type@, value, optional_value)),
{
    if str_eq(r_type, "equalTo") {
        Ok(ConditionalFormatCellRule::EqualTo(value))
    } else if str_eq(r_type, "notEqualTo") {
        Ok(ConditionalFormatCellRule::NotEqualTo(value))
    } else if str_eq(r_type, "greaterThan") {
        Ok(ConditionalFormatCellRule::GreaterThan(value))
    } else if str_eq(r_type, "greaterThanOrEqualTo") {
        Ok(ConditionalFormatCellRule::GreaterThanOrEqualTo(value))
    } else if str_eq(r_type, "lessThan") {
        Ok(ConditionalFormatCellRule::LessThan(value))
    } else if str_eq(r_type, "lessThanOrEqualTo") {
        Ok(ConditionalFormatCellRule::LessThanOrEqualTo(value))
    } else if str_eq(r_type, "between") {
        match optional_value {
            Some(ov) => Ok(ConditionalFormatCellRule::Between(value, ov)),
            None => Err(NodeXlsxError::new("Missing second value for 'between' rule".to_owned())),
        }
    } else if str_eq(r_type, "notBetween") {
        match optional_value {
            Some(ov) => Ok(ConditionalFormatCellRule::NotBetween(value, ov)),
            None => Err(
                NodeXlsxError::new("Missing second value for 'notBetween' rule".to_owned()),
            ),
        }
    } else {
        Err(NodeXlsxError::new(concat2("Invalid ConditionalFormatType: ", r_type)))
    }
}

} // verus!
