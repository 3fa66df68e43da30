use vstd::prelude::*;
use crate::conditional_format::c_type::NodeXlsxConditionalFormatType;
use crate::error::NodeXlsxError;
use crate::format::Format;
use crate::registry::{Registry, format_step_rel, has_id, opt_format_ref, spec_fresh_format_err, spec_opt_format_id};
use crate::util::{spec_opt_bool, spec_opt_string};
use crate::text::{concat2, str_eq};
use crate::value::{JsObject, JsValue, missing_prop_msg};

verus! {

/// The above/below-average rule kind.
#[derive(Debug)]
pub struct Average {
    pub multi_range: Option<String>,
    pub stop_if_true: Option<bool>,
    pub rule: Option<ConditionalFormatAverageRule>,
    pub format: Option<u32>,
}

impl Average {
    /// The kind a host object decodes to: shared attributes, a required
    /// `invert` flag, and an optional format reference.
    pub open spec fn spec_from_js_object(o: JsObject) -> Result<Average, Seq<char>> {
        let multi_range = spec_opt_string(o, "multiRange"@);
        let stop_if_true = spec_opt_bool(o, "stopIfTrue"@);
        let rule = match o.spec_get("rule"@) {
            JsValue::Undefined => Ok(Option::None),
            JsValue::Str(s) => match spec_average_rule(s.text@) {
                Some(a) => Ok(Option::Some(a)),
                _ => Err("Invalid ConditionalFormatAverageRule: "@ + s.text@),
            },
            _ => Err(missing_prop_msg("rule"@, "string"@)),
        };
        let format = spec_opt_format_id(o, "format"@);
        if multi_range is Err {
            Err(multi_range->Err_0)
        } else if stop_if_true is Err {
            Err(stop_if_true->Err_0)
        } else if rule is Err {
            Err(rule->Err_0)
        } else if format is Err {
            Err(format->Err_0)
        } else {
            Ok(
                Average {
                    multi_range: multi_range->Ok_0,
                    stop_if_true: stop_if_true->Ok_0,
                    rule: rule->Ok_0,
                    format: format->Ok_0,
                },
            )
        }
    }

    pub fn from_js_object(o: &JsObject, format_map: &mut Registry<Format>) -> (r: Result<
        Average,
        NodeXlsxError,
    >)
        ensures
            match r {
                Ok(k) => Average::spec_from_js_object(*o) == Ok::<Average, Seq<char>>(k)
                    && format_step_rel(*o, "format"@, old(format_map).entries@, final(format_map).entries@),
                Err(e) => final(format_map).entries@ == old(format_map).entries@ && match Average::spec_from_js_object(
                    *o,
                ) {
                    Err(m) => e.message@ == m,
                    Ok(_) => spec_fresh_format_err(*o, "format"@, old(format_map).entries@) matches Some(m)
                        && e.message@ == m,
                },
            },
            old(format_map).wf() ==> final(format_map).wf(),
    {
        let multi_range = match o.get_opt_string("multiRange") {
            Ok(x) => x,
            Err(e) => {
                return Err(e);
            },
        };
        let stop_if_true = match o.get_opt_bool("stopIfTrue") {
            Ok(x) => x,
            Err(e) => {
                return Err(e);
            },
        };
        let rule = match o.get_opt_string("rule") {
            Ok(Some(s)) => match average_rule_from_js_string(s.as_str()) {
                Ok(a) => Some(a),
                Err(e) => {
                    return Err(e);
                },
            },
            Ok(Option::None) => Option::None,
            Err(e) => {
                return Err(e);
            },
        };
        let format = match opt_format_ref(o, "format", format_map) {
            Ok(f) => f,
            Err(e) => {
                return Err(e);
            },
        };
        Ok(Average { multi_range, stop_if_true, rule, format })
    }

    /// Registers the kind under the payload's id with the first-wins
    /// policy: a payload under a registered id is ignored unread.
    pub fn create_and_set_to_map(
        o: &JsObject,
        c_format_map: &mut Registry<NodeXlsxConditionalFormatType>,
        format_map: &mut Registry<Format>,
    ) -> (r: Result<u32, NodeXlsxError>)
        ensures
            match r {
                Ok(id) => {
                    &&& o.spec_get("id"@) matches JsValue::Number(n) && id == n.spec_u32()
                    &&& if has_id(old(c_format_map).entries@, id) {
                        final(c_format_map).entries@ == old(c_format_map).entries@ && final(format_map).entries@ == old(format_map).entries@
                    } else {
                        Average::spec_from_js_object(*o) matches Ok(k) && final(c_format_map).entries@ == old(c_format_map).entries@.push(
                            (id, NodeXlsxConditionalFormatType::Average(k)),
                        ) && format_step_rel(
                            *o,
                            "format"@,
                            old(format_map).entries@,
                            final(format_map).entries@,
                        )
                    }
                },
                Err(e) => {
                    &&& final(c_format_map).entries@ == old(c_format_map).entries@
                    &&& final(format_map).entries@ == old(format_map).entries@
                    &&& match o.spec_get("id"@) {
                        JsValue::Number(n) => !has_id(old(c_format_map).entries@, n.spec_u32())
                            && match Average::spec_from_js_object(*o) {
                            Err(m) => e.message@ == m,
                            Ok(_) => spec_fresh_format_err(*o, "format"@, old(format_map).entries@) matches
                                Some(m) && e.message@ == m,
                        },
                        _ => e.message@ == missing_prop_msg("id"@, "number"@),
                    }
                },
            },
            old(c_format_map).wf() ==> final(c_format_map).wf(),
            old(format_map).wf() ==> final(format_map).wf(),
    {
        let id = match o.get_number("id") {
            Ok(n) => n.as_u32(),
            Err(e) => {
                return Err(e);
            },
        };
        if !c_format_map.contains(id) {
            let k = match Average::from_js_object(o, format_map) {
                Ok(k) => k,
                Err(e) => {
                    return Err(e);
                },
            };
            c_format_map.insert(id, NodeXlsxConditionalFormatType::Average(k));
        }
        Ok(id)
    }
}


/// A statistical rule keyword from the closed ten-entry set.
#[derive(Debug, Clone, Copy)]
pub enum ConditionalFormatAverageRule {
    AboveAverage,
    BelowAverage,
    EqualOrAboveAverage,
    EqualOrBelowAverage,
    OneStandardDeviationAbove,
    OneStandardDeviationBelow,
    TwoStandardDeviationsAbove,
    TwoStandardDeviationsBelow,
    ThreeStandardDeviationsAbove,
    ThreeStandardDeviationsBelow,
}

/// The closed keyword table for statistical rules.
pub open spec fn spec_average_rule(s: Seq<char>) -> Option<ConditionalFormatAverageRule> {
    if s == "aboveAverage"@ {
        Some(ConditionalFormatAverageRule::AboveAverage)
    } else if s == "belowAverage"@ {
        Some(ConditionalFormatAverageRule::BelowAverage)
    } else if s == "equalOrAboveAverage"@ {
        Some(ConditionalFormatAverageRule::EqualOrAboveAverage)
    } else if s == "equalOrBelowAverage"@ {
        Some(ConditionalFormatAverageRule::EqualOrBelowAverage)
    } else if s == "oneStandardDeviationAbove"@ {
        Some(ConditionalFormatAverageRule::OneStandardDeviationAbove)
    } else if s == "oneStandardDeviationBelow"@ {
        Some(ConditionalFormatAverageRule::OneStandardDeviationBelow)
    } else if s == "twoStandardDeviationsAbove"@ {
        Some(ConditionalFormatAverageRule::TwoStandardDeviationsAbove)
    } else if s == "twoStandardDeviationsBelow"@ {
        Some(ConditionalFormatAverageRule::TwoStandardDeviationsBelow)
    } else if s == "threeStandardDeviationsAbove"@ {
        Some(ConditionalFormatAverageRule::ThreeStandardDeviationsAbove)
    } else if s == "threeStandardDeviationsBelow"@ {
        Some(ConditionalFormatAverageRule::ThreeStandardDeviationsBelow)
    } else {
        None
    }
}

/// Decodes a statistical-rule keyword; an unrecognized keyword is an
/// error that names the offending string verbatim.
pub fn average_rule_from_js_string(s: &str) -> (r: Result<
    ConditionalFormatAverageRule,
    NodeXlsxError,
>)
    ensures
        match r {
            Ok(a) => spec_average_rule(s@) == Some(a),
            Err(e) => spec_average_rule(s@) is None && e.message@
                == "Invalid ConditionalFormatAverageRule: "@ + s@,
        },
{
    if str_eq(s, "aboveAverage") {
        Ok(ConditionalFormatAverageRule::AboveAverage)
    } else if str_eq(s, "belowAverage") {
        Ok(ConditionalFormatAverageRule::BelowAverage)
    } else if str_eq(s, "equalOrAboveAverage") {
        Ok(ConditionalFormatAverageRule::EqualOrAboveAverage)
    } else if str_eq(s, "equalOrBelowAverage") {
        Ok(ConditionalFormatAverageRule::EqualOrBelowAverage)
    } else if str_eq(s, "oneStandardDeviationAbove") {
        Ok(ConditionalFormatAverageRule::OneStandardDeviationAbove)
    } else if str_eq(s, "oneStandardDeviationBelow") {
        Ok(ConditionalFormatAverageRule::OneStandardDeviationBelow)
    } else if str_eq(s, "twoStandardDeviationsAbove") {
        Ok(ConditionalFormatAverageRule::TwoStandardDeviationsAbove)
    } else if str_eq(s, "twoStandardDeviationsBelow") {
        Ok(ConditionalFormatAverageRule::TwoStandardDeviationsBelow)
    } else if str_eq(s, "threeStandardDeviationsAbove") {
        Ok(ConditionalFormatAverageRule::ThreeStandardDeviationsAbove)
    } else if str_eq(s, "threeStandardDeviationsBelow") {
        Ok(ConditionalFormatAverageRule::ThreeStandardDeviationsBelow)
    } else {
        Err(NodeXlsxError::new(concat2("Invalid ConditionalFormatAverageRule: ", s)))
    }
}

} // verus!
