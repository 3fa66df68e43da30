use vstd::prelude::*;
use crate::conditional_format::c_type::NodeXlsxConditionalFormatType;
use crate::error::NodeXlsxError;
use crate::format::Format;
use crate::registry::{Registry, format_step_rel, has_id, opt_format_ref, spec_fresh_format_err, spec_opt_format_id};
use crate::util::{spec_opt_bool, spec_opt_string};
use crate::text::{concat2, str_eq};
use crate::value::{JsObject, JsValue, missing_prop_msg};

verus! {

/// The date-window rule kind.
#[derive(Debug)]
pub struct Date {
    pub format: Option<u32>,
    pub rule: Option<ConditionalFormatDateRule>,
    pub multi_range: Option<String>,
    pub stop_if_true: Option<bool>,
}

impl Date {
    /// The kind a host object decodes to: shared attributes, a required
    /// `invert` flag, and an optional format reference.
    pub open spec fn spec_from_js_object(o: JsObject) -> Result<Date, Seq<char>> {
        let rule = match o.spec_get("rule"@) {
            JsValue::Undefined => Ok(Option::None),
            JsValue::Str(s) => match spec_date_rule(s.text@) {
                Some(a) => Ok(Option::Some(a)),
                _ => Err("Invalid ConditionalFormatDateRule: "@ + s.text@),
            },
            _ => Err(missing_prop_msg("rule"@, "string"@)),
        };
        let multi_range = spec_opt_string(o, "multiRange"@);
        let stop_if_true = spec_opt_bool(o, "stopIfTrue"@);
        let format = spec_opt_format_id(o, "format"@);
        if rule is Err {
            Err(rule->Err_0)
        } else if multi_range is Err {
            Err(multi_range->Err_0)
        } else if stop_if_true is Err {
            Err(stop_if_true->Err_0)
        } else if format is Err {
            Err(format->Err_0)
        } else {
            Ok(
                Date {
                    format: format->Ok_0,
                    rule: rule->Ok_0,
                    multi_range: multi_range->Ok_0,
                    stop_if_true: stop_if_true->Ok_0,
                },
            )
        }
    }

    pub fn from_js_object(o: &JsObject, format_map: &mut Registry<Format>) -> (r: Result<
        Date,
        NodeXlsxError,
    >)
        ensures
            match r {
                Ok(k) => Date::spec_from_js_object(*o) == Ok::<Date, Seq<char>>(k)
                    && format_step_rel(*o, "format"@, old(format_map).entries@, final(format_map).entries@),
                Err(e) => final(format_map).entries@ == old(format_map).entries@ && match Date::spec_from_js_object(
                    *o,
                ) {
                    Err(m) => e.message@ == m,
                    Ok(_) => spec_fresh_format_err(*o, "format"@, old(format_map).entries@) matches Some(m)
                        && e.message@ == m,
                },
            },
            old(format_map).wf() ==> final(format_map).wf(),
    {
        let rule = match o.get_opt_string("rule") {
            Ok(Some(s)) => match rule_from_js_string(s.as_str()) {
                Ok(a) => Some(a),
                Err(e) => {
                    return Err(e);
                },
            },
            Ok(Option::None) => Option::None,
            Err(e) => {
                return Err(e);
            },
        };
        let multi_range = match o.get_opt_string("multiRange") {
            Ok(x) => x,
            Err(e) => {
                return Err(e);
            },
        };
        let stop_if_true = match o.get_opt_bool("stopIfTrue") {
            Ok(x) => x,
            Err(e) => {
                return Err(e);
            },
        };
        let format = match opt_format_ref(o, "format", format_map) {
            Ok(f) => f,
            Err(e) => {
                return Err(e);
            },
        };
        Ok(Date { format, rule, multi_range, stop_if_true })
    }

    /// Registers the kind under the payload's id with the first-wins
    /// policy: a payload under a registered id is ignored unread.
    pub fn create_and_set_to_map(
        o: &JsObject,
        c_format_map: &mut Registry<NodeXlsxConditionalFormatType>,
        format_map: &mut Registry<Format>,
    ) -> (r: Result<u32, NodeXlsxError>)
        ensures
            match r {
                Ok(id) => {
                    &&& o.spec_get("id"@) matches JsValue::Number(n) && id == n.spec_u32()
                    &&& if has_id(old(c_format_map).entries@, id) {
                        final(c_format_map).entries@ == old(c_format_map).entries@ && final(format_map).entries@ == old(format_map).entries@
                    } else {
                        Date::spec_from_js_object(*o) matches Ok(k) && final(c_format_map).entries@ == old(c_format_map).entries@.push(
                            (id, NodeXlsxConditionalFormatType::Date(k)),
                        ) && format_step_rel(
                            *o,
                            "format"@,
                            old(format_map).entries@,
                            final(format_map).entries@,
                        )
                    }
                },
                Err(e) => {
                    &&& final(c_format_map).entries@ == old(c_format_map).entries@
                    &&& final(format_map).entries@ == old(format_map).entries@
                    &&& match o.spec_get("id"@) {
                        JsValue::Number(n) => !has_id(old(c_format_map).entries@, n.spec_u32())
                            && match Date::spec_from_js_object(*o) {
                            Err(m) => e.message@ == m,
                            Ok(_) => spec_fresh_format_err(*o, "format"@, old(format_map).entries@) matches
                                Some(m) && e.message@ == m,
                        },
                        _ => e.message@ == missing_prop_msg("id"@, "number"@),
                    }
                },
            },
            old(c_format_map).wf() ==> final(c_format_map).wf(),
            old(format_map).wf() ==> final(format_map).wf(),
    {
        let id = match o.get_number("id") {
            Ok(n) => n.as_u32(),
            Err(e) => {
                return Err(e);
            },
        };
        if !c_format_map.contains(id) {
            let k = match Date::from_js_object(o, format_map) {
                Ok(k) => k,
                Err(e) => {
                    return Err(e);
                },
            };
            c_format_map.insert(id, NodeXlsxConditionalFormatType::Date(k));
        }
        Ok(id)
    }
}


/// A date-window rule keyword from the closed ten-entry set.
#[derive(Debug, Clone, Copy)]
pub enum ConditionalFormatDateRule {
    Yesterday,
    Today,
    Tomorrow,
    Last7Days,
    LastWeek,
    ThisWeek,
    NextWeek,
    LastMonth,
    ThisMonth,
    NextMonth,
}

/// The closed keyword table for date-window rules.
pub open spec fn spec_date_rule(s: Seq<char>) -> Option<ConditionalFormatDateRule> {
    if s == "yesterday"@ {
        Some(ConditionalFormatDateRule::Yesterday)
    } else if s == "today"@ {
        Some(ConditionalFormatDateRule::Today)
    } else if s == "tomorrow"@ {
        Some(ConditionalFormatDateRule::Tomorrow)
    } else if s == "last7Days"@ {
        Some(ConditionalFormatDateRule::Last7Days)
    } else if s == "lastWeek"@ {
        Some(ConditionalFormatDateRule::LastWeek)
    } else if s == "thisWeek"@ {
        Some(ConditionalFormatDateRule::ThisWeek)
    } else if s == "nextWeek"@ {
        Some(ConditionalFormatDateRule::NextWeek)
    } else if s == "lastMonth"@ {
        Some(ConditionalFormatDateRule::LastMonth)
    } else if s == "thisMonth"@ {
        Some(ConditionalFormatDateRule::ThisMonth)
    } else if s == "nextMonth"@ {
        Some(ConditionalFormatDateRule::NextMonth)
    } else {
        None
    }
}

/// Decodes a date-window keyword; an unrecognized keyword is an error
/// that names the offending string verbatim.
pub fn rule_from_js_string(s: &str) -> (r: Result<ConditionalFormatDateRule, NodeXlsxError>)
    ensures
        match r {
            Ok(a) => spec_date_rule(s@) == Some(a),
            Err(e) => spec_date_rule(s@) is None && e.message@
                == "Invalid ConditionalFormatDateRule: "@ + s@,
        },
{
    if str_eq(s, "yesterday") {
        Ok(ConditionalFormatDateRule::Yesterday)
    } else if str_eq(s, "today") {
        Ok(ConditionalFormatDateRule::Today)
    } else if str_eq(s, "tomorrow") {
        Ok(ConditionalFormatDateRule::Tomorrow)
    } else if str_eq(s, "last7Days") {
        Ok(ConditionalFormatDateRule::Last7Days)
    } else if str_eq(s, "lastWeek") {
        Ok(ConditionalFormatDateRule::LastWeek)
    } else if str_eq(s, "thisWeek") {
        Ok(ConditionalFormatDateRule::ThisWeek)
    } else if str_eq(s, "nextWeek") {
        Ok(ConditionalFormatDateRule::NextWeek)
    } else if str_eq(s, "lastMonth") {
        Ok(ConditionalFormatDateRule::LastMonth)
    } else if str_eq(s, "thisMonth") {
        Ok(ConditionalFormatDateRule::ThisMonth)
    } else if str_eq(s, "nextMonth") {
        Ok(ConditionalFormatDateRule::NextMonth)
    } else {
        Err(NodeXlsxError::new(concat2("Invalid ConditionalFormatDateRule: ", s)))
    }
}

} // verus!
