use vstd::prelude::*;
use crate::conditional_format::c_type::NodeXlsxConditionalFormatType;
use crate::error::NodeXlsxError;
use crate::format::Format;
use crate::registry::{Registry, format_step_rel, has_id, opt_format_ref, spec_fresh_format_err, spec_opt_format_id};
use crate::text::{concat2, str_eq};
use crate::util::spec_opt_string;
use crate::value::{JsObject, JsValue, missing_prop_msg};

verus! {

/// The shared stop-if-true attribute, which this kind reads as a string
/// compared against `"true"`.
pub open spec fn spec_opt_stop_text(o: JsObject) -> Result<Option<bool>, Seq<char>> {
    match o.spec_get("stopIfTrue"@) {
        JsValue::Undefined => Ok(Option::None),
        JsValue::Str(s) => Ok(Option::Some(s.text@ == "true"@)),
        _ => Err(missing_prop_msg("stopIfTrue"@, "string"@)),
    }
}

fn opt_stop_text(o: &JsObject) -> (r: Result<Option<bool>, NodeXlsxError>)
    ensures
        crate::error::matches_spec(r, spec_opt_stop_text(*o)),
{
    match o.get_opt_string("stopIfTrue") {
        Ok(Some(s)) => Ok(Some(str_eq(s.as_str(), "true"))),
        Ok(Option::None) => Ok(Option::None),
        Err(e) => Err(e),
    }
}

/// A top/bottom rule: the operator plus its integer operand.
#[derive(Debug)]
pub enum ConditionalFormatTopRule {
    Top(u16),
    Bottom(u16),
    TopPercent(u16),
    BottomPercent(u16),
}

/// The top/bottom rule a host object decodes to: a required `type`
/// keyword from the closed four-entry set and a required numeric `value`.
pub open spec fn spec_top_rule(o: JsObject) -> Result<ConditionalFormatTopRule, Seq<char>> {
    match o.spec_get("type"@) {
        JsValue::Str(t) => match o.spec_get("value"@) {
            JsValue::Number(v) => if t.text@ == "top"@ {
                Ok(ConditionalFormatTopRule::Top(v.spec_u16()))
            } else if t.text@ == "bottom"@ {
                Ok(ConditionalFormatTopRule::Bottom(v.spec_u16()))
            } else if t.text@ == "topPercent"@ {
                Ok(ConditionalFormatTopRule::TopPercent(v.spec_u16()))
            } else if t.text@ == "bottomPercent"@ {
                Ok(ConditionalFormatTopRule::BottomPercent(v.spec_u16()))
            } else {
                Err("Unknown text rule type: "@ + t.text@)
            },
            _ => Err(missing_prop_msg("value"@, "number"@)),
        },
        _ => Err(missing_prop_msg("type"@, "string"@)),
    }
}

/// Decodes a top/bottom rule object; an unrecognized operator keyword is
/// an error that names the offending string verbatim.
pub fn js_object_to_top_rule(o: &JsObject) -> (r: Result<ConditionalFormatTopRule, NodeXlsxError>)
    ensures
        crate::error::matches_spec(r, spec_top_rule(*o)),
{
    let t = match o.get_string("type") {
        Ok(t) => t,
        Err(e) => {
            return Err(e);
        },
    };
    let v = match o.get_number("value") {
        Ok(v) => v,
        Err(e) => {
            return Err(e);
        },
    };
    if str_eq(t.as_str(), "top") {
        Ok(ConditionalFormatTopRule::Top(v.as_u16()))
    } else if str_eq(t.as_str(), "bottom") {
        Ok(ConditionalFormatTopRule::Bottom(v.as_u16()))
    } else if str_eq(t.as_str(), "topPercent") {
        Ok(ConditionalFormatTopRule::TopPercent(v.as_u16()))
    } else if str_eq(t.as_str(), "bottomPercent") {
        Ok(ConditionalFormatTopRule::BottomPercent(v.as_u16()))
    } else {
        Err(NodeXlsxError::new(concat2("Unknown text rule type: ", t.as_str())))
    }
}

/// The top/bottom rule kind.
#[derive(Debug)]
pub struct Top {
    pub rule: ConditionalFormatTopRule,
    pub format: Option<u32>,
    pub multi_range: Option<String>,
    pub stop_if_true: Option<bool>,
}

impl Top {
    /// The kind a host object decodes to: a required rule object, shared
    /// attributes, and an optional format reference.
    pub open spec fn spec_from_js_object(o: JsObject) -> Result<Top, Seq<char>> {
        let rule = match o.spec_get("rule"@) {
            JsValue::Object(ro) => spec_top_rule(ro),
            _ => Err(missing_prop_msg("rule"@, "object"@)),
        };
        let multi_range = spec_opt_string(o, "multiRange"@);
        let stop_if_true = spec_opt_stop_text(o);
        let format = spec_opt_format_id(o, "format"@);
        if rule is Err {
            Err(rule->Err_0)
        } else if multi_range is Err {
            Err(multi_range->Err_0)
        } else if stop_if_true is Err {
            Err(stop_if_true->Err_0)
        } else if format is Err {
            Err(format->Err_0)
        } else {
            Ok(
                Top {
                    rule: rule->Ok_0,
                    format: format->Ok_0,
                    multi_range: multi_range->Ok_0,
                    stop_if_true: stop_if_true->Ok_0,
                },
            )
        }
    }

    pub fn from_js_object(o: &JsObject, format_map: &mut Registry<Format>) -> (r: Result<
        Top,
        NodeXlsxError,
    >)
        ensures
            match r {
                Ok(k) => Top::spec_from_js_object(*o) == Ok::<Top, Seq<char>>(k)
                    && format_step_rel(*o, "format"@, old(format_map).entries@, final(format_map).entries@),
                Err(e) => final(format_map).entries@ == old(format_map).entries@ && match Top::spec_from_js_object(
                    *o,
                ) {
                    Err(m) => e.message@ == m,
                    Ok(_) => spec_fresh_format_err(*o, "format"@, old(format_map).entries@) matches Some(m)
                        && e.message@ == m,
                },
            },
            old(format_map).wf() ==> final(format_map).wf(),
    {
        let rule = match o.get_object("rule") {
            Ok(ro) => match js_object_to_top_rule(ro) {
                Ok(t) => t,
                Err(e) => {
                    return Err(e);
                },
            },
            Err(e) => {
                return Err(e);
            },
        };
        let multi_range = match o.get_opt_string("multiRange") {
            Ok(x) => x,
            Err(e) => {
                return Err(e);
            },
        };
        let stop_if_true = match opt_stop_text(o) {
            Ok(x) => x,
            Err(e) => {
                return Err(e);
            },
        };
        let format = match opt_format_ref(o, "format", format_map) {
            Ok(f) => f,
            Err(e) => {
                return Err(e);
            },
        };
        Ok(Top { rule, format, multi_range, stop_if_true })
    }

    /// Registers the kind under the payload's id with the first-wins
    /// policy: a payload under a registered id is ignored unread.
    pub fn create_and_set_to_map(
        o: &JsObject,
        c_format_map: &mut Registry<NodeXlsxConditionalFormatType>,
        format_map: &mut Registry<Format>,
    ) -> (r: Result<u32, NodeXlsxError>)
        ensures
            match r {
                Ok(id) => {
                    &&& o.spec_get("id"@) matches JsValue::Number(n) && id == n.spec_u32()
                    &&& if has_id(old(c_format_map).entries@, id) {
                        final(c_format_map).entries@ == old(c_format_map).entries@ && final(format_map).entries@ == old(format_map).entries@
                    } else {
                        Top::spec_from_js_object(*o) matches Ok(k) && final(c_format_map).entries@ == old(c_format_map).entries@.push(
                            (id, NodeXlsxConditionalFormatType::Top(k)),
                        ) && format_step_rel(
                            *o,
                            "format"@,
                            old(format_map).entries@,
                            final(format_map).entries@,
                        )
                    }
                },
                Err(e) => {
                    &&& final(c_format_map).entries@ == old(c_format_map).entries@
                    &&& final(format_map).entries@ == old(format_map).entries@
                    &&& match o.spec_get("id"@) {
                        JsValue::Number(n) => !has_id(old(c_format_map).entries@, n.spec_u32())
                            && match Top::spec_from_js_object(*o) {
                            Err(m) => e.message@ == m,
                            Ok(_) => spec_fresh_format_err(*o, "format"@, old(format_map).entries@) matches
                                Some(m) && e.message@ == m,
                        },
                        _ => e.message@ == missing_prop_msg("id"@, "number"@),
                    }
                },
            },
            old(c_format_map).wf() ==> final(c_format_map).wf(),
            old(format_map).wf() ==> final(format_map).wf(),
    {
        let id = match o.get_number("id") {
            Ok(n) => n.as_u32(),
            Err(e) => {
                return Err(e);
            },
        };
        if !c_format_map.contains(id) {
            let k = match Top::from_js_object(o, format_map) {
                Ok(k) => k,
                Err(e) => {
                    return Err(e);
                },
            };
            c_format_map.insert(id, NodeXlsxConditionalFormatType::Top(k));
        }
        Ok(id)
    }
}

} // verus!
