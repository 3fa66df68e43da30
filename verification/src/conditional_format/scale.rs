use vstd::prelude::*;
use crate::color::Color;
use crate::conditional_format::c_type::NodeXlsxConditionalFormatType;
use crate::conditional_format::rule::NodeXlsxFormatTypeRule;
use crate::error::NodeXlsxError;
use crate::registry::{Registry, has_id};
use crate::util::{spec_opt_bool, spec_opt_string};
use crate::value::{JsObject, JsValue, missing_prop_msg};

verus! {

/// An optional color-valued attribute of a kind object.
pub open spec fn spec_opt_kind_color(o: JsObject, key: Seq<char>) -> Result<
    Option<Color>,
    Seq<char>,
> {
    match o.spec_get(key) {
        JsValue::Undefined => Ok(Option::None),
        JsValue::Object(c) => match Color::spec_from_js_object(c) {
            Ok(col) => Ok(Option::Some(col)),
            Err(m) => Err(m),
        },
        _ => Err(missing_prop_msg(key, "object"@)),
    }
}

/// Reads an optional color-valued attribute of a kind object.
pub fn opt_kind_color(o: &JsObject, key: &str) -> (r: Result<Option<Color>, NodeXlsxError>)
    ensures
        crate::error::matches_spec(r, spec_opt_kind_color(*o, key@)),
{
    match o.get_opt_object(key) {
        Ok(Some(c)) => match Color::from_js_object(c) {
            Ok(col) => Ok(Some(col)),
            Err(e) => Err(e),
        },
        Ok(Option::None) => Ok(Option::None),
        Err(e) => Err(e),
    }
}

/// An optional threshold-rule attribute of a kind object.
pub open spec fn spec_opt_type_rule(o: JsObject, key: Seq<char>) -> Result<
    Option<NodeXlsxFormatTypeRule>,
    Seq<char>,
> {
    match o.spec_get(key) {
        JsValue::Undefined => Ok(Option::None),
        JsValue::Object(ro) => match NodeXlsxFormatTypeRule::spec_from_js_value(ro) {
            Ok(t) => Ok(Option::Some(t)),
            Err(m) => Err(m),
        },
        _ => Err(missing_prop_msg(key, "object"@)),
    }
}

/// Reads an optional threshold-rule attribute of a kind object.
pub fn opt_type_rule(o: &JsObject, key: &str) -> (r: Result<
    Option<NodeXlsxFormatTypeRule>,
    NodeXlsxError,
>)
    ensures
        crate::error::matches_spec(r, spec_opt_type_rule(*o, key@)),
{
    match o.get_opt_object(key) {
        Ok(Some(ro)) => match NodeXlsxFormatTypeRule::from_js_value(ro) {
            Ok(t) => Ok(Some(t)),
            Err(e) => Err(e),
        },
        Ok(Option::None) => Ok(Option::None),
        Err(e) => Err(e),
    }
}

/// The two-color scale rule kind.
#[derive(Debug)]
pub struct TwoColorScale {
    pub multi_range: Option<String>,
    pub stop_if_true: Option<bool>,
    pub min_color: Option<Color>,
    pub max_color: Option<Color>,
    pub min_rule: Option<NodeXlsxFormatTypeRule>,
    pub max_rule: Option<NodeXlsxFormatTypeRule>,
}

impl TwoColorScale {
    /// The kind a host object decodes to: shared attributes, optional end
    /// colors, and optional end threshold rules.
    pub open spec fn spec_from_js_object(o: JsObject) -> Result<TwoColorScale, Seq<char>> {
        let multi_range = spec_opt_string(o, "multiRange"@);
        let stop_if_true = spec_opt_bool(o, "stopIfTrue"@);
        let min_color = spec_opt_kind_color(o, "minColor"@);
        let max_color = spec_opt_kind_color(o, "maxColor"@);
        let min_rule = spec_opt_type_rule(o, "minRule"@);
        let max_rule = spec_opt_type_rule(o, "maxRule"@);
        if multi_range is Err {
            Err(multi_range->Err_0)
        } else if stop_if_true is Err {
            Err(stop_if_true->Err_0)
        } else if min_color is Err {
            Err(min_color->Err_0)
        } else if max_color is Err {
            Err(max_color->Err_0)
        } else if min_rule is Err {
            Err(min_rule->Err_0)
        } else if max_rule is Err {
            Err(max_rule->Err_0)
        } else {
            Ok(
                TwoColorScale {
                    multi_range: multi_range->Ok_0,
                    stop_if_true: stop_if_true->Ok_0,
                    min_color: min_color->Ok_0,
                    max_color: max_color->Ok_0,
                    min_rule: min_rule->Ok_0,
                    max_rule: max_rule->Ok_0,
                },
            )
        }
    }

    pub fn from_js_object(o: &JsObject) -> (r: Result<TwoColorScale, NodeXlsxError>)
        ensures
            crate::error::matches_spec(r, TwoColorScale::spec_from_js_object(*o)),
    {
        let multi_range = match o.get_opt_string("multiRange") {
            Ok(x) => x,
            Err(e) => {
                return Err(e);
            },
        };
        let stop_if_true = match o.get_opt_bool("stopIfTrue") {
            Ok(x) => x,
            Err(e) => {
                return Err(e);
            },
        };
        let min_color = match opt_kind_color(o, "minColor") {
            Ok(x) => x,
            Err(e) => {
                return Err(e);
            },
        };
        let max_color = match opt_kind_color(o, "maxColor") {
            Ok(x) => x,
            Err(e) => {
                return Err(e);
            },
        };
        let min_rule = match opt_type_rule(o, "minRule") {
            Ok(x) => x,
            Err(e) => {
                return Err(e);
            },
        };
        let max_rule = match opt_type_rule(o, "maxRule") {
            Ok(x) => x,
            Err(e) => {
                return Err(e);
            },
        };
        Ok(TwoColorScale { multi_range, stop_if_true, min_color, max_color, min_rule, max_rule })
    }

    /// Registers the kind under the payload's id with the first-wins
    /// policy: a payload under a registered id is ignored unread.
    pub fn create_and_set_to_map(
        o: &JsObject,
        format_map: &mut Registry<NodeXlsxConditionalFormatType>,
    ) -> (r: Result<u32, NodeXlsxError>)
        ensures
            match r {
                Ok(id) => {
                    &&& o.spec_get("id"@) matches JsValue::Number(n) && id == n.spec_u32()
                    &&& if has_id(old(format_map).entries@, id) {
                        final(format_map).entries@ == old(format_map).entries@
                    } else {
                        TwoColorScale::spec_from_js_object(*o) matches Ok(k) && final(format_map).entries@ == old(format_map).entries@.push(
                            (id, NodeXlsxConditionalFormatType::TwoColorScale(k)),
                        )
                    }
                },
                Err(e) => {
                    &&& final(format_map).entries@ == old(format_map).entries@
                    &&& match o.spec_get("id"@) {
                        JsValue::Number(n) => !has_id(old(format_map).entries@, n.spec_u32()) && (
                        TwoColorScale::spec_from_js_object(*o) matches Err(m) && e.message@ == m),
                        _ => e.message@ == missing_prop_msg("id"@, "number"@),
                    }
                },
            },
            old(format_map).wf() ==> final(format_map).wf(),
    {
        let id = match o.get_number("id") {
            Ok(n) => n.as_u32(),
            Err(e) => {
                return Err(e);
            },
        };
        if !format_map.contains(id) {
            let k = match TwoColorScale::from_js_object(o) {
                Ok(k) => k,
                Err(e) => {
                    return Err(e);
                },
            };
            format_map.insert(id, NodeXlsxConditionalFormatType::TwoColorScale(k));
        }
        Ok(id)
    }
}

/// The three-color scale rule kind: a midpoint on top of the two ends.
#[derive(Debug)]
pub struct ThreeColorScale {
    pub mid_color: Option<Color>,
    pub mid_rule: Option<NodeXlsxFormatTypeRule>,
    pub two_color_scale: TwoColorScale,
}

impl ThreeColorScale {
    /// The kind a host object decodes to: the midpoint attributes plus
    /// everything a two-color scale reads off the same object.
    pub open spec fn spec_from_js_object(o: JsObject) -> Result<ThreeColorScale, Seq<char>> {
        let mid_color = spec_opt_kind_color(o, "midColor"@);
        let mid_rule = spec_opt_type_rule(o, "midRule"@);
        let two = TwoColorScale::spec_from_js_object(o);
        if mid_color is Err {
            Err(mid_color->Err_0)
        } else if mid_rule is Err {
            Err(mid_rule->Err_0)
        } else if two is Err {
            Err(two->Err_0)
        } else {
            Ok(
                ThreeColorScale {
                    mid_color: mid_color->Ok_0,
                    mid_rule: mid_rule->Ok_0,
                    two_color_scale: two->Ok_0,
                },
            )
        }
    }

    pub fn from_js_object(o: &JsObject) -> (r: Result<ThreeColorScale, NodeXlsxError>)
        ensures
            crate::error::matches_spec(r, ThreeColorScale::spec_from_js_object(*o)),
    {
        let mid_color = match opt_kind_color(o, "midColor") {
            Ok(x) => x,
            Err(e) => {
                return Err(e);
            },
        };
        let mid_rule = match opt_type_rule(o, "midRule") {
            Ok(x) => x,
            Err(e) => {
                return Err(e);
            },
        };
        let two_color_scale = match TwoColorScale::from_js_object(o) {
            Ok(t) => t,
            Err(e) => {
                return Err(e);
            },
        };
        Ok(ThreeColorScale { mid_color, mid_rule, two_color_scale })
    }

    /// Registers the kind under the payload's id with the first-wins
    /// policy: a payload under a registered id is ignored unread.
    pub fn create_and_set_to_map(
        o: &JsObject,
        format_map: &mut Registry<NodeXlsxConditionalFormatType>,
    ) -> (r: Result<u32, NodeXlsxError>)
        ensures
            match r {
                Ok(id) => {
                    &&& o.spec_get("id"@) matches JsValue::Number(n) && id == n.spec_u32()
                    &&& if has_id(old(format_map).entries@, id) {
                        final(format_map).entries@ == old(format_map).entries@
                    } else {
                        ThreeColorScale::spec_from_js_object(*o) matches Ok(k) && final(format_map).entries@ == old(format_map).entries@.push(
                            (id, NodeXlsxConditionalFormatType::ThreeColorScale(k)),
                        )
                    }
                },
                Err(e) => {
                    &&& final(format_map).entries@ == old(format_map).entries@
                    &&& match o.spec_get("id"@) {
                        JsValue::Number(n) => !has_id(old(format_map).entries@, n.spec_u32()) && (
                        ThreeColorScale::spec_from_js_object(*o) matches Err(m) && e.message@
                            == m),
                        _ => e.message@ == missing_prop_msg("id"@, "number"@),
                    }
                },
            },
            old(format_map).wf() ==> final(format_map).wf(),
    {
        let id = match o.get_number("id") {
            Ok(n) => n.as_u32(),
            Err(e) => {
                return Err(e);
            },
        };
        if !format_map.contains(id) {
            let k = match ThreeColorScale::from_js_object(o) {
                Ok(k) => k,
                Err(e) => {
                    return Err(e);
                },
            };
            format_map.insert(id, NodeXlsxConditionalFormatType::ThreeColorScale(k));
        }
        Ok(id)
    }
}

} // verus!
