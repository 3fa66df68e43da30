use vstd::prelude::*;
use crate::color::Color;
use crate::conditional_format::c_type::NodeXlsxConditionalFormatType;
use crate::conditional_format::rule::NodeXlsxFormatTypeRule;
use crate::conditional_format::scale::{opt_kind_color, opt_type_rule, spec_opt_kind_color, spec_opt_type_rule};
use crate::error::NodeXlsxError;
use crate::registry::{Registry, has_id};
use crate::text::{concat2, str_eq};
use crate::util::{spec_opt_bool, spec_opt_string};
use crate::value::{JsObject, JsValue, missing_prop_msg};

verus! {

/// Where the axis of a data bar sits.
#[derive(Debug, Clone, Copy)]
pub enum ConditionalFormatDataBarAxisPosition {
    Automatic,
    Midpoint,
    NoAxis,
}

/// Which way a data bar grows.
#[derive(Debug, Clone, Copy)]
pub enum ConditionalFormatDataBarDirection {
    Context,
    LeftToRight,
    RightToLeft,
}

/// The closed keyword table for axis positions.
pub open spec fn spec_axis_position(s: Seq<char>) -> Option<ConditionalFormatDataBarAxisPosition> {
    if s == "automatic"@ {
        Some(ConditionalFormatDataBarAxisPosition::Automatic)
    } else if s == "midPoint"@ {
        Some(ConditionalFormatDataBarAxisPosition::Midpoint)
    } else if s == "none"@ {
        Some(ConditionalFormatDataBarAxisPosition::NoAxis)
    } else {
        None
    }
}

/// Decodes an axis-position keyword; an unrecognized keyword is an error
/// that names the offending string verbatim.
pub fn axis_position_from_js_string(s: &str) -> (r: Result<
    ConditionalFormatDataBarAxisPosition,
    NodeXlsxError,
>)
    ensures
        match r {
            Ok(a) => spec_axis_position(s@) == Some(a),
            Err(e) => spec_axis_position(s@) is None && e.message@
                == "Invalid value for axis position: "@ + s@,
        },
{
    if str_eq(s, "automatic") {
        Ok(ConditionalFormatDataBarAxisPosition::Automatic)
    } else if str_eq(s, "midPoint") {
        Ok(ConditionalFormatDataBarAxisPosition::Midpoint)
    } else if str_eq(s, "none") {
        Ok(ConditionalFormatDataBarAxisPosition::NoAxis)
    } else {
        Err(NodeXlsxError::new(concat2("Invalid value for axis position: ", s)))
    }
}

/// The closed keyword table for bar directions.
pub open spec fn spec_bar_direction(s: Seq<char>) -> Option<ConditionalFormatDataBarDirection> {
    if s == "context"@ {
        Some(ConditionalFormatDataBarDirection::Context)
    } else if s == "leftToRight"@ {
        Some(ConditionalFormatDataBarDirection::LeftToRight)
    } else if s == "rightToLeft"@ {
        Some(ConditionalFormatDataBarDirection::RightToLeft)
    } else {
        None
    }
}

/// Decodes a bar-direction keyword; an unrecognized keyword is an error
/// that names the offending string verbatim.
pub fn bar_direction_from_js_string(s: &str) -> (r: Result<
    ConditionalFormatDataBarDirection,
    NodeXlsxError,
>)
    ensures
        match r {
            Ok(a) => spec_bar_direction(s@) == Some(a),
            Err(e) => spec_bar_direction(s@) is None && e.message@
                == "Invalid value for bar direction: "@ + s@,
        },
{
    if str_eq(s, "context") {
        Ok(ConditionalFormatDataBarDirection::Context)
    } else if str_eq(s, "leftToRight") {
        Ok(ConditionalFormatDataBarDirection::LeftToRight)
    } else if str_eq(s, "rightToLeft") {
        Ok(ConditionalFormatDataBarDirection::RightToLeft)
    } else {
        Err(NodeXlsxError::new(concat2("Invalid value for bar direction: ", s)))
    }
}

/// The data-bar rule kind.
#[derive(Debug)]
pub struct DataBar {
    pub axis_color: Option<Color>,
    pub axis_position: Option<ConditionalFormatDataBarAxisPosition>,
    pub bar_only: Option<bool>,
    pub border_color: Option<Color>,
    pub border_off: Option<bool>,
    pub direction: Option<ConditionalFormatDataBarDirection>,
    pub fill_color: Option<Color>,
    pub max_rule: Option<NodeXlsxFormatTypeRule>,
    pub min_rule: Option<NodeXlsxFormatTypeRule>,
    pub negative_border_color: Option<Color>,
    pub negative_fill_color: Option<Color>,
    pub solid_fill: Option<bool>,
    pub multi_range: Option<String>,
    pub stop_if_true: Option<bool>,
}

/// The axis attributes of a data bar, in decode order.
pub open spec fn spec_bar_axis_attrs(o: JsObject) -> Result<
    (
        Option<Color>,
        Option<ConditionalFormatDataBarAxisPosition>,
        Option<bool>,
        Option<Color>,
        Option<bool>,
    ),
    Seq<char>,
> {
    let axis_color = spec_opt_kind_color(o, "axisColor"@);
    let axis_position = match o.spec_get("axisPosition"@) {
        JsValue::Undefined => Ok(Option::None),
        JsValue::Str(s) => match spec_axis_position(s.text@) {
            Some(a) => Ok(Option::Some(a)),
            _ => Err("Invalid value for axis position: "@ + s.text@),
        },
        _ => Err(missing_prop_msg("axisPosition"@, "string"@)),
    };
    let bar_only = spec_opt_bool(o, "barOnly"@);
    let border_color = spec_opt_kind_color(o, "borderColor"@);
    let border_off = spec_opt_bool(o, "borderOff"@);
    if axis_color is Err {
        Err(axis_color->Err_0)
    } else if axis_position is Err {
        Err(axis_position->Err_0)
    } else if bar_only is Err {
        Err(bar_only->Err_0)
    } else if border_color is Err {
        Err(border_color->Err_0)
    } else if border_off is Err {
        Err(border_off->Err_0)
    } else {
        Ok(
            (
                axis_color->Ok_0,
                axis_position->Ok_0,
                bar_only->Ok_0,
                border_color->Ok_0,
                border_off->Ok_0,
            ),
        )
    }
}

/// The fill and threshold attributes of a data bar, in decode order.
pub open spec fn spec_bar_fill_attrs(o: JsObject) -> Result<
    (
        Option<ConditionalFormatDataBarDirection>,
        Option<Color>,
        Option<NodeXlsxFormatTypeRule>,
        Option<NodeXlsxFormatTypeRule>,
    ),
    Seq<char>,
> {
    let direction = match o.spec_get("direction"@) {
        JsValue::Undefined => Ok(Option::None),
        JsValue::Str(s) => match spec_bar_direction(s.text@) {
            Some(a) => Ok(Option::Some(a)),
            _ => Err("Invalid value for bar direction: "@ + s.text@),
        },
        _ => Err(missing_prop_msg("direction"@, "string"@)),
    };
    let fill_color = spec_opt_kind_color(o, "fillColor"@);
    let max_rule = spec_opt_type_rule(o, "maxRule"@);
    let min_rule = spec_opt_type_rule(o, "minRule"@);
    if direction is Err {
        Err(direction->Err_0)
    } else if fill_color is Err {
        Err(fill_color->Err_0)
    } else if max_rule is Err {
        Err(max_rule->Err_0)
    } else if min_rule is Err {
        Err(min_rule->Err_0)
    } else {
        Ok((direction->Ok_0, fill_color->Ok_0, max_rule->Ok_0, min_rule->Ok_0))
    }
}

/// The negative-value and shared attributes of a data bar, in decode
/// order.
pub open spec fn spec_bar_negative_attrs(o: JsObject) -> Result<
    (Option<Color>, Option<Color>, Option<bool>, Option<String>, Option<bool>),
    Seq<char>,
> {
    let negative_border_color = spec_opt_kind_color(o, "negativeBorderColor"@);
    let negative_fill_color = spec_opt_kind_color(o, "negativeFillColor"@);
    let solid_fill = spec_opt_bool(o, "solidFill"@);
    let multi_range = spec_opt_string(o, "multiRange"@);
    let stop_if_true = spec_opt_bool(o, "stopIfTrue"@);
    if negative_border_color is Err {
        Err(negative_border_color->Err_0)
    } else if negative_fill_color is Err {
        Err(negative_fill_color->Err_0)
    } else if solid_fill is Err {
        Err(solid_fill->Err_0)
    } else if multi_range is Err {
        Err(multi_range->Err_0)
    } else if stop_if_true is Err {
        Err(stop_if_true->Err_0)
    } else {
        Ok(
            (
                negative_border_color->Ok_0,
                negative_fill_color->Ok_0,
                solid_fill->Ok_0,
                multi_range->Ok_0,
                stop_if_true->Ok_0,
            ),
        )
    }
}

fn bar_axis_attrs(o: &JsObject) -> (r: Result<
    (
        Option<Color>,
        Option<ConditionalFormatDataBarAxisPosition>,
        Option<bool>,
        Option<Color>,
        Option<bool>,
    ),
    NodeXlsxError,
>)
    ensures
        crate::error::matches_spec(r, spec_bar_axis_attrs(*o)),
{
    let axis_color = match opt_kind_color(o, "axisColor") {
        Ok(x) => x,
        Err(e) => {
            return Err(e);
        },
    };
    let axis_position = match o.get_opt_string("axisPosition") {
        Ok(Some(s)) => match axis_position_from_js_string(s.as_str()) {
            Ok(a) => Some(a),
            Err(e) => {
                return Err(e);
            },
        },
        Ok(Option::None) => Option::None,
        Err(e) => {
            return Err(e);
        },
    };
    let bar_only = match o.get_opt_bool("barOnly") {
        Ok(x) => x,
        Err(e) => {
            return Err(e);
        },
    };
    let border_color = match opt_kind_color(o, "borderColor") {
        Ok(x) => x,
        Err(e) => {
            return Err(e);
        },
    };
    let border_off = match o.get_opt_bool("borderOff") {
        Ok(x) => x,
        Err(e) => {
            return Err(e);
        },
    };
    Ok((axis_color, axis_position, bar_only, border_color, border_off))
}

fn bar_fill_attrs(o: &JsObject) -> (r: Result<
    (
        Option<ConditionalFormatDataBarDirection>,
        Option<Color>,
        Option<NodeXlsxFormatTypeRule>,
        Option<NodeXlsxFormatTypeRule>,
    ),
    NodeXlsxError,
>)
    ensures
        crate::error::matches_spec(r, spec_bar_fill_attrs(*o)),
{
    let direction = match o.get_opt_string("direction") {
        Ok(Some(s)) => match bar_direction_from_js_string(s.as_str()) {
            Ok(a) => Some(a),
            Err(e) => {
                return Err(e);
            },
        },
        Ok(Option::None) => Option::None,
        Err(e) => {
            return Err(e);
        },
    };
    let fill_color = match opt_kind_color(o, "fillColor") {
        Ok(x) => x,
        Err(e) => {
            return Err(e);
        },
    };
    let max_rule = match opt_type_rule(o, "maxRule") {
        Ok(x) => x,
        Err(e) => {
            return Err(e);
        },
    };
    let min_rule = match opt_type_rule(o, "minRule") {
        Ok(x) => x,
        Err(e) => {
            return Err(e);
        },
    };
    Ok((direction, fill_color, max_rule, min_rule))
}

fn bar_negative_attrs(o: &JsObject) -> (r: Result<
    (Option<Color>, Option<Color>, Option<bool>, Option<String>, Option<bool>),
    NodeXlsxError,
>)
    ensures
        crate::error::matches_spec(r, spec_bar_negative_attrs(*o)),
{
    let negative_border_color = match opt_kind_color(o, "negativeBorderColor") {
        Ok(x) => x,
        Err(e) => {
            return Err(e);
        },
    };
    let negative_fill_color = match opt_kind_color(o, "negativeFillColor") {
        Ok(x) => x,
        Err(e) => {
            return Err(e);
        },
    };
    let solid_fill = match o.get_opt_bool("solidFill") {
        Ok(x) => x,
        Err(e) => {
            return Err(e);
        },
    };
    let multi_range = match o.get_opt_string("multiRange") {
        Ok(x) => x,
        Err(e) => {
            return Err(e);
        },
    };
    let stop_if_true = match o.get_opt_bool("stopIfTrue") {
        Ok(x) => x,
        Err(e) => {
            return Err(e);
        },
    };
    Ok((negative_border_color, negative_fill_color, solid_fill, multi_range, stop_if_true))
}

impl DataBar {
    /// The kind a host object decodes to, attribute by attribute, failing
    /// on the first attribute that does not decode.
    pub open spec fn spec_from_js_value(o: JsObject) -> Result<DataBar, Seq<char>> {
        let axis = spec_bar_axis_attrs(o);
        let fill = spec_bar_fill_attrs(o);
        let negative = spec_bar_negative_attrs(o);
        if axis is Err {
            Err(axis->Err_0)
        } else if fill is Err {
            Err(fill->Err_0)
        } else if negative is Err {
            Err(negative->Err_0)
        } else {
            Ok(
                DataBar {
                    axis_color: axis->Ok_0.0,
                    axis_position: axis->Ok_0.1,
                    bar_only: axis->Ok_0.2,
                    border_color: axis->Ok_0.3,
                    border_off: axis->Ok_0.4,
                    direction: fill->Ok_0.0,
                    fill_color: fill->Ok_0.1,
                    max_rule: fill->Ok_0.2,
                    min_rule: fill->Ok_0.3,
                    negative_border_color: negative->Ok_0.0,
                    negative_fill_color: negative->Ok_0.1,
                    solid_fill: negative->Ok_0.2,
                    multi_range: negative->Ok_0.3,
                    stop_if_true: negative->Ok_0.4,
                },
            )
        }
    }

    pub fn from_js_value(o: &JsObject) -> (r: Result<DataBar, NodeXlsxError>)
        ensures
            crate::error::matches_spec(r, DataBar::spec_from_js_value(*o)),
    {
        let axis = match bar_axis_attrs(o) {
            Ok(x) => x,
            Err(e) => {
                return Err(e);
            },
        };
        let fill = match bar_fill_attrs(o) {
            Ok(x) => x,
            Err(e) => {
                return Err(e);
            },
        };
        let negative = match bar_negative_attrs(o) {
            Ok(x) => x,
            Err(e) => {
                return Err(e);
            },
        };
        Ok(
            DataBar {
                axis_color: axis.0,
                axis_position: axis.1,
                bar_only: axis.2,
                border_color: axis.3,
                border_off: axis.4,
                direction: fill.0,
                fill_color: fill.1,
                max_rule: fill.2,
                min_rule: fill.3,
                negative_border_color: negative.0,
                negative_fill_color: negative.1,
                solid_fill: negative.2,
                multi_range: negative.3,
                stop_if_true: negative.4,
            },
        )
    }

    /// Registers the kind under the payload's id with the first-wins
    /// policy: a payload under a registered id is ignored unread.
    pub fn create_and_set_to_map(
        o: &JsObject,
        c_format_map: &mut Registry<NodeXlsxConditionalFormatType>,
    ) -> (r: Result<u32, NodeXlsxError>)
        ensures
            match r {
                Ok(id) => {
                    &&& o.spec_get("id"@) matches JsValue::Number(n) && id == n.spec_u32()
                    &&& if has_id(old(c_format_map).entries@, id) {
                        final(c_format_map).entries@ == old(c_format_map).entries@
                    } else {
                        DataBar::spec_from_js_value(*o) matches Ok(k) && final(c_format_map).entries@ == old(c_format_map).entries@.push(
                            (id, NodeXlsxConditionalFormatType::DataBar(k)),
                        )
                    }
                },
                Err(e) => {
                    &&& final(c_format_map).entries@ == old(c_format_map).entries@
                    &&& match o.spec_get("id"@) {
                        JsValue::Number(n) => !has_id(old(c_format_map).entries@, n.spec_u32())
                            && (DataBar::spec_from_js_value(*o) matches Err(m) && e.message@
                            == m),
                        _ => e.message@ == missing_prop_msg("id"@, "number"@),
                    }
                },
            },
            old(c_format_map).wf() ==> final(c_format_map).wf(),
    {
        let id = match o.get_number("id") {
            Ok(n) => n.as_u32(),
            Err(e) => {
                return Err(e);
            },
        };
        if !c_format_map.contains(id) {
            let k = match DataBar::from_js_value(o) {
                Ok(k) => k,
                Err(e) => {
                    return Err(e);
                },
            };
            c_format_map.insert(id, NodeXlsxConditionalFormatType::DataBar(k));
        }
        Ok(id)
    }
}

} // verus!
