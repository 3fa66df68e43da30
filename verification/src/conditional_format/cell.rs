use vstd::prelude::*;
use crate::conditional_format::c_type::NodeXlsxConditionalFormatType;
use crate::conditional_format::rule::{
    ConditionalFormatCellRule, NodeXlsxConditionalFormatCellRule, set_value_to_writer_variant,
    spec_cell_rule,
};
use crate::error::NodeXlsxError;
use crate::format::Format;
use crate::registry::{
    Registry, format_step_rel, has_id, opt_format_ref, spec_fresh_format_err, spec_opt_format_id,
};
use crate::util::{ms_or_epoch, spec_opt_bool, spec_opt_string};
use crate::value::{JsObject, JsValue, missing_prop_msg};

verus! {

/// The cell-comparison rule kind.
#[derive(Debug)]
pub struct Cell {
    pub rule: Option<NodeXlsxConditionalFormatCellRule>,
    pub multi_range: Option<String>,
    pub stop_if_true: Option<bool>,
    pub format: Option<u32>,
}

/// The comparison rule a cell-kind object carries, when it carries one:
/// the operand's dynamic type selects the operand reading, the optional
/// second operand must have the same type, and an operand of any other
/// type leaves the rule absent.
pub open spec fn spec_cell_kind_rule(o: JsObject) -> Result<
    Option<NodeXlsxConditionalFormatCellRule>,
    Seq<char>,
> {
    match o.spec_get("rule"@) {
        JsValue::Undefined => Ok(Option::None),
        JsValue::Object(ro) => match ro.spec_get("type"@) {
            JsValue::Str(t) => match ro.spec_get("value"@) {
                JsValue::Str(s) => match ro.spec_get("optionalValue"@) {
                    JsValue::Undefined => match spec_cell_rule(t.text@, s.text, Option::None) {
                        Ok(cr) => Ok(Option::Some(NodeXlsxConditionalFormatCellRule::Text(cr))),
                        Err(m) => Err(m),
                    },
                    JsValue::Str(s2) => match spec_cell_rule(
                        t.text@,
                        s.text,
                        Option::Some(s2.text),
                    ) {
                        Ok(cr) => Ok(Option::Some(NodeXlsxConditionalFormatCellRule::Text(cr))),
                        Err(m) => Err(m),
                    },
                    _ => Err(missing_prop_msg("optionalValue"@, "string"@)),
                },
                JsValue::Number(n) => match ro.spec_get("optionalValue"@) {
                    JsValue::Undefined => match spec_cell_rule(t.text@, n.bits, Option::None) {
                        Ok(cr) => Ok(Option::Some(NodeXlsxConditionalFormatCellRule::Number(cr))),
                        Err(m) => Err(m),
                    },
                    JsValue::Number(n2) => match spec_cell_rule(
                        t.text@,
                        n.bits,
                        Option::Some(n2.bits),
                    ) {
                        Ok(cr) => Ok(Option::Some(NodeXlsxConditionalFormatCellRule::Number(cr))),
                        Err(m) => Err(m),
                    },
                    _ => Err(missing_prop_msg("optionalValue"@, "number"@)),
                },
                JsValue::Date(d) => match ro.spec_get("optionalValue"@) {
                    JsValue::Undefined => match spec_cell_rule(
                        t.text@,
                        ms_or_epoch(d.int),
                        Option::None,
                    ) {
                        Ok(cr) => Ok(
                            Option::Some(NodeXlsxConditionalFormatCellRule::DateTime(cr)),
                        ),
                        Err(m) => Err(m),
                    },
                    JsValue::Date(d2) => match spec_cell_rule(
                        t.text@,
                        ms_or_epoch(d.int),
                        Option::Some(ms_or_epoch(d2.int)),
                    ) {
                        Ok(cr) => Ok(
                            Option::Some(NodeXlsxConditionalFormatCellRule::DateTime(cr)),
                        ),
                        Err(m) => Err(m),
                    },
                    _ => Err(missing_prop_msg("optionalValue"@, "date"@)),
                },
                _ => Ok(Option::None),
            },
            _ => Err(missing_prop_msg("type"@, "string"@)),
        },
        _ => Err(missing_prop_msg("rule"@, "object"@)),
    }
}

/// Decodes the comparison rule of a cell-kind object; see
/// `spec_cell_kind_rule`.
pub fn decode_cell_kind_rule(o: &JsObject) -> (r: Result<
    Option<NodeXlsxConditionalFormatCellRule>,
    NodeXlsxError,
>)
    ensures
        crate::error::matches_spec(r, spec_cell_kind_rule(*o)),
{
    let ro = match o.get_opt_object("rule") {
        Ok(Some(ro)) => ro,
        Ok(Option::None) => {
            return Ok(Option::None);
        },
        Err(e) => {
            return Err(e);
        },
    };
    let t = match ro.get_string("type") {
        Ok(t) => t,
        Err(e) => {
            return Err(e);
        },
    };
    let undef = JsValue::Undefined;
    let value = match ro.lookup("value") {
        Some(v) => v,
        Option::None => &undef,
    };
    match value {
        JsValue::Str(s) => {
            let opt = match ro.lookup("optionalValue") {
                Some(JsValue::Undefined) => Option::None,
                Option::None => Option::None,
                Some(JsValue::Str(s2)) => Option::Some(s2.text.clone()),
                Some(_) => {
                    return Err(
                        NodeXlsxError::new(crate::value::prop_error("optionalValue", "string")),
                    );
                },
            };
            match set_value_to_writer_variant(t.as_str(), s.text.clone(), opt) {
                Ok(cr) => Ok(Option::Some(NodeXlsxConditionalFormatCellRule::Text(cr))),
                Err(e) => Err(e),
            }
        },
        JsValue::Number(n) => {
            let opt = match ro.lookup("optionalValue") {
                Some(JsValue::Undefined) => Option::None,
                Option::None => Option::None,
                Some(JsValue::Number(n2)) => Option::Some(n2.bits),
                Some(_) => {
                    return Err(
                        NodeXlsxError::new(crate::value::prop_error("optionalValue", "number")),
                    );
                },
            };
            match set_value_to_writer_variant(t.as_str(), n.bits, opt) {
                Ok(cr) => Ok(Option::Some(NodeXlsxConditionalFormatCellRule::Number(cr))),
                Err(e) => Err(e),
            }
        },
        JsValue::Date(d) => {
            let opt = match ro.lookup("optionalValue") {
                Some(JsValue::Undefined) => Option::None,
                Option::None => Option::None,
                Some(JsValue::Date(d2)) => Option::Some(
                    crate::util::js_date_to_naive_date_time(d2),
                ),
                Some(_) => {
                    return Err(
                        NodeXlsxError::new(crate::value::prop_error("optionalValue", "date")),
                    );
                },
            };
            let ms = crate::util::js_date_to_naive_date_time(d);
            match set_value_to_writer_variant(t.as_str(), ms, opt) {
                Ok(cr) => Ok(Option::Some(NodeXlsxConditionalFormatCellRule::DateTime(cr))),
                Err(e) => Err(e),
            }
        },
        _ => Ok(Option::None),
    }
}

impl Cell {
    /// The kind a host object decodes to: the optional comparison rule,
    /// shared attributes, and an optional format reference.
    pub open spec fn spec_from_js_object(o: JsObject) -> Result<Cell, Seq<char>> {
        let rule = spec_cell_kind_rule(o);
        let multi_range = spec_opt_string(o, "multiRange"@);
        let stop_if_true = spec_opt_bool(o, "stopIfTrue"@);
        let format = spec_opt_format_id(o, "format"@);
        if rule is Err {
            Err(rule->Err_0)
        } else if multi_range is Err {
            Err(multi_range->Err_0)
        } else if stop_if_true is Err {
            Err(stop_if_true->Err_0)
        } else if format is Err {
            Err(format->Err_0)
        } else {
            Ok(
                Cell {
                    rule: rule->Ok_0,
                    multi_range: multi_range->Ok_0,
                    stop_if_true: stop_if_true->Ok_0,
                    format: format->Ok_0,
                },
            )
        }
    }

    /// Reads the shared attributes and the format reference, attaching an
    /// already-decoded comparison rule.
    pub fn from_js_object(
        o: &JsObject,
        format_map: &mut Registry<Format>,
        rule: Option<NodeXlsxConditionalFormatCellRule>,
    ) -> (r: Result<Cell, NodeXlsxError>)
        ensures
            match r {
                Ok(k) => {
                    &&& k.rule == rule
                    &&& spec_opt_string(*o, "multiRange"@) == Ok::<Option<String>, Seq<char>>(
                        k.multi_range,
                    )
                    &&& spec_opt_bool(*o, "stopIfTrue"@) == Ok::<Option<bool>, Seq<char>>(
                        k.stop_if_true,
                    )
                    &&& spec_opt_format_id(*o, "format"@) == Ok::<Option<u32>, Seq<char>>(k.format)
                    &&& format_step_rel(*o, "format"@, old(format_map).entries@, final(format_map).entries@)
                },
                Err(e) => {
                    &&& final(format_map).entries@ == old(format_map).entries@
                    &&& if spec_opt_string(*o, "multiRange"@) is Err {
                        e.message@ == spec_opt_string(*o, "multiRange"@)->Err_0
                    } else if spec_opt_bool(*o, "stopIfTrue"@) is Err {
                        e.message@ == spec_opt_bool(*o, "stopIfTrue"@)->Err_0
                    } else if spec_opt_format_id(*o, "format"@) is Err {
                        e.message@ == spec_opt_format_id(*o, "format"@)->Err_0
                    } else {
                        spec_fresh_format_err(*o, "format"@, old(format_map).entries@) matches Some(m)
                            && e.message@ == m
                    }
                },
            },
            old(format_map).wf() ==> final(format_map).wf(),
    {
        let multi_range = match o.get_opt_string("multiRange") {
            Ok(x) => x,
            Err(e) => {
                return Err(e);
            },
        };
        let stop_if_true = match o.get_opt_bool("stopIfTrue") {
            Ok(x) => x,
            Err(e) => {
                return Err(e);
            },
        };
        let format = match opt_format_ref(o, "format", format_map) {
            Ok(f) => f,
            Err(e) => {
                return Err(e);
            },
        };
        Ok(Cell { rule, multi_range, stop_if_true, format })
    }

    /// Registers the kind under the payload's id with the first-wins
    /// policy: a payload under a registered id is ignored unread.
    pub fn create_and_set_to_map(
        o: &JsObject,
        c_format_map: &mut Registry<NodeXlsxConditionalFormatType>,
        format_map: &mut Registry<Format>,
    ) -> (r: Result<u32, NodeXlsxError>)
        ensures
            match r {
                Ok(id) => {
                    &&& o.spec_get("id"@) matches JsValue::Number(n) && id == n.spec_u32()
                    &&& if has_id(old(c_format_map).entries@, id) {
                        final(c_format_map).entries@ == old(c_format_map).entries@ && final(format_map).entries@ == old(format_map).entries@
                    } else {
                        Cell::spec_from_js_object(*o) matches Ok(k) && final(c_format_map).entries@ == old(c_format_map).entries@.push(
                            (id, NodeXlsxConditionalFormatType::Cell(k)),
                        ) && format_step_rel(
                            *o,
                            "format"@,
                            old(format_map).entries@,
                            final(format_map).entries@,
                        )
                    }
                },
                Err(e) => {
                    &&& final(c_format_map).entries@ == old(c_format_map).entries@
                    &&& final(format_map).entries@ == old(format_map).entries@
                    &&& match o.spec_get("id"@) {
                        JsValue::Number(n) => !has_id(old(c_format_map).entries@, n.spec_u32())
                            && match Cell::spec_from_js_object(*o) {
                            Err(m) => e.message@ == m,
                            Ok(_) => spec_fresh_format_err(*o, "format"@, old(format_map).entries@) matches
                                Some(m) && e.message@ == m,
                        },
                        _ => e.message@ == missing_prop_msg("id"@, "number"@),
                    }
                },
            },
            old(c_format_map).wf() ==> final(c_format_map).wf(),
            old(format_map).wf() ==> final(format_map).wf(),
    {
        let id = match o.get_number("id") {
            Ok(n) => n.as_u32(),
            Err(e) => {
                return Err(e);
            },
        };
        if !c_format_map.contains(id) {
            let rule = match decode_cell_kind_rule(o) {
                Ok(ru) => ru,
                Err(e) => {
                    return Err(e);
                },
            };
            let k = match Cell::from_js_object(o, format_map, rule) {
                Ok(k) => k,
                Err(e) => {
                    return Err(e);
                },
            };
            c_format_map.insert(id, NodeXlsxConditionalFormatType::Cell(k));
        }
        Ok(id)
    }
}

} // verus!
