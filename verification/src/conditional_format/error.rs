use vstd::prelude::*;
use crate::conditional_format::c_type::NodeXlsxConditionalFormatType;
use crate::error::NodeXlsxError;
use crate::format::Format;
use crate::registry::{Registry, format_step_rel, has_id, opt_format_ref, spec_fresh_format_err, spec_opt_format_id};
use crate::util::{spec_opt_bool, spec_opt_string};
use crate::value::{JsObject, JsValue, missing_prop_msg};

verus! {

/// The error / no-error rule kind.
#[derive(Debug)]
pub struct Error {
    pub multi_range: Option<String>,
    pub stop_if_true: Option<bool>,
    pub invert: bool,
    pub format: Option<u32>,
}

impl Error {
    /// The kind a host object decodes to: a required `invert` flag, shared
    /// attributes, and an optional format reference.
    pub open spec fn spec_from_js_object(o: JsObject) -> Result<Error, Seq<char>> {
        let invert = match o.spec_get("invert"@) {
            JsValue::Bool(b) => Ok(b),
            _ => Err(missing_prop_msg("invert"@, "boolean"@)),
        };
        let multi_range = spec_opt_string(o, "multiRange"@);
        let stop_if_true = spec_opt_bool(o, "stopIfTrue"@);
        let format = spec_opt_format_id(o, "format"@);
        if invert is Err {
            Err(invert->Err_0)
        } else if multi_range is Err {
            Err(multi_range->Err_0)
        } else if stop_if_true is Err {
            Err(stop_if_true->Err_0)
        } else if format is Err {
            Err(format->Err_0)
        } else {
            Ok(
                Error {
                    invert: invert->Ok_0,
                    format: format->Ok_0,
                    multi_range: multi_range->Ok_0,
                    stop_if_true: stop_if_true->Ok_0,
                },
            )
        }
    }

    pub fn from_js_object(o: &JsObject, format_map: &mut Registry<Format>) -> (r: Result<
        Error,
        NodeXlsxError,
    >)
        ensures
            match r {
                Ok(k) => Error::spec_from_js_object(*o) == Ok::<Error, Seq<char>>(k)
                    && format_step_rel(*o, "format"@, old(format_map).entries@, final(format_map).entries@),
                Err(e) => final(format_map).entries@ == old(format_map).entries@ && match Error::spec_from_js_object(
                    *o,
                ) {
                    Err(m) => e.message@ == m,
                    Ok(_) => spec_fresh_format_err(*o, "format"@, old(format_map).entries@) matches Some(m)
                        && e.message@ == m,
                },
            },
            old(format_map).wf() ==> final(format_map).wf(),
    {
        let invert = match o.get_bool("invert") {
            Ok(b) => b,
            Err(e) => {
                return Err(e);
            },
        };
        let multi_range = match o.get_opt_string("multiRange") {
            Ok(x) => x,
            Err(e) => {
                return Err(e);
            },
        };
        let stop_if_true = match o.get_opt_bool("stopIfTrue") {
            Ok(x) => x,
            Err(e) => {
                return Err(e);
            },
        };
        let format = match opt_format_ref(o, "format", format_map) {
            Ok(f) => f,
            Err(e) => {
                return Err(e);
            },
        };
        Ok(Error { invert, format, multi_range, stop_if_true })
    }

    /// Registers the kind under the payload's id with the first-wins
    /// policy: a payload under a registered id is ignored unread.
    pub fn create_and_set_to_map(
        o: &JsObject,
        c_format_map: &mut Registry<NodeXlsxConditionalFormatType>,
        format_map: &mut Registry<Format>,
    ) -> (r: Result<u32, NodeXlsxError>)
        ensures
            match r {
                Ok(id) => {
                    &&& o.spec_get("id"@) matches JsValue::Number(n) && id == n.spec_u32()
                    &&& if has_id(old(c_format_map).entries@, id) {
                        final(c_format_map).entries@ == old(c_format_map).entries@ && final(format_map).entries@ == old(format_map).entries@
                    } else {
                        Error::spec_from_js_object(*o) matches Ok(k) && final(c_format_map).entries@ == old(c_format_map).entries@.push(
                            (id, NodeXlsxConditionalFormatType::Error(k)),
                        ) && format_step_rel(
                            *o,
                            "format"@,
                            old(format_map).entries@,
                            final(format_map).entries@,
                        )
                    }
                },
                Err(e) => {
                    &&& final(c_format_map).entries@ == old(c_format_map).entries@
                    &&& final(format_map).entries@ == old(format_map).entries@
                    &&& match o.spec_get("id"@) {
                        JsValue::Number(n) => !has_id(old(c_format_map).entries@, n.spec_u32())
                            && match Error::spec_from_js_object(*o) {
                            Err(m) => e.message@ == m,
                            Ok(_) => spec_fresh_format_err(*o, "format"@, old(format_map).entries@) matches
                                Some(m) && e.message@ == m,
                        },
                        _ => e.message@ == missing_prop_msg("id"@, "number"@),
                    }
                },
            },
            old(c_format_map).wf() ==> final(c_format_map).wf(),
            old(format_map).wf() ==> final(format_map).wf(),
    {
        let id = match o.get_number("id") {
            Ok(n) => n.as_u32(),
            Err(e) => {
                return Err(e);
            },
        };
        if !c_format_map.contains(id) {
            let k = match Error::from_js_object(o, format_map) {
                Ok(k) => k,
                Err(e) => {
                    return Err(e);
                },
            };
            c_format_map.insert(id, NodeXlsxConditionalFormatType::Error(k));
        }
        Ok(id)
    }
}

} // verus!
