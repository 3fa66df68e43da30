use vstd::prelude::*;
use crate::error::NodeXlsxError;
use crate::format::Format;
use crate::registry::{Registry, spec_opt_format_id, opt_format_ref};
use crate::table::util::{TableFunction, spec_table_function, object_to_table_function};
use crate::util::{Formula, spec_opt_string};
use crate::value::{JsObject, JsValue, missing_prop_msg};

verus! {

/// One structured-table column: an optional formula, format references,
/// header and total-row labels, and a total-row aggregation.
#[derive(Debug)]
pub struct NodeXlsxTableColumn {
    pub formula: Option<Formula>,
    pub format: Option<u32>,
    pub header: Option<String>,
    pub header_format: Option<u32>,
    pub total_label: Option<String>,
    pub total_function: Option<TableFunction>,
}

impl NodeXlsxTableColumn {
    /// The column a host object decodes to, read off the object alone:
    /// which format object ends up stored under a referenced id is
    /// decided by the sheet's registry, not here.
    pub open spec fn spec_pure(o: JsObject) -> Result<NodeXlsxTableColumn, Seq<char>> {
        let formula = match o.spec_get("formula"@) {
            JsValue::Undefined => Ok(Option::None),
            JsValue::Object(fo) => match crate::util::spec_object_to_formula(fo) {
                Ok(p) => Ok(Option::Some(p.0)),
                Err(m) => Err(m),
            },
            _ => Err(missing_prop_msg("formula"@, "object"@)),
        };
        let format = spec_opt_format_id(o, "format"@);
        let header_format = spec_opt_format_id(o, "headerFormat"@);
        let header = spec_opt_string(o, "header"@);
        let total_label = spec_opt_string(o, "totalLabel"@);
        let total_function = match o.spec_get("totalFunction"@) {
            JsValue::Undefined => Ok(Option::None),
            JsValue::Object(to) => match spec_table_function(to) {
                Ok(t) => Ok(Option::Some(t)),
                Err(m) => Err(m),
            },
            _ => Err(missing_prop_msg("totalFunction"@, "object"@)),
        };
        if formula is Err {
            Err(formula->Err_0)
        } else if format is Err {
            Err(format->Err_0)
        } else if header_format is Err {
            Err(header_format->Err_0)
        } else if header is Err {
            Err(header->Err_0)
        } else if total_label is Err {
            Err(total_label->Err_0)
        } else if total_function is Err {
            Err(total_function->Err_0)
        } else {
            Ok(
                NodeXlsxTableColumn {
                    formula: formula->Ok_0,
                    format: format->Ok_0,
                    header: header->Ok_0,
                    header_format: header_format->Ok_0,
                    total_label: total_label->Ok_0,
                    total_function: total_function->Ok_0,
                },
            )
        }
    }

    /// The registry both of this column's format references leave behind:
    /// the `format` step followed by the `headerFormat` step, each with
    /// the first-wins policy, so a payload under an already-registered id
    /// changes nothing and is ignored unread.
    pub open spec fn spec_format_steps(
        o: JsObject,
        reg0: Seq<(u32, Format)>,
    ) -> Seq<(u32, Format)> {
        crate::registry::format_step_result(
            o,
            "headerFormat"@,
            crate::registry::format_step_result(o, "format"@, reg0),
        )
    }

    /// Decodes a column against the sheet's format registry; both format
    /// references go through the registry's first-wins policy.
    pub fn from_js_object(o: &JsObject, format_map: &mut Registry<Format>) -> (r: Result<
        NodeXlsxTableColumn,
        NodeXlsxError,
    >)
        ensures
            old(format_map).entries@.is_prefix_of(final(format_map).entries@),
            old(format_map).wf() ==> final(format_map).wf(),
            r matches Ok(col) ==> NodeXlsxTableColumn::spec_pure(*o) == Ok::<
                NodeXlsxTableColumn,
                Seq<char>,
            >(col) && final(format_map).entries@ == NodeXlsxTableColumn::spec_format_steps(
                *o,
                old(format_map).entries@,
            ),
            r is Err ==> final(format_map).entries@ == old(format_map).entries@ || final(format_map).entries@ == crate::registry::format_step_result(
                *o,
                "format"@,
                old(format_map).entries@,
            ) || final(format_map).entries@ == NodeXlsxTableColumn::spec_format_steps(
                *o,
                old(format_map).entries@,
            ),
            NodeXlsxTableColumn::spec_pure(*o) is Err ==> r is Err,
            NodeXlsxTableColumn::spec_pure(*o) is Ok && crate::registry::format_payload_clean(
                *o,
                "format"@,
            ) && crate::registry::format_payload_clean(*o, "headerFormat"@) ==> r is Ok,
    {
        proof {
            crate::registry::lemma_prefix_refl(old(format_map).entries@);
        }
        let formula = match o.get_opt_object("formula") {
            Ok(Some(fo)) => match crate::util::object_to_formula(fo) {
                Ok(p) => Some(p.0),
                Err(e) => {
                    return Err(e);
                },
            },
            Ok(Option::None) => Option::None,
            Err(e) => {
                return Err(e);
            },
        };
        let format = match opt_format_ref(o, "format", format_map) {
            Ok(f) => f,
            Err(e) => {
                return Err(e);
            },
        };
        proof {
            crate::registry::lemma_format_step_prefix(
                *o,
                "format"@,
                old(format_map).entries@,
                format_map.entries@,
            );
            crate::registry::lemma_format_step_result(
                *o,
                "format"@,
                old(format_map).entries@,
                format_map.entries@,
            );
        }
        let ghost mid = format_map.entries@;
        let header_format = match opt_format_ref(o, "headerFormat", format_map) {
            Ok(f) => f,
            Err(e) => {
                return Err(e);
            },
        };
        proof {
            crate::registry::lemma_format_step_prefix(
                *o,
                "headerFormat"@,
                mid,
                format_map.entries@,
            );
            crate::registry::lemma_format_step_result(
                *o,
                "headerFormat"@,
                mid,
                format_map.entries@,
            );
            crate::registry::lemma_prefix_trans(
                old(format_map).entries@,
                mid,
                format_map.entries@,
            );
        }
        let header = match o.get_opt_string("header") {
            Ok(x) => x,
            Err(e) => {
                return Err(e);
            },
        };
        let total_label = match o.get_opt_string("totalLabel") {
            Ok(x) => x,
            Err(e) => {
                return Err(e);
            },
        };
        let total_function = match o.get_opt_object("totalFunction") {
            Ok(Some(to)) => match object_to_table_function(to) {
                Ok(t) => Some(t),
                Err(e) => {
                    return Err(e);
                },
            },
            Ok(Option::None) => Option::None,
            Err(e) => {
                return Err(e);
            },
        };
        Ok(
            NodeXlsxTableColumn {
                formula,
                format,
                header,
                header_format,
                total_label,
                total_function,
            },
        )
    }
}

} // verus!
