use vstd::prelude::*;
use crate::cell::{spec_decode_col_prop, spec_decode_row_prop, decode_col_prop, decode_row_prop};
use crate::error::NodeXlsxError;
use crate::format::Format;
use crate::ops::SheetOp;
use crate::registry::{
    Registry, format_step_rel, opt_format_ref, spec_fresh_format_err, spec_opt_format_id,
};
use crate::util::{Formula, spec_object_to_formula};
use crate::value::{JsObject, JsValue, missing_prop_msg};

verus! {

/// An array-formula placement: a validated rectangular range, the
/// formula, its dynamic flag, and an optional format reference.
#[derive(Debug)]
pub struct ArrayFormulaSheetValue {
    pub first_row: u32,
    pub last_row: u32,
    pub first_column: u16,
    pub last_column: u16,
    pub formula: Formula,
    pub dynamic: bool,
    pub format: Option<u32>,
}

impl ArrayFormulaSheetValue {
    /// The placement a host object decodes to: four bounds-checked range
    /// coordinates, a required formula object, and an optional format
    /// reference.
    pub open spec fn spec_from_js_object(o: JsObject) -> Result<
        ArrayFormulaSheetValue,
        Seq<char>,
    > {
        let first_row = spec_decode_row_prop(o, "firstRow"@);
        let last_row = spec_decode_row_prop(o, "lastRow"@);
        let first_column = spec_decode_col_prop(o, "firstColumn"@);
        let last_column = spec_decode_col_prop(o, "lastColumn"@);
        let formula = match o.spec_get("formula"@) {
            JsValue::Object(fo) => spec_object_to_formula(fo),
            _ => Err(missing_prop_msg("formula"@, "object"@)),
        };
        let format = spec_opt_format_id(o, "format"@);
        if first_row is Err {
            Err(first_row->Err_0)
        } else if last_row is Err {
            Err(last_row->Err_0)
        } else if first_column is Err {
            Err(first_column->Err_0)
        } else if last_column is Err {
            Err(last_column->Err_0)
        } else if formula is Err {
            Err(formula->Err_0)
        } else if format is Err {
            Err(format->Err_0)
        } else {
            Ok(
                ArrayFormulaSheetValue {
                    first_row: first_row->Ok_0,
                    last_row: last_row->Ok_0,
                    first_column: first_column->Ok_0,
                    last_column: last_column->Ok_0,
                    formula: formula->Ok_0.0,
                    dynamic: formula->Ok_0.1,
                    format: format->Ok_0,
                },
            )
        }
    }

    pub fn from_js_object(o: &JsObject, format_map: &mut Registry<Format>) -> (r: Result<
        ArrayFormulaSheetValue,
        NodeXlsxError,
    >)
        ensures
            match r {
                Ok(k) => ArrayFormulaSheetValue::spec_from_js_object(*o) == Ok::<
                    ArrayFormulaSheetValue,
                    Seq<char>,
                >(k) && format_step_rel(
                    *o,
                    "format"@,
                    old(format_map).entries@,
                    final(format_map).entries@,
                ),
                Err(e) => final(format_map).entries@ == old(format_map).entries@ && match ArrayFormulaSheetValue::spec_from_js_object(
                    *o,
                ) {
                    Err(m) => e.message@ == m,
                    Ok(_) => spec_fresh_format_err(*o, "format"@, old(format_map).entries@)
                        matches Some(m) && e.message@ == m,
                },
            },
            old(format_map).wf() ==> final(format_map).wf(),
    {
        let first_row = match decode_row_prop(o, "firstRow") {
            Ok(x) => x,
            Err(e) => {
                return Err(e);
            },
        };
        let last_row = match decode_row_prop(o, "lastRow") {
            Ok(x) => x,
            Err(e) => {
                return Err(e);
            },
        };
        let first_column = match decode_col_prop(o, "firstColumn") {
            Ok(x) => x,
            Err(e) => {
                return Err(e);
            },
        };
        let last_column = match decode_col_prop(o, "lastColumn") {
            Ok(x) => x,
            Err(e) => {
                return Err(e);
            },
        };
        let formula = match o.get_object("formula") {
            Ok(fo) => match crate::util::object_to_formula(fo) {
                Ok(p) => p,
                Err(e) => {
                    return Err(e);
                },
            },
            Err(e) => {
                return Err(e);
            },
        };
        let format = match opt_format_ref(o, "format", format_map) {
            Ok(f) => f,
            Err(e) => {
                return Err(e);
            },
        };
        Ok(
            ArrayFormulaSheetValue {
                first_row,
                last_row,
                first_column,
                last_column,
                formula: formula.0,
                dynamic: formula.1,
                format,
            },
        )
    }

    /// The one write this placement compiles to: the cross product of the
    /// dynamic flag and format presence picks among the four array-formula
    /// writes.
    pub open spec fn spec_op(&self) -> SheetOp {
        if self.dynamic && self.format is None {
            SheetOp::WriteDynamicArrayFormula {
                first_row: self.first_row,
                first_column: self.first_column,
                last_row: self.last_row,
                last_column: self.last_column,
                formula: self.formula,
            }
        } else if self.dynamic {
            SheetOp::WriteDynamicArrayFormulaWithFormat {
                first_row: self.first_row,
                first_column: self.first_column,
                last_row: self.last_row,
                last_column: self.last_column,
                formula: self.formula,
                format: self.format->0,
            }
        } else if self.format is None {
            SheetOp::WriteArrayFormula {
                first_row: self.first_row,
                first_column: self.first_column,
                last_row: self.last_row,
                last_column: self.last_column,
                formula: self.formula,
            }
        } else {
            SheetOp::WriteArrayFormulaWithFormat {
                first_row: self.first_row,
                first_column: self.first_column,
                last_row: self.last_row,
                last_column: self.last_column,
                formula: self.formula,
                format: self.format->0,
            }
        }
    }

    /// Appends this placement's write to the assembly script.
    pub fn write_to_sheet(&self, ops: &mut Vec<SheetOp>)
        ensures
            final(ops)@ == old(ops)@.push(self.spec_op()),
    {
        let formula = self.formula.clone();
        let op = if self.dynamic {
            match self.format {
                Option::None => SheetOp::WriteDynamicArrayFormula {
                    first_row: self.first_row,
                    first_column: self.first_column,
                    last_row: self.last_row,
                    last_column: self.last_column,
                    formula,
                },
                Some(f) => SheetOp::WriteDynamicArrayFormulaWithFormat {
                    first_row: self.first_row,
                    first_column: self.first_column,
                    last_row: self.last_row,
                    last_column: self.last_column,
                    formula,
                    format: f,
                },
            }
        } else {
            match self.format {
                Option::None => SheetOp::WriteArrayFormula {
                    first_row: self.first_row,
                    first_column: self.first_column,
                    last_row: self.last_row,
                    last_column: self.last_column,
                    formula,
                },
                Some(f) => SheetOp::WriteArrayFormulaWithFormat {
                    first_row: self.first_row,
                    first_column: self.first_column,
                    last_row: self.last_row,
                    last_column: self.last_column,
                    formula,
                    format: f,
                },
            }
        };
        ops.push(op);
    }
}

} // verus!
