use vstd::prelude::*;
use vstd::string::StringExecFns;
use crate::error::NodeXlsxError;
use crate::format::Format;
use crate::registry::{Registry, has_id, spec_format_ref_err, spec_format_ref_ok};
use crate::text::concat2;
use crate::types::{NodeXlsxTypes, spec_type_err, spec_type_ok};
use crate::value::{JsObject, JsValue, missing_prop_msg};

verus! {

/// The exclusive column bound of the spreadsheet format.
pub const MAX_COLUMNS: u16 = 16384;

/// The exclusive row bound of the spreadsheet format.
pub const MAX_ROWS: u32 = 1048576;

/// The column a `key`-named number decodes to: in `[0, 16384)`, with any
/// negative or too-large number a bounds error.
pub open spec fn spec_decode_col_prop(o: JsObject, key: Seq<char>) -> Result<u16, Seq<char>> {
    match o.spec_get(key) {
        JsValue::Number(n) => if n.neg || n.int >= 16384 {
            Err("Column with illegal number "@ + n.repr@)
        } else {
            Ok(n.spec_u16())
        },
        _ => Err(missing_prop_msg(key, "number"@)),
    }
}

/// The column a cell object's `col` number decodes to.
pub open spec fn spec_decode_col(o: JsObject) -> Result<u16, Seq<char>> {
    spec_decode_col_prop(o, "col"@)
}

/// The row a `key`-named number decodes to: in `[0, 1048576)`, with any
/// negative or too-large number a bounds error.
pub open spec fn spec_decode_row_prop(o: JsObject, key: Seq<char>) -> Result<u32, Seq<char>> {
    match o.spec_get(key) {
        JsValue::Number(n) => if n.neg || n.int >= 1048576 {
            Err("Row with illegal number "@ + n.repr@)
        } else {
            Ok(n.spec_u32())
        },
        _ => Err(missing_prop_msg(key, "number"@)),
    }
}

/// The row a cell object's `row` number decodes to.
pub open spec fn spec_decode_row(o: JsObject) -> Result<u32, Seq<char>> {
    spec_decode_row_prop(o, "row"@)
}

/// Reads a column-valued property of an object and bounds-checks it.
pub fn decode_col_prop(o: &JsObject, key: &str) -> (r: Result<u16, NodeXlsxError>)
    ensures
        crate::error::matches_spec(r, spec_decode_col_prop(*o, key@)),
        r matches Ok(c) ==> c < MAX_COLUMNS,
{
    let n = match o.get_number(key) {
        Ok(n) => n,
        Err(e) => {
            return Err(e);
        },
    };
    if n.neg || n.int >= 16384 {
        Err(NodeXlsxError::new(concat2("Column with illegal number ", n.repr.as_str())))
    } else {
        Ok(n.as_u16())
    }
}

/// Reads the `col` property of a cell object and bounds-checks it.
pub fn decode_col(o: &JsObject) -> (r: Result<u16, NodeXlsxError>)
    ensures
        crate::error::matches_spec(r, spec_decode_col(*o)),
        r matches Ok(c) ==> c < MAX_COLUMNS,
{
    decode_col_prop(o, "col")
}

/// Reads a row-valued property of an object and bounds-checks it.
pub fn decode_row_prop(o: &JsObject, key: &str) -> (r: Result<u32, NodeXlsxError>)
    ensures
        crate::error::matches_spec(r, spec_decode_row_prop(*o, key@)),
        r matches Ok(c) ==> c < MAX_ROWS,
{
    let n = match o.get_number(key) {
        Ok(n) => n,
        Err(e) => {
            return Err(e);
        },
    };
    if n.neg || n.int >= 1048576 {
        Err(NodeXlsxError::new(concat2("Row with illegal number ", n.repr.as_str())))
    } else {
        Ok(n.as_u32())
    }
}

/// Reads the `row` property of a cell object and bounds-checks it.
pub fn decode_row(o: &JsObject) -> (r: Result<u32, NodeXlsxError>)
    ensures
        crate::error::matches_spec(r, spec_decode_row(*o)),
        r matches Ok(c) ==> c < MAX_ROWS,
{
    decode_row_prop(o, "row")
}

/// A decoded cell: a validated position, typed content, and an optional
/// format reference into the sheet's registry.
#[derive(Debug)]
pub struct NodeXlsxCell {
    pub col: u16,
    pub row: u32,
    pub cell_type: NodeXlsxTypes,
    pub format: Option<u32>,
}

/// The first failure a cell object produces during decode, if any, in the
/// order the fields are read: column, row, type tag, value, format.
pub open spec fn spec_cell_err(o: JsObject, reg0: Seq<(u32, Format)>) -> Option<Seq<char>> {
    if spec_decode_col(o) is Err {
        Option::Some(spec_decode_col(o)->Err_0)
    } else if spec_decode_row(o) is Err {
        Option::Some(spec_decode_row(o)->Err_0)
    } else if crate::util::spec_opt_string(o, "cellType"@) is Err {
        Option::Some(crate::util::spec_opt_string(o, "cellType"@)->Err_0)
    } else if spec_type_err(
        crate::util::spec_opt_string(o, "cellType"@)->Ok_0,
        o.spec_get("value"@),
    ) is Some {
        spec_type_err(crate::util::spec_opt_string(o, "cellType"@)->Ok_0, o.spec_get("value"@))
    } else {
        match o.spec_get("format"@) {
            JsValue::Undefined => Option::None,
            JsValue::Object(fo) => spec_format_ref_err(fo, reg0),
            _ => Option::Some(missing_prop_msg("format"@, "object"@)),
        }
    }
}

impl NodeXlsxCell {
    /// Decodes a cell object against the sheet's format registry.
    fn inner_from_js_object(o: &JsObject, format_map: &mut Registry<Format>) -> (r: Result<
        NodeXlsxCell,
        NodeXlsxError,
    >)
        ensures
            match r {
                Ok(cell) => {
                    &&& spec_cell_err(*o, old(format_map).entries@) is None
                    &&& spec_decode_col(*o) == Ok::<u16, Seq<char>>(cell.col)
                    &&& spec_decode_row(*o) == Ok::<u32, Seq<char>>(cell.row)
                    &&& spec_type_ok(
                        crate::util::spec_opt_string(*o, "cellType"@)->Ok_0,
                        o.spec_get("value"@),
                        cell.cell_type,
                    )
                    &&& match o.spec_get("format"@) {
                        JsValue::Undefined => cell.format is None && final(format_map).entries@
                            == old(format_map).entries@,
                        JsValue::Object(fo) => cell.format matches Some(id) && spec_format_ref_ok(
                            fo,
                            old(format_map).entries@,
                            final(format_map).entries@,
                            id,
                        ),
                        _ => false,
                    }
                },
                Err(e) => {
                    &&& final(format_map).entries@ == old(format_map).entries@
                    &&& spec_cell_err(*o, old(format_map).entries@) matches Some(m) && e.message@
                        == m
                },
            },
            old(format_map).wf() ==> final(format_map).wf(),
    {
        let col = match decode_col(o) {
            Ok(c) => c,
            Err(e) => {
                return Err(e);
            },
        };
        let row = match decode_row(o) {
            Ok(rw) => rw,
            Err(e) => {
                return Err(e);
            },
        };
        let cel_type = match o.get_opt_string("cellType") {
            Ok(t) => t,
            Err(e) => {
                return Err(e);
            },
        };
        let undef = JsValue::Undefined;
        let value = match o.lookup("value") {
            Some(v) => v,
            Option::None => &undef,
        };
        let cell_type = match NodeXlsxTypes::from_js_string(cel_type.as_ref(), value) {
            Ok(t) => t,
            Err(e) => {
                return Err(e);
            },
        };
        let format = match o.get_opt_object("format") {
            Ok(Some(fo)) => match crate::registry::create_format(fo, format_map) {
                Ok(id) => Some(id),
                Err(e) => {
                    return Err(e);
                },
            },
            Ok(Option::None) => Option::None,
            Err(e) => {
                return Err(e);
            },
        };
        Ok(NodeXlsxCell { col, row, cell_type, format })
    }

    /// Decodes a cell object; any failure is wrapped with the rendering of
    /// the whole cell for diagnosability.
    pub fn from_js_object(o: &JsObject, format_map: &mut Registry<Format>) -> (r: Result<
        NodeXlsxCell,
        NodeXlsxError,
    >)
        ensures
            match r {
                Ok(cell) => {
                    &&& spec_cell_err(*o, old(format_map).entries@) is None
                    &&& spec_decode_col(*o) == Ok::<u16, Seq<char>>(cell.col)
                    &&& spec_decode_row(*o) == Ok::<u32, Seq<char>>(cell.row)
                    &&& spec_type_ok(
                        crate::util::spec_opt_string(*o, "cellType"@)->Ok_0,
                        o.spec_get("value"@),
                        cell.cell_type,
                    )
                    &&& match o.spec_get("format"@) {
                        JsValue::Undefined => cell.format is None && final(format_map).entries@
                            == old(format_map).entries@,
                        JsValue::Object(fo) => cell.format matches Some(id) && spec_format_ref_ok(
                            fo,
                            old(format_map).entries@,
                            final(format_map).entries@,
                            id,
                        ),
                        _ => false,
                    }
                },
                Err(e) => {
                    &&& final(format_map).entries@ == old(format_map).entries@
                    &&& spec_cell_err(*o, old(format_map).entries@) matches Some(m) && e.message@
                        == "Error parsing cell: "@ + o.spec_repr() + " with error:\n  "@ + m
                },
            },
            old(format_map).wf() ==> final(format_map).wf(),
    {
        match NodeXlsxCell::inner_from_js_object(o, format_map) {
            Ok(c) => Ok(c),
            Err(e) => {
                let rep = o.repr();
                let mut msg = concat2("Error parsing cell: ", rep.as_str());
                msg.append(" with error:\n  ");
                msg.append(e.message.as_str());
                Err(NodeXlsxError::new(msg))
            },
        }
    }
}


/// The one write a decoded cell compiles to: the cell-value kind crossed
/// with format presence picks the write operation, and formulas are
/// further crossed with their dynamic flag.
pub open spec fn spec_cell_op(c: NodeXlsxCell) -> crate::ops::SheetOp {
    match c.cell_type {
        NodeXlsxTypes::Text(v) => match c.format {
            Some(f) => crate::ops::SheetOp::WriteStringWithFormat {
                row: c.row,
                col: c.col,
                value: v,
                format: f,
            },
            Option::None => crate::ops::SheetOp::WriteString { row: c.row, col: c.col, value: v },
        },
        NodeXlsxTypes::Unknown(v) => match c.format {
            Some(f) => crate::ops::SheetOp::WriteStringWithFormat {
                row: c.row,
                col: c.col,
                value: v,
                format: f,
            },
            Option::None => crate::ops::SheetOp::WriteString { row: c.row, col: c.col, value: v },
        },
        NodeXlsxTypes::Number(b) => match c.format {
            Some(f) => crate::ops::SheetOp::WriteNumberWithFormat {
                row: c.row,
                col: c.col,
                value: b,
                format: f,
            },
            Option::None => crate::ops::SheetOp::WriteNumber { row: c.row, col: c.col, value: b },
        },
        NodeXlsxTypes::Link(u) => match c.format {
            Some(f) => crate::ops::SheetOp::WriteUrlWithFormat {
                row: c.row,
                col: c.col,
                url: u,
                format: f,
            },
            Option::None => crate::ops::SheetOp::WriteUrl { row: c.row, col: c.col, url: u },
        },
        NodeXlsxTypes::Date(ms) => match c.format {
            Some(f) => crate::ops::SheetOp::WriteDatetimeWithFormat {
                row: c.row,
                col: c.col,
                ms: ms,
                format: f,
            },
            Option::None => crate::ops::SheetOp::WriteDatetime { row: c.row, col: c.col, ms: ms },
        },
        NodeXlsxTypes::Formula(p) => if p.1 && c.format is None {
            crate::ops::SheetOp::WriteDynamicFormula { row: c.row, col: c.col, formula: p.0 }
        } else if p.1 {
            crate::ops::SheetOp::WriteDynamicFormulaWithFormat {
                row: c.row,
                col: c.col,
                formula: p.0,
                format: c.format->0,
            }
        } else if c.format is None {
            crate::ops::SheetOp::WriteFormula { row: c.row, col: c.col, formula: p.0 }
        } else {
            crate::ops::SheetOp::WriteFormulaWithFormat {
                row: c.row,
                col: c.col,
                formula: p.0,
                format: c.format->0,
            }
        },
    }
}

impl NodeXlsxCell {
    /// Appends this cell's write to the assembly script.
    pub fn write_to_sheet(&self, ops: &mut Vec<crate::ops::SheetOp>)
        ensures
            final(ops)@ == old(ops)@.push(spec_cell_op(*self)),
    {
        let op = match &self.cell_type {
            NodeXlsxTypes::Text(v) => match self.format {
                Some(f) => crate::ops::SheetOp::WriteStringWithFormat {
                    row: self.row,
                    col: self.col,
                    value: v.clone(),
                    format: f,
                },
                Option::None => crate::ops::SheetOp::WriteString {
                    row: self.row,
                    col: self.col,
                    value: v.clone(),
                },
            },
            NodeXlsxTypes::Unknown(v) => match self.format {
                Some(f) => crate::ops::SheetOp::WriteStringWithFormat {
                    row: self.row,
                    col: self.col,
                    value: v.clone(),
                    format: f,
                },
                Option::None => crate::ops::SheetOp::WriteString {
                    row: self.row,
                    col: self.col,
                    value: v.clone(),
                },
            },
            NodeXlsxTypes::Number(b) => match self.format {
                Some(f) => crate::ops::SheetOp::WriteNumberWithFormat {
                    row: self.row,
                    col: self.col,
                    value: *b,
                    format: f,
                },
                Option::None => crate::ops::SheetOp::WriteNumber {
                    row: self.row,
                    col: self.col,
                    value: *b,
                },
            },
            NodeXlsxTypes::Link(u) => match self.format {
                Some(f) => crate::ops::SheetOp::WriteUrlWithFormat {
                    row: self.row,
                    col: self.col,
                    url: u.clone(),
                    format: f,
                },
                Option::None => crate::ops::SheetOp::WriteUrl {
                    row: self.row,
                    col: self.col,
                    url: u.clone(),
                },
            },
            NodeXlsxTypes::Date(ms) => match self.format {
                Some(f) => crate::ops::SheetOp::WriteDatetimeWithFormat {
                    row: self.row,
                    col: self.col,
                    ms: *ms,
                    format: f,
                },
                Option::None => crate::ops::SheetOp::WriteDatetime {
                    row: self.row,
                    col: self.col,
                    ms: *ms,
                },
            },
            NodeXlsxTypes::Formula(p) => {
                let formula = p.0.clone();
                if p.1 {
                    match self.format {
                        Option::None => crate::ops::SheetOp::WriteDynamicFormula {
                            row: self.row,
                            col: self.col,
                            formula,
                        },
                        Some(f) => crate::ops::SheetOp::WriteDynamicFormulaWithFormat {
                            row: self.row,
                            col: self.col,
                            formula,
                            format: f,
                        },
                    }
                } else {
                    match self.format {
                        Option::None => crate::ops::SheetOp::WriteFormula {
                            row: self.row,
                            col: self.col,
                            formula,
                        },
                        Some(f) => crate::ops::SheetOp::WriteFormulaWithFormat {
                            row: self.row,
                            col: self.col,
                            formula,
                            format: f,
                        },
                    }
                }
            },
        };
        ops.push(op);
    }
}

/// A formula cell routes to four distinct write operations, one for each
/// combination of its dynamic flag and format presence.
pub proof fn lemma_formula_write_routing(c: NodeXlsxCell, f: crate::util::Formula, dynamic: bool)
    requires
        c.cell_type == NodeXlsxTypes::Formula((f, dynamic)),
    ensures
        dynamic && c.format is None ==> spec_cell_op(c) == (crate::ops::SheetOp::WriteDynamicFormula {
            row: c.row,
            col: c.col,
            formula: f,
        }),
        dynamic && c.format is Some ==> spec_cell_op(c)
            == (crate::ops::SheetOp::WriteDynamicFormulaWithFormat {
            row: c.row,
            col: c.col,
            formula: f,
            format: c.format->0,
        }),
        !dynamic && c.format is None ==> spec_cell_op(c) == (crate::ops::SheetOp::WriteFormula {
            row: c.row,
            col: c.col,
            formula: f,
        }),
        !dynamic && c.format is Some ==> spec_cell_op(c)
            == (crate::ops::SheetOp::WriteFormulaWithFormat {
            row: c.row,
            col: c.col,
            formula: f,
            format: c.format->0,
        }),
{
}


/// A cell coordinate decodes exactly when it is a number in the
/// spreadsheet's hard limits: columns in `[0, 16384)` and rows in
/// `[0, 1048576)`; any negative or too-large coordinate is a bounds
/// error.
pub proof fn lemma_coordinate_bounds(o: JsObject)
    ensures
        (spec_decode_col(o) is Ok) <==> (o.spec_get("col"@) matches JsValue::Number(n) && !n.neg
            && n.int < 16384),
        (spec_decode_row(o) is Ok) <==> (o.spec_get("row"@) matches JsValue::Number(n) && !n.neg
            && n.int < 1048576),
{
}

} // verus!
