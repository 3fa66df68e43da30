use vstd::prelude::*;

pub mod array_formula_value;
pub mod config;
pub mod conditional_format_value;
pub mod table_value;

use crate::cell::{NodeXlsxCell, spec_cell_op, spec_decode_col, spec_decode_row};
use crate::conditional_format::c_type::NodeXlsxConditionalFormatType;
use crate::error::NodeXlsxError;
use crate::format::Format;
use crate::ops::SheetOp;
use crate::registry::{Registry, has_id, lemma_has_id_prefix, spec_opt_format_id};
use crate::sheet::array_formula_value::ArrayFormulaSheetValue;
use crate::sheet::config::{RowColumnConfig, Type};
use crate::sheet::conditional_format_value::ConditionalFormatSheetValue;
use crate::sheet::table_value::{NodeXlsxTableValue, spec_req_u16, spec_req_u32};
use crate::types::spec_type_ok;
use crate::value::{JsObject, JsValue, missing_prop_msg, prop_error};

verus! {

/// The reading of an optional list property: absent reads as empty, an
/// array reads as its elements, anything else is a shape error.
pub open spec fn spec_list(o: JsObject, key: Seq<char>) -> Result<Seq<JsValue>, Seq<char>> {
    match o.spec_get(key) {
        JsValue::Undefined => Ok(Seq::<JsValue>::empty()),
        JsValue::Array(a) => Ok(a@),
        _ => Err(missing_prop_msg(key, "array"@)),
    }
}

/// Whether `c` is the registry-independent reading of the cell object
/// `v`: position, typed content, and the referenced format id.
pub open spec fn cell_rel(v: JsValue, c: NodeXlsxCell) -> bool {
    &&& v matches JsValue::Object(co)
    &&& spec_decode_col(v->Object_0) == Ok::<u16, Seq<char>>(c.col)
    &&& spec_decode_row(v->Object_0) == Ok::<u32, Seq<char>>(c.row)
    &&& crate::util::spec_opt_string(v->Object_0, "cellType"@) matches Ok(tag) && spec_type_ok(
        tag,
        v->Object_0.spec_get("value"@),
        c.cell_type,
    )
    &&& spec_opt_format_id(v->Object_0, "format"@) == Ok::<Option<u32>, Seq<char>>(c.format)
}

/// The registry-independent failure of a cell object, if any: a cell
/// whose position, content or format reference is malformed always fails,
/// whatever the registry holds.
pub open spec fn cell_pure_bad(v: JsValue) -> bool {
    match v {
        JsValue::Object(co) => {
            ||| spec_decode_col(co) is Err
            ||| spec_decode_row(co) is Err
            ||| crate::util::spec_opt_string(co, "cellType"@) is Err
            ||| crate::types::spec_type_err(
                crate::util::spec_opt_string(co, "cellType"@)->Ok_0,
                co.spec_get("value"@),
            ) is Some
            ||| spec_opt_format_id(co, "format"@) is Err
        },
        _ => true,
    }
}

/// A cell object that decodes whatever the registry holds: well-shaped,
/// in bounds, and with a format payload that decodes on its own.
pub open spec fn cell_clean(v: JsValue) -> bool {
    &&& !cell_pure_bad(v)
    &&& v matches JsValue::Object(co) && crate::registry::format_payload_clean(co, "format"@)
}

/// Whether `cf` is the registry-independent reading of the placement
/// object `v`.
pub open spec fn cfv_rel(v: JsValue, cf: ConditionalFormatSheetValue) -> bool {
    &&& v matches JsValue::Object(co)
    &&& crate::cell::spec_decode_row_prop(v->Object_0, "firstRow"@) == Ok::<u32, Seq<char>>(
        cf.first_row,
    )
    &&& crate::cell::spec_decode_row_prop(v->Object_0, "lastRow"@) == Ok::<u32, Seq<char>>(
        cf.last_row,
    )
    &&& crate::cell::spec_decode_col_prop(v->Object_0, "firstColumn"@) == Ok::<u16, Seq<char>>(
        cf.first_column,
    )
    &&& crate::cell::spec_decode_col_prop(v->Object_0, "lastColumn"@) == Ok::<u16, Seq<char>>(
        cf.last_column,
    )
    &&& v->Object_0.spec_get("format"@) matches JsValue::Object(fo) && (fo.spec_get(
        "id"@,
    ) matches JsValue::Number(n) && cf.format == n.spec_u32())
}

/// Whether `af` is the exact reading of the array-formula object `v`,
/// which is registry-independent in every field.
pub open spec fn af_rel(v: JsValue, af: ArrayFormulaSheetValue) -> bool {
    v matches JsValue::Object(ao) && ArrayFormulaSheetValue::spec_from_js_object(ao) == Ok::<
        ArrayFormulaSheetValue,
        Seq<char>,
    >(af)
}

/// Whether `c` is the exact reading of the configuration object `v` for
/// the given axis.
pub open spec fn cfg_rel(v: JsValue, c: RowColumnConfig, config_type: Type) -> bool {
    v matches JsValue::Object(co) && RowColumnConfig::spec_inner(co, config_type) == Ok::<
        RowColumnConfig,
        Seq<char>,
    >(c)
}

/// Whether `t` is the reading of the table placement object `v`.
pub open spec fn tv_rel(v: JsValue, t: NodeXlsxTableValue) -> bool {
    &&& v matches JsValue::Object(to)
    &&& spec_req_u32(v->Object_0, "firstRow"@) == Ok::<u32, Seq<char>>(t.first_row)
    &&& spec_req_u32(v->Object_0, "lastRow"@) == Ok::<u32, Seq<char>>(t.last_row)
    &&& spec_req_u16(v->Object_0, "firstColumn"@) == Ok::<u16, Seq<char>>(t.first_column)
    &&& spec_req_u16(v->Object_0, "lastColumn"@) == Ok::<u16, Seq<char>>(t.last_column)
    &&& v->Object_0.spec_get("table"@) matches JsValue::Object(tb) && crate::table::spec_table_fields(
        tb,
        t.table,
    )
}

/// An array-formula placement that decodes whatever the registry holds.
pub open spec fn af_clean(v: JsValue) -> bool {
    v matches JsValue::Object(ao) && ArrayFormulaSheetValue::spec_from_js_object(ao) is Ok
        && crate::registry::format_payload_clean(v->Object_0, "format"@)
}

/// A table placement that decodes whatever the registry holds.
pub open spec fn table_value_clean(v: JsValue) -> bool {
    v matches JsValue::Object(to) && crate::sheet::table_value::spec_table_value_clean(to)
}

/// A conditional-format placement that decodes whatever the registries
/// hold.
pub open spec fn cfv_clean(v: JsValue) -> bool {
    v matches JsValue::Object(co)
        && crate::sheet::conditional_format_value::spec_cfv_clean(co)
}

/// A sheet object that decodes: a name, and placements that all decode
/// whatever the shared registries come to hold. Such a sheet always
/// decodes.
pub open spec fn spec_sheet_clean(o: JsObject) -> bool {
    &&& o.spec_get("name"@) is Str
    &&& spec_list(o, "cells"@) matches Ok(cs) && (forall|i: int|
        0 <= i < cs.len() ==> cell_clean(#[trigger] cs[i]))
    &&& spec_list(o, "conditionalFormats"@) matches Ok(fs) && (forall|i: int|
        0 <= i < fs.len() ==> cfv_clean(#[trigger] fs[i]))
    &&& spec_list(o, "arrayFormulas"@) matches Ok(afs) && (forall|i: int|
        0 <= i < afs.len() ==> af_clean(#[trigger] afs[i]))
    &&& spec_list(o, "rowConfigs"@) matches Ok(rs) && (forall|i: int|
        0 <= i < rs.len() ==> crate::sheet::config::config_clean(#[trigger] rs[i], Type::ROW))
    &&& spec_list(o, "columnConfigs"@) matches Ok(ks) && (forall|i: int|
        0 <= i < ks.len() ==> crate::sheet::config::config_clean(
            #[trigger] ks[i],
            Type::COLUMN,
        ))
    &&& spec_list(o, "tables"@) matches Ok(ts) && (forall|i: int|
        0 <= i < ts.len() ==> table_value_clean(#[trigger] ts[i]))
}

/// Whether `s` is a faithful decode of the sheet object `o`: name,
/// every placement related element by element, and two well-formed
/// registries with every referenced rule id registered.
pub open spec fn sheet_rel(o: JsObject, s: NodeXlsxSheet) -> bool {
    &&& o.spec_get("name"@) matches JsValue::Str(ns) && s.name == ns.text
    &&& spec_list(o, "cells"@) matches Ok(cs) && s.cells@.len() == cs.len() && (
                forall|i: int| 0 <= i < cs.len() ==> cell_rel(cs[i], #[trigger] s.cells@[i]))
    &&& spec_list(o, "conditionalFormats"@) matches Ok(fs)
        && s.conditional_formats@.len() == fs.len() && (forall|i: int|
        0 <= i < fs.len() ==> cfv_rel(fs[i], #[trigger] s.conditional_formats@[i])
            && has_id(
            s.conditional_format_map.entries@,
            s.conditional_formats@[i].format,
        ))
    &&& spec_list(o, "arrayFormulas"@) matches Ok(afs) && s.array_formulas@.len()
        == afs.len() && (forall|i: int|
        0 <= i < afs.len() ==> af_rel(afs[i], #[trigger] s.array_formulas@[i]))
    &&& spec_list(o, "rowConfigs"@) matches Ok(rs) && (spec_list(
        o,
        "columnConfigs"@,
                ) matches Ok(ks) && {
        &&& s.row_column_configs@.len() == rs.len() + ks.len()
        &&& (forall|i: int|
            0 <= i < rs.len() ==> cfg_rel(
                rs[i],
                #[trigger] s.row_column_configs@[i],
                Type::ROW,
            ))
        &&& (forall|i: int|
            0 <= i < ks.len() ==> cfg_rel(
                ks[i],
                #[trigger] s.row_column_configs@[rs.len() + i],
                Type::COLUMN,
            ))
                })
    &&& spec_list(o, "tables"@) matches Ok(ts) && s.tables@.len() == ts.len() && (
                forall|i: int| 0 <= i < ts.len() ==> tv_rel(ts[i], #[trigger] s.tables@[i]))
    &&& s.format_map.wf()
    &&& s.conditional_format_map.wf()
}

/// One fully decoded sheet: its placements in decode order and the two
/// per-sheet registries every format and rule reference resolved through.
#[derive(Debug)]
pub struct NodeXlsxSheet {
    pub name: String,
    pub cells: Vec<NodeXlsxCell>,
    pub conditional_formats: Vec<ConditionalFormatSheetValue>,
    pub array_formulas: Vec<ArrayFormulaSheetValue>,
    pub row_column_configs: Vec<RowColumnConfig>,
    pub tables: Vec<NodeXlsxTableValue>,
    pub format_map: Registry<Format>,
    pub conditional_format_map: Registry<NodeXlsxConditionalFormatType>,
}

impl NodeXlsxSheet {
    /// Decodes a sheet object: the name, then cells, conditional-format
    /// placements, array-formula placements, row and column
    /// configurations, and table placements, all sharing the sheet's two
    /// lazily-populated registries.
    pub fn from_js_object(o: &JsObject) -> (r: Result<NodeXlsxSheet, NodeXlsxError>)
        ensures
            r matches Ok(s) ==> sheet_rel(*o, s),
            (spec_list(*o, "cells"@) matches Ok(cs) && (exists|i: int|
                0 <= i < cs.len() && cell_pure_bad(#[trigger] cs[i]))) ==> r is Err,
            spec_sheet_clean(*o) ==> r is Ok,
    {
        let name = match o.get_string("name") {
            Ok(n) => n,
            Err(e) => {
                return Err(e);
            },
        };
        let mut format_map: Registry<Format> = Registry::new();
        let mut conditional_format_map: Registry<NodeXlsxConditionalFormatType> = Registry::new();

        let undef = JsValue::Undefined;
        let empty_items: Vec<JsValue> = Vec::new();
        proof {
            assert(empty_items@ =~= Seq::<JsValue>::empty());
        }

        let cells_v = match o.lookup("cells") {
            Some(v) => v,
            Option::None => &undef,
        };
        let cells_arr: &Vec<JsValue> = match cells_v {
            JsValue::Undefined => &empty_items,
            JsValue::Array(a) => a,
            _ => {
                return Err(NodeXlsxError::new(prop_error("cells", "array")));
            },
        };
        let mut inner_cells: Vec<NodeXlsxCell> = Vec::new();
        let n = cells_arr.len();
        let mut i: usize = 0;
        while i < n
            invariant
                i <= n,
                n == cells_arr@.len(),
                inner_cells@.len() == i,
                spec_list(*o, "cells"@) == Ok::<Seq<JsValue>, Seq<char>>(cells_arr@),
                format_map.wf(),
                conditional_format_map.wf(),
                conditional_format_map.entries@.len() == 0,
                forall|j: int|
                    0 <= j < i ==> cell_rel(cells_arr@[j], #[trigger] inner_cells@[j]),
            decreases n - i,
        {
            match &cells_arr[i] {
                JsValue::Object(co) => match NodeXlsxCell::from_js_object(co, &mut format_map) {
                    Ok(c) => {
                        inner_cells.push(c);
                    },
                    Err(e) => {
                        return Err(e);
                    },
                },
                _ => {
                    return Err(NodeXlsxError::new(prop_error("cells", "array of objects")));
                },
            }
            i = i + 1;
        }

        let cfs_v = match o.lookup("conditionalFormats") {
            Some(v) => v,
            Option::None => &undef,
        };
        let cfs_arr: &Vec<JsValue> = match cfs_v {
            JsValue::Undefined => &empty_items,
            JsValue::Array(a) => a,
            _ => {
                return Err(NodeXlsxError::new(prop_error("conditionalFormats", "array")));
            },
        };
        let mut inner_conditional_formats: Vec<ConditionalFormatSheetValue> = Vec::new();
        let n2 = cfs_arr.len();
        let mut i2: usize = 0;
        while i2 < n2
            invariant
                i2 <= n2,
                n2 == cfs_arr@.len(),
                inner_conditional_formats@.len() == i2,
                spec_list(*o, "conditionalFormats"@) == Ok::<Seq<JsValue>, Seq<char>>(cfs_arr@),
                format_map.wf(),
                conditional_format_map.wf(),
                forall|j: int|
                    0 <= j < i2 ==> cfv_rel(cfs_arr@[j], #[trigger] inner_conditional_formats@[j])
                        && has_id(
                        conditional_format_map.entries@,
                        inner_conditional_formats@[j].format,
                    ),
            decreases n2 - i2,
        {
            let ghost pre_cf = conditional_format_map.entries@;
            match &cfs_arr[i2] {
                JsValue::Object(co) => match ConditionalFormatSheetValue::from_js_object(
                    co,
                    &mut format_map,
                    &mut conditional_format_map,
                ) {
                    Ok(v) => {
                        proof {
                            assert forall|j: int| 0 <= j < i2 implies has_id(
                                conditional_format_map.entries@,
                                #[trigger] inner_conditional_formats@[j].format,
                            ) by {
                                lemma_has_id_prefix(
                                    pre_cf,
                                    conditional_format_map.entries@,
                                    inner_conditional_formats@[j].format,
                                );
                            }
                        }
                        inner_conditional_formats.push(v);
                    },
                    Err(e) => {
                        proof {
                            assert(!cfv_clean(cfs_arr@[i2 as int]));
                            assert(!cfv_clean(
                                spec_list(*o, "conditionalFormats"@)->Ok_0[i2 as int],
                            ));
                        }
                        return Err(e);
                    },
                },
                _ => {
                    proof {
                        assert(!cfv_clean(cfs_arr@[i2 as int]));
                        assert(!cfv_clean(
                            spec_list(*o, "conditionalFormats"@)->Ok_0[i2 as int],
                        ));
                    }
                    return Err(
                        NodeXlsxError::new(prop_error("conditionalFormats", "array of objects")),
                    );
                },
            }
            i2 = i2 + 1;
        }

        let afs_v = match o.lookup("arrayFormulas") {
            Some(v) => v,
            Option::None => &undef,
        };
        let afs_arr: &Vec<JsValue> = match afs_v {
            JsValue::Undefined => &empty_items,
            JsValue::Array(a) => a,
            _ => {
                return Err(NodeXlsxError::new(prop_error("arrayFormulas", "array")));
            },
        };
        let mut inner_formulas: Vec<ArrayFormulaSheetValue> = Vec::new();
        let n3 = afs_arr.len();
        let mut i3: usize = 0;
        while i3 < n3
            invariant
                i3 <= n3,
                n3 == afs_arr@.len(),
                inner_formulas@.len() == i3,
                spec_list(*o, "arrayFormulas"@) == Ok::<Seq<JsValue>, Seq<char>>(afs_arr@),
                format_map.wf(),
                forall|j: int|
                    0 <= j < i3 ==> af_rel(afs_arr@[j], #[trigger] inner_formulas@[j]),
            decreases n3 - i3,
        {
            match &afs_arr[i3] {
                JsValue::Object(ao) => match ArrayFormulaSheetValue::from_js_object(
                    ao,
                    &mut format_map,
                ) {
                    Ok(v) => {
                        inner_formulas.push(v);
                    },
                    Err(e) => {
                        proof {
                            assert(!af_clean(afs_arr@[i3 as int]));
                            assert(!af_clean(spec_list(*o, "arrayFormulas"@)->Ok_0[i3 as int]));
                        }
                        return Err(e);
                    },
                },
                _ => {
                    proof {
                        assert(!af_clean(afs_arr@[i3 as int]));
                        assert(!af_clean(spec_list(*o, "arrayFormulas"@)->Ok_0[i3 as int]));
                    }
                    return Err(
                        NodeXlsxError::new(prop_error("arrayFormulas", "array of objects")),
                    );
                },
            }
            i3 = i3 + 1;
        }

        let rows_v = match o.lookup("rowConfigs") {
            Some(v) => v,
            Option::None => &undef,
        };
        let rows_arr: &Vec<JsValue> = match rows_v {
            JsValue::Undefined => &empty_items,
            JsValue::Array(a) => a,
            _ => {
                return Err(NodeXlsxError::new(prop_error("rowConfigs", "array")));
            },
        };
        proof {
            if spec_sheet_clean(*o) {
                assert forall|i: int| 0 <= i < rows_arr@.len() implies crate::sheet::config::config_clean(
                    #[trigger] rows_arr@[i],
                    Type::ROW,
                ) by {
                    assert(spec_list(*o, "rowConfigs"@)->Ok_0[i] == rows_arr@[i]);
                }
            }
        }
        let row_column_configs = RowColumnConfig::from_js_array(
            rows_arr,
            Type::ROW,
            &mut format_map,
        );
        let mut row_column_configs = match row_column_configs {
            Ok(v) => v,
            Err(e) => {
                return Err(e);
            },
        };
        let ghost n_rows = row_column_configs@.len();

        let cols_v = match o.lookup("columnConfigs") {
            Some(v) => v,
            Option::None => &undef,
        };
        let cols_arr: &Vec<JsValue> = match cols_v {
            JsValue::Undefined => &empty_items,
            JsValue::Array(a) => a,
            _ => {
                return Err(NodeXlsxError::new(prop_error("columnConfigs", "array")));
            },
        };
        proof {
            if spec_sheet_clean(*o) {
                assert forall|i: int| 0 <= i < cols_arr@.len() implies crate::sheet::config::config_clean(
                    #[trigger] cols_arr@[i],
                    Type::COLUMN,
                ) by {
                    assert(spec_list(*o, "columnConfigs"@)->Ok_0[i] == cols_arr@[i]);
                }
            }
        }
        let col_configs = match RowColumnConfig::from_js_array(
            cols_arr,
            Type::COLUMN,
            &mut format_map,
        ) {
            Ok(v) => v,
            Err(e) => {
                return Err(e);
            },
        };
        let ghost row_part = row_column_configs@;
        let ghost col_part = col_configs@;
        let mut col_configs = col_configs;
        row_column_configs.append(&mut col_configs);

        let tables_v = match o.lookup("tables") {
            Some(v) => v,
            Option::None => &undef,
        };
        let tables_arr: &Vec<JsValue> = match tables_v {
            JsValue::Undefined => &empty_items,
            JsValue::Array(a) => a,
            _ => {
                return Err(NodeXlsxError::new(prop_error("tables", "array")));
            },
        };
        let mut inner_tables: Vec<NodeXlsxTableValue> = Vec::new();
        let n4 = tables_arr.len();
        let mut i4: usize = 0;
        while i4 < n4
            invariant
                i4 <= n4,
                n4 == tables_arr@.len(),
                inner_tables@.len() == i4,
                spec_list(*o, "tables"@) == Ok::<Seq<JsValue>, Seq<char>>(tables_arr@),
                format_map.wf(),
                forall|j: int|
                    0 <= j < i4 ==> tv_rel(tables_arr@[j], #[trigger] inner_tables@[j]),
            decreases n4 - i4,
        {
            match &tables_arr[i4] {
                JsValue::Object(to) => match NodeXlsxTableValue::from_js_object(
                    to,
                    &mut format_map,
                ) {
                    Ok(v) => {
                        inner_tables.push(v);
                    },
                    Err(e) => {
                        proof {
                            assert(!table_value_clean(tables_arr@[i4 as int]));
                            assert(!table_value_clean(spec_list(*o, "tables"@)->Ok_0[i4 as int]));
                        }
                        return Err(e);
                    },
                },
                _ => {
                    proof {
                        assert(!table_value_clean(tables_arr@[i4 as int]));
                        assert(!table_value_clean(spec_list(*o, "tables"@)->Ok_0[i4 as int]));
                    }
                    return Err(NodeXlsxError::new(prop_error("tables", "array of objects")));
                },
            }
            i4 = i4 + 1;
        }

        proof {
            assert forall|i: int| 0 <= i < cells_arr@.len() implies !cell_pure_bad(
                #[trigger] cells_arr@[i],
            ) by {
                assert(cell_rel(cells_arr@[i], inner_cells@[i]));
            }
        }
        Ok(
            NodeXlsxSheet {
                name,
                cells: inner_cells,
                conditional_formats: inner_conditional_formats,
                array_formulas: inner_formulas,
                row_column_configs,
                tables: inner_tables,
                format_map,
                conditional_format_map,
            },
        )
    }
}


/// The applications the conditional-format placements compile to, in
/// placement order.
pub open spec fn cf_ops(s: Seq<ConditionalFormatSheetValue>) -> Seq<SheetOp>
    decreases s.len(),
{
    if s.len() == 0 {
        Seq::<SheetOp>::empty()
    } else {
        cf_ops(s.drop_last()) + seq![s[s.len() - 1].spec_op()]
    }
}

/// The writes the array-formula placements compile to, in placement
/// order.
pub open spec fn af_ops(s: Seq<ArrayFormulaSheetValue>) -> Seq<SheetOp>
    decreases s.len(),
{
    if s.len() == 0 {
        Seq::<SheetOp>::empty()
    } else {
        af_ops(s.drop_last()) + seq![s[s.len() - 1].spec_op()]
    }
}

/// The calls the row and column configurations compile to, in order.
pub open spec fn cfg_ops(s: Seq<RowColumnConfig>) -> Seq<SheetOp>
    decreases s.len(),
{
    if s.len() == 0 {
        Seq::<SheetOp>::empty()
    } else {
        cfg_ops(s.drop_last()) + s[s.len() - 1].spec_ops()
    }
}

/// The table additions, each referencing its placement by position.
pub open spec fn table_ops(s: Seq<NodeXlsxTableValue>) -> Seq<SheetOp>
    decreases s.len(),
{
    if s.len() == 0 {
        Seq::<SheetOp>::empty()
    } else {
        table_ops(s.drop_last()) + seq![
            SheetOp::AddTable {
                first_row: s[s.len() - 1].first_row,
                first_column: s[s.len() - 1].first_column,
                last_row: s[s.len() - 1].last_row,
                last_column: s[s.len() - 1].last_column,
                table_index: (s.len() - 1) as usize,
            },
        ]
    }
}

/// The writes the cells compile to, in cell order.
pub open spec fn cell_ops(s: Seq<NodeXlsxCell>) -> Seq<SheetOp>
    decreases s.len(),
{
    if s.len() == 0 {
        Seq::<SheetOp>::empty()
    } else {
        cell_ops(s.drop_last()) + seq![spec_cell_op(s[s.len() - 1])]
    }
}

impl NodeXlsxSheet {
    /// The fixed-order assembly script of a decoded sheet: the name is
    /// set first, then every conditional format is applied, every array
    /// formula written, every row and column configuration applied, every
    /// table added, and every cell written.
    pub open spec fn spec_ops(&self) -> Seq<SheetOp> {
        seq![SheetOp::SetName { name: self.name }] + cf_ops(self.conditional_formats@) + af_ops(
            self.array_formulas@,
        ) + cfg_ops(self.row_column_configs@) + table_ops(self.tables@) + cell_ops(self.cells@)
    }

    /// Compiles the decoded sheet into its assembly script.
    pub fn to_ops(&self) -> (r: Vec<SheetOp>)
        ensures
            r@ == self.spec_ops(),
    {
        let mut ops: Vec<SheetOp> = Vec::new();
        ops.push(SheetOp::SetName { name: self.name.clone() });
        let ghost base1 = seq![SheetOp::SetName { name: self.name }];
        proof {
            assert(ops@ =~= base1);
        }

        let n1 = self.conditional_formats.len();
        let mut i1: usize = 0;
        while i1 < n1
            invariant
                i1 <= n1,
                n1 == self.conditional_formats@.len(),
                ops@ == base1 + cf_ops(self.conditional_formats@.take(i1 as int)),
                base1 == seq![SheetOp::SetName { name: self.name }],
            decreases n1 - i1,
        {
            self.conditional_formats[i1].set_conditional_format(&mut ops);
            proof {
                assert(self.conditional_formats@.take(i1 as int + 1).drop_last()
                    =~= self.conditional_formats@.take(i1 as int));
                assert(self.conditional_formats@.take(i1 as int + 1)[self.conditional_formats@.take(
                    i1 as int + 1,
                ).len() - 1] == self.conditional_formats@[i1 as int]);
                assert(ops@ =~= base1 + cf_ops(self.conditional_formats@.take(i1 as int + 1)));
            }
            i1 = i1 + 1;
        }
        proof {
            assert(self.conditional_formats@.take(n1 as int) =~= self.conditional_formats@);
        }
        let ghost base2 = base1 + cf_ops(self.conditional_formats@);

        let n2 = self.array_formulas.len();
        let mut i2: usize = 0;
        while i2 < n2
            invariant
                i2 <= n2,
                n2 == self.array_formulas@.len(),
                ops@ == base2 + af_ops(self.array_formulas@.take(i2 as int)),
                base2 == seq![SheetOp::SetName { name: self.name }] + cf_ops(
                    self.conditional_formats@,
                ),
            decreases n2 - i2,
        {
            self.array_formulas[i2].write_to_sheet(&mut ops);
            proof {
                assert(self.array_formulas@.take(i2 as int + 1).drop_last()
                    =~= self.array_formulas@.take(i2 as int));
                assert(self.array_formulas@.take(i2 as int + 1)[self.array_formulas@.take(
                    i2 as int + 1,
                ).len() - 1] == self.array_formulas@[i2 as int]);
                assert(ops@ =~= base2 + af_ops(self.array_formulas@.take(i2 as int + 1)));
            }
            i2 = i2 + 1;
        }
        proof {
            assert(self.array_formulas@.take(n2 as int) =~= self.array_formulas@);
        }
        let ghost base3 = base2 + af_ops(self.array_formulas@);

        let n3 = self.row_column_configs.len();
        let mut i3: usize = 0;
        while i3 < n3
            invariant
                i3 <= n3,
                n3 == self.row_column_configs@.len(),
                ops@ == base3 + cfg_ops(self.row_column_configs@.take(i3 as int)),
                base3 == seq![SheetOp::SetName { name: self.name }] + cf_ops(
                    self.conditional_formats@,
                ) + af_ops(self.array_formulas@),
            decreases n3 - i3,
        {
            self.row_column_configs[i3].write_to_sheet(&mut ops);
            proof {
                assert(self.row_column_configs@.take(i3 as int + 1).drop_last()
                    =~= self.row_column_configs@.take(i3 as int));
                assert(self.row_column_configs@.take(i3 as int + 1)[self.row_column_configs@.take(
                    i3 as int + 1,
                ).len() - 1] == self.row_column_configs@[i3 as int]);
                assert(ops@ =~= base3 + cfg_ops(self.row_column_configs@.take(i3 as int + 1)));
            }
            i3 = i3 + 1;
        }
        proof {
            assert(self.row_column_configs@.take(n3 as int) =~= self.row_column_configs@);
        }
        let ghost base4 = base3 + cfg_ops(self.row_column_configs@);

        let n4 = self.tables.len();
        let mut i4: usize = 0;
        while i4 < n4
            invariant
                i4 <= n4,
                n4 == self.tables@.len(),
                ops@ == base4 + table_ops(self.tables@.take(i4 as int)),
                base4 == seq![SheetOp::SetName { name: self.name }] + cf_ops(
                    self.conditional_formats@,
                ) + af_ops(self.array_formulas@) + cfg_ops(self.row_column_configs@),
            decreases n4 - i4,
        {
            let t = &self.tables[i4];
            ops.push(
                SheetOp::AddTable {
                    first_row: t.first_row,
                    first_column: t.first_column,
                    last_row: t.last_row,
                    last_column: t.last_column,
                    table_index: i4,
                },
            );
            proof {
                assert(self.tables@.take(i4 as int + 1).drop_last() =~= self.tables@.take(
                    i4 as int,
                ));
                assert(self.tables@.take(i4 as int + 1)[self.tables@.take(i4 as int + 1).len()
                    - 1] == self.tables@[i4 as int]);
                assert(ops@ =~= base4 + table_ops(self.tables@.take(i4 as int + 1)));
            }
            i4 = i4 + 1;
        }
        proof {
            assert(self.tables@.take(n4 as int) =~= self.tables@);
        }
        let ghost base5 = base4 + table_ops(self.tables@);

        let n5 = self.cells.len();
        let mut i5: usize = 0;
        while i5 < n5
            invariant
                i5 <= n5,
                n5 == self.cells@.len(),
                ops@ == base5 + cell_ops(self.cells@.take(i5 as int)),
                base5 == seq![SheetOp::SetName { name: self.name }] + cf_ops(
                    self.conditional_formats@,
                ) + af_ops(self.array_formulas@) + cfg_ops(self.row_column_configs@) + table_ops(
                    self.tables@,
                ),
            decreases n5 - i5,
        {
            self.cells[i5].write_to_sheet(&mut ops);
            proof {
                assert(self.cells@.take(i5 as int + 1).drop_last() =~= self.cells@.take(
                    i5 as int,
                ));
                assert(self.cells@.take(i5 as int + 1)[self.cells@.take(i5 as int + 1).len() - 1]
                    == self.cells@[i5 as int]);
                assert(ops@ =~= base5 + cell_ops(self.cells@.take(i5 as int + 1)));
            }
            i5 = i5 + 1;
        }
        proof {
            assert(self.cells@.take(n5 as int) =~= self.cells@);
            assert(ops@ =~= self.spec_ops());
        }
        ops
    }
}

} // verus!
