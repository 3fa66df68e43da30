use vstd::prelude::*;

pub mod column;
pub mod util;

use crate::error::NodeXlsxError;
use crate::format::Format;
use crate::registry::Registry;
use crate::table::column::NodeXlsxTableColumn;
use crate::table::util::{TableStyle, spec_table_style, string_to_table_style};
use crate::value::{JsObject, JsValue, missing_prop_msg};

verus! {

/// A structured table: its flags, style, and ordered columns.
#[derive(Debug)]
pub struct NodeXlsxTable {
    pub name: Option<String>,
    pub auto_filter: bool,
    pub banded_columns: bool,
    pub banded_rows: bool,
    pub columns: Vec<NodeXlsxTableColumn>,
    pub first_column_highlighted: bool,
    pub last_column_highlighted: bool,
    pub header_row: bool,
    pub style: Option<TableStyle>,
    pub total_row: bool,
}

/// Whether `t` carries the scalar attributes and style that the host
/// object holds; the columns are related element by element beside this.
pub open spec fn spec_table_fields(o: JsObject, t: NodeXlsxTable) -> bool {
    &&& crate::util::spec_opt_string(o, "name"@) == Ok::<Option<String>, Seq<char>>(t.name)
    &&& o.spec_get("autoFilter"@) == JsValue::Bool(t.auto_filter)
    &&& o.spec_get("bandedColumns"@) == JsValue::Bool(t.banded_columns)
    &&& o.spec_get("bandedRows"@) == JsValue::Bool(t.banded_rows)
    &&& o.spec_get("firstColumnHighlighted"@) == JsValue::Bool(t.first_column_highlighted)
    &&& o.spec_get("lastColumnHighlighted"@) == JsValue::Bool(t.last_column_highlighted)
    &&& o.spec_get("headerRow"@) == JsValue::Bool(t.header_row)
    &&& match o.spec_get("style"@) {
        JsValue::Undefined => t.style is None,
        JsValue::Str(s) => t.style matches Some(st) && spec_table_style(s.text@) == Some(st),
        _ => false,
    }
    &&& o.spec_get("totalRow"@) == JsValue::Bool(t.total_row)
    &&& o.spec_get("columns"@) matches JsValue::Array(cols) && t.columns@.len() == cols@.len()
        && (forall|i: int|
        0 <= i < cols@.len() ==> ((#[trigger] cols@[i]) matches JsValue::Object(co)
            && NodeXlsxTableColumn::spec_pure(co) == Ok::<NodeXlsxTableColumn, Seq<char>>(
            t.columns@[i],
        )))
}

/// A table object that decodes whatever the registry holds: well-shaped
/// scalar attributes, a recognized style, and columns that all decode
/// with format payloads that decode on their own.
pub open spec fn spec_table_clean(o: JsObject) -> bool {
    &&& crate::util::spec_opt_string(o, "name"@) is Ok
    &&& o.spec_get("autoFilter"@) is Bool
    &&& o.spec_get("bandedColumns"@) is Bool
    &&& o.spec_get("bandedRows"@) is Bool
    &&& o.spec_get("firstColumnHighlighted"@) is Bool
    &&& o.spec_get("lastColumnHighlighted"@) is Bool
    &&& o.spec_get("headerRow"@) is Bool
    &&& match o.spec_get("style"@) {
        JsValue::Undefined => true,
        JsValue::Str(st) => spec_table_style(st.text@) is Some,
        _ => false,
    }
    &&& o.spec_get("totalRow"@) is Bool
    &&& o.spec_get("columns"@) matches JsValue::Array(cols) && (forall|i: int|
        0 <= i < cols@.len() ==> ((#[trigger] cols@[i]) matches JsValue::Object(co) && {
            &&& NodeXlsxTableColumn::spec_pure(co) is Ok
            &&& crate::registry::format_payload_clean(co, "format"@)
            &&& crate::registry::format_payload_clean(co, "headerFormat"@)
        }))
}

impl NodeXlsxTable {
    /// Decodes a table object against the sheet's format registry: the
    /// flags, the ordered columns, and the optional style keyword.
    pub fn from_js_object(o: &JsObject, format_map: &mut Registry<Format>) -> (r: Result<
        NodeXlsxTable,
        NodeXlsxError,
    >)
        ensures
            old(format_map).entries@.is_prefix_of(final(format_map).entries@),
            old(format_map).wf() ==> final(format_map).wf(),
            r matches Ok(t) ==> spec_table_fields(*o, t),
            spec_table_clean(*o) ==> r is Ok,
    {
        proof {
            crate::registry::lemma_prefix_refl(old(format_map).entries@);
        }
        let name = match o.get_opt_string("name") {
            Ok(x) => x,
            Err(e) => {
                return Err(e);
            },
        };
        let auto_filter = match o.get_bool("autoFilter") {
            Ok(b) => b,
            Err(e) => {
                return Err(e);
            },
        };
        let banded_columns = match o.get_bool("bandedColumns") {
            Ok(b) => b,
            Err(e) => {
                return Err(e);
            },
        };
        let banded_rows = match o.get_bool("bandedRows") {
            Ok(b) => b,
            Err(e) => {
                return Err(e);
            },
        };
        let cols = match o.get_array("columns") {
            Ok(a) => a,
            Err(e) => {
                return Err(e);
            },
        };
        let mut inner_columns: Vec<NodeXlsxTableColumn> = Vec::new();
        let n = cols.len();
        let mut i: usize = 0;
        while i < n
            invariant
                i <= n,
                n == cols@.len(),
                inner_columns@.len() == i,
                o.spec_get("columns"@) == JsValue::Array(*cols),
                old(format_map).entries@.is_prefix_of(format_map.entries@),
                old(format_map).wf() ==> format_map.wf(),
                forall|j: int|
                    0 <= j < i ==> ((#[trigger] cols@[j]) matches JsValue::Object(co)
                        && NodeXlsxTableColumn::spec_pure(co) == Ok::<
                        NodeXlsxTableColumn,
                        Seq<char>,
                    >(inner_columns@[j])),
            decreases n - i,
        {
            let ghost mid = format_map.entries@;
            match &cols[i] {
                JsValue::Object(co) => match NodeXlsxTableColumn::from_js_object(co, format_map) {
                    Ok(col) => {
                        proof {
                            crate::registry::lemma_prefix_trans(
                                old(format_map).entries@,
                                mid,
                                format_map.entries@,
                            );
                        }
                        inner_columns.push(col);
                    },
                    Err(e) => {
                        proof {
                            crate::registry::lemma_prefix_trans(
                                old(format_map).entries@,
                                mid,
                                format_map.entries@,
                            );
                        }
                        return Err(e);
                    },
                },
                _ => {
                    return Err(
                        NodeXlsxError::new("expected an object element in 'columns'".to_owned()),
                    );
                },
            }
            i = i + 1;
        }
        let first_column_highlighted = match o.get_bool("firstColumnHighlighted") {
            Ok(b) => b,
            Err(e) => {
                return Err(e);
            },
        };
        let last_column_highlighted = match o.get_bool("lastColumnHighlighted") {
            Ok(b) => b,
            Err(e) => {
                return Err(e);
            },
        };
        let header_row = match o.get_bool("headerRow") {
            Ok(b) => b,
            Err(e) => {
                return Err(e);
            },
        };
        let style = match o.get_opt_string("style") {
            Ok(Some(s)) => match string_to_table_style(s.as_str()) {
                Ok(st) => Some(st),
                Err(e) => {
                    return Err(e);
                },
            },
            Ok(Option::None) => Option::None,
            Err(e) => {
                return Err(e);
            },
        };
        let total_row = match o.get_bool("totalRow") {
            Ok(b) => b,
            Err(e) => {
                return Err(e);
            },
        };
        Ok(
            NodeXlsxTable {
                name,
                auto_filter,
                banded_columns,
                banded_rows,
                columns: inner_columns,
                first_column_highlighted,
                last_column_highlighted,
                header_row,
                style,
                total_row,
            },
        )
    }
}


} // verus!
