use vstd::prelude::*;
use crate::error::NodeXlsxError;
use crate::format::Format;
use crate::registry::Registry;
use crate::table::{NodeXlsxTable, spec_table_fields};
use crate::value::{JsObject, JsValue, missing_prop_msg};

verus! {

/// A table placement: a rectangular range plus the decoded table.
#[derive(Debug)]
pub struct NodeXlsxTableValue {
    pub first_row: u32,
    pub last_row: u32,
    pub first_column: u16,
    pub last_column: u16,
    pub table: NodeXlsxTable,
}

/// The clamped reading of a required numeric range coordinate.
pub open spec fn spec_req_u32(o: JsObject, key: Seq<char>) -> Result<u32, Seq<char>> {
    match o.spec_get(key) {
        JsValue::Number(n) => Ok(n.spec_u32()),
        _ => Err(missing_prop_msg(key, "number"@)),
    }
}

pub open spec fn spec_req_u16(o: JsObject, key: Seq<char>) -> Result<u16, Seq<char>> {
    match o.spec_get(key) {
        JsValue::Number(n) => Ok(n.spec_u16()),
        _ => Err(missing_prop_msg(key, "number"@)),
    }
}

/// A placement that decodes whatever the registry holds: four numeric
/// coordinates and a clean table object.
pub open spec fn spec_table_value_clean(o: JsObject) -> bool {
    &&& o.spec_get("firstRow"@) is Number
    &&& o.spec_get("lastRow"@) is Number
    &&& o.spec_get("firstColumn"@) is Number
    &&& o.spec_get("lastColumn"@) is Number
    &&& o.spec_get("table"@) matches JsValue::Object(to) && crate::table::spec_table_clean(to)
}

impl NodeXlsxTableValue {
    /// Decodes a table placement against the sheet's format registry: the
    /// four range coordinates are clamped numbers, and the `table` object
    /// decodes through the table decoder.
    pub fn from_js_object(o: &JsObject, format_map: &mut Registry<Format>) -> (r: Result<
        NodeXlsxTableValue,
        NodeXlsxError,
    >)
        ensures
            old(format_map).entries@.is_prefix_of(final(format_map).entries@),
            old(format_map).wf() ==> final(format_map).wf(),
            r matches Ok(v) ==> {
                &&& spec_req_u32(*o, "firstRow"@) == Ok::<u32, Seq<char>>(v.first_row)
                &&& spec_req_u32(*o, "lastRow"@) == Ok::<u32, Seq<char>>(v.last_row)
                &&& spec_req_u16(*o, "firstColumn"@) == Ok::<u16, Seq<char>>(v.first_column)
                &&& spec_req_u16(*o, "lastColumn"@) == Ok::<u16, Seq<char>>(v.last_column)
                &&& o.spec_get("table"@) matches JsValue::Object(to) && spec_table_fields(
                    to,
                    v.table,
                )
            },
            spec_table_value_clean(*o) ==> r is Ok,
    {
        proof {
            crate::registry::lemma_prefix_refl(old(format_map).entries@);
        }
        let first_row = match o.get_number("firstRow") {
            Ok(n) => n.as_u32(),
            Err(e) => {
                return Err(e);
            },
        };
        let last_row = match o.get_number("lastRow") {
            Ok(n) => n.as_u32(),
            Err(e) => {
                return Err(e);
            },
        };
        let first_column = match o.get_number("firstColumn") {
            Ok(n) => n.as_u16(),
            Err(e) => {
                return Err(e);
            },
        };
        let last_column = match o.get_number("lastColumn") {
            Ok(n) => n.as_u16(),
            Err(e) => {
                return Err(e);
            },
        };
        let table = match o.get_object("table") {
            Ok(to) => match NodeXlsxTable::from_js_object(to, format_map) {
                Ok(t) => t,
                Err(e) => {
                    return Err(e);
                },
            },
            Err(e) => {
                return Err(e);
            },
        };
        Ok(NodeXlsxTableValue { first_row, last_row, first_column, last_column, table })
    }
}

} // verus!
