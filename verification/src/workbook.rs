use vstd::prelude::*;
use crate::error::NodeXlsxError;
use crate::sheet::{NodeXlsxSheet, cell_pure_bad, sheet_rel, spec_list, spec_sheet_clean};
use crate::value::{JsObject, JsValue, prop_error};

verus! {

/// The base64 rendering of a byte sequence, in the standard alphabet
/// with padding.
pub uninterp spec fn base64_of(bytes: Seq<u8>) -> Seq<char>;

/// Relies on base64's standard-alphabet engine with padding: the result
/// depends on the bytes alone, and holds four characters for every three
/// input bytes.
#[verifier::external_body]
fn b64_encode(bytes: &Vec<u8>) -> (r: String)
    requires
        bytes@.len() <= 0x4000_0000_0000_0000,
    ensures
        r@ == base64_of(bytes@),
        r@.len() == 4 * ((bytes@.len() + 2) / 3),
{
    base64::Engine::encode(&base64::engine::general_purpose::STANDARD, bytes.as_slice())
}

/// Encodes an already-produced document buffer as its base64 string, as
/// the base64 save operation is defined to do.
pub fn buffer_to_base64(buffer: &Vec<u8>) -> (r: Result<String, NodeXlsxError>)
    ensures
        match r {
            Ok(s) => s@ == base64_of(buffer@) && s@.len() == 4 * ((buffer@.len() + 2) / 3),
            Err(_) => buffer@.len() > 0x4000_0000_0000_0000,
        },
{
    if (buffer.len() as u64) <= 0x4000_0000_0000_0000u64 {
        Ok(b64_encode(buffer))
    } else {
        Err(NodeXlsxError::new("buffer too large to encode".to_owned()))
    }
}

/// Whether `w` is a faithful decode of the workbook object `o`: one
/// decoded sheet per element of its `sheets` array, in order.
pub open spec fn workbook_rel(o: JsObject, w: NodeXlsxWorkbook) -> bool {
    o.spec_get("sheets"@) matches JsValue::Array(ss) && w.sheets@.len() == ss@.len() && (forall|
        i: int,
    |
        0 <= i < ss@.len() ==> ((#[trigger] ss@[i]) matches JsValue::Object(so) && sheet_rel(
            so,
            w.sheets@[i],
        )))
}

/// A workbook whose sheets all decode; such a workbook always decodes.
pub open spec fn spec_workbook_clean(o: JsObject) -> bool {
    o.spec_get("sheets"@) matches JsValue::Array(ss) && (forall|i: int|
        0 <= i < ss@.len() ==> ((#[trigger] ss@[i]) matches JsValue::Object(so)
            && spec_sheet_clean(so)))
}

/// Some sheet holds a cell with a malformed position, content or format
/// reference; such a workbook never decodes.
pub open spec fn spec_workbook_bad_cell(o: JsObject) -> bool {
    o.spec_get("sheets"@) matches JsValue::Array(ss) && (exists|i: int|
        0 <= i < ss@.len() && ((#[trigger] ss@[i]) matches JsValue::Object(so) && (spec_list(
            so,
            "cells"@,
        ) matches Ok(cs) && (exists|j: int| 0 <= j < cs.len() && cell_pure_bad(#[trigger] cs[j])))))
}

/// The full output document: an ordered list of fully decoded sheets.
#[derive(Debug)]
pub struct NodeXlsxWorkbook {
    pub sheets: Vec<NodeXlsxSheet>,
}

impl NodeXlsxWorkbook {
    /// Decodes a workbook object: its required `sheets` array, sheet by
    /// sheet, failing on the first sheet that does not decode.
    pub fn from_js_object(o: &JsObject) -> (r: Result<NodeXlsxWorkbook, NodeXlsxError>)
        ensures
            r matches Ok(w) ==> workbook_rel(*o, w),
            spec_workbook_bad_cell(*o) ==> r is Err,
            spec_workbook_clean(*o) ==> r is Ok,
    {
        let sheets = match o.get_array("sheets") {
            Ok(a) => a,
            Err(e) => {
                return Err(e);
            },
        };
        let mut inner_sheets: Vec<NodeXlsxSheet> = Vec::new();
        let n = sheets.len();
        let mut i: usize = 0;
        while i < n
            invariant
                i <= n,
                n == sheets@.len(),
                inner_sheets@.len() == i,
                o.spec_get("sheets"@) == JsValue::Array(*sheets),
                forall|j: int|
                    0 <= j < i ==> ((#[trigger] sheets@[j]) matches JsValue::Object(so)
                        && sheet_rel(so, inner_sheets@[j])),
            decreases n - i,
        {
            match &sheets[i] {
                JsValue::Object(so) => match NodeXlsxSheet::from_js_object(so) {
                    Ok(s) => {
                        inner_sheets.push(s);
                    },
                    Err(e) => {
                        return Err(e);
                    },
                },
                _ => {
                    return Err(NodeXlsxError::new(prop_error("sheets", "array of objects")));
                },
            }
            i = i + 1;
        }
        proof {
            if spec_workbook_bad_cell(*o) {
                let bi = choose|bi: int|
                    0 <= bi < sheets@.len() && ((#[trigger] sheets@[bi]) matches JsValue::Object(
                        so,
                    ) && (spec_list(so, "cells"@) matches Ok(cs) && (exists|j: int|
                        0 <= j < cs.len() && cell_pure_bad(#[trigger] cs[j]))));
                assert(sheets@[bi] matches JsValue::Object(so) && sheet_rel(
                    so,
                    inner_sheets@[bi],
                ));
                let so = sheets@[bi]->Object_0;
                let cs = crate::sheet::spec_list(so, "cells"@)->Ok_0;
                let bj = choose|j: int| 0 <= j < cs.len() && cell_pure_bad(#[trigger] cs[j]);
                assert(crate::sheet::cell_rel(cs[bj], inner_sheets@[bi].cells@[bj]));
                assert(!cell_pure_bad(cs[bj]));
            }
        }
        Ok(NodeXlsxWorkbook { sheets: inner_sheets })
    }
}

} // verus!
