use vstd::prelude::*;
use crate::util::{Formula, Url};

verus! {

/// One encoder call of the assembly script a decoded sheet compiles to.
///
/// The script is executed in order against one native worksheet; format
/// and conditional-format references name entries of the sheet's
/// registries.
#[derive(Debug)]
#[allow(inconsistent_fields)]
pub enum SheetOp {
    SetName { name: String },
    AddConditionalFormat {
        first_row: u32,
        last_row: u32,
        first_column: u16,
        last_column: u16,
        id: u32,
    },
    WriteDynamicArrayFormula {
        first_row: u32,
        first_column: u16,
        last_row: u32,
        last_column: u16,
        formula: Formula,
    },
    WriteDynamicArrayFormulaWithFormat {
        first_row: u32,
        first_column: u16,
        last_row: u32,
        last_column: u16,
        formula: Formula,
        format: u32,
    },
    WriteArrayFormula {
        first_row: u32,
        first_column: u16,
        last_row: u32,
        last_column: u16,
        formula: Formula,
    },
    WriteArrayFormulaWithFormat {
        first_row: u32,
        first_column: u16,
        last_row: u32,
        last_column: u16,
        formula: Formula,
        format: u32,
    },
    /// Row height in the encoder's own unit, as the host number's
    /// encoding.
    SetRowHeight { row: u32, height: u64 },
    SetRowHeightPixels { row: u32, height: u16 },
    SetRowFormat { row: u32, format: u32 },
    SetRowHidden { row: u32 },
    /// Column width in the encoder's own unit, as the host number's
    /// encoding.
    SetColumnWidth { col: u16, width: u64 },
    SetColumnWidthPixels { col: u16, width: u16 },
    SetColumnFormat { col: u16, format: u32 },
    SetColumnHidden { col: u16 },
    /// Adds the table stored at this position of the sheet's decoded
    /// table placements.
    AddTable {
        first_row: u32,
        first_column: u16,
        last_row: u32,
        last_column: u16,
        table_index: usize,
    },
    WriteString { row: u32, col: u16, value: String },
    WriteStringWithFormat { row: u32, col: u16, value: String, format: u32 },
    /// Cell number content as the host number's encoding.
    WriteNumber { row: u32, col: u16, value: u64 },
    WriteNumberWithFormat { row: u32, col: u16, value: u64, format: u32 },
    WriteUrl { row: u32, col: u16, url: Url },
    WriteUrlWithFormat { row: u32, col: u16, url: Url, format: u32 },
    WriteDatetime { row: u32, col: u16, ms: i64 },
    WriteDatetimeWithFormat { row: u32, col: u16, ms: i64, format: u32 },
    WriteDynamicFormula { row: u32, col: u16, formula: Formula },
    WriteDynamicFormulaWithFormat { row: u32, col: u16, formula: Formula, format: u32 },
    WriteFormula { row: u32, col: u16, formula: Formula },
    WriteFormulaWithFormat { row: u32, col: u16, formula: Formula, format: u32 },
}

} // verus!
