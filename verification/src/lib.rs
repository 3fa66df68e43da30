use vstd::prelude::*;

pub mod border;
pub mod cell;
pub mod color;
pub mod conditional_format;
pub mod error;
pub mod format;
pub mod ops;
pub mod registry;
pub mod sheet;
pub mod table;
pub mod text;
pub mod types;
pub mod util;
pub mod value;
pub mod workbook;

pub use cell::NodeXlsxCell;
pub use error::NodeXlsxError;
pub use sheet::NodeXlsxSheet;
pub use types::NodeXlsxTypes;
pub use value::{JsNumber, JsObject, JsStr, JsValue};
pub use workbook::NodeXlsxWorkbook;

verus! {

} // verus!
