use vstd::prelude::*;
use crate::conditional_format::average::Average;
use crate::conditional_format::blank::Blank;
use crate::conditional_format::cell::Cell;
use crate::conditional_format::data_bar::DataBar;
use crate::conditional_format::date::Date;
use crate::conditional_format::duplicate::Duplicate;
use crate::conditional_format::error::Error;
use crate::conditional_format::formula::FormulaFormat;
use crate::conditional_format::icon::Icon;
use crate::conditional_format::scale::{ThreeColorScale, TwoColorScale};
use crate::conditional_format::text::Text;
use crate::conditional_format::top::Top;

verus! {

/// The tagged union of conditional-format rule kinds; every variant is
/// applied to a rectangular range through the same operation.
#[derive(Debug)]
pub enum NodeXlsxConditionalFormatType {
    TwoColorScale(TwoColorScale),
    ThreeColorScale(ThreeColorScale),
    Average(Average),
    Blank(Blank),
    Cell(Cell),
    DataBar(DataBar),
    Date(Date),
    Duplicate(Duplicate),
    Error(Error),
    Formula(FormulaFormat),
    IconSet(Icon),
    Text(Text),
    Top(Top),
}

} // verus!
