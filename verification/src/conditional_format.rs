pub mod average;
pub mod blank;
pub mod c_type;
pub mod cell;
pub mod data_bar;
pub mod date;
pub mod duplicate;
pub mod error;
pub mod formula;
pub mod icon;
pub mod rule;
pub mod scale;
pub mod text;
pub mod top;
