use vstd::prelude::*;
use crate::color::Color;
use crate::error::NodeXlsxError;
use crate::text::{concat2, str_eq};
use crate::value::{JsObject, JsValue, missing_prop_msg};

verus! {

/// The style of one cell border edge.
#[derive(Debug, Clone, Copy)]
pub enum BorderStyle {
    NoBorder,
    Thin,
    Medium,
    Thick,
    Double,
    Hair,
    MediumDashed,
    DashDot,
    MediumDashDot,
    DashDotDot,
    MediumDashDotDot,
    SlantDashDot,
}

/// The direction of a diagonal border.
#[derive(Debug, Clone, Copy)]
pub enum DiagonalType {
    NoDiagonal,
    BorderUp,
    BorderDown,
    BorderUpDown,
}

/// The closed keyword table for border styles.
pub open spec fn spec_border_style(s: Seq<char>) -> Option<BorderStyle> {
    if s == "none"@ {
        Some(BorderStyle::NoBorder)
    } else if s == "thin"@ {
        Some(BorderStyle::Thin)
    } else if s == "medium"@ {
        Some(BorderStyle::Medium)
    } else if s == "thick"@ {
        Some(BorderStyle::Thick)
    } else if s == "double"@ {
        Some(BorderStyle::Double)
    } else if s == "hair"@ {
        Some(BorderStyle::Hair)
    } else if s == "medium_dashed"@ {
        Some(BorderStyle::MediumDashed)
    } else if s == "dash_dot"@ {
        Some(BorderStyle::DashDot)
    } else if s == "medium_dash_dot"@ {
        Some(BorderStyle::MediumDashDot)
    } else if s == "dash_dot_dot"@ {
        Some(BorderStyle::DashDotDot)
    } else if s == "medium_dash_dot_dot"@ {
        Some(BorderStyle::MediumDashDotDot)
    } else if s == "slant_dash_dot"@ {
        Some(BorderStyle::SlantDashDot)
    } else {
        None
    }
}

/// Decodes a border-style keyword; an unrecognized keyword is an error
/// that names the offending string verbatim.
pub fn format_border_from_js_string(s: &str) -> (r: Result<BorderStyle, NodeXlsxError>)
    ensures
        match r {
            Ok(b) => spec_border_style(s@) == Some(b),
            Err(e) => spec_border_style(s@) is None && e.message@ == "Unknown border type: "@
                + s@,
        },
{
    if str_eq(s, "none") {
        Ok(BorderStyle::NoBorder)
    } else if str_eq(s, "thin") {
        Ok(BorderStyle::Thin)
    } else if str_eq(s, "medium") {
        Ok(BorderStyle::Medium)
    } else if str_eq(s, "thick") {
        Ok(BorderStyle::Thick)
    } else if str_eq(s, "double") {
        Ok(BorderStyle::Double)
    } else if str_eq(s, "hair") {
        Ok(BorderStyle::Hair)
    } else if str_eq(s, "medium_dashed") {
        Ok(BorderStyle::MediumDashed)
    } else if str_eq(s, "dash_dot") {
        Ok(BorderStyle::DashDot)
    } else if str_eq(s, "medium_dash_dot") {
        Ok(BorderStyle::MediumDashDot)
    } else if str_eq(s, "dash_dot_dot") {
        Ok(BorderStyle::DashDotDot)
    } else if str_eq(s, "medium_dash_dot_dot") {
        Ok(BorderStyle::MediumDashDotDot)
    } else if str_eq(s, "slant_dash_dot") {
        Ok(BorderStyle::SlantDashDot)
    } else {
        Err(NodeXlsxError::new(concat2("Unknown border type: ", s)))
    }
}

/// The closed keyword table for diagonal border directions.
pub open spec fn spec_diagonal_type(s: Seq<char>) -> Option<DiagonalType> {
    if s == "none"@ {
        Some(DiagonalType::NoDiagonal)
    } else if s == "borderUp"@ {
        Some(DiagonalType::BorderUp)
    } else if s == "borderDown"@ {
        Some(DiagonalType::BorderDown)
    } else if s == "borderUpDown"@ {
        Some(DiagonalType::BorderUpDown)
    } else {
        None
    }
}

/// Decodes a diagonal-border keyword; an unrecognized keyword is an error
/// that names the offending string verbatim.
pub fn diagonal_border_from_js_string(s: &str) -> (r: Result<DiagonalType, NodeXlsxError>)
    ensures
        match r {
            Ok(d) => spec_diagonal_type(s@) == Some(d),
            Err(e) => spec_diagonal_type(s@) is None && e.message@
                == "Unknown diagonal border type: "@ + s@,
        },
{
    if str_eq(s, "none") {
        Ok(DiagonalType::NoDiagonal)
    } else if str_eq(s, "borderUp") {
        Ok(DiagonalType::BorderUp)
    } else if str_eq(s, "borderDown") {
        Ok(DiagonalType::BorderDown)
    } else if str_eq(s, "borderUpDown") {
        Ok(DiagonalType::BorderUpDown)
    } else {
        Err(NodeXlsxError::new(concat2("Unknown diagonal border type: ", s)))
    }
}

/// One border edge: a style keyword plus a color.
#[derive(Debug, Clone, Copy)]
pub struct Border {
    pub b_type: BorderStyle,
    pub color: Color,
}

impl Border {
    /// The border a host object decodes to: a required `style` keyword and
    /// a required `color` object.
    pub open spec fn spec_from_js_object(o: JsObject) -> Result<Border, Seq<char>> {
        match o.spec_get("style"@) {
            JsValue::Str(st) => match o.spec_get("color"@) {
                JsValue::Object(co) => match spec_border_style(st.text@) {
                    Some(b) => match Color::spec_from_js_object(co) {
                        Ok(c) => Ok(Border { b_type: b, color: c }),
                        Err(m) => Err(m),
                    },
                    _ => Err("Unknown border type: "@ + st.text@),
                },
                _ => Err(missing_prop_msg("color"@, "object"@)),
            },
            _ => Err(missing_prop_msg("style"@, "string"@)),
        }
    }

    pub fn from_js_object(o: &JsObject) -> (r: Result<Border, NodeXlsxError>)
        ensures
            crate::error::matches_spec(r, Border::spec_from_js_object(*o)),
    {
        let style = match o.get_string("style") {
            Ok(s) => s,
            Err(e) => {
                return Err(e);
            },
        };
        let color = match o.get_object("color") {
            Ok(c) => c,
            Err(e) => {
                return Err(e);
            },
        };
        let b_type = match format_border_from_js_string(style.as_str()) {
            Ok(b) => b,
            Err(e) => {
                return Err(e);
            },
        };
        let color = match Color::from_js_object(color) {
            Ok(c) => c,
            Err(e) => {
                return Err(e);
            },
        };
        Ok(Border { b_type, color })
    }
}

/// A diagonal border: an edge style and color plus the diagonal direction.
#[derive(Debug, Clone, Copy)]
pub struct DiagonalBorder {
    pub border: Border,
    pub d_type: DiagonalType,
}

impl DiagonalBorder {
    /// The diagonal border a host object decodes to: `style`, `color` and
    /// `dStyle` are all required.
    pub open spec fn spec_from_js_object(o: JsObject) -> Result<DiagonalBorder, Seq<char>> {
        match o.spec_get("style"@) {
            JsValue::Str(st) => match o.spec_get("color"@) {
                JsValue::Object(co) => match o.spec_get("dStyle"@) {
                    JsValue::Str(ds) => match spec_border_style(st.text@) {
                        Some(b) => match Color::spec_from_js_object(co) {
                            Ok(c) => match spec_diagonal_type(ds.text@) {
                                Some(d) => Ok(
                                    DiagonalBorder {
                                        border: Border { b_type: b, color: c },
                                        d_type: d,
                                    },
                                ),
                                _ => Err("Unknown diagonal border type: "@ + ds.text@),
                            },
                            Err(m) => Err(m),
                        },
                        _ => Err("Unknown border type: "@ + st.text@),
                    },
                    _ => Err(missing_prop_msg("dStyle"@, "string"@)),
                },
                _ => Err(missing_prop_msg("color"@, "object"@)),
            },
            _ => Err(missing_prop_msg("style"@, "string"@)),
        }
    }

    pub fn from_js_object(o: &JsObject) -> (r: Result<DiagonalBorder, NodeXlsxError>)
        ensures
            crate::error::matches_spec(r, DiagonalBorder::spec_from_js_object(*o)),
    {
        let style = match o.get_string("style") {
            Ok(s) => s,
            Err(e) => {
                return Err(e);
            },
        };
        let color = match o.get_object("color") {
            Ok(c) => c,
            Err(e) => {
                return Err(e);
            },
        };
        let d_style = match o.get_string("dStyle") {
            Ok(s) => s,
            Err(e) => {
                return Err(e);
            },
        };
        let b_type = match format_border_from_js_string(style.as_str()) {
            Ok(b) => b,
            Err(e) => {
                return Err(e);
            },
        };
        let color = match Color::from_js_object(color) {
            Ok(c) => c,
            Err(e) => {
                return Err(e);
            },
        };
        let d_type = match diagonal_border_from_js_string(d_style.as_str()) {
            Ok(d) => d,
            Err(e) => {
                return Err(e);
            },
        };
        Ok(DiagonalBorder { border: Border { b_type, color }, d_type })
    }
}

} // verus!
