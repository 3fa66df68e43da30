use vstd::prelude::*;
use vstd::string::StringExecFns;
use crate::border::{Border, DiagonalBorder};
use crate::color::Color;
use crate::error::NodeXlsxError;
use crate::text::{concat2, str_eq};
use crate::value::{JsObject, JsValue, missing_prop_msg};

verus! {

/// A cell alignment keyword.
#[derive(Debug, Clone, Copy)]
pub enum FormatAlign {
    General,
    Left,
    Center,
    Right,
    Fill,
    Justify,
    CenterAcross,
    Distributed,
    Top,
    Bottom,
    VerticalCenter,
    VerticalJustify,
    VerticalDistributed,
}

/// A fill pattern keyword.
#[derive(Debug, Clone, Copy)]
pub enum FormatPattern {
    NoPattern,
    Solid,
    MediumGray,
    DarkGray,
    LightGray,
    DarkHorizontal,
    DarkVertical,
    DarkDown,
    DarkUp,
    DarkGrid,
    DarkTrellis,
    LightHorizontal,
    LightVertical,
    LightDown,
    LightUp,
    LightGrid,
    LightTrellis,
    Gray125,
    Gray0625,
}

/// An underline style keyword.
#[derive(Debug, Clone, Copy)]
pub enum FormatUnderline {
    NoUnderline,
    Single,
    Double,
    SingleAccounting,
    DoubleAccounting,
}

/// The closed keyword table for alignments.
pub open spec fn spec_align(s: Seq<char>) -> Option<FormatAlign> {
    if s == "general"@ {
        Some(FormatAlign::General)
    } else if s == "left"@ {
        Some(FormatAlign::Left)
    } else if s == "center"@ {
        Some(FormatAlign::Center)
    } else if s == "right"@ {
        Some(FormatAlign::Right)
    } else if s == "fill"@ {
        Some(FormatAlign::Fill)
    } else if s == "justify"@ {
        Some(FormatAlign::Justify)
    } else if s == "centerAcross"@ {
        Some(FormatAlign::CenterAcross)
    } else if s == "distributed"@ {
        Some(FormatAlign::Distributed)
    } else if s == "top"@ {
        Some(FormatAlign::Top)
    } else if s == "bottom"@ {
        Some(FormatAlign::Bottom)
    } else if s == "verticalCenter"@ {
        Some(FormatAlign::VerticalCenter)
    } else if s == "verticalJustify"@ {
        Some(FormatAlign::VerticalJustify)
    } else if s == "verticalDistributed"@ {
        Some(FormatAlign::VerticalDistributed)
    } else {
        None
    }
}

/// Decodes an alignment keyword; an unrecognized keyword is an error that
/// names the offending string verbatim.
pub fn align_from_js_string(s: &str) -> (r: Result<FormatAlign, NodeXlsxError>)
    ensures
        match r {
            Ok(a) => spec_align(s@) == Some(a),
            Err(e) => spec_align(s@) is None && e.message@ == "Unknown align type: "@ + s@,
        },
{
    if str_eq(s, "general") {
        Ok(FormatAlign::General)
    } else if str_eq(s, "left") {
        Ok(FormatAlign::Left)
    } else if str_eq(s, "center") {
        Ok(FormatAlign::Center)
    } else if str_eq(s, "right") {
        Ok(FormatAlign::Right)
    } else if str_eq(s, "fill") {
        Ok(FormatAlign::Fill)
    } else if str_eq(s, "justify") {
        Ok(FormatAlign::Justify)
    } else if str_eq(s, "centerAcross") {
        Ok(FormatAlign::CenterAcross)
    } else if str_eq(s, "distributed") {
        Ok(FormatAlign::Distributed)
    } else if str_eq(s, "top") {
        Ok(FormatAlign::Top)
    } else if str_eq(s, "bottom") {
        Ok(FormatAlign::Bottom)
    } else if str_eq(s, "verticalCenter") {
        Ok(FormatAlign::VerticalCenter)
    } else if str_eq(s, "verticalJustify") {
        Ok(FormatAlign::VerticalJustify)
    } else if str_eq(s, "verticalDistributed") {
        Ok(FormatAlign::VerticalDistributed)
    } else {
        Err(NodeXlsxError::new(concat2("Unknown align type: ", s)))
    }
}

/// The closed keyword table for fill patterns.
pub open spec fn spec_pattern(s: Seq<char>) -> Option<FormatPattern> {
    if s == "none"@ {
        Some(FormatPattern::NoPattern)
    } else if s == "solid"@ {
        Some(FormatPattern::Solid)
    } else if s == "mediumGray"@ {
        Some(FormatPattern::MediumGray)
    } else if s == "darkGray"@ {
        Some(FormatPattern::DarkGray)
    } else if s == "lightGray"@ {
        Some(FormatPattern::LightGray)
    } else if s == "darkHorizontal"@ {
        Some(FormatPattern::DarkHorizontal)
    } else if s == "darkVertical"@ {
        Some(FormatPattern::DarkVertical)
    } else if s == "darkDown"@ {
        Some(FormatPattern::DarkDown)
    } else if s == "darkUp"@ {
        Some(FormatPattern::DarkUp)
    } else if s == "darkGrid"@ {
        Some(FormatPattern::DarkGrid)
    } else if s == "darkTrellis"@ {
        Some(FormatPattern::DarkTrellis)
    } else if s == "lightHorizontal"@ {
        Some(FormatPattern::LightHorizontal)
    } else if s == "lightVertical"@ {
        Some(FormatPattern::LightVertical)
    } else if s == "lightDown"@ {
        Some(FormatPattern::LightDown)
    } else if s == "lightUp"@ {
        Some(FormatPattern::LightUp)
    } else if s == "lightGrid"@ {
        Some(FormatPattern::LightGrid)
    } else if s == "lightTrellis"@ {
        Some(FormatPattern::LightTrellis)
    } else if s == "gray125"@ {
        Some(FormatPattern::Gray125)
    } else if s == "gray0625"@ {
        Some(FormatPattern::Gray0625)
    } else {
        None
    }
}

/// Decodes a fill-pattern keyword; an unrecognized keyword is an error
/// that names the offending string verbatim.
pub fn pattern_from_js_string(s: &str) -> (r: Result<FormatPattern, NodeXlsxError>)
    ensures
        match r {
            Ok(p) => spec_pattern(s@) == Some(p),
            Err(e) => spec_pattern(s@) is None && e.message@ == "Unknown pattern type: "@ + s@,
        },
{
    if str_eq(s, "none") {
        Ok(FormatPattern::NoPattern)
    } else if str_eq(s, "solid") {
        Ok(FormatPattern::Solid)
    } else if str_eq(s, "mediumGray") {
        Ok(FormatPattern::MediumGray)
    } else if str_eq(s, "darkGray") {
        Ok(FormatPattern::DarkGray)
    } else if str_eq(s, "lightGray") {
        Ok(FormatPattern::LightGray)
    } else if str_eq(s, "darkHorizontal") {
        Ok(FormatPattern::DarkHorizontal)
    } else if str_eq(s, "darkVertical") {
        Ok(FormatPattern::DarkVertical)
    } else if str_eq(s, "darkDown") {
        Ok(FormatPattern::DarkDown)
    } else if str_eq(s, "darkUp") {
        Ok(FormatPattern::DarkUp)
    } else if str_eq(s, "darkGrid") {
        Ok(FormatPattern::DarkGrid)
    } else if str_eq(s, "darkTrellis") {
        Ok(FormatPattern::DarkTrellis)
    } else if str_eq(s, "lightHorizontal") {
        Ok(FormatPattern::LightHorizontal)
    } else if str_eq(s, "lightVertical") {
        Ok(FormatPattern::LightVertical)
    } else if str_eq(s, "lightDown") {
        Ok(FormatPattern::LightDown)
    } else if str_eq(s, "lightUp") {
        Ok(FormatPattern::LightUp)
    } else if str_eq(s, "lightGrid") {
        Ok(FormatPattern::LightGrid)
    } else if str_eq(s, "lightTrellis") {
        Ok(FormatPattern::LightTrellis)
    } else if str_eq(s, "gray125") {
        Ok(FormatPattern::Gray125)
    } else if str_eq(s, "gray0625") {
        Ok(FormatPattern::Gray0625)
    } else {
        Err(NodeXlsxError::new(concat2("Unknown pattern type: ", s)))
    }
}

/// The closed keyword table for underline styles.
pub open spec fn spec_underline(s: Seq<char>) -> Option<FormatUnderline> {
    if s == "none"@ {
        Some(FormatUnderline::NoUnderline)
    } else if s == "single"@ {
        Some(FormatUnderline::Single)
    } else if s == "double"@ {
        Some(FormatUnderline::Double)
    } else if s == "singleAccounting"@ {
        Some(FormatUnderline::SingleAccounting)
    } else if s == "doubleAccounting"@ {
        Some(FormatUnderline::DoubleAccounting)
    } else {
        None
    }
}

/// Decodes an underline keyword; an unrecognized keyword is an error that
/// names the offending string verbatim.
pub fn underline_from_js_string(s: &str) -> (r: Result<FormatUnderline, NodeXlsxError>)
    ensures
        match r {
            Ok(u) => spec_underline(s@) == Some(u),
            Err(e) => spec_underline(s@) is None && e.message@ == "Unknown underline type: "@
                + s@,
        },
{
    if str_eq(s, "none") {
        Ok(FormatUnderline::NoUnderline)
    } else if str_eq(s, "single") {
        Ok(FormatUnderline::Single)
    } else if str_eq(s, "double") {
        Ok(FormatUnderline::Double)
    } else if str_eq(s, "singleAccounting") {
        Ok(FormatUnderline::SingleAccounting)
    } else if str_eq(s, "doubleAccounting") {
        Ok(FormatUnderline::DoubleAccounting)
    } else {
        Err(NodeXlsxError::new(concat2("Unknown underline type: ", s)))
    }
}

/// The classification of a font-scheme string: the two theme schemes the
/// document model distinguishes, and everything else as a custom scheme.
#[derive(Debug, Clone, Copy)]
pub enum FontSchemeKind {
    Body,
    Headings,
    Custom,
}

/// The closed keyword table for font schemes; an unrecognized keyword is
/// not an error but a custom scheme.
pub open spec fn spec_font_scheme_kind(s: Seq<char>) -> FontSchemeKind {
    if s == "body"@ {
        FontSchemeKind::Body
    } else if s == "headings"@ {
        FontSchemeKind::Headings
    } else {
        FontSchemeKind::Custom
    }
}

/// Classifies a font-scheme string for the document encoder.
pub fn font_scheme_kind(s: &str) -> (r: FontSchemeKind)
    ensures
        r == spec_font_scheme_kind(s@),
{
    if str_eq(s, "body") {
        FontSchemeKind::Body
    } else if str_eq(s, "headings") {
        FontSchemeKind::Headings
    } else {
        FontSchemeKind::Custom
    }
}

/// A flat record of optional style attributes; absent attributes are left
/// at the document encoder's default.
#[derive(Debug)]
pub struct Format {
    pub align: Option<FormatAlign>,
    pub background_color: Option<Color>,
    pub bold: Option<bool>,
    pub left_border: Option<Border>,
    pub right_border: Option<Border>,
    pub top_border: Option<Border>,
    pub bottom_border: Option<Border>,
    pub diagonal_border: Option<DiagonalBorder>,
    pub charset: Option<u8>,
    pub font_color: Option<Color>,
    pub font_family: Option<u8>,
    pub font_name: Option<String>,
    pub font_scheme: Option<String>,
    pub font_size: Option<u32>,
    pub strike_through: Option<bool>,
    pub foreground_color: Option<Color>,
    pub hidden: Option<bool>,
    pub hyperlink: Option<bool>,
    pub indent: Option<u8>,
    pub italic: Option<bool>,
    pub locked: Option<bool>,
    pub num_fmt: Option<String>,
    pub num_fmt_id: Option<u8>,
    pub pattern: Option<FormatPattern>,
    pub underline: Option<FormatUnderline>,
}

/// The optional alignment attribute of a format object.
pub open spec fn spec_opt_align(o: JsObject) -> Result<Option<FormatAlign>, Seq<char>> {
    match o.spec_get("align"@) {
        JsValue::Undefined => Ok(None),
        JsValue::Str(s) => match spec_align(s.text@) {
            Some(a) => Ok(Some(a)),
            _ => Err("Unknown align type: "@ + s.text@),
        },
        _ => Err(missing_prop_msg("align"@, "string"@)),
    }
}

/// The optional fill-pattern attribute of a format object.
pub open spec fn spec_opt_pattern(o: JsObject) -> Result<Option<FormatPattern>, Seq<char>> {
    match o.spec_get("pattern"@) {
        JsValue::Undefined => Ok(None),
        JsValue::Str(s) => match spec_pattern(s.text@) {
            Some(p) => Ok(Some(p)),
            _ => Err("Unknown pattern type: "@ + s.text@),
        },
        _ => Err(missing_prop_msg("pattern"@, "string"@)),
    }
}

/// The optional underline attribute of a format object.
pub open spec fn spec_opt_underline(o: JsObject) -> Result<Option<FormatUnderline>, Seq<char>> {
    match o.spec_get("underline"@) {
        JsValue::Undefined => Ok(None),
        JsValue::Str(s) => match spec_underline(s.text@) {
            Some(u) => Ok(Some(u)),
            _ => Err("Unknown underline type: "@ + s.text@),
        },
        _ => Err(missing_prop_msg("underline"@, "string"@)),
    }
}

/// An optional color-valued attribute of a format object.
pub open spec fn spec_opt_color(o: JsObject, key: Seq<char>) -> Result<Option<Color>, Seq<char>> {
    match o.spec_get(key) {
        JsValue::Undefined => Ok(None),
        JsValue::Object(c) => match Color::spec_from_js_object(c) {
            Ok(col) => Ok(Some(col)),
            Err(m) => Err(m),
        },
        _ => Err(missing_prop_msg(key, "object"@)),
    }
}

/// An optional border-valued attribute of a format object.
pub open spec fn spec_opt_border(o: JsObject, key: Seq<char>) -> Result<Option<Border>, Seq<char>> {
    match o.spec_get(key) {
        JsValue::Undefined => Ok(None),
        JsValue::Object(b) => match Border::spec_from_js_object(b) {
            Ok(bo) => Ok(Some(bo)),
            Err(m) => Err(m),
        },
        _ => Err(missing_prop_msg(key, "object"@)),
    }
}

/// The optional diagonal-border attribute of a format object.
pub open spec fn spec_opt_diagonal(o: JsObject) -> Result<Option<DiagonalBorder>, Seq<char>> {
    match o.spec_get("diagonalBorder"@) {
        JsValue::Undefined => Ok(None),
        JsValue::Object(b) => match DiagonalBorder::spec_from_js_object(b) {
            Ok(d) => Ok(Some(d)),
            Err(m) => Err(m),
        },
        _ => Err(missing_prop_msg("diagonalBorder"@, "object"@)),
    }
}

/// The alignment, background color and bold attributes, in decode order.
pub open spec fn spec_base_attrs(o: JsObject) -> Result<
    (Option<FormatAlign>, Option<Color>, Option<bool>),
    Seq<char>,
> {
    let align = spec_opt_align(o);
    let background_color = spec_opt_color(o, "backgroundColor"@);
    let bold = crate::util::spec_opt_bool(o, "bold"@);
    if align is Err {
        Err(align->Err_0)
    } else if background_color is Err {
        Err(background_color->Err_0)
    } else if bold is Err {
        Err(bold->Err_0)
    } else {
        Ok((align->Ok_0, background_color->Ok_0, bold->Ok_0))
    }
}

/// The four edge borders and the diagonal border, in decode order.
pub open spec fn spec_border_attrs(o: JsObject) -> Result<
    (Option<Border>, Option<Border>, Option<Border>, Option<Border>, Option<DiagonalBorder>),
    Seq<char>,
> {
    let left_border = spec_opt_border(o, "leftBorder"@);
    let right_border = spec_opt_border(o, "rightBorder"@);
    let top_border = spec_opt_border(o, "topBorder"@);
    let bottom_border = spec_opt_border(o, "bottomBorder"@);
    let diagonal_border = spec_opt_diagonal(o);
    if left_border is Err {
        Err(left_border->Err_0)
    } else if right_border is Err {
        Err(right_border->Err_0)
    } else if top_border is Err {
        Err(top_border->Err_0)
    } else if bottom_border is Err {
        Err(bottom_border->Err_0)
    } else if diagonal_border is Err {
        Err(diagonal_border->Err_0)
    } else {
        Ok(
            (
                left_border->Ok_0,
                right_border->Ok_0,
                top_border->Ok_0,
                bottom_border->Ok_0,
                diagonal_border->Ok_0,
            ),
        )
    }
}

/// The font attributes, in decode order.
pub open spec fn spec_font_attrs(o: JsObject) -> Result<
    (Option<u8>, Option<Color>, Option<u8>, Option<String>, Option<String>, Option<u32>),
    Seq<char>,
> {
    let charset = crate::util::spec_opt_u8(o, "charset"@);
    let font_color = spec_opt_color(o, "fontColor"@);
    let font_family = crate::util::spec_opt_u8(o, "fontFamily"@);
    let font_name = crate::util::spec_opt_string(o, "fontName"@);
    let font_scheme = crate::util::spec_opt_string(o, "fontScheme"@);
    let font_size = crate::util::spec_opt_u32(o, "fontSize"@);
    if charset is Err {
        Err(charset->Err_0)
    } else if font_color is Err {
        Err(font_color->Err_0)
    } else if font_family is Err {
        Err(font_family->Err_0)
    } else if font_name is Err {
        Err(font_name->Err_0)
    } else if font_scheme is Err {
        Err(font_scheme->Err_0)
    } else if font_size is Err {
        Err(font_size->Err_0)
    } else {
        Ok(
            (
                charset->Ok_0,
                font_color->Ok_0,
                font_family->Ok_0,
                font_name->Ok_0,
                font_scheme->Ok_0,
                font_size->Ok_0,
            ),
        )
    }
}

/// The protection and emphasis flags, in decode order.
pub open spec fn spec_flag_attrs(o: JsObject) -> Result<
    (
        Option<bool>,
        Option<Color>,
        Option<bool>,
        Option<bool>,
        Option<u8>,
        Option<bool>,
        Option<bool>,
    ),
    Seq<char>,
> {
    let strike_through = crate::util::spec_opt_bool(o, "strikeThrough"@);
    let foreground_color = spec_opt_color(o, "foregroundColor"@);
    let hidden = crate::util::spec_opt_bool(o, "hidden"@);
    let hyperlink = crate::util::spec_opt_bool(o, "hyperlink"@);
    let indent = crate::util::spec_opt_u8(o, "indent"@);
    let italic = crate::util::spec_opt_bool(o, "italic"@);
    let locked = crate::util::spec_opt_bool(o, "locked"@);
    if strike_through is Err {
        Err(strike_through->Err_0)
    } else if foreground_color is Err {
        Err(foreground_color->Err_0)
    } else if hidden is Err {
        Err(hidden->Err_0)
    } else if hyperlink is Err {
        Err(hyperlink->Err_0)
    } else if indent is Err {
        Err(indent->Err_0)
    } else if italic is Err {
        Err(italic->Err_0)
    } else if locked is Err {
        Err(locked->Err_0)
    } else {
        Ok(
            (
                strike_through->Ok_0,
                foreground_color->Ok_0,
                hidden->Ok_0,
                hyperlink->Ok_0,
                indent->Ok_0,
                italic->Ok_0,
                locked->Ok_0,
            ),
        )
    }
}

/// The number-format, pattern and underline attributes, in decode order.
pub open spec fn spec_numfmt_attrs(o: JsObject) -> Result<
    (Option<String>, Option<u8>, Option<FormatPattern>, Option<FormatUnderline>),
    Seq<char>,
> {
    let num_fmt = crate::util::spec_opt_string(o, "numFmt"@);
    let num_fmt_id = crate::util::spec_opt_u8(o, "numFmtId"@);
    let pattern = spec_opt_pattern(o);
    let underline = spec_opt_underline(o);
    if num_fmt is Err {
        Err(num_fmt->Err_0)
    } else if num_fmt_id is Err {
        Err(num_fmt_id->Err_0)
    } else if pattern is Err {
        Err(pattern->Err_0)
    } else if underline is Err {
        Err(underline->Err_0)
    } else {
        Ok((num_fmt->Ok_0, num_fmt_id->Ok_0, pattern->Ok_0, underline->Ok_0))
    }
}

fn base_attrs(o: &JsObject) -> (r: Result<
    (Option<FormatAlign>, Option<Color>, Option<bool>),
    NodeXlsxError,
>)
    ensures
        crate::error::matches_spec(r, spec_base_attrs(*o)),
{
    let align = match o.get_opt_string("align") {
        Ok(Some(s)) => match align_from_js_string(s.as_str()) {
            Ok(a) => Some(a),
            Err(e) => {
                return Err(e);
            },
        },
        Ok(None) => None,
        Err(e) => {
            return Err(e);
        },
    };
    let background_color = match o.get_opt_object("backgroundColor") {
        Ok(Some(c)) => match Color::from_js_object(c) {
            Ok(col) => Some(col),
            Err(e) => {
                return Err(e);
            },
        },
        Ok(None) => None,
        Err(e) => {
            return Err(e);
        },
    };
    let bold = match o.get_opt_bool("bold") {
        Ok(b) => b,
        Err(e) => {
            return Err(e);
        },
    };
    Ok((align, background_color, bold))
}

fn border_attrs(o: &JsObject) -> (r: Result<
    (Option<Border>, Option<Border>, Option<Border>, Option<Border>, Option<DiagonalBorder>),
    NodeXlsxError,
>)
    ensures
        crate::error::matches_spec(r, spec_border_attrs(*o)),
{
    let left_border = match o.get_opt_object("leftBorder") {
        Ok(Some(b)) => match Border::from_js_object(b) {
            Ok(bo) => Some(bo),
            Err(e) => {
                return Err(e);
            },
        },
        Ok(None) => None,
        Err(e) => {
            return Err(e);
        },
    };
    let right_border = match o.get_opt_object("rightBorder") {
        Ok(Some(b)) => match Border::from_js_object(b) {
            Ok(bo) => Some(bo),
            Err(e) => {
                return Err(e);
            },
        },
        Ok(None) => None,
        Err(e) => {
            return Err(e);
        },
    };
    let top_border = match o.get_opt_object("topBorder") {
        Ok(Some(b)) => match Border::from_js_object(b) {
            Ok(bo) => Some(bo),
            Err(e) => {
                return Err(e);
            },
        },
        Ok(None) => None,
        Err(e) => {
            return Err(e);
        },
    };
    let bottom_border = match o.get_opt_object("bottomBorder") {
        Ok(Some(b)) => match Border::from_js_object(b) {
            Ok(bo) => Some(bo),
            Err(e) => {
                return Err(e);
            },
        },
        Ok(None) => None,
        Err(e) => {
            return Err(e);
        },
    };
    let diagonal_border = match o.get_opt_object("diagonalBorder") {
        Ok(Some(b)) => match DiagonalBorder::from_js_object(b) {
            Ok(d) => Some(d),
            Err(e) => {
                return Err(e);
            },
        },
        Ok(None) => None,
        Err(e) => {
            return Err(e);
        },
    };
    Ok((left_border, right_border, top_border, bottom_border, diagonal_border))
}

fn font_attrs(o: &JsObject) -> (r: Result<
    (Option<u8>, Option<Color>, Option<u8>, Option<String>, Option<String>, Option<u32>),
    NodeXlsxError,
>)
    ensures
        crate::error::matches_spec(r, spec_font_attrs(*o)),
{
    let charset = match o.get_opt_number("charset") {
        Ok(Some(n)) => Some(n.as_u8()),
        Ok(None) => None,
        Err(e) => {
            return Err(e);
        },
    };
    let font_color = match o.get_opt_object("fontColor") {
        Ok(Some(c)) => match Color::from_js_object(c) {
            Ok(col) => Some(col),
            Err(e) => {
                return Err(e);
            },
        },
        Ok(None) => None,
        Err(e) => {
            return Err(e);
        },
    };
    let font_family = match o.get_opt_number("fontFamily") {
        Ok(Some(n)) => Some(n.as_u8()),
        Ok(None) => None,
        Err(e) => {
            return Err(e);
        },
    };
    let font_name = match o.get_opt_string("fontName") {
        Ok(s) => s,
        Err(e) => {
            return Err(e);
        },
    };
    let font_scheme = match o.get_opt_string("fontScheme") {
        Ok(s) => s,
        Err(e) => {
            return Err(e);
        },
    };
    let font_size = match o.get_opt_number("fontSize") {
        Ok(Some(n)) => Some(n.as_u32()),
        Ok(None) => None,
        Err(e) => {
            return Err(e);
        },
    };
    Ok((charset, font_color, font_family, font_name, font_scheme, font_size))
}

fn flag_attrs(o: &JsObject) -> (r: Result<
    (
        Option<bool>,
        Option<Color>,
        Option<bool>,
        Option<bool>,
        Option<u8>,
        Option<bool>,
        Option<bool>,
    ),
    NodeXlsxError,
>)
    ensures
        crate::error::matches_spec(r, spec_flag_attrs(*o)),
{
    let strike_through = match o.get_opt_bool("strikeThrough") {
        Ok(b) => b,
        Err(e) => {
            return Err(e);
        },
    };
    let foreground_color = match o.get_opt_object("foregroundColor") {
        Ok(Some(c)) => match Color::from_js_object(c) {
            Ok(col) => Some(col),
            Err(e) => {
                return Err(e);
            },
        },
        Ok(None) => None,
        Err(e) => {
            return Err(e);
        },
    };
    let hidden = match o.get_opt_bool("hidden") {
        Ok(b) => b,
        Err(e) => {
            return Err(e);
        },
    };
    let hyperlink = match o.get_opt_bool("hyperlink") {
        Ok(b) => b,
        Err(e) => {
            return Err(e);
        },
    };
    let indent = match o.get_opt_number("indent") {
        Ok(Some(n)) => Some(n.as_u8()),
        Ok(None) => None,
        Err(e) => {
            return Err(e);
        },
    };
    let italic = match o.get_opt_bool("italic") {
        Ok(b) => b,
        Err(e) => {
            return Err(e);
        },
    };
    let locked = match o.get_opt_bool("locked") {
        Ok(b) => b,
        Err(e) => {
            return Err(e);
        },
    };
    Ok((strike_through, foreground_color, hidden, hyperlink, indent, italic, locked))
}

fn numfmt_attrs(o: &JsObject) -> (r: Result<
    (Option<String>, Option<u8>, Option<FormatPattern>, Option<FormatUnderline>),
    NodeXlsxError,
>)
    ensures
        crate::error::matches_spec(r, spec_numfmt_attrs(*o)),
{
    let num_fmt = match o.get_opt_string("numFmt") {
        Ok(s) => s,
        Err(e) => {
            return Err(e);
        },
    };
    let num_fmt_id = match o.get_opt_number("numFmtId") {
        Ok(Some(n)) => Some(n.as_u8()),
        Ok(None) => None,
        Err(e) => {
            return Err(e);
        },
    };
    let pattern = match o.get_opt_string("pattern") {
        Ok(Some(s)) => match pattern_from_js_string(s.as_str()) {
            Ok(p) => Some(p),
            Err(e) => {
                return Err(e);
            },
        },
        Ok(None) => None,
        Err(e) => {
            return Err(e);
        },
    };
    let underline = match o.get_opt_string("underline") {
        Ok(Some(s)) => match underline_from_js_string(s.as_str()) {
            Ok(u) => Some(u),
            Err(e) => {
                return Err(e);
            },
        },
        Ok(None) => None,
        Err(e) => {
            return Err(e);
        },
    };
    Ok((num_fmt, num_fmt_id, pattern, underline))
}

impl Format {
    /// The format a host style object decodes to, attribute by attribute,
    /// failing on the first attribute that does not decode.
    pub open spec fn spec_inner_from_object(o: JsObject) -> Result<Format, Seq<char>> {
        let base = spec_base_attrs(o);
        let borders = spec_border_attrs(o);
        let font = spec_font_attrs(o);
        let flags = spec_flag_attrs(o);
        let numfmt = spec_numfmt_attrs(o);
        if base is Err {
            Err(base->Err_0)
        } else if borders is Err {
            Err(borders->Err_0)
        } else if font is Err {
            Err(font->Err_0)
        } else if flags is Err {
            Err(flags->Err_0)
        } else if numfmt is Err {
            Err(numfmt->Err_0)
        } else {
            Ok(
                Format {
                    align: base->Ok_0.0,
                    background_color: base->Ok_0.1,
                    bold: base->Ok_0.2,
                    left_border: borders->Ok_0.0,
                    right_border: borders->Ok_0.1,
                    top_border: borders->Ok_0.2,
                    bottom_border: borders->Ok_0.3,
                    diagonal_border: borders->Ok_0.4,
                    charset: font->Ok_0.0,
                    font_color: font->Ok_0.1,
                    font_family: font->Ok_0.2,
                    font_name: font->Ok_0.3,
                    font_scheme: font->Ok_0.4,
                    font_size: font->Ok_0.5,
                    strike_through: flags->Ok_0.0,
                    foreground_color: flags->Ok_0.1,
                    hidden: flags->Ok_0.2,
                    hyperlink: flags->Ok_0.3,
                    indent: flags->Ok_0.4,
                    italic: flags->Ok_0.5,
                    locked: flags->Ok_0.6,
                    num_fmt: numfmt->Ok_0.0,
                    num_fmt_id: numfmt->Ok_0.1,
                    pattern: numfmt->Ok_0.2,
                    underline: numfmt->Ok_0.3,
                },
            )
        }
    }

    /// The format a host style object decodes to, with any failure wrapped
    /// in a message that embeds the offending object's rendering.
    pub open spec fn spec_from_js_object(o: JsObject) -> Result<Format, Seq<char>> {
        match Format::spec_inner_from_object(o) {
            Ok(f) => Ok(f),
            Err(m) => Err("Error parsing Format: "@ + o.spec_repr() + " with error:\n  "@ + m),
        }
    }

    fn inner_from_object(o: &JsObject) -> (r: Result<Format, NodeXlsxError>)
        ensures
            crate::error::matches_spec(r, Format::spec_inner_from_object(*o)),
    {
        let base = match base_attrs(o) {
            Ok(x) => x,
            Err(e) => {
                return Err(e);
            },
        };
        let borders = match border_attrs(o) {
            Ok(x) => x,
            Err(e) => {
                return Err(e);
            },
        };
        let font = match font_attrs(o) {
            Ok(x) => x,
            Err(e) => {
                return Err(e);
            },
        };
        let flags = match flag_attrs(o) {
            Ok(x) => x,
            Err(e) => {
                return Err(e);
            },
        };
        let numfmt = match numfmt_attrs(o) {
            Ok(x) => x,
            Err(e) => {
                return Err(e);
            },
        };
        Ok(
            Format {
                align: base.0,
                background_color: base.1,
                bold: base.2,
                left_border: borders.0,
                right_border: borders.1,
                top_border: borders.2,
                bottom_border: borders.3,
                diagonal_border: borders.4,
                charset: font.0,
                font_color: font.1,
                font_family: font.2,
                font_name: font.3,
                font_scheme: font.4,
                font_size: font.5,
                strike_through: flags.0,
                foreground_color: flags.1,
                hidden: flags.2,
                hyperlink: flags.3,
                indent: flags.4,
                italic: flags.5,
                locked: flags.6,
                num_fmt: numfmt.0,
                num_fmt_id: numfmt.1,
                pattern: numfmt.2,
                underline: numfmt.3,
            },
        )
    }

    /// Decodes a host style object; any failure is wrapped with the
    /// rendering of the whole object for diagnosability.
    pub fn from_js_object(o: &JsObject) -> (r: Result<Format, NodeXlsxError>)
        ensures
            crate::error::matches_spec(r, Format::spec_from_js_object(*o)),
    {
        match Format::inner_from_object(o) {
            Ok(f) => Ok(f),
            Err(e) => {
                let rep = o.repr();
                let mut msg = concat2("Error parsing Format: ", rep.as_str());
                msg.append(" with error:\n  ");
                msg.append(e.message.as_str());
                Err(NodeXlsxError::new(msg))
            },
        }
    }
}

} // verus!
