use vstd::prelude::*;
use crate::error::NodeXlsxError;
use crate::text::{keyword_matches, matches_keyword};
use crate::util::{Formula, Url};
use crate::value::JsValue;

verus! {

/// The tagged union of cell contents.
#[derive(Debug)]
pub enum NodeXlsxTypes {
    /// Text content.
    Text(String),
    /// Numeric content, as the IEEE-754 encoding of the host number.
    Number(u64),
    /// A hyperlink.
    Link(Url),
    /// A timestamp in milliseconds since the epoch, already clamped by the
    /// epoch fallback.
    Date(i64),
    /// The catch-all for untagged or unrecognized-tag values, coerced to
    /// their string representation.
    Unknown(String),
    /// A formula together with its dynamic-variant flag.
    Formula((Formula, bool)),
}

/// The recognized cell-type tags; tag strings are case-insensitive.
#[derive(Debug)]
pub enum CellTag {
    NoTag,
    TagString,
    TagNumber,
    TagLink,
    TagDate,
    TagFormula,
    TagUnknown,
}

/// Which tag a cell-type string reads as.
pub open spec fn spec_tag(str_type: Option<String>) -> CellTag {
    match str_type {
        Option::None => CellTag::NoTag,
        Option::Some(s) => if keyword_matches(s@, "string"@) {
            CellTag::TagString
        } else if keyword_matches(s@, "number"@) {
            CellTag::TagNumber
        } else if keyword_matches(s@, "link"@) {
            CellTag::TagLink
        } else if keyword_matches(s@, "date"@) {
            CellTag::TagDate
        } else if keyword_matches(s@, "formula"@) {
            CellTag::TagFormula
        } else {
            CellTag::TagUnknown
        },
    }
}

/// Whether `bits` is the numeric coercion of `v`, read as its encoding.
pub open spec fn num_bits_ok(v: JsValue, bits: u64) -> bool {
    match v {
        JsValue::Number(m) => bits == m.bits,
        JsValue::Str(s) => s.number matches Some(m) && bits == m.bits,
        JsValue::Null => bits == 0,
        JsValue::Undefined => bits == 0,
        _ => false,
    }
}

/// Whether `t` is the content that tag `str_type` and value `v` decode to.
pub open spec fn spec_type_ok(str_type: Option<String>, v: JsValue, t: NodeXlsxTypes) -> bool {
    match spec_tag(str_type) {
        CellTag::NoTag => t matches NodeXlsxTypes::Unknown(s) && s@ == crate::util::spec_str_coercion(v),
        CellTag::TagUnknown => t matches NodeXlsxTypes::Unknown(s) && s@
            == crate::util::spec_str_coercion(v),
        CellTag::TagString => t matches NodeXlsxTypes::Text(s) && s@
            == crate::util::spec_str_coercion(v),
        CellTag::TagNumber => t matches NodeXlsxTypes::Number(bits) && num_bits_ok(v, bits),
        CellTag::TagLink => t matches NodeXlsxTypes::Link(u) && crate::util::spec_url_coercion(v)
            == Ok::<crate::util::Url, Seq<char>>(u),
        CellTag::TagDate => t matches NodeXlsxTypes::Date(ms) && crate::util::spec_date_coercion(v)
            == Ok::<i64, Seq<char>>(ms),
        CellTag::TagFormula => t matches NodeXlsxTypes::Formula(p)
            && crate::util::spec_formula_coercion(v) == Ok::<(Formula, bool), Seq<char>>(p),
    }
}

/// The failure a tag/value pair decodes to, when it has one.
pub open spec fn spec_type_err(str_type: Option<String>, v: JsValue) -> Option<Seq<char>> {
    match spec_tag(str_type) {
        CellTag::NoTag => Option::None,
        CellTag::TagUnknown => Option::None,
        CellTag::TagString => Option::None,
        CellTag::TagNumber => if crate::util::num_coercion_fails(v) {
            Option::Some(crate::util::num_coercion_err_msg(v))
        } else {
            Option::None
        },
        CellTag::TagLink => match crate::util::spec_url_coercion(v) {
            Err(m) => Option::Some(m),
            _ => Option::None,
        },
        CellTag::TagDate => match crate::util::spec_date_coercion(v) {
            Err(m) => Option::Some(m),
            _ => Option::None,
        },
        CellTag::TagFormula => match crate::util::spec_formula_coercion(v) {
            Err(m) => Option::Some(m),
            _ => Option::None,
        },
    }
}

impl NodeXlsxTypes {
    /// Decodes a cell's typed content from its optional type tag and its
    /// value, with the tag read case-insensitively and an absent or
    /// unrecognized tag coercing the value to its string representation.
    pub fn from_js_string(str_type: Option<&String>, js_any: &JsValue) -> (r: Result<
        NodeXlsxTypes,
        NodeXlsxError,
    >)
        ensures
            match r {
                Ok(t) => spec_type_ok(deref_tag(str_type), *js_any, t) && spec_type_err(
                    deref_tag(str_type),
                    *js_any,
                ) is None,
                Err(e) => spec_type_err(deref_tag(str_type), *js_any) matches Some(m)
                    && e.message@ == m,
            },
    {
        let tag = match str_type {
            Some(t) => t,
            Option::None => {
                return Ok(NodeXlsxTypes::Unknown(crate::util::any_to_string(js_any)));
            },
        };
        if matches_keyword(tag.as_str(), "string") {
            Ok(NodeXlsxTypes::Text(crate::util::any_to_string(js_any)))
        } else if matches_keyword(tag.as_str(), "number") {
            match crate::util::any_to_number(js_any) {
                Ok(n) => Ok(NodeXlsxTypes::Number(n.bits)),
                Err(e) => Err(e),
            }
        } else if matches_keyword(tag.as_str(), "link") {
            match crate::util::any_to_url(js_any) {
                Ok(u) => Ok(NodeXlsxTypes::Link(u)),
                Err(e) => Err(e),
            }
        } else if matches_keyword(tag.as_str(), "date") {
            match crate::util::any_to_naive_date_time(js_any) {
                Ok(ms) => Ok(NodeXlsxTypes::Date(ms)),
                Err(e) => Err(e),
            }
        } else if matches_keyword(tag.as_str(), "formula") {
            match crate::util::any_to_formula(js_any) {
                Ok(p) => Ok(NodeXlsxTypes::Formula(p)),
                Err(e) => Err(e),
            }
        } else {
            Ok(NodeXlsxTypes::Unknown(crate::util::any_to_string(js_any)))
        }
    }
}

/// The value behind an optional borrowed tag, for use in contracts.
pub open spec fn deref_tag(str_type: Option<&String>) -> Option<String> {
    match str_type {
        Option::Some(s) => Option::Some(*s),
        Option::None => Option::None,
    }
}

} // verus!
