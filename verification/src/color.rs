use vstd::prelude::*;
use crate::error::NodeXlsxError;
use crate::value::{JsObject, JsValue, missing_prop_msg};

verus! {

/// An 8-bit-per-channel RGB color.
#[derive(Debug, Clone, Copy)]
pub struct Color {
    pub red: u8,
    pub green: u8,
    pub blue: u8,
}

impl Color {
    /// The color a host object decodes to: three required numeric
    /// channels, each clamped into a byte.
    pub open spec fn spec_from_js_object(o: JsObject) -> Result<Color, Seq<char>> {
        match o.spec_get("red"@) {
            JsValue::Number(r) => match o.spec_get("green"@) {
                JsValue::Number(g) => match o.spec_get("blue"@) {
                    JsValue::Number(b) => Ok(
                        Color { red: r.spec_u8(), green: g.spec_u8(), blue: b.spec_u8() },
                    ),
                    _ => Err(missing_prop_msg("blue"@, "number"@)),
                },
                _ => Err(missing_prop_msg("green"@, "number"@)),
            },
            _ => Err(missing_prop_msg("red"@, "number"@)),
        }
    }

    pub fn from_js_object(o: &JsObject) -> (r: Result<Color, NodeXlsxError>)
        ensures
            crate::error::matches_spec(r, Color::spec_from_js_object(*o)),
    {
        let red = match o.get_number("red") {
            Ok(n) => n,
            Err(e) => {
                return Err(e);
            },
        };
        let green = match o.get_number("green") {
            Ok(n) => n,
            Err(e) => {
                return Err(e);
            },
        };
        let blue = match o.get_number("blue") {
            Ok(n) => n,
            Err(e) => {
                return Err(e);
            },
        };
        Ok(Color { red: red.as_u8(), green: green.as_u8(), blue: blue.as_u8() })
    }

    /// The 24-bit packing the document encoder receives: red in the high
    /// byte, then green, then blue.
    pub open spec fn spec_rgb(&self) -> int {
        (self.red as int) * 0x10000 + (self.green as int) * 0x100 + (self.blue as int)
    }

    pub fn to_rgb(&self) -> (r: u32)
        ensures
            r == self.spec_rgb(),
            r <= 0xFFFFFF,
    {
        (self.red as u32) * 0x10000 + (self.green as u32) * 0x100 + (self.blue as u32)
    }
}

} // verus!
