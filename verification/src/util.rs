use vstd::prelude::*;
use crate::error::NodeXlsxError;
use crate::text::concat2;
use crate::value::{JsNumber, JsObject, JsValue, missing_prop_msg};

verus! {

/// A hyperlink: target plus optional display text and tooltip.
#[derive(Debug)]
pub struct Url {
    pub url: String,
    pub text: Option<String>,
    pub tip: Option<String>,
}

/// A formula: its text, an optional cached result, optional capability
/// flags, and whether it is a dynamic (spilling) formula.
#[derive(Debug)]
pub struct Formula {
    pub formula: String,
    pub result: Option<String>,
    pub use_future_functions: Option<bool>,
    pub use_table_functions: Option<bool>,
}

impl Clone for Url {
    fn clone(&self) -> (r: Self)
        ensures
            r == *self,
    {
        Url {
            url: self.url.clone(),
            text: match &self.text {
                Some(s) => Some(s.clone()),
                Option::None => Option::None,
            },
            tip: match &self.tip {
                Some(s) => Some(s.clone()),
                Option::None => Option::None,
            },
        }
    }
}

impl Clone for Formula {
    fn clone(&self) -> (r: Self)
        ensures
            r == *self,
    {
        Formula {
            formula: self.formula.clone(),
            result: match &self.result {
                Some(s) => Some(s.clone()),
                Option::None => Option::None,
            },
            use_future_functions: self.use_future_functions,
            use_table_functions: self.use_table_functions,
        }
    }
}

/// Whether `chrono` can represent a timestamp of this many milliseconds
/// since the epoch as a date-time.
pub uninterp spec fn ms_representable(ms: i64) -> bool;

/// Relies on chrono's `DateTime::from_timestamp_millis`: the call returns
/// `Some` exactly when the millisecond count is in range for a date-time,
/// and that depends on the argument alone.
#[verifier::external_body]
fn ms_in_datetime_range(ms: i64) -> (r: bool)
    ensures
        r == ms_representable(ms),
{
    chrono::DateTime::from_timestamp_millis(ms).is_some()
}

/// The timestamp a host date value decodes to: out-of-range timestamps
/// fall back to the epoch instant instead of failing.
pub open spec fn ms_or_epoch(ms: i64) -> i64 {
    if ms_representable(ms) {
        ms
    } else {
        0
    }
}

/// Decodes a host date number into the timestamp the document will hold.
pub fn js_date_to_naive_date_time(n: &JsNumber) -> (r: i64)
    ensures
        r == ms_or_epoch(n.int),
{
    if ms_in_datetime_range(n.int) {
        n.int
    } else {
        0
    }
}

/// String coercion of an arbitrary host value: null and undefined read as
/// the empty string; a string reads as itself; anything else reads as the
/// library's rendering of the value.
pub open spec fn spec_str_coercion(v: JsValue) -> Seq<char> {
    match v {
        JsValue::Null => Seq::<char>::empty(),
        JsValue::Undefined => Seq::<char>::empty(),
        JsValue::Str(s) => s.text@,
        _ => v.spec_repr(),
    }
}

pub fn any_to_string(v: &JsValue) -> (r: String)
    ensures
        r@ == spec_str_coercion(*v),
{
    match v {
        JsValue::Null => String::new(),
        JsValue::Undefined => String::new(),
        JsValue::Str(s) => s.text.clone(),
        _ => v.repr(),
    }
}

/// Holds when `n` is the numeric coercion of `v`: numbers pass through,
/// numeric strings read as their parsed number, null and undefined read
/// as zero.
pub open spec fn num_coercion_ok(v: JsValue, n: JsNumber) -> bool {
    match v {
        JsValue::Number(m) => n == m,
        JsValue::Str(s) => s.number == Some(n),
        JsValue::Null => n.bits == 0 && n.int == 0 && n.neg == false && n.repr@ == "0"@,
        JsValue::Undefined => n.bits == 0 && n.int == 0 && n.neg == false && n.repr@ == "0"@,
        _ => false,
    }
}

/// Holds when `v` has no numeric coercion.
pub open spec fn num_coercion_fails(v: JsValue) -> bool {
    match v {
        JsValue::Number(_) => false,
        JsValue::Str(s) => s.number is None,
        JsValue::Null => false,
        JsValue::Undefined => false,
        _ => true,
    }
}

pub open spec fn num_coercion_err_msg(v: JsValue) -> Seq<char> {
    "Value cannot be converted to number: "@ + v.spec_repr()
}

pub fn any_to_number(v: &JsValue) -> (r: Result<JsNumber, NodeXlsxError>)
    ensures
        match r {
            Ok(n) => num_coercion_ok(*v, n),
            Err(e) => num_coercion_fails(*v) && e.message@ == num_coercion_err_msg(*v),
        },
        r is Err <==> num_coercion_fails(*v),
    {
    match v {
        JsValue::Number(n) => Ok(n.clone()),
        JsValue::Str(s) => match &s.number {
            Some(n) => Ok(n.clone()),
            None => Err(NodeXlsxError::new(number_error(v))),
        },
        JsValue::Null => Ok(JsNumber { bits: 0, int: 0, neg: false, repr: "0".to_owned() }),
        JsValue::Undefined => Ok(JsNumber { bits: 0, int: 0, neg: false, repr: "0".to_owned() }),
        _ => Err(NodeXlsxError::new(number_error(v))),
    }
}

fn number_error(v: &JsValue) -> (r: String)
    ensures
        r@ == num_coercion_err_msg(*v),
{
    let rep = v.repr();
    concat2("Value cannot be converted to number: ", rep.as_str())
}

/// The hyperlink a structured host object decodes to: a required `url`
/// string plus optional `text` and `tip` strings.
pub open spec fn spec_object_to_url(o: JsObject) -> Result<Url, Seq<char>> {
    match o.spec_get("url"@) {
        JsValue::Str(u) => match spec_opt_string(o, "text"@) {
            Ok(text) => match spec_opt_string(o, "tip"@) {
                Ok(tip) => Ok(Url { url: u.text, text, tip }),
                Err(m) => Err(m),
            },
            Err(m) => Err(m),
        },
        _ => Err(missing_prop_msg("url"@, "string"@)),
    }
}

/// The optional-string reading of a property, as the getters decode it.
pub open spec fn spec_opt_string(o: JsObject, key: Seq<char>) -> Result<Option<String>, Seq<char>> {
    match o.spec_get(key) {
        JsValue::Undefined => Ok(None),
        JsValue::Str(s) => Ok(Some(s.text)),
        _ => Err(missing_prop_msg(key, "string"@)),
    }
}

/// The optional-number reading of a property.
pub open spec fn spec_opt_number(o: JsObject, key: Seq<char>) -> Result<
    Option<JsNumber>,
    Seq<char>,
> {
    match o.spec_get(key) {
        JsValue::Undefined => Ok(None),
        JsValue::Number(n) => Ok(Some(n)),
        _ => Err(missing_prop_msg(key, "number"@)),
    }
}

/// The optional-number reading of a property, clamped into a byte.
pub open spec fn spec_opt_u8(o: JsObject, key: Seq<char>) -> Result<Option<u8>, Seq<char>> {
    match o.spec_get(key) {
        JsValue::Undefined => Ok(None),
        JsValue::Number(n) => Ok(Some(n.spec_u8())),
        _ => Err(missing_prop_msg(key, "number"@)),
    }
}

/// The optional-number reading of a property, clamped into 16 bits.
pub open spec fn spec_opt_u16(o: JsObject, key: Seq<char>) -> Result<Option<u16>, Seq<char>> {
    match o.spec_get(key) {
        JsValue::Undefined => Ok(None),
        JsValue::Number(n) => Ok(Some(n.spec_u16())),
        _ => Err(missing_prop_msg(key, "number"@)),
    }
}

/// The optional-number reading of a property, clamped into 32 bits.
pub open spec fn spec_opt_u32(o: JsObject, key: Seq<char>) -> Result<Option<u32>, Seq<char>> {
    match o.spec_get(key) {
        JsValue::Undefined => Ok(None),
        JsValue::Number(n) => Ok(Some(n.spec_u32())),
        _ => Err(missing_prop_msg(key, "number"@)),
    }
}

/// The optional-boolean reading of a property.
pub open spec fn spec_opt_bool(o: JsObject, key: Seq<char>) -> Result<Option<bool>, Seq<char>> {
    match o.spec_get(key) {
        JsValue::Undefined => Ok(None),
        JsValue::Bool(b) => Ok(Some(b)),
        _ => Err(missing_prop_msg(key, "boolean"@)),
    }
}

pub fn object_to_url(o: &JsObject) -> (r: Result<Url, NodeXlsxError>)
    ensures
        crate::error::matches_spec(r, spec_object_to_url(*o)),
{
    let url = match o.get_string("url") {
        Ok(u) => u,
        Err(e) => {
            return Err(e);
        },
    };
    let text = match o.get_opt_string("text") {
        Ok(t) => t,
        Err(e) => {
            return Err(e);
        },
    };
    let tip = match o.get_opt_string("tip") {
        Ok(t) => t,
        Err(e) => {
            return Err(e);
        },
    };
    Ok(Url { url, text, tip })
}

/// The hyperlink coercion of an arbitrary host value: a bare string is the
/// target itself; a structured object decodes field by field; anything
/// else is an error naming the value.
pub open spec fn spec_url_coercion(v: JsValue) -> Result<Url, Seq<char>> {
    match v {
        JsValue::Str(s) => Ok(Url { url: s.text, text: None, tip: None }),
        JsValue::Object(o) => spec_object_to_url(o),
        _ => Err("Value cannot be converted to URL: "@ + v.spec_repr()),
    }
}

pub fn any_to_url(v: &JsValue) -> (r: Result<Url, NodeXlsxError>)
    ensures
        crate::error::matches_spec(r, spec_url_coercion(*v)),
{
    match v {
        JsValue::Str(s) => Ok(Url { url: s.text.clone(), text: None, tip: None }),
        JsValue::Object(o) => object_to_url(o),
        _ => {
            let rep = v.repr();
            Err(NodeXlsxError::new(concat2("Value cannot be converted to URL: ", rep.as_str())))
        },
    }
}

/// The formula a structured host object decodes to: a required `formula`
/// string, optional `result` string, optional capability flags, and an
/// optional `dynamic` flag (false when absent).
pub open spec fn spec_object_to_formula(o: JsObject) -> Result<(Formula, bool), Seq<char>> {
    match o.spec_get("formula"@) {
        JsValue::Str(f) => match spec_opt_string(o, "result"@) {
            Ok(result) => match spec_opt_bool(o, "useFutureFunctions"@) {
                Ok(fut) => match spec_opt_bool(o, "useTableFunctions"@) {
                    Ok(tab) => match spec_opt_bool(o, "dynamic"@) {
                        Ok(dynamic) => Ok(
                            (
                                Formula {
                                    formula: f.text,
                                    result,
                                    use_future_functions: fut,
                                    use_table_functions: tab,
                                },
                                dynamic == Some(true),
                            ),
                        ),
                        Err(m) => Err(m),
                    },
                    Err(m) => Err(m),
                },
                Err(m) => Err(m),
            },
            Err(m) => Err(m),
        },
        _ => Err(missing_prop_msg("formula"@, "string"@)),
    }
}

pub fn object_to_formula(o: &JsObject) -> (r: Result<(Formula, bool), NodeXlsxError>)
    ensures
        crate::error::matches_spec(r, spec_object_to_formula(*o)),
{
    let formula = match o.get_string("formula") {
        Ok(f) => f,
        Err(e) => {
            return Err(e);
        },
    };
    let result = match o.get_opt_string("result") {
        Ok(x) => x,
        Err(e) => {
            return Err(e);
        },
    };
    let use_future_functions = match o.get_opt_bool("useFutureFunctions") {
        Ok(x) => x,
        Err(e) => {
            return Err(e);
        },
    };
    let use_table_functions = match o.get_opt_bool("useTableFunctions") {
        Ok(x) => x,
        Err(e) => {
            return Err(e);
        },
    };
    let dynamic = match o.get_opt_bool("dynamic") {
        Ok(x) => x,
        Err(e) => {
            return Err(e);
        },
    };
    let dynamic = match dynamic {
        Some(true) => true,
        _ => false,
    };
    Ok((Formula { formula, result, use_future_functions, use_table_functions }, dynamic))
}

/// The formula coercion of an arbitrary host value: only a structured
/// object is accepted.
pub open spec fn spec_formula_coercion(v: JsValue) -> Result<(Formula, bool), Seq<char>> {
    match v {
        JsValue::Object(o) => spec_object_to_formula(o),
        _ => Err("Value cannot be converted to formula: "@ + v.spec_repr()),
    }
}

pub fn any_to_formula(v: &JsValue) -> (r: Result<(Formula, bool), NodeXlsxError>)
    ensures
        crate::error::matches_spec(r, spec_formula_coercion(*v)),
{
    match v {
        JsValue::Object(o) => object_to_formula(o),
        _ => {
            let rep = v.repr();
            Err(
                NodeXlsxError::new(
                    concat2("Value cannot be converted to formula: ", rep.as_str()),
                ),
            )
        },
    }
}

/// The date coercion of an arbitrary host value: only a host date value is
/// accepted; its timestamp decodes through the epoch fallback.
pub open spec fn spec_date_coercion(v: JsValue) -> Result<i64, Seq<char>> {
    match v {
        JsValue::Date(n) => Ok(ms_or_epoch(n.int)),
        _ => Err("Value cannot be converted to date: "@ + v.spec_repr()),
    }
}

pub fn any_to_naive_date_time(v: &JsValue) -> (r: Result<i64, NodeXlsxError>)
    ensures
        crate::error::matches_spec(r, spec_date_coercion(*v)),
{
    match v {
        JsValue::Date(n) => Ok(js_date_to_naive_date_time(n)),
        _ => {
            let rep = v.repr();
            Err(NodeXlsxError::new(concat2("Value cannot be converted to date: ", rep.as_str())))
        },
    }
}

} // verus!
