use vstd::prelude::*;
use vstd::string::StringExecFns;
use crate::error::NodeXlsxError;
use crate::text::concat3;

verus! {

/// A numeric value of the dynamically-typed host input.
///
/// The library never performs host-number arithmetic itself: the caller
/// supplies, beside the opaque encoding of the number, the exact readings
/// that the translation layer consumes.
#[derive(Debug)]
pub struct JsNumber {
    /// The IEEE-754 encoding of the host number, carried through opaquely
    /// for values that reach the document encoder unchanged.
    pub bits: u64,
    /// The host number truncated toward zero and saturated to this range
    /// (the reading every index-like field uses).
    pub int: i64,
    /// Whether the host number is strictly negative.
    pub neg: bool,
    /// The host's own string rendering of the number.
    pub repr: String,
}

impl JsNumber {
    /// The number clamped into a byte, as index-like readings do.
    pub open spec fn spec_u8(&self) -> u8 {
        if self.int < 0 {
            0u8
        } else if self.int > 255 {
            255u8
        } else {
            self.int as u8
        }
    }

    /// The number clamped into an unsigned 16-bit value.
    pub open spec fn spec_u16(&self) -> u16 {
        if self.int < 0 {
            0u16
        } else if self.int > 65535 {
            65535u16
        } else {
            self.int as u16
        }
    }

    /// The number clamped into an unsigned 32-bit value.
    pub open spec fn spec_u32(&self) -> u32 {
        if self.int < 0 {
            0u32
        } else if self.int > u32::MAX {
            u32::MAX
        } else {
            self.int as u32
        }
    }

    pub fn as_u8(&self) -> (r: u8)
        ensures
            r == self.spec_u8(),
    {
        if self.int < 0 {
            0
        } else if self.int > 255 {
            255
        } else {
            self.int as u8
        }
    }

    pub fn as_u16(&self) -> (r: u16)
        ensures
            r == self.spec_u16(),
    {
        if self.int < 0 {
            0
        } else if self.int > 65535 {
            65535
        } else {
            self.int as u16
        }
    }

    pub fn as_u32(&self) -> (r: u32)
        ensures
            r == self.spec_u32(),
    {
        if self.int < 0 {
            0
        } else if self.int > 0xFFFF_FFFFi64 {
            u32::MAX
        } else {
            self.int as u32
        }
    }
}

impl Clone for JsNumber {
    fn clone(&self) -> (r: Self)
        ensures
            r == *self,
    {
        JsNumber { bits: self.bits, int: self.int, neg: self.neg, repr: self.repr.clone() }
    }
}

/// A string value of the host input, together with the host's numeric
/// reading of it (the number the text parses to, if any).
#[derive(Debug)]
pub struct JsStr {
    pub text: String,
    pub number: Option<JsNumber>,
}

/// A dynamically-typed host value: the single input shape of the library.
#[derive(Debug)]
pub enum JsValue {
    Null,
    Undefined,
    Bool(bool),
    Number(JsNumber),
    Str(JsStr),
    /// A host date value, given as its milliseconds-since-epoch number.
    Date(JsNumber),
    Array(Vec<JsValue>),
    Object(JsObject),
    /// Any other host value, given as its host string rendering.
    Other(String),
}

impl JsValue {
    /// The rendering of a host value that failure messages embed, so that a
    /// decode error names the offending value.
    pub open spec fn spec_repr(&self) -> Seq<char>
        decreases self,
    {
        match self {
            JsValue::Null => "null"@,
            JsValue::Undefined => "undefined"@,
            JsValue::Bool(b) => if *b {
                "true"@
            } else {
                "false"@
            },
            JsValue::Number(n) => n.repr@,
            JsValue::Str(s) => "\""@ + s.text@ + "\""@,
            JsValue::Date(n) => "Date("@ + n.repr@ + ")"@,
            JsValue::Array(items) => "["@ + JsValue::list_repr(items@) + "]"@,
            JsValue::Object(o) => "{"@ + JsValue::entries_repr(o.entries@) + "}"@,
            JsValue::Other(s) => s@,
        }
    }

    pub open spec fn list_repr(items: Seq<JsValue>) -> Seq<char>
        decreases items,
    {
        if items.len() == 0 {
            Seq::<char>::empty()
        } else {
            JsValue::list_repr(items.drop_last()) + (if items.len() == 1 {
                Seq::<char>::empty()
            } else {
                ", "@
            }) + items[items.len() - 1].spec_repr()
        }
    }

    pub open spec fn entries_repr(entries: Seq<(String, JsValue)>) -> Seq<char>
        decreases entries,
    {
        if entries.len() == 0 {
            Seq::<char>::empty()
        } else {
            JsValue::entries_repr(entries.drop_last()) + (if entries.len() == 1 {
                Seq::<char>::empty()
            } else {
                ", "@
            }) + entries[entries.len() - 1].0@ + ": "@ + entries[entries.len() - 1].1.spec_repr()
        }
    }

    /// Renders the value for use in failure messages.
    pub fn repr(&self) -> (r: String)
        ensures
            r@ == self.spec_repr(),
        decreases *self,
    {
        match self {
            JsValue::Null => "null".to_owned(),
            JsValue::Undefined => "undefined".to_owned(),
            JsValue::Bool(b) => if *b {
                "true".to_owned()
            } else {
                "false".to_owned()
            },
            JsValue::Number(n) => n.repr.clone(),
            JsValue::Str(s) => concat3("\"", s.text.as_str(), "\""),
            JsValue::Date(n) => concat3("Date(", n.repr.as_str(), ")"),
            JsValue::Array(items) => {
                let mut out = "[".to_owned();
                let n = items.len();
                let mut i: usize = 0;
                while i < n
                    invariant
                        i <= n,
                        n == items@.len(),
                        *self == JsValue::Array(*items),
                        out@ == "["@ + JsValue::list_repr(items@.take(i as int)),
                    decreases n - i,
                {
                    if i > 0 {
                        out.append(", ");
                    }
                    proof {
                        assert(decreases_to!(*self => self->Array_0));
                        assert(self->Array_0 == *items);
                        assert(decreases_to!(*items => items@));
                        assert(decreases_to!(items@ => items@[i as int]));
                        assert(decreases_to!(*self => items@[i as int]));
                    }
                    let piece = items[i].repr();
                    out.append(piece.as_str());
                    proof {
                        assert(items@.take(i as int + 1).drop_last() =~= items@.take(i as int));
                        assert(items@.take(i as int + 1)[items@.take(i as int + 1).len() - 1]
                            == items@[i as int]);
                    }
                    i = i + 1;
                }
                proof {
                    assert(items@.take(n as int) =~= items@);
                }
                out.append("]");
                out
            },
            JsValue::Object(o) => {
                proof {
                    assert(decreases_to!(*self => self->Object_0));
                    assert(self->Object_0 == *o);
                }
                o.repr()
            },
            JsValue::Other(s) => s.clone(),
        }
    }
}

/// A dynamically-typed host object: ordered properties with unique names.
#[derive(Debug)]
pub struct JsObject {
    pub entries: Vec<(String, JsValue)>,
}

impl JsObject {
    /// The rendering of the object that failure messages embed.
    pub open spec fn spec_repr(&self) -> Seq<char> {
        "{"@ + JsValue::entries_repr(self.entries@) + "}"@
    }

    /// Renders the object for use in failure messages.
    pub fn repr(&self) -> (r: String)
        ensures
            r@ == self.spec_repr(),
        decreases *self,
    {
        let mut out = "{".to_owned();
        let n = self.entries.len();
        let mut i: usize = 0;
        while i < n
            invariant
                i <= n,
                n == self.entries@.len(),
                out@ == "{"@ + JsValue::entries_repr(self.entries@.take(i as int)),
            decreases n - i,
        {
            if i > 0 {
                out.append(", ");
            }
            out.append(self.entries[i].0.as_str());
            out.append(": ");
            proof {
                assert(decreases_to!(*self => self.entries));
                assert(decreases_to!(self.entries => self.entries@));
                assert(decreases_to!(self.entries@ => self.entries@[i as int]));
                assert(decreases_to!(self.entries@[i as int] => self.entries@[i as int].1));
                assert(decreases_to!(*self => self.entries@[i as int].1));
            }
            let piece = self.entries[i].1.repr();
            out.append(piece.as_str());
            proof {
                assert(self.entries@.take(i as int + 1).drop_last() =~= self.entries@.take(
                    i as int,
                ));
                assert(self.entries@.take(i as int + 1)[self.entries@.take(i as int + 1).len()
                    - 1] == self.entries@[i as int]);
            }
            i = i + 1;
        }
        proof {
            assert(self.entries@.take(n as int) =~= self.entries@);
        }
        out.append("}");
        out
    }

    /// The value of a property, `Undefined` when the property is absent.
    pub open spec fn spec_get(&self, key: Seq<char>) -> JsValue {
        JsObject::seq_get(self.entries@, key)
    }

    pub open spec fn seq_get(entries: Seq<(String, JsValue)>, key: Seq<char>) -> JsValue
        decreases entries.len(),
    {
        if entries.len() == 0 {
            JsValue::Undefined
        } else if entries[0].0@ == key {
            entries[0].1
        } else {
            JsObject::seq_get(entries.drop_first(), key)
        }
    }

    /// Looks a property up; `None` when no property of that name exists.
    pub fn lookup<'a>(&'a self, key: &str) -> (r: Option<&'a JsValue>)
        ensures
            match r {
                Some(v) => self.spec_get(key@) == *v,
                None => self.spec_get(key@) == JsValue::Undefined,
            },
    {
        let n = self.entries.len();
        proof {
            assert(self.entries@.skip(0) =~= self.entries@);
        }
        let mut i: usize = 0;
        while i < n
            invariant
                i <= n,
                n == self.entries@.len(),
                JsObject::seq_get(self.entries@.skip(i as int), key@) == self.spec_get(key@),
            decreases n - i,
        {
            proof {
                assert(self.entries@.skip(i as int).len() > 0);
                assert(self.entries@.skip(i as int)[0] == self.entries@[i as int]);
                assert(self.entries@.skip(i as int).drop_first() =~= self.entries@.skip(
                    i as int + 1,
                ));
            }
            if crate::text::str_eq(self.entries[i].0.as_str(), key) {
                return Some(&self.entries[i].1);
            }
            i = i + 1;
        }
        proof {
            assert(self.entries@.skip(n as int) =~= Seq::<(String, JsValue)>::empty());
        }
        None
    }

    /// A required string property; anything else is a shape error.
    pub fn get_string(&self, key: &str) -> (r: Result<String, NodeXlsxError>)
        ensures
            match r {
                Ok(s) => self.spec_get(key@) matches JsValue::Str(js) && js.text == s,
                Err(e) => !(self.spec_get(key@) is Str) && e.message@ == missing_prop_msg(
                    key@,
                    "string"@,
                ),
            },
    {
        match self.lookup(key) {
            Some(JsValue::Str(js)) => Ok(js.text.clone()),
            _ => Err(NodeXlsxError::new(prop_error(key, "string"))),
        }
    }

    /// An optional string property: absent or undefined reads as `None`.
    pub fn get_opt_string(&self, key: &str) -> (r: Result<Option<String>, NodeXlsxError>)
        ensures
            match r {
                Ok(o) => match o {
                    Some(s) => self.spec_get(key@) matches JsValue::Str(js) && js.text == s,
                    None => self.spec_get(key@) is Undefined,
                },
                Err(e) => !(self.spec_get(key@) is Str) && !(self.spec_get(key@) is Undefined)
                    && e.message@ == missing_prop_msg(key@, "string"@),
            },
    {
        match self.lookup(key) {
            None => Ok(None),
            Some(JsValue::Undefined) => Ok(None),
            Some(JsValue::Str(js)) => Ok(Some(js.text.clone())),
            _ => Err(NodeXlsxError::new(prop_error(key, "string"))),
        }
    }

    /// A required boolean property.
    pub fn get_bool(&self, key: &str) -> (r: Result<bool, NodeXlsxError>)
        ensures
            match r {
                Ok(b) => self.spec_get(key@) == JsValue::Bool(b),
                Err(e) => !(self.spec_get(key@) is Bool) && e.message@ == missing_prop_msg(
                    key@,
                    "boolean"@,
                ),
            },
    {
        match self.lookup(key) {
            Some(JsValue::Bool(b)) => Ok(*b),
            _ => Err(NodeXlsxError::new(prop_error(key, "boolean"))),
        }
    }

    /// An optional boolean property.
    pub fn get_opt_bool(&self, key: &str) -> (r: Result<Option<bool>, NodeXlsxError>)
        ensures
            match r {
                Ok(o) => match o {
                    Some(b) => self.spec_get(key@) == JsValue::Bool(b),
                    None => self.spec_get(key@) is Undefined,
                },
                Err(e) => !(self.spec_get(key@) is Bool) && !(self.spec_get(key@) is Undefined)
                    && e.message@ == missing_prop_msg(key@, "boolean"@),
            },
    {
        match self.lookup(key) {
            None => Ok(None),
            Some(JsValue::Undefined) => Ok(None),
            Some(JsValue::Bool(b)) => Ok(Some(*b)),
            _ => Err(NodeXlsxError::new(prop_error(key, "boolean"))),
        }
    }

    /// A required numeric property.
    pub fn get_number(&self, key: &str) -> (r: Result<JsNumber, NodeXlsxError>)
        ensures
            match r {
                Ok(n) => self.spec_get(key@) == JsValue::Number(n),
                Err(e) => !(self.spec_get(key@) is Number) && e.message@ == missing_prop_msg(
                    key@,
                    "number"@,
                ),
            },
    {
        match self.lookup(key) {
            Some(JsValue::Number(n)) => Ok(n.clone()),
            _ => Err(NodeXlsxError::new(prop_error(key, "number"))),
        }
    }

    /// An optional numeric property.
    pub fn get_opt_number(&self, key: &str) -> (r: Result<Option<JsNumber>, NodeXlsxError>)
        ensures
            match r {
                Ok(o) => match o {
                    Some(n) => self.spec_get(key@) == JsValue::Number(n),
                    None => self.spec_get(key@) is Undefined,
                },
                Err(e) => !(self.spec_get(key@) is Number) && !(self.spec_get(key@) is Undefined)
                    && e.message@ == missing_prop_msg(key@, "number"@),
            },
    {
        match self.lookup(key) {
            None => Ok(None),
            Some(JsValue::Undefined) => Ok(None),
            Some(JsValue::Number(n)) => Ok(Some(n.clone())),
            _ => Err(NodeXlsxError::new(prop_error(key, "number"))),
        }
    }

    /// A required object-valued property, borrowed.
    pub fn get_object<'a>(&'a self, key: &str) -> (r: Result<&'a JsObject, NodeXlsxError>)
        ensures
            match r {
                Ok(o) => self.spec_get(key@) == JsValue::Object(*o),
                Err(e) => !(self.spec_get(key@) is Object) && e.message@ == missing_prop_msg(
                    key@,
                    "object"@,
                ),
            },
    {
        match self.lookup(key) {
            Some(JsValue::Object(o)) => Ok(o),
            _ => Err(NodeXlsxError::new(prop_error(key, "object"))),
        }
    }

    /// An optional object-valued property, borrowed.
    pub fn get_opt_object<'a>(&'a self, key: &str) -> (r: Result<
        Option<&'a JsObject>,
        NodeXlsxError,
    >)
        ensures
            match r {
                Ok(o) => match o {
                    Some(obj) => self.spec_get(key@) == JsValue::Object(*obj),
                    None => self.spec_get(key@) is Undefined,
                },
                Err(e) => !(self.spec_get(key@) is Object) && !(self.spec_get(key@) is Undefined)
                    && e.message@ == missing_prop_msg(key@, "object"@),
            },
    {
        match self.lookup(key) {
            None => Ok(None),
            Some(JsValue::Undefined) => Ok(None),
            Some(JsValue::Object(o)) => Ok(Some(o)),
            _ => Err(NodeXlsxError::new(prop_error(key, "object"))),
        }
    }

    /// A required array-valued property, borrowed.
    pub fn get_array<'a>(&'a self, key: &str) -> (r: Result<&'a Vec<JsValue>, NodeXlsxError>)
        ensures
            match r {
                Ok(a) => self.spec_get(key@) == JsValue::Array(*a),
                Err(e) => !(self.spec_get(key@) is Array) && e.message@ == missing_prop_msg(
                    key@,
                    "array"@,
                ),
            },
    {
        match self.lookup(key) {
            Some(JsValue::Array(a)) => Ok(a),
            _ => Err(NodeXlsxError::new(prop_error(key, "array"))),
        }
    }
}

/// The message of a shape error for a property that is missing or has the
/// wrong dynamic type.
pub open spec fn missing_prop_msg(key: Seq<char>, kind: Seq<char>) -> Seq<char> {
    "expected a "@ + kind + " at property '"@ + key + "'"@
}

pub fn prop_error(key: &str, kind: &str) -> (r: String)
    ensures
        r@ == missing_prop_msg(key@, kind@),
{
    let mut s = crate::text::concat2("expected a ", kind);
    s.append(" at property '");
    s.append(key);
    s.append("'");
    s
}

} // verus!
