use vstd::prelude::*;
use vstd::string::StringExecFns;
use crate::error::NodeXlsxError;
use crate::format::Format;
use crate::ops::SheetOp;
use crate::registry::{
    Registry, format_step_rel, opt_format_ref, spec_fresh_format_err, spec_opt_format_id,
};
use crate::text::{concat2, keyword_matches, matches_keyword};
use crate::util::spec_opt_bool;
use crate::value::{JsNumber, JsObject, JsValue, missing_prop_msg};

verus! {

/// The unit of a row height or column width.
#[derive(Debug, Clone, Copy)]
pub enum SizeType {
    AUTO,
    PX,
}

/// Which axis a configuration applies to.
#[derive(Debug, Clone, Copy)]
pub enum Type {
    ROW,
    COLUMN,
}

/// A row height or column width: the host number plus its unit.
#[derive(Debug)]
pub struct SizeConfig {
    pub value: JsNumber,
    pub unit: SizeType,
}

impl SizeConfig {
    /// The size a host object decodes to: a required numeric `value` and
    /// an optional case-insensitive `unit` keyword, `auto` when absent.
    pub open spec fn spec_from_js_object(o: JsObject) -> Result<SizeConfig, Seq<char>> {
        match o.spec_get("value"@) {
            JsValue::Number(n) => match o.spec_get("unit"@) {
                JsValue::Undefined => Ok(SizeConfig { value: n, unit: SizeType::AUTO }),
                JsValue::Str(s) => if keyword_matches(s.text@, "auto"@) {
                    Ok(SizeConfig { value: n, unit: SizeType::AUTO })
                } else if keyword_matches(s.text@, "px"@) {
                    Ok(SizeConfig { value: n, unit: SizeType::PX })
                } else {
                    Err("Invalid sizeType: "@ + s.text@)
                },
                _ => Err(missing_prop_msg("unit"@, "string"@)),
            },
            _ => Err(missing_prop_msg("value"@, "number"@)),
        }
    }

    pub fn from_js_object(o: &JsObject) -> (r: Result<SizeConfig, NodeXlsxError>)
        ensures
            crate::error::matches_spec(r, SizeConfig::spec_from_js_object(*o)),
    {
        let value = match o.get_number("value") {
            Ok(n) => n,
            Err(e) => {
                return Err(e);
            },
        };
        let unit = match o.get_opt_string("unit") {
            Ok(Some(s)) => if matches_keyword(s.as_str(), "auto") {
                SizeType::AUTO
            } else if matches_keyword(s.as_str(), "px") {
                SizeType::PX
            } else {
                return Err(NodeXlsxError::new(concat2("Invalid sizeType: ", s.as_str())));
            },
            Ok(Option::None) => SizeType::AUTO,
            Err(e) => {
                return Err(e);
            },
        };
        Ok(SizeConfig { value, unit })
    }
}

/// A configuration object that decodes whatever the registry holds.
pub open spec fn config_clean(v: crate::value::JsValue, config_type: Type) -> bool {
    v matches crate::value::JsValue::Object(co) && RowColumnConfig::spec_inner(
        co,
        config_type,
    ) is Ok && crate::registry::format_payload_clean(co, "format"@)
}

/// One row or column configuration: index, optional size, optional
/// format reference, optional hidden flag.
#[derive(Debug)]
pub struct RowColumnConfig {
    pub index: u32,
    pub config_type: Type,
    pub size: Option<SizeConfig>,
    pub format: Option<u32>,
    pub hidden: Option<bool>,
}

impl RowColumnConfig {
    /// The configuration a host object decodes to, its axis given by the
    /// caller.
    pub open spec fn spec_inner(o: JsObject, config_type: Type) -> Result<
        RowColumnConfig,
        Seq<char>,
    > {
        let index = match o.spec_get("index"@) {
            JsValue::Number(n) => Ok(n.spec_u32()),
            _ => Err(missing_prop_msg("index"@, "number"@)),
        };
        let size = match o.spec_get("size"@) {
            JsValue::Undefined => Ok(Option::None),
            JsValue::Object(so) => match SizeConfig::spec_from_js_object(so) {
                Ok(s) => Ok(Option::Some(s)),
                Err(m) => Err(m),
            },
            _ => Err(missing_prop_msg("size"@, "object"@)),
        };
        let format = spec_opt_format_id(o, "format"@);
        let hidden = spec_opt_bool(o, "hidden"@);
        if index is Err {
            Err(index->Err_0)
        } else if size is Err {
            Err(size->Err_0)
        } else if hidden is Err {
            Err(hidden->Err_0)
        } else if format is Err {
            Err(format->Err_0)
        } else {
            Ok(
                RowColumnConfig {
                    index: index->Ok_0,
                    config_type,
                    size: size->Ok_0,
                    format: format->Ok_0,
                    hidden: hidden->Ok_0,
                },
            )
        }
    }

    /// The configuration wrapped failure: any inner failure names the
    /// whole configuration object.
    pub open spec fn spec_wrapped_err(o: JsObject, m: Seq<char>) -> Seq<char> {
        "Error parsing RowColumnConfig: "@ + o.spec_repr() + " with error:\n  "@ + m
    }

    fn inner_from_js_object(
        o: &JsObject,
        config_type: Type,
        format_map: &mut Registry<Format>,
    ) -> (r: Result<RowColumnConfig, NodeXlsxError>)
        ensures
            match r {
                Ok(c) => RowColumnConfig::spec_inner(*o, config_type) == Ok::<
                    RowColumnConfig,
                    Seq<char>,
                >(c) && format_step_rel(
                    *o,
                    "format"@,
                    old(format_map).entries@,
                    final(format_map).entries@,
                ),
                Err(e) => final(format_map).entries@ == old(format_map).entries@ && match RowColumnConfig::spec_inner(
                    *o,
                    config_type,
                ) {
                    Err(m) => e.message@ == m,
                    Ok(_) => spec_fresh_format_err(*o, "format"@, old(format_map).entries@)
                        matches Some(m) && e.message@ == m,
                },
            },
            old(format_map).wf() ==> final(format_map).wf(),
    {
        let index = match o.get_number("index") {
            Ok(n) => n.as_u32(),
            Err(e) => {
                return Err(e);
            },
        };
        let size = match o.get_opt_object("size") {
            Ok(Some(so)) => match SizeConfig::from_js_object(so) {
                Ok(s) => Some(s),
                Err(e) => {
                    return Err(e);
                },
            },
            Ok(Option::None) => Option::None,
            Err(e) => {
                return Err(e);
            },
        };
        let hidden = match o.get_opt_bool("hidden") {
            Ok(x) => x,
            Err(e) => {
                return Err(e);
            },
        };
        let format = match opt_format_ref(o, "format", format_map) {
            Ok(f) => f,
            Err(e) => {
                return Err(e);
            },
        };
        Ok(RowColumnConfig { index, config_type, size, format, hidden })
    }

    /// Decodes a configuration object; any failure is wrapped with the
    /// rendering of the whole object for diagnosability.
    pub fn from_js_object(
        o: &JsObject,
        config_type: Type,
        format_map: &mut Registry<Format>,
    ) -> (r: Result<RowColumnConfig, NodeXlsxError>)
        ensures
            match r {
                Ok(c) => RowColumnConfig::spec_inner(*o, config_type) == Ok::<
                    RowColumnConfig,
                    Seq<char>,
                >(c) && format_step_rel(
                    *o,
                    "format"@,
                    old(format_map).entries@,
                    final(format_map).entries@,
                ),
                Err(e) => final(format_map).entries@ == old(format_map).entries@ && match RowColumnConfig::spec_inner(
                    *o,
                    config_type,
                ) {
                    Err(m) => e.message@ == RowColumnConfig::spec_wrapped_err(*o, m),
                    Ok(_) => spec_fresh_format_err(*o, "format"@, old(format_map).entries@)
                        matches Some(m) && e.message@ == RowColumnConfig::spec_wrapped_err(*o, m),
                },
            },
            old(format_map).wf() ==> final(format_map).wf(),
    {
        match RowColumnConfig::inner_from_js_object(o, config_type, format_map) {
            Ok(c) => Ok(c),
            Err(e) => {
                let rep = o.repr();
                let mut msg = concat2("Error parsing RowColumnConfig: ", rep.as_str());
                msg.append(" with error:\n  ");
                msg.append(e.message.as_str());
                Err(NodeXlsxError::new(msg))
            },
        }
    }


    /// Decodes a whole list of configuration objects for one axis; an
    /// empty list always decodes.
    pub fn from_js_array(
        arr: &Vec<crate::value::JsValue>,
        config_type: Type,
        format_map: &mut Registry<Format>,
    ) -> (r: Result<Vec<RowColumnConfig>, NodeXlsxError>)
        ensures
            old(format_map).wf() ==> final(format_map).wf(),
            r matches Ok(v) ==> v@.len() == arr@.len() && (forall|i: int|
                0 <= i < arr@.len() ==> ((#[trigger] arr@[i]) matches crate::value::JsValue::Object(
                    co,
                ) && RowColumnConfig::spec_inner(co, config_type) == Ok::<
                    RowColumnConfig,
                    Seq<char>,
                >(v@[i]))),
            arr@.len() == 0 ==> r is Ok,
            (forall|i: int|
                0 <= i < arr@.len() ==> config_clean(#[trigger] arr@[i], config_type)) ==> r is Ok,
    {
        let mut out: Vec<RowColumnConfig> = Vec::new();
        let n = arr.len();
        let mut i: usize = 0;
        while i < n
            invariant
                i <= n,
                n == arr@.len(),
                out@.len() == i,
                format_map.wf() || !old(format_map).wf(),
                forall|j: int|
                    0 <= j < i ==> ((#[trigger] arr@[j]) matches crate::value::JsValue::Object(co)
                        && RowColumnConfig::spec_inner(co, config_type) == Ok::<
                        RowColumnConfig,
                        Seq<char>,
                    >(out@[j])),
            decreases n - i,
        {
            match &arr[i] {
                crate::value::JsValue::Object(co) => {
                    match RowColumnConfig::from_js_object(co, config_type, format_map) {
                        Ok(cfg) => {
                            out.push(cfg);
                        },
                        Err(e) => {
                            return Err(e);
                        },
                    }
                },
                _ => {
                    return Err(
                        NodeXlsxError::new(
                            crate::value::prop_error("configs", "array of objects"),
                        ),
                    );
                },
            }
            i = i + 1;
        }
        Ok(out)
    }

    /// The encoder calls one configuration compiles to, in application
    /// order: the size, then the format, then hiding.
    pub open spec fn spec_ops(&self) -> Seq<SheetOp> {
        let size_ops: Seq<SheetOp> = match self.size {
            Some(s) => seq![
                match (self.config_type, s.unit) {
                    (Type::ROW, SizeType::AUTO) => SheetOp::SetRowHeight {
                        row: self.index,
                        height: s.value.bits,
                    },
                    (Type::ROW, SizeType::PX) => SheetOp::SetRowHeightPixels {
                        row: self.index,
                        height: s.value.spec_u16(),
                    },
                    (Type::COLUMN, SizeType::AUTO) => SheetOp::SetColumnWidth {
                        col: self.index as u16,
                        width: s.value.bits,
                    },
                    (Type::COLUMN, SizeType::PX) => SheetOp::SetColumnWidthPixels {
                        col: self.index as u16,
                        width: s.value.spec_u16(),
                    },
                },
            ],
            Option::None => Seq::<SheetOp>::empty(),
        };
        let format_ops: Seq<SheetOp> = match self.format {
            Some(f) => seq![
                match self.config_type {
                    Type::ROW => SheetOp::SetRowFormat { row: self.index, format: f },
                    Type::COLUMN => SheetOp::SetColumnFormat { col: self.index as u16, format: f },
                },
            ],
            Option::None => Seq::<SheetOp>::empty(),
        };
        let hidden_ops: Seq<SheetOp> = if self.hidden == Some(true) {
            seq![
                match self.config_type {
                    Type::ROW => SheetOp::SetRowHidden { row: self.index },
                    Type::COLUMN => SheetOp::SetColumnHidden { col: self.index as u16 },
                },
            ]
        } else {
            Seq::<SheetOp>::empty()
        };
        size_ops + format_ops + hidden_ops
    }

    /// Appends the configuration's encoder calls to the assembly script.
    pub fn write_to_sheet(&self, ops: &mut Vec<SheetOp>)
        ensures
            final(ops)@ == old(ops)@ + self.spec_ops(),
    {
        let ghost base = ops@;
        match &self.size {
            Some(s) => {
                let op = match (self.config_type, s.unit) {
                    (Type::ROW, SizeType::AUTO) => SheetOp::SetRowHeight {
                        row: self.index,
                        height: s.value.bits,
                    },
                    (Type::ROW, SizeType::PX) => SheetOp::SetRowHeightPixels {
                        row: self.index,
                        height: s.value.as_u16(),
                    },
                    (Type::COLUMN, SizeType::AUTO) => SheetOp::SetColumnWidth {
                        col: #[verifier::truncate] (self.index as u16),
                        width: s.value.bits,
                    },
                    (Type::COLUMN, SizeType::PX) => SheetOp::SetColumnWidthPixels {
                        col: #[verifier::truncate] (self.index as u16),
                        width: s.value.as_u16(),
                    },
                };
                ops.push(op);
            },
            Option::None => {},
        }
        match self.format {
            Some(f) => {
                let op = match self.config_type {
                    Type::ROW => SheetOp::SetRowFormat { row: self.index, format: f },
                    Type::COLUMN => SheetOp::SetColumnFormat {
                        col: #[verifier::truncate] (self.index as u16),
                        format: f,
                    },
                };
                ops.push(op);
            },
            Option::None => {},
        }
        match self.hidden {
            Some(true) => {
                let op = match self.config_type {
                    Type::ROW => SheetOp::SetRowHidden { row: self.index },
                    Type::COLUMN => SheetOp::SetColumnHidden {
                        col: #[verifier::truncate] (self.index as u16),
                    },
                };
                ops.push(op);
            },
            _ => {},
        }
        proof {
            assert(ops@ =~= base + self.spec_ops());
        }
    }
}

} // verus!
