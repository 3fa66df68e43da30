use vstd::prelude::*;
use crate::cell::{decode_col_prop, decode_row_prop, spec_decode_col_prop, spec_decode_row_prop};
use crate::conditional_format::average::Average;
use crate::conditional_format::blank::Blank;
use crate::conditional_format::c_type::NodeXlsxConditionalFormatType;
use crate::conditional_format::cell::Cell;
use crate::conditional_format::data_bar::DataBar;
use crate::conditional_format::date::Date;
use crate::conditional_format::duplicate::Duplicate;
use crate::conditional_format::error::Error;
use crate::conditional_format::formula::FormulaFormat;
use crate::conditional_format::icon::Icon;
use crate::conditional_format::scale::{ThreeColorScale, TwoColorScale};
use crate::conditional_format::text::Text;
use crate::conditional_format::top::Top;
use crate::error::NodeXlsxError;
use crate::format::Format;
use crate::ops::SheetOp;
use crate::registry::{Registry, has_id, lemma_format_step_prefix, lemma_has_id_prefix, lemma_prefix_refl, lemma_push_prefix};
use crate::text::{concat2, str_eq};
use crate::value::{JsObject, JsValue, missing_prop_msg};

verus! {

/// A conditional-format placement: a bounds-checked rectangular range
/// plus the id of the rule variant registered for it.
#[derive(Debug)]
pub struct ConditionalFormatSheetValue {
    pub first_row: u32,
    pub last_row: u32,
    pub first_column: u16,
    pub last_column: u16,
    pub format: u32,
}

/// Whether a rule keyword names one of the twelve rule kinds.
pub open spec fn spec_cf_kind_known(t: Seq<char>) -> bool {
    ||| t == "twoColorScale"@
    ||| t == "threeColorScale"@
    ||| t == "average"@
    ||| t == "blank"@
    ||| t == "cell"@
    ||| t == "dataBar"@
    ||| t == "date"@
    ||| t == "duplicate"@
    ||| t == "error"@
    ||| t == "formula"@
    ||| t == "iconSet"@
    ||| t == "text"@
    ||| t == "top"@
}

/// A placement that decodes whatever the registries hold: in-bounds
/// coordinates and a tagged payload whose kind decodes with any format
/// payload decoding on its own.
pub open spec fn spec_cfv_clean(o: JsObject) -> bool {
    &&& spec_decode_row_prop(o, "firstRow"@) is Ok
    &&& spec_decode_row_prop(o, "lastRow"@) is Ok
    &&& spec_decode_col_prop(o, "firstColumn"@) is Ok
    &&& spec_decode_col_prop(o, "lastColumn"@) is Ok
    &&& o.spec_get("format"@) matches JsValue::Object(fo) && {
        &&& fo.spec_get("id"@) is Number
        &&& fo.spec_get("type"@) matches JsValue::Str(t) && {
            if t.text@ == "twoColorScale"@ {
                TwoColorScale::spec_from_js_object(fo) is Ok
            } else if t.text@ == "threeColorScale"@ {
                ThreeColorScale::spec_from_js_object(fo) is Ok
            } else if t.text@ == "average"@ {
                Average::spec_from_js_object(fo) is Ok && crate::registry::format_payload_clean(
                    fo,
                    "format"@,
                )
            } else if t.text@ == "blank"@ {
                Blank::spec_from_js_object(fo) is Ok && crate::registry::format_payload_clean(
                    fo,
                    "format"@,
                )
            } else if t.text@ == "cell"@ {
                Cell::spec_from_js_object(fo) is Ok && crate::registry::format_payload_clean(
                    fo,
                    "format"@,
                )
            } else if t.text@ == "dataBar"@ {
                DataBar::spec_from_js_value(fo) is Ok
            } else if t.text@ == "date"@ {
                Date::spec_from_js_object(fo) is Ok && crate::registry::format_payload_clean(
                    fo,
                    "format"@,
                )
            } else if t.text@ == "duplicate"@ {
                Duplicate::spec_from_js_object(fo) is Ok && crate::registry::format_payload_clean(
                    fo,
                    "format"@,
                )
            } else if t.text@ == "error"@ {
                Error::spec_from_js_object(fo) is Ok && crate::registry::format_payload_clean(
                    fo,
                    "format"@,
                )
            } else if t.text@ == "formula"@ {
                FormulaFormat::spec_from_js_object(fo) is Ok
                    && crate::registry::format_payload_clean(fo, "format"@)
            } else if t.text@ == "iconSet"@ {
                crate::conditional_format::icon::spec_icon_err(fo) is None
            } else if t.text@ == "text"@ {
                Text::spec_from_js_object(fo) is Ok && crate::registry::format_payload_clean(
                    fo,
                    "format"@,
                )
            } else if t.text@ == "top"@ {
                Top::spec_from_js_object(fo) is Ok && crate::registry::format_payload_clean(
                    fo,
                    "format"@,
                )
            } else {
                false
            }
        }
    }
}


/// The failure one kind registration produces, if any: the payload needs
/// a numeric `id`; under an already-registered id the payload is ignored
/// unread and nothing fails; under a fresh id the kind must decode, and a
/// kind that resolves a format must carry a decodable format payload.
pub open spec fn kind_create_err<T>(
    fo: JsObject,
    decoded: Result<T, Seq<char>>,
    uses_format_map: bool,
    cmap0: Seq<(u32, NodeXlsxConditionalFormatType)>,
    fmap0: Seq<(u32, Format)>,
) -> Option<Seq<char>> {
    match fo.spec_get("id"@) {
        JsValue::Number(n) => if has_id(cmap0, n.spec_u32()) {
            Option::None
        } else {
            match decoded {
                Err(m) => Option::Some(m),
                Ok(_) => if uses_format_map {
                    crate::registry::spec_fresh_format_err(fo, "format"@, fmap0)
                } else {
                    Option::None
                },
            }
        },
        _ => Option::Some(missing_prop_msg("id"@, "number"@)),
    }
}

/// The decode outcome of an icon-set payload, folded into a result so
/// that it fits the shared registration-failure shape.
pub open spec fn icon_decode_result(fo: JsObject) -> Result<int, Seq<char>> {
    match crate::conditional_format::icon::spec_icon_err(fo) {
        Option::Some(m) => Err(m),
        Option::None => Ok(0),
    }
}

/// The first failure a placement object produces during decode, if any:
/// the four coordinates in read order, the payload's shape, then the
/// dispatched kind registration; an unrecognized rule-kind keyword fails
/// with an error naming it verbatim.
pub open spec fn spec_cfv_err(
    o: JsObject,
    cmap0: Seq<(u32, NodeXlsxConditionalFormatType)>,
    fmap0: Seq<(u32, Format)>,
) -> Option<Seq<char>> {
    if spec_decode_row_prop(o, "firstRow"@) is Err {
        Option::Some(spec_decode_row_prop(o, "firstRow"@)->Err_0)
    } else if spec_decode_row_prop(o, "lastRow"@) is Err {
        Option::Some(spec_decode_row_prop(o, "lastRow"@)->Err_0)
    } else if spec_decode_col_prop(o, "firstColumn"@) is Err {
        Option::Some(spec_decode_col_prop(o, "firstColumn"@)->Err_0)
    } else if spec_decode_col_prop(o, "lastColumn"@) is Err {
        Option::Some(spec_decode_col_prop(o, "lastColumn"@)->Err_0)
    } else {
        match o.spec_get("format"@) {
            JsValue::Object(fo) => match fo.spec_get("type"@) {
                JsValue::Str(t) => if t.text@ == "twoColorScale"@ {
                    kind_create_err(
                        fo,
                        TwoColorScale::spec_from_js_object(fo),
                        false,
                        cmap0,
                        fmap0,
                    )
                } else if t.text@ == "threeColorScale"@ {
                    kind_create_err(
                        fo,
                        ThreeColorScale::spec_from_js_object(fo),
                        false,
                        cmap0,
                        fmap0,
                    )
                } else if t.text@ == "average"@ {
                    kind_create_err(fo, Average::spec_from_js_object(fo), true, cmap0, fmap0)
                } else if t.text@ == "blank"@ {
                    kind_create_err(fo, Blank::spec_from_js_object(fo), true, cmap0, fmap0)
                } else if t.text@ == "cell"@ {
                    kind_create_err(fo, Cell::spec_from_js_object(fo), true, cmap0, fmap0)
                } else if t.text@ == "dataBar"@ {
                    kind_create_err(fo, DataBar::spec_from_js_value(fo), false, cmap0, fmap0)
                } else if t.text@ == "date"@ {
                    kind_create_err(fo, Date::spec_from_js_object(fo), true, cmap0, fmap0)
                } else if t.text@ == "duplicate"@ {
                    kind_create_err(fo, Duplicate::spec_from_js_object(fo), true, cmap0, fmap0)
                } else if t.text@ == "error"@ {
                    kind_create_err(fo, Error::spec_from_js_object(fo), true, cmap0, fmap0)
                } else if t.text@ == "formula"@ {
                    kind_create_err(
                        fo,
                        FormulaFormat::spec_from_js_object(fo),
                        true,
                        cmap0,
                        fmap0,
                    )
                } else if t.text@ == "iconSet"@ {
                    kind_create_err(fo, icon_decode_result(fo), false, cmap0, fmap0)
                } else if t.text@ == "text"@ {
                    kind_create_err(fo, Text::spec_from_js_object(fo), true, cmap0, fmap0)
                } else if t.text@ == "top"@ {
                    kind_create_err(fo, Top::spec_from_js_object(fo), true, cmap0, fmap0)
                } else {
                    Option::Some("Invalid ConditionalFormatType: "@ + t.text@)
                },
                _ => Option::Some(missing_prop_msg("type"@, "string"@)),
            },
            _ => Option::Some(missing_prop_msg("format"@, "object"@)),
        }
    }
}

/// What a fresh registration appends for each recognized keyword: the
/// variant of that kind decoded from the payload, stored under the
/// payload's id, with the format registry touched only by the kinds that
/// resolve a format reference.
pub open spec fn keyword_create_ok(
    fo: JsObject,
    t: Seq<char>,
    id: u32,
    cmap0: Seq<(u32, NodeXlsxConditionalFormatType)>,
    cmap1: Seq<(u32, NodeXlsxConditionalFormatType)>,
    fmap0: Seq<(u32, Format)>,
    fmap1: Seq<(u32, Format)>,
) -> bool {
    if t == "twoColorScale"@ {
        TwoColorScale::spec_from_js_object(fo) matches Ok(k) && cmap1 == cmap0.push(
            (id, NodeXlsxConditionalFormatType::TwoColorScale(k)),
        ) && fmap1 == fmap0
    } else if t == "threeColorScale"@ {
        ThreeColorScale::spec_from_js_object(fo) matches Ok(k) && cmap1 == cmap0.push(
            (id, NodeXlsxConditionalFormatType::ThreeColorScale(k)),
        ) && fmap1 == fmap0
    } else if t == "average"@ {
        Average::spec_from_js_object(fo) matches Ok(k) && cmap1 == cmap0.push(
            (id, NodeXlsxConditionalFormatType::Average(k)),
        ) && crate::registry::format_step_rel(fo, "format"@, fmap0, fmap1)
    } else if t == "blank"@ {
        Blank::spec_from_js_object(fo) matches Ok(k) && cmap1 == cmap0.push(
            (id, NodeXlsxConditionalFormatType::Blank(k)),
        ) && crate::registry::format_step_rel(fo, "format"@, fmap0, fmap1)
    } else if t == "cell"@ {
        Cell::spec_from_js_object(fo) matches Ok(k) && cmap1 == cmap0.push(
            (id, NodeXlsxConditionalFormatType::Cell(k)),
        ) && crate::registry::format_step_rel(fo, "format"@, fmap0, fmap1)
    } else if t == "dataBar"@ {
        DataBar::spec_from_js_value(fo) matches Ok(k) && cmap1 == cmap0.push(
            (id, NodeXlsxConditionalFormatType::DataBar(k)),
        ) && fmap1 == fmap0
    } else if t == "date"@ {
        Date::spec_from_js_object(fo) matches Ok(k) && cmap1 == cmap0.push(
            (id, NodeXlsxConditionalFormatType::Date(k)),
        ) && crate::registry::format_step_rel(fo, "format"@, fmap0, fmap1)
    } else if t == "duplicate"@ {
        Duplicate::spec_from_js_object(fo) matches Ok(k) && cmap1 == cmap0.push(
            (id, NodeXlsxConditionalFormatType::Duplicate(k)),
        ) && crate::registry::format_step_rel(fo, "format"@, fmap0, fmap1)
    } else if t == "error"@ {
        Error::spec_from_js_object(fo) matches Ok(k) && cmap1 == cmap0.push(
            (id, NodeXlsxConditionalFormatType::Error(k)),
        ) && crate::registry::format_step_rel(fo, "format"@, fmap0, fmap1)
    } else if t == "formula"@ {
        FormulaFormat::spec_from_js_object(fo) matches Ok(k) && cmap1 == cmap0.push(
            (id, NodeXlsxConditionalFormatType::Formula(k)),
        ) && crate::registry::format_step_rel(fo, "format"@, fmap0, fmap1)
    } else if t == "iconSet"@ {
        &&& crate::conditional_format::icon::spec_icon_err(fo) is None
        &&& cmap1.len() == cmap0.len() + 1
        &&& cmap1.take(cmap0.len() as int) == cmap0
        &&& cmap1.last().0 == id
        &&& cmap1.last().1 matches NodeXlsxConditionalFormatType::IconSet(k)
            && crate::conditional_format::icon::spec_icon_fields(fo, k)
        &&& fmap1 == fmap0
    } else if t == "text"@ {
        Text::spec_from_js_object(fo) matches Ok(k) && cmap1 == cmap0.push(
            (id, NodeXlsxConditionalFormatType::Text(k)),
        ) && crate::registry::format_step_rel(fo, "format"@, fmap0, fmap1)
    } else if t == "top"@ {
        Top::spec_from_js_object(fo) matches Ok(k) && cmap1 == cmap0.push(
            (id, NodeXlsxConditionalFormatType::Top(k)),
        ) && crate::registry::format_step_rel(fo, "format"@, fmap0, fmap1)
    } else {
        false
    }
}

impl ConditionalFormatSheetValue {
    /// Decodes a placement: four bounds-checked coordinates, then the
    /// tagged rule payload dispatched to the matching kind builder, which
    /// registers the variant under the payload's id with the first-wins
    /// policy.
    pub fn from_js_object(
        o: &JsObject,
        format_map: &mut Registry<Format>,
        conditional_format_map: &mut Registry<NodeXlsxConditionalFormatType>,
    ) -> (r: Result<ConditionalFormatSheetValue, NodeXlsxError>)
        ensures
            old(format_map).entries@.is_prefix_of(final(format_map).entries@),
            old(format_map).wf() ==> final(format_map).wf(),
            old(conditional_format_map).entries@.is_prefix_of(
                final(conditional_format_map).entries@,
            ),
            old(conditional_format_map).wf() ==> final(conditional_format_map).wf(),
            r matches Ok(v) ==> {
                &&& spec_decode_row_prop(*o, "firstRow"@) == Ok::<u32, Seq<char>>(v.first_row)
                &&& spec_decode_row_prop(*o, "lastRow"@) == Ok::<u32, Seq<char>>(v.last_row)
                &&& spec_decode_col_prop(*o, "firstColumn"@) == Ok::<u16, Seq<char>>(
                    v.first_column,
                )
                &&& spec_decode_col_prop(*o, "lastColumn"@) == Ok::<u16, Seq<char>>(v.last_column)
                &&& o.spec_get("format"@) matches JsValue::Object(fo) && {
                    &&& fo.spec_get("type"@) matches JsValue::Str(t) && spec_cf_kind_known(
                        t.text@,
                    )
                    &&& fo.spec_get("id"@) matches JsValue::Number(n) && v.format == n.spec_u32()
                    &&& has_id(final(conditional_format_map).entries@, v.format)
                    &&& fo.spec_get("type"@) matches JsValue::Str(t) && (if has_id(
                        old(conditional_format_map).entries@,
                        v.format,
                    ) {
                        final(conditional_format_map).entries@ == old(
                            conditional_format_map,
                        ).entries@ && final(format_map).entries@ == old(format_map).entries@
                    } else {
                        keyword_create_ok(
                            fo,
                            t.text@,
                            v.format,
                            old(conditional_format_map).entries@,
                            final(conditional_format_map).entries@,
                            old(format_map).entries@,
                            final(format_map).entries@,
                        )
                    })
                }
            },
            r matches Err(e) ==> {
                &&& final(conditional_format_map).entries@ == old(
                    conditional_format_map,
                ).entries@
                &&& final(format_map).entries@ == old(format_map).entries@
                &&& spec_cfv_err(
                    *o,
                    old(conditional_format_map).entries@,
                    old(format_map).entries@,
                ) matches Some(m) && e.message@ == m
            },
            spec_cfv_clean(*o) ==> r is Ok,
    {
        proof {
            lemma_prefix_refl(old(format_map).entries@);
            lemma_prefix_refl(old(conditional_format_map).entries@);
        }
        let first_row = match decode_row_prop(o, "firstRow") {
            Ok(x) => x,
            Err(e) => {
                return Err(e);
            },
        };
        let last_row = match decode_row_prop(o, "lastRow") {
            Ok(x) => x,
            Err(e) => {
                return Err(e);
            },
        };
        let first_column = match decode_col_prop(o, "firstColumn") {
            Ok(x) => x,
            Err(e) => {
                return Err(e);
            },
        };
        let last_column = match decode_col_prop(o, "lastColumn") {
            Ok(x) => x,
            Err(e) => {
                return Err(e);
            },
        };
        let fo = match o.get_object("format") {
            Ok(fo) => fo,
            Err(e) => {
                return Err(e);
            },
        };
        let f_type = match fo.get_string("type") {
            Ok(t) => t,
            Err(e) => {
                return Err(e);
            },
        };
        let format = if str_eq(f_type.as_str(), "twoColorScale") {
            match TwoColorScale::create_and_set_to_map(fo, conditional_format_map) {
                Ok(id) => id,
                Err(e) => {
                    return Err(e);
                },
            }
        } else if str_eq(f_type.as_str(), "threeColorScale") {
            match ThreeColorScale::create_and_set_to_map(fo, conditional_format_map) {
                Ok(id) => id,
                Err(e) => {
                    return Err(e);
                },
            }
        } else if str_eq(f_type.as_str(), "average") {
            match Average::create_and_set_to_map(fo, conditional_format_map, format_map) {
                Ok(id) => id,
                Err(e) => {
                    return Err(e);
                },
            }
        } else if str_eq(f_type.as_str(), "blank") {
            match Blank::create_and_set_to_map(fo, conditional_format_map, format_map) {
                Ok(id) => id,
                Err(e) => {
                    return Err(e);
                },
            }
        } else if str_eq(f_type.as_str(), "cell") {
            match Cell::create_and_set_to_map(fo, conditional_format_map, format_map) {
                Ok(id) => id,
                Err(e) => {
                    return Err(e);
                },
            }
        } else if str_eq(f_type.as_str(), "dataBar") {
            match DataBar::create_and_set_to_map(fo, conditional_format_map) {
                Ok(id) => id,
                Err(e) => {
                    return Err(e);
                },
            }
        } else if str_eq(f_type.as_str(), "date") {
            match Date::create_and_set_to_map(fo, conditional_format_map, format_map) {
                Ok(id) => id,
                Err(e) => {
                    return Err(e);
                },
            }
        } else if str_eq(f_type.as_str(), "duplicate") {
            match Duplicate::create_and_set_to_map(fo, conditional_format_map, format_map) {
                Ok(id) => id,
                Err(e) => {
                    return Err(e);
                },
            }
        } else if str_eq(f_type.as_str(), "error") {
            match Error::create_and_set_to_map(fo, conditional_format_map, format_map) {
                Ok(id) => id,
                Err(e) => {
                    return Err(e);
                },
            }
        } else if str_eq(f_type.as_str(), "formula") {
            match FormulaFormat::create_and_set_to_map(fo, conditional_format_map, format_map) {
                Ok(id) => id,
                Err(e) => {
                    return Err(e);
                },
            }
        } else if str_eq(f_type.as_str(), "iconSet") {
            match Icon::create_and_set_to_map(fo, conditional_format_map) {
                Ok(id) => id,
                Err(e) => {
                    return Err(e);
                },
            }
        } else if str_eq(f_type.as_str(), "text") {
            match Text::create_and_set_to_map(fo, conditional_format_map, format_map) {
                Ok(id) => id,
                Err(e) => {
                    return Err(e);
                },
            }
        } else if str_eq(f_type.as_str(), "top") {
            match Top::create_and_set_to_map(fo, conditional_format_map, format_map) {
                Ok(id) => id,
                Err(e) => {
                    return Err(e);
                },
            }
        } else {
            return Err(
                NodeXlsxError::new(concat2("Invalid ConditionalFormatType: ", f_type.as_str())),
            );
        };
        proof {
            if old(conditional_format_map).entries@ != conditional_format_map.entries@ {
                lemma_push_prefix(
                    old(conditional_format_map).entries@,
                    conditional_format_map.entries@.last(),
                );
                assert(conditional_format_map.entries@ =~= old(
                    conditional_format_map,
                ).entries@.push(conditional_format_map.entries@.last()));
            } else {
                lemma_prefix_refl(conditional_format_map.entries@);
            }
            if has_id(old(conditional_format_map).entries@, format) {
                lemma_has_id_prefix(
                    old(conditional_format_map).entries@,
                    conditional_format_map.entries@,
                    format,
                );
            } else {
                assert(conditional_format_map.entries@[conditional_format_map.entries@.len()
                    - 1].0 == format);
            }
            if old(format_map).entries@ != format_map.entries@ {
                assert(format_map.entries@ =~= old(format_map).entries@.push(
                    format_map.entries@.last(),
                ));
                lemma_push_prefix(old(format_map).entries@, format_map.entries@.last());
            } else {
                lemma_prefix_refl(format_map.entries@);
            }
        }
        Ok(ConditionalFormatSheetValue { first_row, last_row, first_column, last_column, format })
    }

    /// The one application this placement compiles to.
    pub open spec fn spec_op(&self) -> SheetOp {
        SheetOp::AddConditionalFormat {
            first_row: self.first_row,
            last_row: self.last_row,
            first_column: self.first_column,
            last_column: self.last_column,
            id: self.format,
        }
    }

    /// Appends the application of the registered variant to the script.
    pub fn set_conditional_format(&self, ops: &mut Vec<SheetOp>)
        ensures
            final(ops)@ == old(ops)@.push(self.spec_op()),
    {
        ops.push(
            SheetOp::AddConditionalFormat {
                first_row: self.first_row,
                last_row: self.last_row,
                first_column: self.first_column,
                last_column: self.last_column,
                id: self.format,
            },
        );
    }
}

} // verus!
