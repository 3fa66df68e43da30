use vstd::prelude::*;
use crate::conditional_format::c_type::NodeXlsxConditionalFormatType;
use crate::conditional_format::rule::NodeXlsxFormatTypeRule;
use crate::conditional_format::scale::{opt_type_rule, spec_opt_type_rule};
use crate::error::NodeXlsxError;
use crate::registry::{Registry, has_id};
use crate::text::{concat2, str_eq};
use crate::util::{spec_opt_bool, spec_opt_string};
use crate::value::{JsObject, JsValue, missing_prop_msg};

verus! {

/// An icon-set keyword from the closed twenty-entry set.
#[derive(Debug, Clone, Copy)]
pub enum ConditionalFormatIconType {
    ThreeArrows,
    ThreeArrowsGray,
    ThreeFlags,
    ThreeTrafficLights,
    ThreeTrafficLightsWithRim,
    ThreeSigns,
    ThreeSymbolsCircled,
    ThreeSymbols,
    ThreeStars,
    ThreeTriangles,
    FourArrows,
    FourArrowsGray,
    FourRedToBlack,
    FourHistograms,
    FourTrafficLights,
    FiveArrows,
    FiveArrowsGray,
    FiveHistograms,
    FiveQuadrants,
    FiveBoxes,
}

/// The closed keyword table for icon sets.
pub open spec fn spec_icon_type(s: Seq<char>) -> Option<ConditionalFormatIconType> {
    if s == "threeArrows"@ {
        Some(ConditionalFormatIconType::ThreeArrows)
    } else if s == "threeArrowsGray"@ {
        Some(ConditionalFormatIconType::ThreeArrowsGray)
    } else if s == "threeFlags"@ {
        Some(ConditionalFormatIconType::ThreeFlags)
    } else if s == "threeTrafficLights"@ {
        Some(ConditionalFormatIconType::ThreeTrafficLights)
    } else if s == "threeTrafficLightsWithRim"@ {
        Some(ConditionalFormatIconType::ThreeTrafficLightsWithRim)
    } else if s == "threeSigns"@ {
        Some(ConditionalFormatIconType::ThreeSigns)
    } else if s == "threeSymbolsCircled"@ {
        Some(ConditionalFormatIconType::ThreeSymbolsCircled)
    } else if s == "threeSymbols"@ {
        Some(ConditionalFormatIconType::ThreeSymbols)
    } else if s == "threeStars"@ {
        Some(ConditionalFormatIconType::ThreeStars)
    } else if s == "threeTriangles"@ {
        Some(ConditionalFormatIconType::ThreeTriangles)
    } else if s == "fourArrows"@ {
        Some(ConditionalFormatIconType::FourArrows)
    } else if s == "fourArrowsGray"@ {
        Some(ConditionalFormatIconType::FourArrowsGray)
    } else if s == "fourRedToBlack"@ {
        Some(ConditionalFormatIconType::FourRedToBlack)
    } else if s == "fourHistograms"@ {
        Some(ConditionalFormatIconType::FourHistograms)
    } else if s == "fourTrafficLights"@ {
        Some(ConditionalFormatIconType::FourTrafficLights)
    } else if s == "fiveArrows"@ {
        Some(ConditionalFormatIconType::FiveArrows)
    } else if s == "fiveArrowsGray"@ {
        Some(ConditionalFormatIconType::FiveArrowsGray)
    } else if s == "fiveHistograms"@ {
        Some(ConditionalFormatIconType::FiveHistograms)
    } else if s == "fiveQuadrants"@ {
        Some(ConditionalFormatIconType::FiveQuadrants)
    } else if s == "fiveBoxes"@ {
        Some(ConditionalFormatIconType::FiveBoxes)
    } else {
        None
    }
}

/// Decodes an icon-set keyword; an unrecognized keyword is an error that
/// names the offending string verbatim.
pub fn icon_from_js_string(s: &str) -> (r: Result<ConditionalFormatIconType, NodeXlsxError>)
    ensures
        match r {
            Ok(t) => spec_icon_type(s@) == Some(t),
            Err(e) => spec_icon_type(s@) is None && e.message@
                == "Invalid ConditionalFormatIconType: "@ + s@,
        },
{
    if str_eq(s, "threeArrows") {
        Ok(ConditionalFormatIconType::ThreeArrows)
    } else if str_eq(s, "threeArrowsGray") {
        Ok(ConditionalFormatIconType::ThreeArrowsGray)
    } else if str_eq(s, "threeFlags") {
        Ok(ConditionalFormatIconType::ThreeFlags)
    } else if str_eq(s, "threeTrafficLights") {
        Ok(ConditionalFormatIconType::ThreeTrafficLights)
    } else if str_eq(s, "threeTrafficLightsWithRim") {
        Ok(ConditionalFormatIconType::ThreeTrafficLightsWithRim)
    } else if str_eq(s, "threeSigns") {
        Ok(ConditionalFormatIconType::ThreeSigns)
    } else if str_eq(s, "threeSymbolsCircled") {
        Ok(ConditionalFormatIconType::ThreeSymbolsCircled)
    } else if str_eq(s, "threeSymbols") {
        Ok(ConditionalFormatIconType::ThreeSymbols)
    } else if str_eq(s, "threeStars") {
        Ok(ConditionalFormatIconType::ThreeStars)
    } else if str_eq(s, "threeTriangles") {
        Ok(ConditionalFormatIconType::ThreeTriangles)
    } else if str_eq(s, "fourArrows") {
        Ok(ConditionalFormatIconType::FourArrows)
    } else if str_eq(s, "fourArrowsGray") {
        Ok(ConditionalFormatIconType::FourArrowsGray)
    } else if str_eq(s, "fourRedToBlack") {
        Ok(ConditionalFormatIconType::FourRedToBlack)
    } else if str_eq(s, "fourHistograms") {
        Ok(ConditionalFormatIconType::FourHistograms)
    } else if str_eq(s, "fourTrafficLights") {
        Ok(ConditionalFormatIconType::FourTrafficLights)
    } else if str_eq(s, "fiveArrows") {
        Ok(ConditionalFormatIconType::FiveArrows)
    } else if str_eq(s, "fiveArrowsGray") {
        Ok(ConditionalFormatIconType::FiveArrowsGray)
    } else if str_eq(s, "fiveHistograms") {
        Ok(ConditionalFormatIconType::FiveHistograms)
    } else if str_eq(s, "fiveQuadrants") {
        Ok(ConditionalFormatIconType::FiveQuadrants)
    } else if str_eq(s, "fiveBoxes") {
        Ok(ConditionalFormatIconType::FiveBoxes)
    } else {
        Err(NodeXlsxError::new(concat2("Invalid ConditionalFormatIconType: ", s)))
    }
}

/// One per-threshold icon override.
#[derive(Debug)]
pub struct CustomIcon {
    pub greater_than: bool,
    pub no_icon: bool,
    pub i_type: Option<ConditionalFormatIconType>,
    pub i_type_index: Option<u8>,
    pub rule: Option<NodeXlsxFormatTypeRule>,
}

impl CustomIcon {
    /// The override a host object decodes to: required `greaterThan` and
    /// `noIcon` flags, an optional icon type that then requires its
    /// index, and an optional threshold rule.
    pub open spec fn spec_from_js_object(o: JsObject) -> Result<CustomIcon, Seq<char>> {
        let greater_than = match o.spec_get("greaterThan"@) {
            JsValue::Bool(b) => Ok(b),
            _ => Err(missing_prop_msg("greaterThan"@, "boolean"@)),
        };
        let no_icon = match o.spec_get("noIcon"@) {
            JsValue::Bool(b) => Ok(b),
            _ => Err(missing_prop_msg("noIcon"@, "boolean"@)),
        };
        let ty = match o.spec_get("iconType"@) {
            JsValue::Undefined => Ok((Option::None, Option::None)),
            JsValue::Str(s) => match o.spec_get("iconTypeIndex"@) {
                JsValue::Undefined => Err("iconTypeIndex is required when icon is set"@),
                JsValue::Number(n) => match spec_icon_type(s.text@) {
                    Some(t) => Ok((Option::Some(t), Option::Some(n.spec_u8()))),
                    _ => Err("Invalid ConditionalFormatIconType: "@ + s.text@),
                },
                _ => Err(missing_prop_msg("iconTypeIndex"@, "number"@)),
            },
            _ => Err(missing_prop_msg("iconType"@, "string"@)),
        };
        let rule = spec_opt_type_rule(o, "iconRule"@);
        if greater_than is Err {
            Err(greater_than->Err_0)
        } else if no_icon is Err {
            Err(no_icon->Err_0)
        } else if ty is Err {
            Err(ty->Err_0)
        } else if rule is Err {
            Err(rule->Err_0)
        } else {
            Ok(
                CustomIcon {
                    greater_than: greater_than->Ok_0,
                    no_icon: no_icon->Ok_0,
                    i_type: ty->Ok_0.0,
                    i_type_index: ty->Ok_0.1,
                    rule: rule->Ok_0,
                },
            )
        }
    }

    pub fn from_js_object(o: &JsObject) -> (r: Result<CustomIcon, NodeXlsxError>)
        ensures
            crate::error::matches_spec(r, CustomIcon::spec_from_js_object(*o)),
    {
        let greater_than = match o.get_bool("greaterThan") {
            Ok(b) => b,
            Err(e) => {
                return Err(e);
            },
        };
        let no_icon = match o.get_bool("noIcon") {
            Ok(b) => b,
            Err(e) => {
                return Err(e);
            },
        };
        let mut i_type: Option<ConditionalFormatIconType> = Option::None;
        let mut i_type_index: Option<u8> = Option::None;
        match o.get_opt_string("iconType") {
            Ok(Some(s)) => {
                match o.get_opt_number("iconTypeIndex") {
                    Ok(Some(n)) => {
                        i_type_index = Some(n.as_u8());
                    },
                    Ok(Option::None) => {
                        return Err(
                            NodeXlsxError::new(
                                "iconTypeIndex is required when icon is set".to_owned(),
                            ),
                        );
                    },
                    Err(e) => {
                        return Err(e);
                    },
                }
                match icon_from_js_string(s.as_str()) {
                    Ok(t) => {
                        i_type = Some(t);
                    },
                    Err(e) => {
                        return Err(e);
                    },
                }
            },
            Ok(Option::None) => {},
            Err(e) => {
                return Err(e);
            },
        }
        let rule = match opt_type_rule(o, "iconRule") {
            Ok(x) => x,
            Err(e) => {
                return Err(e);
            },
        };
        Ok(CustomIcon { greater_than, no_icon, i_type, i_type_index, rule })
    }
}

/// The icon overrides a host array decodes to, element by element,
/// failing on the first element that is not an object or does not decode.
pub open spec fn spec_icons_list(items: Seq<JsValue>) -> Result<Seq<CustomIcon>, Seq<char>>
    decreases items.len(),
{
    if items.len() == 0 {
        Ok(Seq::<CustomIcon>::empty())
    } else {
        match spec_icons_list(items.drop_last()) {
            Err(m) => Err(m),
            Ok(pre) => match items[items.len() - 1] {
                JsValue::Object(io) => match CustomIcon::spec_from_js_object(io) {
                    Ok(ci) => Ok(pre.push(ci)),
                    Err(m) => Err(m),
                },
                _ => Err("expected an object element in 'icons'"@),
            },
        }
    }
}

/// A failure among the first `k` elements is the whole list's failure.
proof fn lemma_icons_list_err(items: Seq<JsValue>, k: int)
    requires
        0 <= k <= items.len(),
        spec_icons_list(items.take(k)) is Err,
    ensures
        spec_icons_list(items) == spec_icons_list(items.take(k)),
    decreases items.len() - k,
{
    if k < items.len() {
        assert(items.take(k + 1).drop_last() =~= items.take(k));
        lemma_icons_list_err(items, k + 1);
    } else {
        assert(items.take(k) =~= items);
    }
}

/// The icon-set rule kind.
#[derive(Debug)]
pub struct Icon {
    pub reverse: bool,
    pub show_icons_only: bool,
    pub icons: Vec<CustomIcon>,
    pub i_type: ConditionalFormatIconType,
    pub multi_range: Option<String>,
    pub stop_if_true: Option<bool>,
}

/// The first failure an icon-set object produces during decode, if any,
/// in the order the attributes are read.
pub open spec fn spec_icon_err(o: JsObject) -> Option<Seq<char>> {
    let reverse = match o.spec_get("reverse"@) {
        JsValue::Bool(b) => Ok(b),
        _ => Err(missing_prop_msg("reverse"@, "boolean"@)),
    };
    let show = match o.spec_get("showIconsOnly"@) {
        JsValue::Bool(b) => Ok(b),
        _ => Err(missing_prop_msg("showIconsOnly"@, "boolean"@)),
    };
    let icons = match o.spec_get("icons"@) {
        JsValue::Array(items) => match spec_icons_list(items@) {
            Ok(_) => Ok(true),
            Err(m) => Err(m),
        },
        _ => Err(missing_prop_msg("icons"@, "array"@)),
    };
    let ty = match o.spec_get("iconType"@) {
        JsValue::Str(s) => match spec_icon_type(s.text@) {
            Some(t) => Ok(t),
            _ => Err("Invalid ConditionalFormatIconType: "@ + s.text@),
        },
        _ => Err(missing_prop_msg("iconType"@, "string"@)),
    };
    let multi_range = spec_opt_string(o, "multiRange"@);
    let stop_if_true = spec_opt_bool(o, "stopIfTrue"@);
    if reverse is Err {
        Option::Some(reverse->Err_0)
    } else if show is Err {
        Option::Some(show->Err_0)
    } else if icons is Err {
        Option::Some(icons->Err_0)
    } else if ty is Err {
        Option::Some(ty->Err_0)
    } else if multi_range is Err {
        Option::Some(multi_range->Err_0)
    } else if stop_if_true is Err {
        Option::Some(stop_if_true->Err_0)
    } else {
        Option::None
    }
}

/// Whether `k` is the icon set that the host object decodes to.
pub open spec fn spec_icon_fields(o: JsObject, k: Icon) -> bool {
    &&& o.spec_get("reverse"@) == JsValue::Bool(k.reverse)
    &&& o.spec_get("showIconsOnly"@) == JsValue::Bool(k.show_icons_only)
    &&& o.spec_get("icons"@) matches JsValue::Array(items) && spec_icons_list(items@) == Ok::<
        Seq<CustomIcon>,
        Seq<char>,
    >(k.icons@)
    &&& o.spec_get("iconType"@) matches JsValue::Str(s) && spec_icon_type(s.text@) == Some(
        k.i_type,
    )
    &&& crate::util::spec_opt_string(o, "multiRange"@) == Ok::<Option<String>, Seq<char>>(
        k.multi_range,
    )
    &&& crate::util::spec_opt_bool(o, "stopIfTrue"@) == Ok::<Option<bool>, Seq<char>>(
        k.stop_if_true,
    )
}

impl Icon {
    pub fn from_js_object(o: &JsObject) -> (r: Result<Icon, NodeXlsxError>)
        ensures
            match r {
                Ok(k) => spec_icon_err(*o) is None && spec_icon_fields(*o, k),
                Err(e) => spec_icon_err(*o) matches Some(m) && e.message@ == m,
            },
    {
        let reverse = match o.get_bool("reverse") {
            Ok(b) => b,
            Err(e) => {
                return Err(e);
            },
        };
        let show_icons_only = match o.get_bool("showIconsOnly") {
            Ok(b) => b,
            Err(e) => {
                return Err(e);
            },
        };
        let arr = match o.get_array("icons") {
            Ok(a) => a,
            Err(e) => {
                return Err(e);
            },
        };
        let mut icons_vec: Vec<CustomIcon> = Vec::new();
        let n = arr.len();
        let mut i: usize = 0;
        while i < n
            invariant
                i <= n,
                n == arr@.len(),
                o.spec_get("reverse"@) is Bool,
                o.spec_get("showIconsOnly"@) is Bool,
                o.spec_get("icons"@) == JsValue::Array(*arr),
                spec_icons_list(arr@.take(i as int)) == Ok::<Seq<CustomIcon>, Seq<char>>(
                    icons_vec@,
                ),
            decreases n - i,
        {
            let ghost pre = icons_vec@;
            match &arr[i] {
                JsValue::Object(io) => match CustomIcon::from_js_object(io) {
                    Ok(ci) => icons_vec.push(ci),
                    Err(e) => {
                        proof {
                            assert(arr@.take(i as int + 1).drop_last() =~= arr@.take(i as int));
                            assert(arr@.take(i as int + 1)[arr@.take(i as int + 1).len() - 1]
                                == arr@[i as int]);
                            lemma_icons_list_err(arr@, i as int + 1);
                        }
                        return Err(e);
                    },
                },
                _ => {
                    proof {
                        assert(arr@.take(i as int + 1).drop_last() =~= arr@.take(i as int));
                        assert(arr@.take(i as int + 1)[arr@.take(i as int + 1).len() - 1]
                            == arr@[i as int]);
                        lemma_icons_list_err(arr@, i as int + 1);
                    }
                    return Err(NodeXlsxError::new("expected an object element in 'icons'".to_owned()));
                },
            }
            proof {
                assert(arr@.take(i as int + 1).drop_last() =~= arr@.take(i as int));
                assert(arr@.take(i as int + 1)[arr@.take(i as int + 1).len() - 1]
                    == arr@[i as int]);
            }
            i = i + 1;
        }
        proof {
            assert(arr@.take(n as int) =~= arr@);
        }
        let i_type_s = match o.get_string("iconType") {
            Ok(s) => s,
            Err(e) => {
                return Err(e);
            },
        };
        let i_type = match icon_from_js_string(i_type_s.as_str()) {
            Ok(t) => t,
            Err(e) => {
                return Err(e);
            },
        };
        let multi_range = match o.get_opt_string("multiRange") {
            Ok(x) => x,
            Err(e) => {
                return Err(e);
            },
        };
        let stop_if_true = match o.get_opt_bool("stopIfTrue") {
            Ok(x) => x,
            Err(e) => {
                return Err(e);
            },
        };
        Ok(Icon { reverse, show_icons_only, icons: icons_vec, i_type, multi_range, stop_if_true })
    }

    /// Registers the kind under the payload's id with the first-wins
    /// policy: a payload under a registered id is ignored unread.
    pub fn create_and_set_to_map(
        o: &JsObject,
        c_format_map: &mut Registry<NodeXlsxConditionalFormatType>,
    ) -> (r: Result<u32, NodeXlsxError>)
        ensures
            match r {
                Ok(id) => {
                    &&& o.spec_get("id"@) matches JsValue::Number(n) && id == n.spec_u32()
                    &&& if has_id(old(c_format_map).entries@, id) {
                        final(c_format_map).entries@ == old(c_format_map).entries@
                    } else {
                        &&& spec_icon_err(*o) is None
                        &&& final(c_format_map).entries@.len() == old(
                            c_format_map,
                        ).entries@.len() + 1
                        &&& final(c_format_map).entries@.take(
                            old(c_format_map).entries@.len() as int,
                        ) == old(c_format_map).entries@
                        &&& final(c_format_map).entries@.last().0 == id
                        &&& final(c_format_map).entries@.last().1 matches
                            NodeXlsxConditionalFormatType::IconSet(k) && spec_icon_fields(*o, k)
                    }
                },
                Err(e) => {
                    &&& final(c_format_map).entries@ == old(c_format_map).entries@
                    &&& match o.spec_get("id"@) {
                        JsValue::Number(n) => !has_id(old(c_format_map).entries@, n.spec_u32())
                            && (spec_icon_err(*o) matches Some(m) && e.message@ == m),
                        _ => e.message@ == missing_prop_msg("id"@, "number"@),
                    }
                },
            },
            old(c_format_map).wf() ==> final(c_format_map).wf(),
    {
        let id = match o.get_number("id") {
            Ok(n) => n.as_u32(),
            Err(e) => {
                return Err(e);
            },
        };
        if !c_format_map.contains(id) {
            let k = match Icon::from_js_object(o) {
                Ok(k) => k,
                Err(e) => {
                    return Err(e);
                },
            };
            proof {
                assert(old(c_format_map).entries@.push(
                    (id, NodeXlsxConditionalFormatType::IconSet(k)),
                ).take(old(c_format_map).entries@.len() as int) =~= old(c_format_map).entries@);
            }
            c_format_map.insert(id, NodeXlsxConditionalFormatType::IconSet(k));
        }
        Ok(id)
    }
}

} // verus!
