use vstd::prelude::*;
use crate::error::NodeXlsxError;
use crate::format::Format;
use crate::value::{JsObject, JsValue, missing_prop_msg};

verus! {

/// Distinct ids at distinct positions: the well-formedness of a registry.
pub open spec fn ids_unique<T>(entries: Seq<(u32, T)>) -> bool {
    forall|i: int, j: int|
        0 <= i < j < entries.len() ==> (#[trigger] entries[i]).0 != (#[trigger] entries[j]).0
}

/// Whether some entry carries the id.
pub open spec fn has_id<T>(entries: Seq<(u32, T)>, id: u32) -> bool {
    exists|i: int| 0 <= i < entries.len() && (#[trigger] entries[i]).0 == id
}

/// A per-sheet cache mapping a caller-supplied id to one decoded object.
///
/// The first payload decoded under an id wins; later references to the
/// same id reuse the stored object and never rebuild it.
#[derive(Debug)]
pub struct Registry<T> {
    pub entries: Vec<(u32, T)>,
}

impl<T> Registry<T> {
    /// Whether an id is registered.
    pub open spec fn spec_contains(&self, id: u32) -> bool {
        has_id(self.entries@, id)
    }

    /// The object stored under an id: the first entry that carries it.
    pub open spec fn spec_get(&self, id: u32) -> Option<T> {
        Registry::<T>::seq_get(self.entries@, id)
    }

    pub open spec fn seq_get(entries: Seq<(u32, T)>, id: u32) -> Option<T>
        decreases entries.len(),
    {
        if entries.len() == 0 {
            None
        } else if entries[0].0 == id {
            Some(entries[0].1)
        } else {
            Registry::<T>::seq_get(entries.drop_first(), id)
        }
    }

    /// Well-formed: no id is stored twice.
    pub open spec fn wf(&self) -> bool {
        ids_unique(self.entries@)
    }

    pub fn new() -> (r: Registry<T>)
        ensures
            r.entries@ == Seq::<(u32, T)>::empty(),
            r.wf(),
    {
        Registry { entries: Vec::new() }
    }

    pub fn contains(&self, id: u32) -> (r: bool)
        ensures
            r == self.spec_contains(id),
    {
        let n = self.entries.len();
        let mut i: usize = 0;
        while i < n
            invariant
                i <= n,
                n == self.entries@.len(),
                forall|j: int| 0 <= j < i ==> (#[trigger] self.entries@[j]).0 != id,
            decreases n - i,
        {
            if self.entries[i].0 == id {
                return true;
            }
            i = i + 1;
        }
        false
    }

    /// Stores an object under a fresh id; well-formedness is preserved.
    pub fn insert(&mut self, id: u32, value: T)
        requires
            !old(self).spec_contains(id),
        ensures
            final(self).entries@ == old(self).entries@.push((id, value)),
            old(self).wf() ==> final(self).wf(),
    {
        proof {
            assert forall|i: int, j: int|
                0 <= i < j < old(self).entries@.len() + 1 && ids_unique(old(self).entries@)
                    implies (#[trigger] old(self).entries@.push((id, value))[i]).0 != (
            #[trigger] old(self).entries@.push((id, value))[j]).0 by {
                if j < old(self).entries@.len() {
                } else {
                    assert(old(self).entries@.push((id, value))[i] == old(self).entries@[i]);
                }
            }
        }
        self.entries.push((id, value));
    }

    /// Looks the object stored under an id up.
    pub fn get<'a>(&'a self, id: u32) -> (r: Option<&'a T>)
        ensures
            match r {
                Some(v) => self.spec_get(id) == Some(*v) && self.spec_contains(id),
                None => self.spec_get(id) is None && !self.spec_contains(id),
            },
    {
        let n = self.entries.len();
        proof {
            assert(self.entries@.skip(0) =~= self.entries@);
        }
        let mut i: usize = 0;
        while i < n
            invariant
                i <= n,
                n == self.entries@.len(),
                Registry::<T>::seq_get(self.entries@.skip(i as int), id) == self.spec_get(id),
                forall|j: int| 0 <= j < i ==> (#[trigger] self.entries@[j]).0 != id,
            decreases n - i,
        {
            proof {
                assert(self.entries@.skip(i as int).len() > 0);
                assert(self.entries@.skip(i as int)[0] == self.entries@[i as int]);
                assert(self.entries@.skip(i as int).drop_first() =~= self.entries@.skip(
                    i as int + 1,
                ));
            }
            if self.entries[i].0 == id {
                return Some(&self.entries[i].1);
            }
            i = i + 1;
        }
        proof {
            assert(self.entries@.skip(n as int) =~= Seq::<(u32, T)>::empty());
        }
        None
    }
}

/// In a well-formed registry, one id names exactly one stored object:
/// any two entries that share an id are the same entry.
pub proof fn lemma_one_entry_per_id<T>(entries: Seq<(u32, T)>, i: int, j: int)
    requires
        ids_unique(entries),
        0 <= i < entries.len(),
        0 <= j < entries.len(),
        entries[i].0 == entries[j].0,
    ensures
        i == j,
        entries[i].1 == entries[j].1,
{
    if i < j {
        assert(entries[i].0 != entries[j].0);
    } else if j < i {
        assert(entries[j].0 != entries[i].0);
    }
}

/// The failure the format-reference step of a decode produces, when it
/// produces one: the payload needs a numeric `id`, and a payload under a
/// fresh id must itself decode.
pub open spec fn spec_format_ref_err(fo: JsObject, reg0: Seq<(u32, Format)>) -> Option<Seq<char>> {
    match fo.spec_get("id"@) {
        JsValue::Number(n) => if has_id(reg0, n.spec_u32()) {
            Option::None
        } else {
            match Format::spec_from_js_object(fo) {
                Err(m) => Option::Some(m),
                _ => Option::None,
            }
        },
        _ => Option::Some(missing_prop_msg("id"@, "number"@)),
    }
}

/// How the registry and the resolved id relate after a successful
/// format-reference step on payload `fo`: the first payload stored under
/// an id wins, later payloads under the same id are ignored.
pub open spec fn spec_format_ref_ok(
    fo: JsObject,
    reg0: Seq<(u32, Format)>,
    reg1: Seq<(u32, Format)>,
    id: u32,
) -> bool {
    &&& fo.spec_get("id"@) matches JsValue::Number(n) && id == n.spec_u32()
    &&& if has_id(reg0, id) {
        reg1 == reg0
    } else {
        Format::spec_from_js_object(fo) matches Ok(f) && reg1 == reg0.push((id, f))
    }
}


/// The id a kind object's optional `format` payload names, read without
/// touching the registry.
pub open spec fn spec_opt_format_id(o: JsObject, key: Seq<char>) -> Result<Option<u32>, Seq<char>> {
    match o.spec_get(key) {
        JsValue::Undefined => Ok(Option::None),
        JsValue::Object(fo) => match fo.spec_get("id"@) {
            JsValue::Number(n) => Ok(Option::Some(n.spec_u32())),
            _ => Err(missing_prop_msg("id"@, "number"@)),
        },
        _ => Err(missing_prop_msg(key, "object"@)),
    }
}

/// The failure a fresh `format` payload produces when it does not decode;
/// a payload under an id that is already registered is never re-decoded.
pub open spec fn spec_fresh_format_err(o: JsObject, key: Seq<char>, reg0: Seq<(u32, Format)>) -> Option<
    Seq<char>,
> {
    match o.spec_get(key) {
        JsValue::Object(fo) => spec_format_ref_err(fo, reg0),
        _ => Option::None,
    }
}

/// How the format registry changes across the optional format step of a
/// kind object: untouched without a payload, first-wins with one.
pub open spec fn format_step_rel(
    o: JsObject,
    key: Seq<char>,
    reg0: Seq<(u32, Format)>,
    reg1: Seq<(u32, Format)>,
) -> bool {
    match o.spec_get(key) {
        JsValue::Undefined => reg1 == reg0,
        JsValue::Object(fo) => fo.spec_get("id"@) matches JsValue::Number(n)
            && spec_format_ref_ok(fo, reg0, reg1, n.spec_u32()),
        _ => reg1 == reg0,
    }
}

/// A format payload that decodes on its own, wherever it is first seen;
/// such a payload can never make a format step fail.
pub open spec fn format_payload_clean(o: JsObject, key: Seq<char>) -> bool {
    match o.spec_get(key) {
        JsValue::Object(fo) => Format::spec_from_js_object(fo) is Ok,
        _ => true,
    }
}

/// The registry a successful format step leaves behind, as a function of
/// the object and the registry it started from: untouched without a
/// payload or under a registered id, extended by the decoded payload
/// under a fresh id.
pub open spec fn format_step_result(
    o: JsObject,
    key: Seq<char>,
    reg0: Seq<(u32, Format)>,
) -> Seq<(u32, Format)> {
    match o.spec_get(key) {
        JsValue::Object(fo) => match fo.spec_get("id"@) {
            JsValue::Number(n) => if has_id(reg0, n.spec_u32()) {
                reg0
            } else {
                match Format::spec_from_js_object(fo) {
                    Ok(f) => reg0.push((n.spec_u32(), f)),
                    Err(_) => reg0,
                }
            },
            _ => reg0,
        },
        _ => reg0,
    }
}

/// A step that did not fail on its payload lands exactly on
/// `format_step_result`.
pub proof fn lemma_format_step_result(
    o: JsObject,
    key: Seq<char>,
    a: Seq<(u32, Format)>,
    b: Seq<(u32, Format)>,
)
    requires
        format_step_rel(o, key, a, b),
        spec_fresh_format_err(o, key, a) is None,
    ensures
        b == format_step_result(o, key, a),
{
}

/// A format step only appends to the registry: the old entries stay, in
/// place, at the front.
pub proof fn lemma_format_step_prefix(
    o: JsObject,
    key: Seq<char>,
    a: Seq<(u32, Format)>,
    b: Seq<(u32, Format)>,
)
    requires
        format_step_rel(o, key, a, b),
    ensures
        a.is_prefix_of(b),
{
    if b != a {
        assert(b.subrange(0, a.len() as int) =~= a);
    } else {
        assert(b.subrange(0, a.len() as int) =~= a);
    }
}

/// Every sequence is a prefix of itself.
pub proof fn lemma_prefix_refl<T>(a: Seq<T>)
    ensures
        a.is_prefix_of(a),
{
    assert(a =~= a.subrange(0, a.len() as int));
}

/// Appending preserves the old entries as a prefix.
pub proof fn lemma_push_prefix<T>(a: Seq<T>, x: T)
    ensures
        a.is_prefix_of(a.push(x)),
{
    assert(a =~= a.push(x).subrange(0, a.len() as int));
}

/// A registered id stays registered as the registry grows.
pub proof fn lemma_has_id_prefix<T>(a: Seq<(u32, T)>, b: Seq<(u32, T)>, id: u32)
    requires
        a.is_prefix_of(b),
        has_id(a, id),
    ensures
        has_id(b, id),
{
    let i = choose|i: int| 0 <= i < a.len() && (#[trigger] a[i]).0 == id;
    assert(a[i] == b.subrange(0, a.len() as int)[i]);
    assert(b[i].0 == id);
}

/// Prefix growth composes across successive steps.
pub proof fn lemma_prefix_trans<T>(a: Seq<T>, b: Seq<T>, c: Seq<T>)
    requires
        a.is_prefix_of(b),
        b.is_prefix_of(c),
    ensures
        a.is_prefix_of(c),
{
    assert(a =~= c.subrange(0, a.len() as int));
}

/// Resolves the optional `format` attribute of a kind object through the
/// registry, with the same first-wins policy as every format reference.
pub fn opt_format_ref(o: &JsObject, key: &str, reg: &mut Registry<Format>) -> (r: Result<
    Option<u32>,
    NodeXlsxError,
>)
    ensures
        match r {
            Ok(f) => spec_opt_format_id(*o, key@) == Ok::<Option<u32>, Seq<char>>(f)
                && format_step_rel(*o, key@, old(reg).entries@, final(reg).entries@)
                && spec_fresh_format_err(*o, key@, old(reg).entries@) is None,
            Err(e) => {
                &&& final(reg).entries@ == old(reg).entries@
                &&& match spec_opt_format_id(*o, key@) {
                    Err(m) => e.message@ == m,
                    Ok(_) => spec_fresh_format_err(*o, key@, old(reg).entries@) matches Some(m)
                        && e.message@ == m,
                }
            },
        },
        old(reg).wf() ==> final(reg).wf(),
{
    match o.get_opt_object(key) {
        Ok(Option::None) => Ok(Option::None),
        Ok(Some(fo)) => match create_format(fo, reg) {
            Ok(id) => Ok(Option::Some(id)),
            Err(e) => Err(e),
        },
        Err(e) => Err(e),
    }
}

/// Resolves a format reference through the registry: reads the payload's
/// `id`, decodes and stores the payload only when the id is new, and
/// otherwise returns the cached id untouched (first reference wins).
pub fn create_format(o: &JsObject, reg: &mut Registry<Format>) -> (r: Result<u32, NodeXlsxError>)
    ensures
        match r {
            Ok(id) => {
                &&& o.spec_get("id"@) matches JsValue::Number(n) && id == n.spec_u32()
                &&& if old(reg).spec_contains(id) {
                    final(reg).entries@ == old(reg).entries@
                } else {
                    Format::spec_from_js_object(*o) matches Ok(f) && final(reg).entries@ == old(
                        reg,
                    ).entries@.push((id, f))
                }
            },
            Err(e) => {
                &&& final(reg).entries@ == old(reg).entries@
                &&& match o.spec_get("id"@) {
                    JsValue::Number(n) => !old(reg).spec_contains(n.spec_u32()) && (
                    Format::spec_from_js_object(*o) matches Err(m) && e.message@ == m),
                    _ => e.message@ == missing_prop_msg("id"@, "number"@),
                }
            },
        },
        old(reg).wf() ==> final(reg).wf(),
{
    let id = match o.get_number("id") {
        Ok(n) => n.as_u32(),
        Err(e) => {
            return Err(e);
        },
    };
    if !reg.contains(id) {
        let f = match Format::from_js_object(o) {
            Ok(f) => f,
            Err(e) => {
                return Err(e);
            },
        };
        reg.insert(id, f);
    }
    Ok(id)
}

} // verus!
