//! Decoding of a patch-view payload into patch values.

use vstd::prelude::*;
use crate::patch::Patch;
use crate::schema::{ViewField, ViewSchema};

verus! {

/// Why a payload does not fit a view.
#[derive(Debug, Clone)]
pub enum DecodeError {
    /// The payload names a field that the view does not have.
    UnknownField(String),
    /// The payload names a field a second time.
    DuplicateField(String),
}

/// The value of a `DecodeError`.
pub enum DecodeErrorView {
    UnknownField(Seq<char>),
    DuplicateField(Seq<char>),
}

impl View for DecodeError {
    type V = DecodeErrorView;

    open spec fn view(&self) -> DecodeErrorView {
        match self {
            DecodeError::UnknownField(n) => DecodeErrorView::UnknownField(n@),
            DecodeError::DuplicateField(n) => DecodeErrorView::DuplicateField(n@),
        }
    }
}

/// Whether the view has a field named `name`.
pub open spec fn has_field(fields: Seq<ViewField>, name: Seq<char>) -> bool {
    exists|i: int| 0 <= i < fields.len() && fields[i].name@ == name
}

/// Whether one of the entries `prior` is named `name`.
pub open spec fn named_before<V>(prior: Seq<(String, V)>, name: Seq<char>) -> bool {
    exists|j: int| 0 <= j < prior.len() && prior[j].0@ == name
}

/// The fault of entry `e`, which follows the entries `prior`, if any.
pub open spec fn entry_fault<V>(fields: Seq<ViewField>, prior: Seq<(String, V)>, e: (String, V)) -> Option<DecodeErrorView> {
    if !has_field(fields, e.0@) {
        Some(DecodeErrorView::UnknownField(e.0@))
    } else if named_before(prior, e.0@) {
        Some(DecodeErrorView::DuplicateField(e.0@))
    } else {
        None
    }
}

/// The fault of the first faulty entry of `p`, if any.
pub open spec fn payload_fault<V>(fields: Seq<ViewField>, p: Seq<(String, V)>) -> Option<DecodeErrorView>
    decreases p.len(),
{
    if p.len() == 0 {
        None
    } else {
        match payload_fault(fields, p.drop_last()) {
            Some(e) => Some(e),
            None => entry_fault(fields, p.drop_last(), p.last()),
        }
    }
}

/// The patch value that the entries `p` give to the field `name`: `Ignore`
/// where no entry names it, else `Update` of the value of the (last) entry
/// that does.
pub open spec fn value_for<V>(p: Seq<(String, V)>, name: Seq<char>) -> Patch<V>
    decreases p.len(),
{
    if p.len() == 0 {
        Patch::Ignore
    } else if p.last().0@ == name {
        Patch::Update(p.last().1)
    } else {
        value_for(p.drop_last(), name)
    }
}

/// Whether the view has a field named `name`.
fn find_field(fields: &Vec<ViewField>, name: &String) -> (r: bool)
    ensures
        r == has_field(fields@, name@),
{
    let mut i: usize = 0;
    while i < fields.len()
        invariant
            i <= fields@.len(),
            forall|k: int| 0 <= k < i ==> fields@[k].name@ != name@,
        decreases fields@.len() - i,
    {
        if fields[i].name == *name {
            return true;
        }
        i = i + 1;
    }
    false
}

/// Whether one of the first `n` entries is named `name`.
fn named_among<V>(payload: &Vec<(String, V)>, n: usize, name: &String) -> (r: bool)
    requires
        n <= payload@.len(),
    ensures
        r == named_before(payload@.take(n as int), name@),
{
    let mut j: usize = 0;
    while j < n
        invariant
            n <= payload@.len(),
            j <= n,
            forall|k: int| 0 <= k < j ==> payload@[k].0@ != name@,
        decreases n - j,
    {
        if payload[j].0 == *name {
            assert(payload@.take(n as int)[j as int] == payload@[j as int]);
            return true;
        }
        j = j + 1;
    }
    assert(forall|k: int| 0 <= k < n ==> payload@.take(n as int)[k] == payload@[k]);
    false
}

/// The patch value that the payload gives to the field `name`.
fn lookup_value<V: Copy>(payload: &Vec<(String, V)>, name: &String) -> (r: Patch<V>)
    ensures
        r == value_for(payload@, name@),
{
    let mut j: usize = payload.len();
    assert(payload@.take(j as int) =~= payload@);
    while j > 0
        invariant
            j <= payload@.len(),
            value_for(payload@, name@) == value_for(payload@.take(j as int), name@),
        decreases j,
    {
        assert(payload@.take(j as int).drop_last() =~= payload@.take(j - 1));
        if payload[j - 1].0 == *name {
            return Patch::Update(payload[j - 1].1);
        }
        j = j - 1;
    }
    Patch::Ignore
}

/// Decodes a payload of named entries for the patch view `view`. Each
/// entry must name a field of the view, and no field twice: else the first
/// entry, in payload order, that fails is reported. The result holds one
/// patch value per field of the view, in the view's order: `Ignore` for a
/// field that the payload leaves out, `Update(v)` for one that it gives as
/// `v`. For a field of shape `Patch<Option<T>>` the payload's value is an
/// `Option<T>`, so an omitted field, one given as `None` and one given as
/// `Some(t)` stay three different results.
pub fn decode_patch<V: Copy>(view: &ViewSchema, payload: &Vec<(String, V)>) -> (r: Result<Vec<Patch<V>>, DecodeError>)
    ensures
        match r {
            Ok(vals) => {
                &&& payload_fault(view.fields@, payload@) is None
                &&& vals@.len() == view.fields@.len()
                &&& forall|k: int| 0 <= k < vals@.len() ==> vals@[k] == value_for(payload@, #[trigger] view.fields@[k].name@)
            },
            Err(e) => payload_fault(view.fields@, payload@) == Some(e@),
        },
{
    let mut j: usize = 0;
    while j < payload.len()
        invariant
            j <= payload@.len(),
            payload_fault(view.fields@, payload@.take(j as int)) is None,
        decreases payload@.len() - j,
    {
        let ghost t = payload@.take(j as int + 1);
        assert(t.drop_last() =~= payload@.take(j as int));
        let name = &payload[j].0;
        if !find_field(&view.fields, name) {
            proof {
                lemma_payload_fault_extends(view.fields@, payload@, j as int + 1);
            }
            return Err(DecodeError::UnknownField(name.clone()));
        }
        if named_among(payload, j, name) {
            proof {
                lemma_payload_fault_extends(view.fields@, payload@, j as int + 1);
            }
            return Err(DecodeError::DuplicateField(name.clone()));
        }
        j = j + 1;
    }
    assert(payload@.take(payload@.len() as int) =~= payload@);
    let mut vals: Vec<Patch<V>> = Vec::new();
    let mut k: usize = 0;
    while k < view.fields.len()
        invariant
            k <= view.fields@.len(),
            vals@.len() == k,
            forall|i: int| 0 <= i < k ==> vals@[i] == value_for(payload@, #[trigger] view.fields@[i].name@),
        decreases view.fields@.len() - k,
    {
        let v = lookup_value(payload, &view.fields[k].name);
        vals.push(v);
        k = k + 1;
    }
    Ok(vals)
}

/// A fault among the first `j` entries is the first fault of all.
proof fn lemma_payload_fault_extends<V>(fields: Seq<ViewField>, p: Seq<(String, V)>, j: int)
    requires
        0 <= j <= p.len(),
        payload_fault(fields, p.take(j)) is Some,
    ensures
        payload_fault(fields, p) == payload_fault(fields, p.take(j)),
    decreases p.len() - j,
{
    if j < p.len() {
        assert(p.take(j + 1).drop_last() =~= p.take(j));
        lemma_payload_fault_extends(fields, p, j + 1);
    } else {
        assert(p.take(j) =~= p);
    }
}

/// A payload without fault names each field at most once.
proof fn lemma_fitting_payload_names_distinct<V>(fields: Seq<ViewField>, p: Seq<(String, V)>)
    requires
        payload_fault(fields, p) is None,
    ensures
        forall|i: int, j: int| 0 <= i < j < p.len() ==> p[i].0@ != p[j].0@,
    decreases p.len(),
{
    if p.len() > 0 {
        let q = p.drop_last();
        lemma_fitting_payload_names_distinct(fields, q);
        assert forall|i: int, j: int| 0 <= i < j < p.len() implies p[i].0@ != p[j].0@ by {
            if j == p.len() - 1 {
                assert(q[i] == p[i]);
            } else {
                assert(q[i] == p[i] && q[j] == p[j]);
            }
        }
    }
}

proof fn lemma_value_for_named<V>(p: Seq<(String, V)>, j: int)
    requires
        0 <= j < p.len(),
        forall|a: int, b: int| 0 <= a < b < p.len() ==> p[a].0@ != p[b].0@,
    ensures
        value_for(p, p[j].0@) == Patch::Update(p[j].1),
    decreases p.len(),
{
    if j < p.len() - 1 {
        let q = p.drop_last();
        assert(q[j] == p[j]);
        assert forall|a: int, b: int| 0 <= a < b < q.len() implies q[a].0@ != q[b].0@ by {
            assert(q[a] == p[a] && q[b] == p[b]);
        }
        lemma_value_for_named(q, j);
    }
}

proof fn lemma_value_for_unnamed<V>(p: Seq<(String, V)>, name: Seq<char>)
    requires
        !named_before(p, name),
    ensures
        value_for(p, name) == Patch::<V>::Ignore,
    decreases p.len(),
{
    if p.len() > 0 {
        let q = p.drop_last();
        assert(!named_before(q, name)) by {
            if named_before(q, name) {
                let j = choose|j: int| 0 <= j < q.len() && q[j].0@ == name;
                assert(p[j] == q[j]);
            }
        }
        lemma_value_for_unnamed(q, name);
    }
}

/// In a payload that fits a patch view, a field that the payload leaves
/// out decodes to `Ignore`, and a field that it gives as `v` decodes to
/// `Update(v)`.
pub proof fn lemma_decode_omitted_ignores_supplied_updates<V>(fields: Seq<ViewField>, p: Seq<(String, V)>, name: Seq<char>)
    requires
        payload_fault(fields, p) is None,
    ensures
        !named_before(p, name) ==> value_for(p, name) == Patch::<V>::Ignore,
        forall|j: int| 0 <= j < p.len() && p[j].0@ == name ==> value_for(p, name) == Patch::Update(#[trigger] p[j].1),
{
    lemma_fitting_payload_names_distinct(fields, p);
    if !named_before(p, name) {
        lemma_value_for_unnamed(p, name);
    }
    assert forall|j: int| 0 <= j < p.len() && p[j].0@ == name implies value_for(p, name) == Patch::Update(#[trigger] p[j].1) by {
        lemma_value_for_named(p, j);
    }
}

} // verus!
