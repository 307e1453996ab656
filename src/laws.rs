//! Laws of view derivation: which fields stand in a view, and in what order.

use vstd::prelude::*;
use crate::derive::{derived, included, policies, view_field, view_fields};
use crate::registry::ModelModes;
use crate::schema::{DerivedViewsView, FieldDecl, Mode, ModelDecl, ViewFieldView, ViewSchemaView};

verus! {

/// The view for mode `m` among derived views.
pub open spec fn view_for(v: DerivedViewsView, m: Mode) -> Option<ViewSchemaView> {
    match m {
        Mode::Get => v.get,
        Mode::Create => v.create,
        Mode::Patch => v.patch,
    }
}

/// The names of the fields of the view for mode `m`, in order; none where
/// there is no such view.
pub open spec fn view_field_names(v: DerivedViewsView, m: Mode) -> Seq<Seq<char>> {
    match view_for(v, m) {
        Some(s) => s.fields.map_values(|f: ViewFieldView| f.name),
        None => Seq::empty(),
    }
}

/// The declarations of `fs` whose policy for `m` is not `Forbidden`, in order.
pub open spec fn eligible(fs: Seq<FieldDecl>, m: Mode) -> Seq<FieldDecl> {
    fs.filter(|d: FieldDecl| included(policies(d), m))
}

/// The names of declarations.
pub open spec fn decl_names(fs: Seq<FieldDecl>) -> Seq<Seq<char>> {
    fs.map_values(|d: FieldDecl| d.name->0@)
}

/// No two fields of `fs` have the same name.
pub open spec fn names_unique(fs: Seq<FieldDecl>) -> bool {
    forall|i: int, j: int|
        0 <= i < fs.len() && 0 <= j < fs.len() && i != j ==> fs[i].name->0@ != fs[j].name->0@
}

proof fn lemma_view_fields_names(reg: Seq<(Seq<char>, ModelModes)>, fs: Seq<FieldDecl>, m: Mode)
    ensures
        view_fields(reg, fs, m).map_values(|f: ViewFieldView| f.name) == decl_names(eligible(fs, m)),
    decreases fs.len(),
{
    reveal(Seq::filter);
    if fs.len() > 0 {
        lemma_view_fields_names(reg, fs.drop_last(), m);
        let vf = view_field(reg, fs.last(), m);
        let v0 = view_fields(reg, fs.drop_last(), m);
        let e0 = eligible(fs.drop_last(), m);
        if included(policies(fs.last()), m) {
            assert(view_fields(reg, fs, m) == v0 + seq![vf->0]);
            assert(eligible(fs, m) == e0.push(fs.last()));
            assert(view_fields(reg, fs, m) =~= v0.push(vf->0));
            assert(decl_names(eligible(fs, m)) =~= decl_names(e0).push(fs.last().name->0@));
            assert(view_fields(reg, fs, m).map_values(|f: ViewFieldView| f.name) =~= v0.map_values(
                |f: ViewFieldView| f.name,
            ).push(fs.last().name->0@));
        } else {
            assert(view_fields(reg, fs, m) == v0);
            assert(eligible(fs, m) == e0);
        }
    } else {
        assert(view_fields(reg, fs, m).map_values(|f: ViewFieldView| f.name) =~= decl_names(
            eligible(fs, m),
        ));
    }
}

/// The fields of every derived view are the model's fields whose policy for
/// that mode is not `Forbidden`, in the model's declaration order; a mode
/// has a view exactly when it has at least one such field.
pub proof fn lemma_view_keeps_declaration_order(reg: Seq<(Seq<char>, ModelModes)>, model: ModelDecl, m: Mode)
    requires
        derived(reg, model) is Ok,
    ensures
        view_field_names(derived(reg, model)->Ok_0, m) == decl_names(eligible(model.fields@, m)),
        view_for(derived(reg, model)->Ok_0, m) is Some <==> eligible(model.fields@, m).len() > 0,
{
    lemma_view_fields_names(reg, model.fields@, m);
    let fs = view_fields(reg, model.fields@, m);
    if fs.len() == 0 {
        assert(fs.map_values(|f: ViewFieldView| f.name) =~= Seq::<Seq<char>>::empty());
    }
    assert(fs.map_values(|f: ViewFieldView| f.name).len() == fs.len());
    assert(decl_names(eligible(model.fields@, m)).len() == eligible(model.fields@, m).len());
}

/// A field of a model (whose field names are distinct) appears in the view
/// for a mode exactly when its policy for that mode is not `Forbidden`.
pub proof fn lemma_field_in_view_iff_not_forbidden(
    reg: Seq<(Seq<char>, ModelModes)>,
    model: ModelDecl,
    m: Mode,
    i: int,
)
    requires
        derived(reg, model) is Ok,
        names_unique(model.fields@),
        0 <= i < model.fields@.len(),
    ensures
        view_field_names(derived(reg, model)->Ok_0, m).contains(model.fields@[i].name->0@)
            <==> included(policies(model.fields@[i]), m),
{
    let fs = model.fields@;
    let pred = |d: FieldDecl| included(policies(d), m);
    let names = view_field_names(derived(reg, model)->Ok_0, m);
    lemma_view_keeps_declaration_order(reg, model, m);
    let el = fs.filter(pred);
    if included(policies(fs[i]), m) {
        fs.lemma_filter_contains(pred, i);
        let j = choose|j: int| 0 <= j < el.len() && el[j] == fs[i];
        assert(names[j] == fs[i].name->0@);
    }
    if names.contains(fs[i].name->0@) {
        let j = choose|j: int| 0 <= j < names.len() && names[j] == fs[i].name->0@;
        assert(el.contains(el[j]));
        fs.lemma_filter_contains_rev(pred, el[j]);
        fs.lemma_filter_pred(pred, j);
        let k = choose|k: int| 0 <= k < fs.len() && fs[k] == el[j];
        assert(fs[k].name->0@ == fs[i].name->0@);
    }
}

} // verus!
