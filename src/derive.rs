//! Derivation of the read, create and patch views of a model.

use vstd::prelude::*;
use crate::registry::{presented, ModelModes, Registry};
use crate::schema::{
    make_view_name, parse_patch_policy, parse_presence, patch_policy_of, presence_of, view_name,
    DefinitionError, DefinitionErrorView, DerivedViews, DerivedViewsView, FieldDecl, FieldPolicies,
    Mode, ModelDecl, PatchPolicy, Presence, Shape, ShapeView, TypeRef, ViewField, ViewFieldView,
    ViewSchema, ViewSchemaView,
};

verus! {

/// The read policy of a field: `Required` where no token is given.
pub open spec fn get_policy(d: FieldDecl) -> Option<Presence> {
    match d.get {
        Some(t) => presence_of(t@),
        None => Some(Presence::Required),
    }
}

/// The create policy of a field: `Required` where no token is given.
pub open spec fn create_policy(d: FieldDecl) -> Option<Presence> {
    match d.create {
        Some(t) => presence_of(t@),
        None => Some(Presence::Required),
    }
}

/// The patch policy of a field: `Patch` where no token is given.
pub open spec fn patch_policy(d: FieldDecl) -> Option<PatchPolicy> {
    match d.patch {
        Some(t) => patch_policy_of(t@),
        None => Some(PatchPolicy::Patch),
    }
}

/// The three policies of a field whose tokens are all known.
pub open spec fn policies(d: FieldDecl) -> FieldPolicies {
    FieldPolicies {
        get: get_policy(d)->0,
        create: create_policy(d)->0,
        patch: patch_policy(d)->0,
    }
}

/// Whether a field with policies `p` stands in the view for mode `m`.
pub open spec fn included(p: FieldPolicies, m: Mode) -> bool {
    match m {
        Mode::Get => p.get != Presence::Forbidden,
        Mode::Create => p.create != Presence::Forbidden,
        Mode::Patch => p.patch != PatchPolicy::Forbidden,
    }
}

/// Whether a field with policies `p` is wrapped in an optional value in the
/// view for mode `m`.
pub open spec fn optional_in(p: FieldPolicies, m: Mode) -> bool {
    match m {
        Mode::Get => p.get == Presence::Optional,
        Mode::Create => p.create == Presence::Optional,
        Mode::Patch => p.patch == PatchPolicy::OptionalPatch,
    }
}

/// The name of the type that a type reference names.
pub open spec fn referenced_name(ty: TypeRef) -> Seq<char> {
    match ty {
        TypeRef::Scalar(n) => n@,
        TypeRef::Model(n) => n@,
    }
}

/// The field that a well-formed declaration `d` puts in the view for mode
/// `m`, if any.
pub open spec fn view_field(reg: Seq<(Seq<char>, ModelModes)>, d: FieldDecl, m: Mode) -> Option<ViewFieldView> {
    let p = policies(d);
    if included(p, m) {
        Some(
            ViewFieldView {
                name: d.name->0@,
                shape: ShapeView {
                    base: presented(reg, d.ty, m)->0,
                    optional: optional_in(p, m),
                    patched: m == Mode::Patch,
                },
                omit_when_absent: m == Mode::Create && p.create == Presence::Optional,
            },
        )
    } else {
        None
    }
}

/// The fields of the view for mode `m`, in declaration order.
pub open spec fn view_fields(reg: Seq<(Seq<char>, ModelModes)>, fs: Seq<FieldDecl>, m: Mode) -> Seq<ViewFieldView> {
    fs.filter_map(|d: FieldDecl| view_field(reg, d, m))
}

/// The first fault of a field declaration, if any: a positional field, then
/// an unknown token (read, create, patch), then a nested view that is
/// missing (read, create, patch).
pub open spec fn field_error(reg: Seq<(Seq<char>, ModelModes)>, d: FieldDecl) -> Option<DefinitionErrorView> {
    let name = d.name->0@;
    let p = policies(d);
    if d.name is None {
        Some(DefinitionErrorView::NotARecord)
    } else if get_policy(d) is None {
        Some(DefinitionErrorView::UnknownPolicy { field: name, mode: Mode::Get, token: d.get->0@ })
    } else if create_policy(d) is None {
        Some(DefinitionErrorView::UnknownPolicy { field: name, mode: Mode::Create, token: d.create->0@ })
    } else if patch_policy(d) is None {
        Some(DefinitionErrorView::UnknownPolicy { field: name, mode: Mode::Patch, token: d.patch->0@ })
    } else if included(p, Mode::Get) && presented(reg, d.ty, Mode::Get) is None {
        Some(DefinitionErrorView::MissingView { field: name, mode: Mode::Get, model: referenced_name(d.ty) })
    } else if included(p, Mode::Create) && presented(reg, d.ty, Mode::Create) is None {
        Some(DefinitionErrorView::MissingView { field: name, mode: Mode::Create, model: referenced_name(d.ty) })
    } else if included(p, Mode::Patch) && presented(reg, d.ty, Mode::Patch) is None {
        Some(DefinitionErrorView::MissingView { field: name, mode: Mode::Patch, model: referenced_name(d.ty) })
    } else {
        None
    }
}

/// The fault of the first faulty field of `fs`, if any.
pub open spec fn first_error(reg: Seq<(Seq<char>, ModelModes)>, fs: Seq<FieldDecl>) -> Option<DefinitionErrorView>
    decreases fs.len(),
{
    if fs.len() == 0 {
        None
    } else {
        match first_error(reg, fs.drop_last()) {
            Some(e) => Some(e),
            None => field_error(reg, fs.last()),
        }
    }
}

/// The view of `model` for mode `m`: none where no field stands in it.
pub open spec fn view_of(reg: Seq<(Seq<char>, ModelModes)>, model: ModelDecl, m: Mode) -> Option<ViewSchemaView> {
    let fs = view_fields(reg, model.fields@, m);
    if fs.len() > 0 {
        Some(ViewSchemaView { name: view_name(model.name@, m), fields: fs })
    } else {
        None
    }
}

/// The views of `model`, or the first fault that makes it unusable.
pub open spec fn derived(reg: Seq<(Seq<char>, ModelModes)>, model: ModelDecl) -> Result<DerivedViewsView, DefinitionErrorView> {
    if !model.is_record {
        Err(DefinitionErrorView::NotARecord)
    } else {
        match first_error(reg, model.fields@) {
            Some(e) => Err(e),
            None => Ok(
                DerivedViewsView {
                    get: view_of(reg, model, Mode::Get),
                    create: view_of(reg, model, Mode::Create),
                    patch: view_of(reg, model, Mode::Patch),
                },
            ),
        }
    }
}

/// Reads the three policy tokens of a field named `name`.
pub fn field_policies(d: &FieldDecl, name: &String) -> (r: Result<FieldPolicies, DefinitionError>)
    requires
        d.name == Some(*name),
    ensures
        r is Ok <==> (get_policy(*d) is Some && create_policy(*d) is Some && patch_policy(*d) is Some),
        r matches Ok(p) ==> p == policies(*d),
        r matches Err(e) ==> e@ == if get_policy(*d) is None {
            DefinitionErrorView::UnknownPolicy { field: name@, mode: Mode::Get, token: d.get->0@ }
        } else if create_policy(*d) is None {
            DefinitionErrorView::UnknownPolicy { field: name@, mode: Mode::Create, token: d.create->0@ }
        } else {
            DefinitionErrorView::UnknownPolicy { field: name@, mode: Mode::Patch, token: d.patch->0@ }
        },
{
    let get = match &d.get {
        Some(t) => match parse_presence(t) {
            Some(p) => p,
            None => {
                return Err(
                    DefinitionError::UnknownPolicy { field: name.clone(), mode: Mode::Get, token: t.clone() },
                );
            },
        },
        None => Presence::Required,
    };
    let create = match &d.create {
        Some(t) => match parse_presence(t) {
            Some(p) => p,
            None => {
                return Err(
                    DefinitionError::UnknownPolicy { field: name.clone(), mode: Mode::Create, token: t.clone() },
                );
            },
        },
        None => Presence::Required,
    };
    let patch = match &d.patch {
        Some(t) => match parse_patch_policy(t) {
            Some(p) => p,
            None => {
                return Err(
                    DefinitionError::UnknownPolicy { field: name.clone(), mode: Mode::Patch, token: t.clone() },
                );
            },
        },
        None => PatchPolicy::Patch,
    };
    Ok(FieldPolicies { get, create, patch })
}

/// Whether a field with policies `p` stands in the view for mode `m`.
pub fn is_included(p: FieldPolicies, m: Mode) -> (r: bool)
    ensures
        r == included(p, m),
{
    match m {
        Mode::Get => p.get != Presence::Forbidden,
        Mode::Create => p.create != Presence::Forbidden,
        Mode::Patch => p.patch != PatchPolicy::Forbidden,
    }
}

/// Whether a field with policies `p` is wrapped in an optional value in the
/// view for mode `m`.
pub fn is_optional_in(p: FieldPolicies, m: Mode) -> (r: bool)
    ensures
        r == optional_in(p, m),
{
    match m {
        Mode::Get => p.get == Presence::Optional,
        Mode::Create => p.create == Presence::Optional,
        Mode::Patch => p.patch == PatchPolicy::OptionalPatch,
    }
}

/// The name of the type that a type reference names.
fn name_of_type(ty: &TypeRef) -> (r: String)
    ensures
        r@ == referenced_name(*ty),
{
    match ty {
        TypeRef::Scalar(n) => n.clone(),
        TypeRef::Model(n) => n.clone(),
    }
}

/// The field that the declaration `d`, named `name` and with policies `p`,
/// puts in the view for mode `m`, if any; an error where its type has no
/// shape in that mode.
fn field_view(registry: &Registry, d: &FieldDecl, name: &String, p: FieldPolicies, m: Mode) -> (r: Result<
    Option<ViewField>,
    DefinitionError,
>)
    requires
        d.name == Some(*name),
        p == policies(*d),
    ensures
        !included(p, m) ==> r == Ok::<Option<ViewField>, DefinitionError>(None),
        included(p, m) && presented(registry@, d.ty, m) is None ==> (r matches Err(e) && e@
            == (DefinitionErrorView::MissingView { field: name@, mode: m, model: referenced_name(d.ty) })),
        included(p, m) && presented(registry@, d.ty, m) is Some ==> (r matches Ok(Some(f)) && Some(f@)
            == view_field(registry@, *d, m)),
{
    if !is_included(p, m) {
        return Ok(None);
    }
    match registry.resolve(&d.ty, m) {
        Some(base) => {
            let optional = is_optional_in(p, m);
            let patched = m == Mode::Patch;
            let omit_when_absent = m == Mode::Create && p.create == Presence::Optional;
            Ok(Some(ViewField { name: name.clone(), shape: Shape { base, optional, patched }, omit_when_absent }))
        },
        None => Err(DefinitionError::MissingView { field: name.clone(), mode: m, model: name_of_type(&d.ty) }),
    }
}

/// One step of a view's fields along the declarations.
proof fn lemma_view_fields_step(reg: Seq<(Seq<char>, ModelModes)>, fs: Seq<FieldDecl>, i: int, m: Mode)
    requires
        0 <= i < fs.len(),
    ensures
        view_fields(reg, fs.take(i + 1), m) == match view_field(reg, fs[i], m) {
            Some(f) => view_fields(reg, fs.take(i), m).push(f),
            None => view_fields(reg, fs.take(i), m),
        },
{
    assert(fs.take(i + 1).drop_last() =~= fs.take(i));
    assert(fs.take(i + 1).last() == fs[i]);
    let f = view_field(reg, fs[i], m);
    if f is Some {
        assert(view_fields(reg, fs.take(i), m) + seq![f->0] =~= view_fields(reg, fs.take(i), m).push(f->0));
    }
}

/// One step of the first fault along the declarations.
proof fn lemma_first_error_step(reg: Seq<(Seq<char>, ModelModes)>, fs: Seq<FieldDecl>, i: int)
    requires
        0 <= i < fs.len(),
    ensures
        first_error(reg, fs.take(i + 1)) == match first_error(reg, fs.take(i)) {
            Some(e) => Some(e),
            None => field_error(reg, fs[i]),
        },
{
    assert(fs.take(i + 1).drop_last() =~= fs.take(i));
    assert(fs.take(i + 1).last() == fs[i]);
}

/// A fault among the first `j` declarations is the first fault of all.
proof fn lemma_first_error_extends(reg: Seq<(Seq<char>, ModelModes)>, fs: Seq<FieldDecl>, j: int)
    requires
        0 <= j <= fs.len(),
        first_error(reg, fs.take(j)) is Some,
    ensures
        first_error(reg, fs) == first_error(reg, fs.take(j)),
    decreases fs.len() - j,
{
    if j < fs.len() {
        lemma_first_error_step(reg, fs, j);
        lemma_first_error_extends(reg, fs, j + 1);
    } else {
        assert(fs.take(j) =~= fs);
    }
}

/// The view for mode `m` made of `fields`, if there is any field.
fn schema_of(model: &ModelDecl, m: Mode, fields: Vec<ViewField>) -> (r: Option<ViewSchema>)
    ensures
        fields@.len() == 0 ==> r is None,
        fields@.len() > 0 ==> (r matches Some(v) && v.name@ == view_name(model.name@, m) && v.fields
            == fields),
{
    if fields.len() > 0 {
        Some(ViewSchema { name: make_view_name(&model.name, m), fields })
    } else {
        None
    }
}

/// Derives the read, create and patch views of `model`, in which a field
/// whose type is a model presents that model's view as `registry` records
/// it. A field stands in the view for a mode exactly when its policy for
/// that mode is not `Forbidden`, in declaration order; a mode in which no
/// field stands has no view. A model that is not a record, a field token
/// that the mode does not know, or a nested model without the needed view
/// gives the first such fault in declaration order.
pub fn derive_views(model: &ModelDecl, registry: &Registry) -> (r: Result<DerivedViews, DefinitionError>)
    ensures
        match r {
            Ok(v) => derived(registry@, *model) == Ok::<DerivedViewsView, DefinitionErrorView>(v@),
            Err(e) => derived(registry@, *model) == Err::<DerivedViewsView, DefinitionErrorView>(e@),
        },
{
    if !model.is_record {
        return Err(DefinitionError::NotARecord);
    }
    let ghost reg = registry@;
    let ghost fs = model.fields@;
    let mut get_fields: Vec<ViewField> = Vec::new();
    let mut create_fields: Vec<ViewField> = Vec::new();
    let mut patch_fields: Vec<ViewField> = Vec::new();
    let mut i: usize = 0;
    while i < model.fields.len()
        invariant
            i <= fs.len(),
            model.is_record,
            fs == model.fields@,
            reg == registry@,
            first_error(reg, fs.take(i as int)) is None,
            get_fields@.map_values(|f: ViewField| f@) == view_fields(reg, fs.take(i as int), Mode::Get),
            create_fields@.map_values(|f: ViewField| f@) == view_fields(reg, fs.take(i as int), Mode::Create),
            patch_fields@.map_values(|f: ViewField| f@) == view_fields(reg, fs.take(i as int), Mode::Patch),
        decreases fs.len() - i,
    {
        let d = &model.fields[i];
        proof {
            lemma_first_error_step(reg, fs, i as int);
            lemma_view_fields_step(reg, fs, i as int, Mode::Get);
            lemma_view_fields_step(reg, fs, i as int, Mode::Create);
            lemma_view_fields_step(reg, fs, i as int, Mode::Patch);
        }
        let name = match &d.name {
            Some(n) => n,
            None => {
                proof {
                    lemma_first_error_extends(reg, fs, i + 1);
                }
                return Err(DefinitionError::NotARecord);
            },
        };
        let p = match field_policies(d, name) {
            Ok(p) => p,
            Err(e) => {
                proof {
                    lemma_first_error_extends(reg, fs, i + 1);
                }
                return Err(e);
            },
        };
        let gf = match field_view(registry, d, name, p, Mode::Get) {
            Ok(f) => f,
            Err(e) => {
                proof {
                    lemma_first_error_extends(reg, fs, i + 1);
                }
                return Err(e);
            },
        };
        let cf = match field_view(registry, d, name, p, Mode::Create) {
            Ok(f) => f,
            Err(e) => {
                proof {
                    lemma_first_error_extends(reg, fs, i + 1);
                }
                return Err(e);
            },
        };
        let pf = match field_view(registry, d, name, p, Mode::Patch) {
            Ok(f) => f,
            Err(e) => {
                proof {
                    lemma_first_error_extends(reg, fs, i + 1);
                }
                return Err(e);
            },
        };
        if let Some(f) = gf {
            get_fields.push(f);
        }
        if let Some(f) = cf {
            create_fields.push(f);
        }
        if let Some(f) = pf {
            patch_fields.push(f);
        }
        assert(get_fields@.map_values(|f: ViewField| f@) =~= view_fields(reg, fs.take(i + 1), Mode::Get));
        assert(create_fields@.map_values(|f: ViewField| f@) =~= view_fields(reg, fs.take(i + 1), Mode::Create));
        assert(patch_fields@.map_values(|f: ViewField| f@) =~= view_fields(reg, fs.take(i + 1), Mode::Patch));
        i = i + 1;
    }
    assert(fs.take(fs.len() as int) =~= fs);
    let get = schema_of(model, Mode::Get, get_fields);
    let create = schema_of(model, Mode::Create, create_fields);
    let patch = schema_of(model, Mode::Patch, patch_fields);
    let r = DerivedViews { get, create, patch };
    assert(r@ == derived(reg, *model)->Ok_0);
    Ok(r)
}

/// Which views a derivation produced.
pub open spec fn modes_of(v: DerivedViewsView) -> ModelModes {
    ModelModes { get: v.get is Some, create: v.create is Some, patch: v.patch is Some }
}

impl Registry {
    /// Derives the views of `model` as `derive_views` does and, where the
    /// model is usable, records under its name which views it has, so that
    /// models declared later can nest it.
    pub fn register(&mut self, model: &ModelDecl) -> (r: Result<DerivedViews, DefinitionError>)
        ensures
            match r {
                Ok(v) => {
                    &&& derived(old(self)@, *model) == Ok::<DerivedViewsView, DefinitionErrorView>(v@)
                    &&& final(self)@ == old(self)@.push((model.name@, modes_of(v@)))
                },
                Err(e) => {
                    &&& derived(old(self)@, *model) == Err::<DerivedViewsView, DefinitionErrorView>(e@)
                    &&& final(self)@ == old(self)@
                },
            },
    {
        match derive_views(model, self) {
            Ok(v) => {
                let modes = ModelModes { get: v.get.is_some(), create: v.create.is_some(), patch: v.patch.is_some() };
                self.insert(model.name.clone(), modes);
                Ok(v)
            },
            Err(e) => Err(e),
        }
    }
}

} // verus!
