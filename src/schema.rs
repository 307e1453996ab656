//! Model declarations, field policies and the derived view schemas.

use vstd::prelude::*;
use vstd::string::StringExecFns;

verus! {

/// One of the three access modes for which a view can be derived.
#[derive(Debug, Clone, Copy, PartialEq, Eq, Structural)]
pub enum Mode {
    /// Reading an existing entity.
    Get,
    /// Creating a new entity.
    Create,
    /// Changing part of an existing entity.
    Patch,
}

/// The policy of a field in the read or the create view.
#[derive(Debug, Clone, Copy, PartialEq, Eq, Structural)]
pub enum Presence {
    /// The field is there with its own shape.
    Required,
    /// The field is there, wrapped in an optional value.
    Optional,
    /// The field is left out.
    Forbidden,
}

/// The policy of a field in the patch view.
#[derive(Debug, Clone, Copy, PartialEq, Eq, Structural)]
pub enum PatchPolicy {
    /// The field is there, wrapped in a patch value.
    Patch,
    /// The field is there, wrapped in a patch value of an optional value.
    OptionalPatch,
    /// The field is left out.
    Forbidden,
}

/// The three policies of one field, once its tokens are read.
#[derive(Debug, Clone, Copy, PartialEq, Eq, Structural)]
pub struct FieldPolicies {
    /// In the read view.
    pub get: Presence,
    /// In the create view.
    pub create: Presence,
    /// In the patch view.
    pub patch: PatchPolicy,
}

/// The type of a field's value.
#[derive(Debug, Clone)]
pub enum TypeRef {
    /// A scalar type, by its name; it presents itself unchanged in every mode.
    Scalar(String),
    /// A model, by its name; it presents, in each mode, its own view for it.
    Model(String),
}

/// A field as it is declared: its name (`None` for a positional field), the
/// type of its value, and the policy token given for each mode, if any.
#[derive(Debug, Clone)]
pub struct FieldDecl {
    pub name: Option<String>,
    pub ty: TypeRef,
    pub get: Option<String>,
    pub create: Option<String>,
    pub patch: Option<String>,
}

/// A model as it is declared: a name, whether it is a record (a struct
/// rather than an enum or a union) and its fields in order.
#[derive(Debug, Clone)]
pub struct ModelDecl {
    pub name: String,
    pub is_record: bool,
    pub fields: Vec<FieldDecl>,
}

/// The shape of a field in a view: a base type, possibly wrapped in an
/// optional value, possibly wrapped (outermost) in a patch value.
#[derive(Debug, Clone)]
pub struct Shape {
    pub base: String,
    pub optional: bool,
    pub patched: bool,
}

/// A field of a derived view.
#[derive(Debug, Clone)]
pub struct ViewField {
    pub name: String,
    pub shape: Shape,
    /// Set on an optional field of the create view: a serialisation
    /// adapter leaves it out when it is absent.
    pub omit_when_absent: bool,
}

/// A derived view: its name and its fields in declaration order.
#[derive(Debug, Clone)]
pub struct ViewSchema {
    pub name: String,
    pub fields: Vec<ViewField>,
}

/// The views derived from one model; a mode without eligible fields has none.
#[derive(Debug, Clone)]
pub struct DerivedViews {
    pub get: Option<ViewSchema>,
    pub create: Option<ViewSchema>,
    pub patch: Option<ViewSchema>,
}

/// Why a model cannot be used.
#[derive(Debug, Clone)]
pub enum DefinitionError {
    /// The model is not a record of named fields.
    NotARecord,
    /// A field carries a policy token that the mode does not know.
    UnknownPolicy { field: String, mode: Mode, token: String },
    /// A field needs, for a mode, the view of a model that has none for it
    /// (or that is not registered).
    MissingView { field: String, mode: Mode, model: String },
}

/// The value of a `Shape`.
pub struct ShapeView {
    pub base: Seq<char>,
    pub optional: bool,
    pub patched: bool,
}

/// The value of a `ViewField`.
pub struct ViewFieldView {
    pub name: Seq<char>,
    pub shape: ShapeView,
    pub omit_when_absent: bool,
}

/// The value of a `ViewSchema`.
pub struct ViewSchemaView {
    pub name: Seq<char>,
    pub fields: Seq<ViewFieldView>,
}

/// The value of a `DerivedViews`.
pub struct DerivedViewsView {
    pub get: Option<ViewSchemaView>,
    pub create: Option<ViewSchemaView>,
    pub patch: Option<ViewSchemaView>,
}

/// The value of a `DefinitionError`.
pub enum DefinitionErrorView {
    NotARecord,
    UnknownPolicy { field: Seq<char>, mode: Mode, token: Seq<char> },
    MissingView { field: Seq<char>, mode: Mode, model: Seq<char> },
}

impl View for Shape {
    type V = ShapeView;

    open spec fn view(&self) -> ShapeView {
        ShapeView { base: self.base@, optional: self.optional, patched: self.patched }
    }
}

impl View for ViewField {
    type V = ViewFieldView;

    open spec fn view(&self) -> ViewFieldView {
        ViewFieldView { name: self.name@, shape: self.shape@, omit_when_absent: self.omit_when_absent }
    }
}

impl View for ViewSchema {
    type V = ViewSchemaView;

    open spec fn view(&self) -> ViewSchemaView {
        ViewSchemaView { name: self.name@, fields: self.fields@.map_values(|f: ViewField| f@) }
    }
}

/// The view of an optional schema.
pub open spec fn opt_schema_view(s: Option<ViewSchema>) -> Option<ViewSchemaView> {
    match s {
        Some(v) => Some(v@),
        None => None,
    }
}

impl View for DerivedViews {
    type V = DerivedViewsView;

    open spec fn view(&self) -> DerivedViewsView {
        DerivedViewsView {
            get: opt_schema_view(self.get),
            create: opt_schema_view(self.create),
            patch: opt_schema_view(self.patch),
        }
    }
}

impl View for DefinitionError {
    type V = DefinitionErrorView;

    open spec fn view(&self) -> DefinitionErrorView {
        match self {
            DefinitionError::NotARecord => DefinitionErrorView::NotARecord,
            DefinitionError::UnknownPolicy { field, mode, token } => DefinitionErrorView::UnknownPolicy {
                field: field@,
                mode: *mode,
                token: token@,
            },
            DefinitionError::MissingView { field, mode, model } => DefinitionErrorView::MissingView {
                field: field@,
                mode: *mode,
                model: model@,
            },
        }
    }
}

/// The suffix that names a model's view for a mode.
pub open spec fn mode_suffix(m: Mode) -> Seq<char> {
    match m {
        Mode::Get => "Get"@,
        Mode::Create => "Create"@,
        Mode::Patch => "Patch"@,
    }
}

/// The name of the view of model `model` for mode `m`: `<Model>Get`,
/// `<Model>Create` or `<Model>Patch`.
pub open spec fn view_name(model: Seq<char>, m: Mode) -> Seq<char> {
    model + mode_suffix(m)
}

/// The read or create policy that a token names, if any.
pub open spec fn presence_of(token: Seq<char>) -> Option<Presence> {
    if token == "required"@ {
        Some(Presence::Required)
    } else if token == "optional"@ {
        Some(Presence::Optional)
    } else if token == "forbidden"@ {
        Some(Presence::Forbidden)
    } else {
        None
    }
}

/// The patch policy that a token names, if any.
pub open spec fn patch_policy_of(token: Seq<char>) -> Option<PatchPolicy> {
    if token == "patch"@ {
        Some(PatchPolicy::Patch)
    } else if token == "optional"@ {
        Some(PatchPolicy::OptionalPatch)
    } else if token == "forbidden"@ {
        Some(PatchPolicy::Forbidden)
    } else {
        None
    }
}

/// The name of the view of `model` for mode `m`.
pub fn make_view_name(model: &String, m: Mode) -> (r: String)
    ensures
        r@ == view_name(model@, m),
{
    let base = model.clone();
    match m {
        Mode::Get => base.concat("Get"),
        Mode::Create => base.concat("Create"),
        Mode::Patch => base.concat("Patch"),
    }
}

/// Whether two strings hold the same characters.
fn same_text(a: &String, b: &str) -> (r: bool)
    ensures
        r == (a@ == b@),
{
    *a == String::from_str(b)
}

/// Reads a read or create policy token.
pub fn parse_presence(token: &String) -> (r: Option<Presence>)
    ensures
        r == presence_of(token@),
{
    if same_text(token, "required") {
        Some(Presence::Required)
    } else if same_text(token, "optional") {
        Some(Presence::Optional)
    } else if same_text(token, "forbidden") {
        Some(Presence::Forbidden)
    } else {
        None
    }
}

/// Reads a patch policy token.
pub fn parse_patch_policy(token: &String) -> (r: Option<PatchPolicy>)
    ensures
        r == patch_policy_of(token@),
{
    if same_text(token, "patch") {
        Some(PatchPolicy::Patch)
    } else if same_text(token, "optional") {
        Some(PatchPolicy::OptionalPatch)
    } else if same_text(token, "forbidden") {
        Some(PatchPolicy::Forbidden)
    } else {
        None
    }
}

} // verus!
