use model_views::{View, ViewModeCreate, ViewModeGet, ViewModePatch};
use model_views::{
    derive_views, DefinitionError, FieldDecl, Mode, ModelDecl, ModelModes, Registry, TypeRef,
    ViewSchema,
};

fn field(name: &str, ty: TypeRef, get: Option<&str>, create: Option<&str>, patch: Option<&str>) -> FieldDecl {
    FieldDecl {
        name: Some(name.to_string()),
        ty,
        get: get.map(|s| s.to_string()),
        create: create.map(|s| s.to_string()),
        patch: patch.map(|s| s.to_string()),
    }
}

fn scalar(n: &str) -> TypeRef {
    TypeRef::Scalar(n.to_string())
}

fn nested(n: &str) -> TypeRef {
    TypeRef::Model(n.to_string())
}

fn model(name: &str, fields: Vec<FieldDecl>) -> ModelDecl {
    ModelDecl { name: name.to_string(), is_record: true, fields }
}

/// Each field as (name, base type, wrapped in an optional value, wrapped in a patch value).
fn layout(v: &ViewSchema) -> Vec<(String, String, bool, bool)> {
    v.fields
        .iter()
        .map(|f| (f.name.clone(), f.shape.base.clone(), f.shape.optional, f.shape.patched))
        .collect()
}

fn row(n: &str, base: &str, optional: bool, patched: bool) -> (String, String, bool, bool) {
    (n.to_string(), base.to_string(), optional, patched)
}

fn user() -> ModelDecl {
    model(
        "User",
        vec![
            field("id", scalar("u64"), Some("required"), Some("forbidden"), Some("forbidden")),
            field("name", scalar("String"), Some("required"), Some("required"), Some("patch")),
            field("email", scalar("String"), Some("optional"), Some("optional"), Some("optional")),
        ],
    )
}

#[test]
fn it_works() {
    let mut reg = Registry::new();
    let nested_model = model(
        "NestedModel",
        vec![
            field("id", scalar("u64"), Some("required"), Some("forbidden"), Some("forbidden")),
            field("name", scalar("String"), Some("required"), None, None),
        ],
    );
    let test_model = model(
        "TestModel",
        vec![
            field("id", scalar("u64"), Some("required"), Some("forbidden"), Some("forbidden")),
            field("name", scalar("String"), Some("required"), None, None),
            field("author", nested("NestedModel"), Some("required"), Some("optional"), Some("optional")),
        ],
    );
    let n = reg.register(&nested_model).unwrap();
    let t = reg.register(&test_model).unwrap();

    let create = t.create.unwrap();
    assert_eq!(create.name, "TestModelCreate");
    assert_eq!(
        layout(&create),
        vec![row("name", "String", false, false), row("author", "NestedModelCreate", true, false)]
    );

    let patch = t.patch.unwrap();
    assert_eq!(patch.name, "TestModelPatch");
    assert_eq!(
        layout(&patch),
        vec![row("name", "String", false, true), row("author", "NestedModelPatch", true, true)]
    );
    assert_eq!(layout(&n.patch.unwrap()), vec![row("name", "String", false, true)]);

    let get = t.get.unwrap();
    assert_eq!(get.name, "TestModelGet");
    assert_eq!(
        layout(&get),
        vec![
            row("id", "u64", false, false),
            row("name", "String", false, false),
            row("author", "NestedModelGet", false, false),
        ]
    );
    assert_eq!(
        layout(&n.get.unwrap()),
        vec![row("id", "u64", false, false), row("name", "String", false, false)]
    );
}

#[test]
fn user_model_gives_three_views() {
    let v = derive_views(&user(), &Registry::new()).unwrap();
    let get = v.get.unwrap();
    assert_eq!(get.name, "UserGet");
    assert_eq!(
        layout(&get),
        vec![
            row("id", "u64", false, false),
            row("name", "String", false, false),
            row("email", "String", true, false),
        ]
    );
    let create = v.create.unwrap();
    assert_eq!(create.name, "UserCreate");
    assert_eq!(
        layout(&create),
        vec![row("name", "String", false, false), row("email", "String", true, false)]
    );
    assert!(!create.fields[0].omit_when_absent);
    assert!(create.fields[1].omit_when_absent);
    let patch = v.patch.unwrap();
    assert_eq!(patch.name, "UserPatch");
    assert_eq!(
        layout(&patch),
        vec![row("name", "String", false, true), row("email", "String", true, true)]
    );
    assert!(!patch.fields[1].omit_when_absent);
}

#[test]
fn all_patch_forbidden_gives_no_patch_view() {
    let m = model(
        "Audit",
        vec![
            field("id", scalar("u64"), None, None, Some("forbidden")),
            field("at", scalar("i64"), None, Some("forbidden"), Some("forbidden")),
        ],
    );
    let v = derive_views(&m, &Registry::new()).unwrap();
    assert!(v.patch.is_none());
    assert_eq!(layout(&v.get.unwrap()).len(), 2);
    assert_eq!(layout(&v.create.unwrap()), vec![row("id", "u64", false, false)]);
}

#[test]
fn nested_optional_patch_is_patch_of_optional_nested_patch() {
    let mut reg = Registry::new();
    let author = model(
        "Author",
        vec![
            field("id", scalar("u64"), None, Some("forbidden"), Some("forbidden")),
            field("name", scalar("String"), None, None, None),
        ],
    );
    let post = model(
        "Post",
        vec![
            field("title", scalar("String"), None, None, None),
            field("author", nested("Author"), Some("required"), Some("forbidden"), Some("optional")),
        ],
    );
    reg.register(&author).unwrap();
    let v = reg.register(&post).unwrap();
    assert_eq!(
        layout(&v.patch.unwrap()),
        vec![row("title", "String", false, true), row("author", "AuthorPatch", true, true)]
    );
    assert_eq!(layout(&v.create.unwrap()), vec![row("title", "String", false, false)]);
    assert_eq!(reg.lookup(&"Post".to_string()), Some(ModelModes { get: true, create: true, patch: true }));
}

#[test]
fn defaults_are_required_required_patch() {
    let m = model("Plain", vec![field("x", scalar("i32"), None, None, None)]);
    let v = derive_views(&m, &Registry::new()).unwrap();
    assert_eq!(layout(&v.get.unwrap()), vec![row("x", "i32", false, false)]);
    assert_eq!(layout(&v.create.unwrap()), vec![row("x", "i32", false, false)]);
    assert_eq!(layout(&v.patch.unwrap()), vec![row("x", "i32", false, true)]);
}

#[test]
fn view_keeps_declaration_order_and_drops_forbidden() {
    let m = model(
        "Order",
        vec![
            field("c", scalar("u8"), None, Some("forbidden"), None),
            field("a", scalar("u8"), Some("forbidden"), None, None),
            field("b", scalar("u8"), None, None, Some("forbidden")),
        ],
    );
    let v = derive_views(&m, &Registry::new()).unwrap();
    let names = |s: &ViewSchema| s.fields.iter().map(|f| f.name.clone()).collect::<Vec<_>>();
    assert_eq!(names(v.get.as_ref().unwrap()), vec!["c", "b"]);
    assert_eq!(names(v.create.as_ref().unwrap()), vec!["a", "b"]);
    assert_eq!(names(v.patch.as_ref().unwrap()), vec!["c", "a"]);
}

#[test]
fn empty_model_has_no_views() {
    let v = derive_views(&model("Empty", vec![]), &Registry::new()).unwrap();
    assert!(v.get.is_none() && v.create.is_none() && v.patch.is_none());
}

#[test]
fn unknown_get_token_is_a_definition_error() {
    let m = model("Bad", vec![field("x", scalar("u8"), Some("sometimes"), None, None)]);
    match derive_views(&m, &Registry::new()) {
        Err(DefinitionError::UnknownPolicy { field, mode, token }) => {
            assert_eq!(field, "x");
            assert_eq!(mode, Mode::Get);
            assert_eq!(token, "sometimes");
        }
        other => panic!("unexpected {:?}", other),
    }
}

#[test]
fn patch_token_in_create_is_unknown() {
    let m = model(
        "Bad",
        vec![
            field("ok", scalar("u8"), None, None, None),
            field("y", scalar("u8"), None, Some("patch"), Some("nope")),
        ],
    );
    match derive_views(&m, &Registry::new()) {
        Err(DefinitionError::UnknownPolicy { field, mode, token }) => {
            assert_eq!(field, "y");
            assert_eq!(mode, Mode::Create);
            assert_eq!(token, "patch");
        }
        other => panic!("unexpected {:?}", other),
    }
}

#[test]
fn required_token_in_patch_is_unknown() {
    let m = model("Bad", vec![field("z", scalar("u8"), None, None, Some("required"))]);
    assert!(matches!(
        derive_views(&m, &Registry::new()),
        Err(DefinitionError::UnknownPolicy { mode: Mode::Patch, .. })
    ));
}

#[test]
fn non_record_is_a_definition_error() {
    let mut m = user();
    m.is_record = false;
    assert!(matches!(derive_views(&m, &Registry::new()), Err(DefinitionError::NotARecord)));
}

#[test]
fn positional_field_is_a_definition_error() {
    let mut m = user();
    m.fields[1].name = None;
    assert!(matches!(derive_views(&m, &Registry::new()), Err(DefinitionError::NotARecord)));
}

#[test]
fn nested_model_without_the_needed_view_is_a_definition_error() {
    let mut reg = Registry::new();
    let frozen = model("Frozen", vec![field("id", scalar("u64"), None, None, Some("forbidden"))]);
    let v = reg.register(&frozen).unwrap();
    assert!(v.patch.is_none());
    let holder = model("Holder", vec![field("f", nested("Frozen"), None, None, None)]);
    match reg.register(&holder) {
        Err(DefinitionError::MissingView { field, mode, model }) => {
            assert_eq!(field, "f");
            assert_eq!(mode, Mode::Patch);
            assert_eq!(model, "Frozen");
        }
        other => panic!("unexpected {:?}", other),
    }
    assert_eq!(reg.lookup(&"Holder".to_string()), None);
    let ok = model("Holder", vec![field("f", nested("Frozen"), None, None, Some("forbidden"))]);
    assert!(reg.register(&ok).is_ok());
}

#[test]
fn unregistered_nested_model_is_a_definition_error() {
    let m = model("Post", vec![field("author", nested("Ghostly"), None, Some("forbidden"), Some("forbidden"))]);
    assert!(matches!(
        derive_views(&m, &Registry::new()),
        Err(DefinitionError::MissingView { mode: Mode::Get, .. })
    ));
}

#[test]
fn later_registration_stands_over_earlier() {
    let mut reg = Registry::new();
    reg.insert("A".to_string(), ModelModes { get: true, create: false, patch: false });
    reg.insert("A".to_string(), ModelModes { get: false, create: true, patch: false });
    assert_eq!(reg.lookup(&"A".to_string()), Some(ModelModes { get: false, create: true, patch: false }));
    assert_eq!(reg.resolve(&nested("A"), Mode::Create), Some("ACreate".to_string()));
    assert_eq!(reg.resolve(&nested("A"), Mode::Get), None);
    assert_eq!(reg.resolve(&scalar("bool"), Mode::Patch), Some("bool".to_string()));
}

#[test]
fn scalars_present_themselves_in_every_mode() {
    let a: <u64 as View<ViewModeGet>>::Type = 7u64;
    let b: <String as View<ViewModeCreate>>::Type = String::from("s");
    let c: <bool as View<ViewModePatch>>::Type = true;
    let d: <uuid::Uuid as View<ViewModePatch>>::Type = uuid::Uuid::nil();
    assert_eq!((a, b.as_str(), c), (7, "s", true));
    assert!(d.is_nil());
}
