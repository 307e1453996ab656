use model_views::{decode_patch, DecodeError, Patch, Shape, ViewField, ViewSchema};

fn patch_view(names: &[&str]) -> ViewSchema {
    ViewSchema {
        name: "ItemPatch".to_string(),
        fields: names
            .iter()
            .map(|n| ViewField {
                name: n.to_string(),
                shape: Shape { base: "i32".to_string(), optional: true, patched: true },
                omit_when_absent: false,
            })
            .collect(),
    }
}

fn entry(n: &str, v: Option<i32>) -> (String, Option<i32>) {
    (n.to_string(), v)
}

#[test]
fn omitted_field_decodes_to_ignore_and_given_field_to_update() {
    let view = patch_view(&["a", "b", "c"]);
    let r = decode_patch(&view, &vec![entry("c", Some(3)), entry("a", None)]).unwrap();
    assert_eq!(r, vec![Patch::Update(None), Patch::Ignore, Patch::Update(Some(3))]);
}

#[test]
fn empty_payload_ignores_every_field() {
    let view = patch_view(&["a", "b"]);
    let r = decode_patch::<Option<i32>>(&view, &vec![]).unwrap();
    assert_eq!(r, vec![Patch::Ignore, Patch::Ignore]);
}

#[test]
fn unknown_field_is_refused() {
    let view = patch_view(&["a"]);
    match decode_patch(&view, &vec![entry("a", Some(1)), entry("zz", Some(2))]) {
        Err(DecodeError::UnknownField(n)) => assert_eq!(n, "zz"),
        other => panic!("unexpected {:?}", other),
    }
}

#[test]
fn duplicate_field_is_refused() {
    let view = patch_view(&["a", "b"]);
    match decode_patch(&view, &vec![entry("a", Some(1)), entry("b", None), entry("a", Some(2))]) {
        Err(DecodeError::DuplicateField(n)) => assert_eq!(n, "a"),
        other => panic!("unexpected {:?}", other),
    }
}

#[test]
fn first_fault_in_payload_order_is_reported() {
    let view = patch_view(&["a"]);
    match decode_patch(&view, &vec![entry("a", Some(1)), entry("a", Some(1)), entry("q", None)]) {
        Err(DecodeError::DuplicateField(n)) => assert_eq!(n, "a"),
        other => panic!("unexpected {:?}", other),
    }
}
