use builder_macro::directive::{resolve_field, RawAnnotation, RawDirective};
use builder_macro::state::{BuilderState, MissingStyle};

#[derive(Debug, Clone, PartialEq)]
enum Val {
    Id(usize),
    S(String),
    Age(u32),
    B(bool),
}

fn user_fields() -> Vec<builder_macro::builder::BuilderField> {
    let id_annotations = vec![RawAnnotation::Grouped(vec![
        RawDirective::marker("skip".to_string()),
        RawDirective::with_arg("default".to_string(), "User::generate_id()".to_string()),
    ])];
    let id = resolve_field("id".to_string(), "usize".to_string(), &id_annotations).unwrap();
    let name = resolve_field("name".to_string(), "String".to_string(), &Vec::new()).unwrap();
    let age = resolve_field("age".to_string(), "u32".to_string(), &Vec::new()).unwrap();
    let admin_annotations = vec![RawAnnotation::Grouped(vec![RawDirective::with_arg(
        "default".to_string(),
        "false".to_string(),
    )])];
    let is_admin = resolve_field("is_admin".to_string(), "bool".to_string(), &admin_annotations)
        .unwrap();
    vec![id, name, age, is_admin]
}

/// Enters a builder, evaluating the default expressions afresh: the
/// id-generating default draws the next value from the counter, so each
/// entry observes a distinct id.
fn user_builder(next_id: &mut usize) -> BuilderState<Val> {
    let id = *next_id;
    *next_id += 1;
    BuilderState::new(
        user_fields(),
        vec![Some(Val::Id(id)), None, None, Some(Val::B(false))],
        MissingStyle::Labeled,
    )
}

#[test]
fn user_test_default() {
    let mut next_id: usize = 0;

    let user = user_builder(&mut next_id)
        .set("name", Val::S("Alice".to_string()))
        .set("age", Val::Age(30u32))
        .build()
        .unwrap();

    assert_eq!(user[0], Val::Id(0));
    assert_eq!(user[1], Val::S("Alice".to_string()));
    assert_eq!(user[2], Val::Age(30));
    assert_eq!(user[3], Val::B(false));

    let user = user_builder(&mut next_id)
        .set("name", Val::S("Bob".to_string()))
        .set("age", Val::Age(25u32))
        .set("is_admin", Val::B(true))
        .build()
        .unwrap();

    assert_eq!(user[0], Val::Id(1));
    assert_eq!(user[1], Val::S("Bob".to_string()));
    assert_eq!(user[2], Val::Age(25));
    assert_eq!(user[3], Val::B(true));
}
