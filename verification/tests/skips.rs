use builder_macro::builder::BuilderField;
use builder_macro::directive::{resolve_field, RawAnnotation, RawDirective};
use builder_macro::state::{BuilderState, MissingStyle};

#[derive(Debug, Clone, PartialEq)]
enum Val {
    S(String),
    I(i32),
}

fn user_builder() -> BuilderState<Val> {
    let name = BuilderField::new("name".to_string(), "String".to_string(), None, false);
    let species_annotations = vec![RawAnnotation::Flat(RawDirective::with_arg(
        "builder_default".to_string(),
        "\"human\"".to_string(),
    ))];
    let species = resolve_field("species".to_string(), "String".to_string(), &species_annotations)
        .unwrap();
    let age = BuilderField::new("age".to_string(), "i32".to_string(), None, false);
    // The default expression `"human"` is evaluated (and converted) afresh
    // on every entry.
    BuilderState::new(
        vec![name, species, age],
        vec![None, Some(Val::S("human".to_string())), None],
        MissingStyle::Plain,
    )
}

#[test]
fn test_skip() {
    let u = user_builder()
        .set("name", Val::S("Alice".to_string()))
        .set("age", Val::I(12))
        .build()
        .unwrap();

    assert_eq!(u[0], Val::S("Alice".to_string()));
    assert_eq!(u[2], Val::I(12));
    assert_eq!(u[1], Val::S("human".to_string()));

    let v = user_builder()
        .set("name", Val::S("Bob".to_string()))
        .set("age", Val::I(20))
        .set("species", Val::S("alien".to_string()))
        .build()
        .unwrap();

    assert_eq!(v[0], Val::S("Bob".to_string()));
    assert_eq!(v[2], Val::I(20));
    assert_eq!(v[1], Val::S("alien".to_string()));
}

#[test]
#[should_panic]
fn test_skip_panic() {
    let _ = user_builder()
        .set("name", Val::S("Alice".to_string()))
        .set("species", Val::S("alien".to_string()))
        .build()
        .unwrap();
}
