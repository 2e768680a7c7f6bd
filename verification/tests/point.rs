use builder_macro::builder::BuilderField;
use builder_macro::state::{BuilderState, MissingStyle};

fn point_builder() -> BuilderState<i32> {
    let fields = vec![
        BuilderField::new("x".to_string(), "i32".to_string(), None, false),
        BuilderField::new("y".to_string(), "i32".to_string(), None, false),
    ];
    BuilderState::new(fields, vec![None, None], MissingStyle::Plain)
}

#[test]
fn test_simple() {
    let p = point_builder().set("x", 1).set("y", 2).build().unwrap();

    assert_eq!(p[0], 1);
    assert_eq!(p[1], 2);
}

#[test]
fn point_test_missing() {
    let p = point_builder().set("x", 1).build();

    assert!(p.is_err());

    let err = p.as_ref().unwrap_err();
    assert_eq!(err.to_string(), "y is not set.");
}
