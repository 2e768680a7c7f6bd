use builder_macro::directive::{resolve_field, RawAnnotation, RawDirective};
use builder_macro::state::{BuilderState, MissingStyle};

#[test]
fn test_generic() {
    // Point<A, B> where B: Default { x: A, y: B = Default::default() },
    // taken at A = i32, B = i32.
    let x = resolve_field("x".to_string(), "A".to_string(), &Vec::new()).unwrap();
    let y_annotations = vec![RawAnnotation::Grouped(vec![RawDirective::with_arg(
        "default".to_string(),
        "Default::default()".to_string(),
    )])];
    let y = resolve_field("y".to_string(), "B".to_string(), &y_annotations).unwrap();

    let builder: BuilderState<i32> = BuilderState::new(
        vec![x, y],
        vec![None, Some(i32::default())],
        MissingStyle::Labeled,
    );
    let tuple = builder.set("x", 1).build().unwrap();

    assert_eq!(tuple[0], 1);
    assert_eq!(tuple[1], 0);
}
