use builder_macro::builder::BuilderField;
use builder_macro::directive::{resolve_field, RawAnnotation, RawDirective};
use builder_macro::state::{BuilderState, MissingStyle};

fn circle_fields() -> Vec<BuilderField> {
    let x = BuilderField::new("x".to_string(), "f64".to_string(), None, false);
    let y = BuilderField::new("y".to_string(), "f64".to_string(), None, false);
    let radius_annotations = vec![RawAnnotation::Grouped(vec![RawDirective::with_arg(
        "default".to_string(),
        "1.0".to_string(),
    )])];
    let radius = resolve_field("radius".to_string(), "f64".to_string(), &radius_annotations)
        .unwrap();
    vec![x, y, radius]
}

fn circle_builder() -> BuilderState<f64> {
    // The default expression `1.0` is evaluated afresh on every entry.
    BuilderState::new(circle_fields(), vec![None, None, Some(1.0)], MissingStyle::Labeled)
}

#[test]
fn circle_test_default() {
    let circle = circle_builder().set("x", 0.0).set("y", 0.0).build().unwrap();

    assert_eq!(circle[0], 0.0);
    assert_eq!(circle[1], 0.0);
    assert_eq!(circle[2], 1.0);
}

#[test]
fn test_set_default() {
    let circle = circle_builder()
        .set("x", 0.0)
        .set("y", 0.0)
        .set("radius", 2.0)
        .build()
        .unwrap();

    assert_eq!(circle[0], 0.0);
    assert_eq!(circle[1], 0.0);
    assert_eq!(circle[2], 2.0);
}

#[test]
fn circle_test_missing() {
    let error = circle_builder().set("x", 1.0).build().unwrap_err();

    assert_eq!(error, "Field 'y' is required.");
}

#[test]
#[should_panic]
fn test_panic() {
    let _ = circle_builder().build().unwrap();
}
