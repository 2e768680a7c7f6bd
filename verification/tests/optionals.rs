use builder_macro::builder::BuilderField;
use builder_macro::directive::{resolve_field, RawAnnotation, RawDirective};
use builder_macro::state::{BuilderState, MissingStyle};

#[derive(Debug, Clone, PartialEq)]
enum Val {
    S(String),
    Age(Option<u16>),
    Object(Option<Option<u32>>),
    Test(Option<bool>),
}

fn user_builder() -> BuilderState<Val> {
    let fields = vec![
        BuilderField::new("name".to_string(), "String".to_string(), None, false),
        BuilderField::new("age".to_string(), "Option<u16>".to_string(), None, false),
    ];
    // `age` is of an optional type without a default: its slot starts
    // populated with the absent value.
    BuilderState::new(fields, vec![None, Some(Val::Age(None))], MissingStyle::Labeled)
}

fn complex_builder() -> BuilderState<Val> {
    let object = BuilderField::new(
        "object".to_string(),
        "Option<Option<u32>>".to_string(),
        None,
        false,
    );
    let test_annotations = vec![RawAnnotation::Flat(RawDirective::marker(
        "builder_use_default".to_string(),
    ))];
    let test = resolve_field("test".to_string(), "Option<bool>".to_string(), &test_annotations)
        .unwrap();
    // `object` starts at the absent value; `test` carries the forced
    // `Default::default()` expression, whose evaluation is the absent value.
    BuilderState::new(
        vec![object, test],
        vec![Some(Val::Object(None)), Some(Val::Test(None))],
        MissingStyle::Labeled,
    )
}

#[test]
fn test_optional() {
    let u = user_builder()
        .set("name", Val::S("Alice".to_string()))
        .set("age", Val::Age(Some(30u16)))
        .build()
        .unwrap();

    assert_eq!(u[0], Val::S("Alice".to_string()));
    assert_eq!(u[1], Val::Age(Some(30)));

    let v = user_builder()
        .set("name", Val::S("Frank".to_string()))
        .set("age", Val::Age(Some(15)))
        .build()
        .unwrap();

    assert_eq!(v[0], Val::S("Frank".to_string()));
    assert_eq!(v[1], Val::Age(Some(15)));

    let c = complex_builder()
        .set("object", Val::Object(Some(Some(42))))
        .build()
        .unwrap();

    assert_eq!(c[0], Val::Object(Some(Some(42))));

    let d = complex_builder()
        .set("object", Val::Object(Some(None)))
        .build()
        .unwrap();

    assert_eq!(d[0], Val::Object(Some(None)));

    let e = complex_builder()
        .set("object", Val::Object(None))
        .build()
        .unwrap();

    assert_eq!(e[0], Val::Object(None));
}
