use builder_macro::builder::{Builder, BuilderField};
use builder_macro::directive::{resolve_field, RawAnnotation, RawDirective};
use builder_macro::schema::{assemble, DeclInput, DeclShape, FieldDecl};
use builder_macro::state::{BuilderState, MissingStyle};

fn named_decl(name: &str, fields: Vec<FieldDecl>) -> DeclInput {
    DeclInput {
        name: name.to_string(),
        generics: Vec::new(),
        where_clause: None,
        shape: DeclShape::NamedFields(fields),
    }
}

fn plain_field(name: &str, ty: &str) -> FieldDecl {
    FieldDecl { name: name.to_string(), ty: ty.to_string(), annotations: Vec::new() }
}

#[test]
fn test_generate_exact_text() {
    let mut b = Builder::new("Point".to_string());
    b.add_field(BuilderField::new("x".to_string(), "i32".to_string(), None, false));
    b.add_field(BuilderField::new(
        "y".to_string(),
        "i32".to_string(),
        Some("7".to_string()),
        false,
    ));
    let out = b.generate();
    let expected = "pub struct PointBuilder {
    x: Option<i32>,
    y: Option<i32>,
}
impl Point {
    pub fn builder() -> PointBuilder {
        PointBuilder {
            x: None,
            y: Some(7.into()),
        }
    }
}
impl PointBuilder {
    pub fn with_x<I: Into<i32>>(mut self, x: I) -> Self {
        self.x = Some(x.into());
        self
    }
    pub fn with_y<I: Into<i32>>(mut self, y: I) -> Self {
        self.y = Some(y.into());
        self
    }
    pub fn build(self) -> Result<Point, String> {
        Ok(Point {
            x: self.x.ok_or_else(|| \"x is not set.\".to_string())?,
            y: self.y.unwrap(),
        })
    }
}
";
    assert_eq!(out, expected);
}

#[test]
fn test_derive_exact_text() {
    let admin_annotations = vec![RawAnnotation::Grouped(vec![RawDirective::with_arg(
        "default".to_string(),
        "false".to_string(),
    )])];
    let decl = named_decl(
        "User",
        vec![
            plain_field("name", "String"),
            FieldDecl {
                name: "admin".to_string(),
                ty: "bool".to_string(),
                annotations: admin_annotations,
            },
        ],
    );
    let out = builder_macro::derive(decl);
    let expected = "pub struct UserBuilder {
    name: Option<String>,
    admin: Option<bool>,
}
impl Default for UserBuilder {
    fn default() -> Self {
        Self {
            name: None,
            admin: Some(false.into()),
        }
    }
}
impl UserBuilder {
    pub fn build(self) -> Result<User, String> {
        Ok(User {
            name: self.name.ok_or(\"Field 'name' is required.\".to_string())?,
            admin: self.admin.ok_or(\"Field 'admin' is required.\".to_string())?,
        })
    }
}
impl User {
    pub fn builder() -> UserBuilder {
        UserBuilder::default()
    }
}
impl UserBuilder {
    pub fn with_name<I: Into<String>>(mut self, name: I) -> Self {
        self.name = Some(name.into());
        self
    }
    pub fn with_admin<I: Into<bool>>(mut self, admin: I) -> Self {
        self.admin = Some(admin.into());
        self
    }
}
";
    assert_eq!(out, expected);
}

#[test]
fn test_derive_generics_threaded_through() {
    let b_annotations = vec![RawAnnotation::Grouped(vec![RawDirective::with_arg(
        "default".to_string(),
        "Default::default()".to_string(),
    )])];
    let decl = DeclInput {
        name: "Pair".to_string(),
        generics: vec!["A".to_string(), "B".to_string()],
        where_clause: Some("B: Default".to_string()),
        shape: DeclShape::NamedFields(vec![
            plain_field("a", "A"),
            FieldDecl {
                name: "b".to_string(),
                ty: "B".to_string(),
                annotations: b_annotations,
            },
        ]),
    };
    let out = builder_macro::derive(decl);
    assert!(out.contains("pub struct PairBuilder<A, B> where B: Default {\n"));
    assert!(out.contains("impl<A, B> Default for PairBuilder<A, B> where B: Default {\n"));
    assert!(out.contains("pub fn build(self) -> Result<Pair<A, B>, String> {\n"));
    assert!(out.contains("impl<A, B> Pair<A, B> where B: Default {\n"));
    assert!(out.contains("pub fn builder() -> PairBuilder<A, B> {\n"));
    assert!(out.contains("pub fn with_a<I: Into<A>>(mut self, a: I) -> Self {\n"));
}

#[test]
fn test_skip_without_default_fails_generation() {
    let id_annotations = vec![RawAnnotation::Flat(RawDirective::marker(
        "builder_skip".to_string(),
    ))];
    let r = resolve_field("id".to_string(), "usize".to_string(), &id_annotations);
    let diags = r.err().unwrap();
    assert_eq!(diags.len(), 1);
    assert_eq!(diags[0].field, "id");
    assert_eq!(diags[0].message, "cannot skip a field without a default value");

    let decl = named_decl(
        "User",
        vec![FieldDecl {
            name: "id".to_string(),
            ty: "usize".to_string(),
            annotations: vec![RawAnnotation::Grouped(vec![RawDirective::marker(
                "skip".to_string(),
            )])],
        }],
    );
    let out = builder_macro::derive(decl);
    assert_eq!(
        out,
        "compile_error!(\"id: cannot skip a field without a default value\");\n"
    );
}

#[test]
fn test_marker_with_argument_is_rejected() {
    let annotations = vec![RawAnnotation::Grouped(vec![RawDirective::with_arg(
        "skip".to_string(),
        "yes".to_string(),
    )])];
    let diags = resolve_field("id".to_string(), "usize".to_string(), &annotations)
        .err()
        .unwrap();
    assert_eq!(diags.len(), 1);
    assert_eq!(diags[0].message, "expected no arguments");

    let annotations = vec![RawAnnotation::Flat(RawDirective::with_arg(
        "builder_use_default".to_string(),
        "yes".to_string(),
    ))];
    let diags = resolve_field("age".to_string(), "u32".to_string(), &annotations)
        .err()
        .unwrap();
    assert_eq!(diags[0].message, "expected no arguments");
}

#[test]
fn test_default_without_argument_is_rejected() {
    let annotations = vec![RawAnnotation::Grouped(vec![RawDirective::marker(
        "default".to_string(),
    )])];
    let diags = resolve_field("age".to_string(), "u32".to_string(), &annotations)
        .err()
        .unwrap();
    assert_eq!(diags.len(), 1);
    assert_eq!(diags[0].message, "expected a default value");
}

#[test]
fn test_unknown_grouped_directive_is_rejected() {
    let annotations = vec![RawAnnotation::Grouped(vec![RawDirective::marker(
        "frobnicate".to_string(),
    )])];
    let diags = resolve_field("age".to_string(), "u32".to_string(), &annotations)
        .err()
        .unwrap();
    assert_eq!(diags.len(), 1);
    assert_eq!(diags[0].message, "unknown directive `frobnicate`");
}

#[test]
fn test_unknown_flat_marker_is_ignored() {
    let annotations = vec![RawAnnotation::Flat(RawDirective::marker(
        "serde_skip".to_string(),
    ))];
    let f = resolve_field("age".to_string(), "u32".to_string(), &annotations).unwrap();
    assert_eq!(f.name, "age");
    assert!(f.default.is_none());
    assert!(!f.skip);
}

#[test]
fn test_use_default_forces_default_expression() {
    let annotations = vec![RawAnnotation::Flat(RawDirective::marker(
        "builder_use_default".to_string(),
    ))];
    let f = resolve_field("test".to_string(), "Option<bool>".to_string(), &annotations).unwrap();
    assert_eq!(f.default.as_deref(), Some("Default::default()"));
    assert!(!f.skip);
}

#[test]
fn test_later_directive_overwrites_earlier() {
    let annotations = vec![
        RawAnnotation::Grouped(vec![RawDirective::with_arg(
            "default".to_string(),
            "1".to_string(),
        )]),
        RawAnnotation::Flat(RawDirective::with_arg(
            "builder_default".to_string(),
            "2".to_string(),
        )),
    ];
    let f = resolve_field("n".to_string(), "u8".to_string(), &annotations).unwrap();
    assert_eq!(f.default.as_deref(), Some("2"));
}

#[test]
fn test_unsupported_shapes_are_rejected() {
    let decl = DeclInput {
        name: "Color".to_string(),
        generics: Vec::new(),
        where_clause: None,
        shape: DeclShape::EnumShape,
    };
    let diags = assemble(decl).err().unwrap();
    assert_eq!(diags.len(), 1);
    assert_eq!(diags[0].field, "Color");
    assert_eq!(
        diags[0].message,
        "unsupported declaration shape: expected a struct with named fields, found an enum"
    );

    let decl = DeclInput {
        name: "Wrapper".to_string(),
        generics: Vec::new(),
        where_clause: None,
        shape: DeclShape::TupleFields,
    };
    let out = builder_macro::derive(decl);
    assert_eq!(
        out,
        "compile_error!(\"Wrapper: unsupported declaration shape: expected a struct with named fields, found a tuple struct\");\n"
    );

    let decl = DeclInput {
        name: "Unit".to_string(),
        generics: Vec::new(),
        where_clause: None,
        shape: DeclShape::UnitShape,
    };
    let diags = assemble(decl).err().unwrap();
    assert_eq!(
        diags[0].message,
        "unsupported declaration shape: expected a struct with named fields, found a unit struct"
    );
}

#[test]
fn test_diagnostics_are_batch_collected() {
    let decl = named_decl(
        "Broken",
        vec![
            FieldDecl {
                name: "first".to_string(),
                ty: "u8".to_string(),
                annotations: vec![RawAnnotation::Grouped(vec![RawDirective::marker(
                    "skip".to_string(),
                )])],
            },
            plain_field("fine", "u8"),
            FieldDecl {
                name: "third".to_string(),
                ty: "u8".to_string(),
                annotations: vec![RawAnnotation::Grouped(vec![RawDirective::marker(
                    "default".to_string(),
                )])],
            },
        ],
    );
    let diags = assemble(decl).err().unwrap();
    assert_eq!(diags.len(), 2);
    assert_eq!(diags[0].field, "first");
    assert_eq!(diags[0].message, "cannot skip a field without a default value");
    assert_eq!(diags[1].field, "third");
    assert_eq!(diags[1].message, "expected a default value");
}

#[test]
fn test_no_setter_emitted_for_skipped_field() {
    let id_annotations = vec![RawAnnotation::Grouped(vec![
        RawDirective::marker("skip".to_string()),
        RawDirective::with_arg("default".to_string(), "0".to_string()),
    ])];
    let decl = named_decl(
        "User",
        vec![
            FieldDecl {
                name: "id".to_string(),
                ty: "usize".to_string(),
                annotations: id_annotations,
            },
            plain_field("name", "String"),
        ],
    );
    let out = builder_macro::derive(decl);
    assert!(!out.contains("with_id"));
    assert!(out.contains("pub fn with_name"));
    assert!(out.contains("            id: Some(0.into()),\n"));
}

#[test]
fn test_generate_reports_skip_without_default() {
    let mut b = Builder::new("User".to_string());
    b.add_field(BuilderField::new("id".to_string(), "usize".to_string(), None, true));
    let out = b.generate();
    assert!(out.contains("compile_error!(\"cannot skip a field without a default value\");\n"));
    assert!(!out.contains("with_id"));
}

#[test]
fn test_optional_untouched_collapses_to_absent() {
    let fields = vec![
        BuilderField::new("name".to_string(), "String".to_string(), None, false),
        BuilderField::new("age".to_string(), "Option<u16>".to_string(), None, false),
    ];
    let b: BuilderState<Option<u16>> = BuilderState::new(
        fields,
        vec![None, Some(None)],
        MissingStyle::Labeled,
    );
    let built = b.set("name", Some(7)).build().unwrap();
    assert_eq!(built[1], None);
}
