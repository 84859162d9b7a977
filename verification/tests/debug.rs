use schemagen::model::{
    AnnLit, Annotation, FieldDescriptor, GenArg, GenError, SchemaShape, Segment, TypeDescriptor,
    TypeExpr,
};
use schemagen::bounds::infer_bounds;
use schemagen::debug_gen::synthesize_debug;

fn ident_ty(name: &str) -> TypeExpr {
    TypeExpr::Path {
        text: name.to_string(),
        segments: vec![Segment { name: name.to_string(), args: vec![] }],
    }
}

fn wrapper_ty(outer: &str, inner: TypeExpr) -> TypeExpr {
    let text = format!("{}<{}>", outer, inner.text());
    TypeExpr::Path {
        text,
        segments: vec![Segment {
            name: outer.to_string(),
            args: vec![GenArg::Ty(Box::new(inner))],
        }],
    }
}

fn field(name: &str, ty: TypeExpr) -> FieldDescriptor {
    FieldDescriptor { name: name.to_string(), ty, annotations: vec![] }
}

fn fmt_ann(key: &str, value: &str) -> Annotation {
    Annotation::NameValue { name: key.to_string(), value: AnnLit::Str(value.to_string()) }
}

fn record(name: &str, generics: Vec<&str>, fields: Vec<FieldDescriptor>) -> TypeDescriptor {
    TypeDescriptor {
        name: name.to_string(),
        generics: generics.into_iter().map(|g| g.to_string()).collect(),
        shape: SchemaShape::NamedRecord(fields),
    }
}

#[test]
fn plain_record_full_fragment() {
    let d = record("Point", vec![], vec![field("x", ident_ty("u32")), field("y", ident_ty("u32"))]);
    let code = synthesize_debug(&d).unwrap();
    let expected = "impl std::fmt::Debug for Point {\n\
                    \x20   fn fmt(&self, f: &mut std::fmt::Formatter<'_>) -> std::result::Result<(), std::fmt::Error> {\n\
                    \x20       f.debug_struct(\"Point\")\n\
                    \x20           .field(\"x\", &self.x)\n\
                    \x20           .field(\"y\", &self.y)\n\
                    \x20           .finish()\n\
                    \x20   }\n\
                    }\n";
    assert_eq!(code, expected);
}

#[test]
fn emitted_formatting_fragment_is_valid_rust() {
    let mut y = field("y", ident_ty("u8"));
    y.annotations.push(fmt_ann("debug", "0b{:08b}"));
    let d = record("Field", vec![], vec![field("name", ident_ty("String")), y]);
    let code = synthesize_debug(&d).unwrap();
    syn::parse_file(&code).expect("emitted formatting fragment must parse");
}

#[test]
fn format_override_is_spliced_into_the_field_call() {
    let mut y = field("y", ident_ty("u8"));
    y.annotations.push(fmt_ann("debug", "{:b}"));
    let d = record("Flags", vec![], vec![y]);
    let code = synthesize_debug(&d).unwrap();
    assert!(code.contains(".field(\"y\", &format_args!(\"{:b}\", &self.y))"));
    assert!(!code.contains(".field(\"y\", &self.y)"));
}

#[test]
fn annotations_under_other_keys_are_ignored() {
    let mut y = field("y", ident_ty("u8"));
    y.annotations.push(fmt_ann("serde", "skip"));
    let d = record("Flags", vec![], vec![y]);
    let code = synthesize_debug(&d).unwrap();
    assert!(code.contains(".field(\"y\", &self.y)"));
}

#[test]
fn non_string_override_value_is_syntax_error() {
    let mut y = field("y", ident_ty("u8"));
    y.annotations.push(Annotation::NameValue { name: "debug".to_string(), value: AnnLit::NonStr });
    let d = record("Flags", vec![], vec![y]);
    match synthesize_debug(&d) {
        Err(GenError::DirectiveSyntax { message }) => {
            assert_eq!(message, "expected `identifier = \"literal\"`");
        }
        other => panic!("expected a directive syntax error, got {:?}", other.err()),
    }
}

#[test]
fn non_record_shape_is_rejected() {
    let d = TypeDescriptor {
        name: "Odd".to_string(),
        generics: vec![],
        shape: SchemaShape::TaggedUnion,
    };
    assert!(matches!(synthesize_debug(&d), Err(GenError::UnsupportedShape)));
}

#[test]
fn directly_used_parameter_is_bounded() {
    let d = record("Wrapper", vec!["T"], vec![field("value", ident_ty("T"))]);
    let code = synthesize_debug(&d).unwrap();
    assert!(code.contains("impl<T> std::fmt::Debug for Wrapper<T> where T: std::fmt::Debug, {"));
}

#[test]
fn wrapped_parameter_is_bounded() {
    let d = record(
        "Wrapper",
        vec!["T"],
        vec![field("value", wrapper_ty("Option", ident_ty("T")))],
    );
    let code = synthesize_debug(&d).unwrap();
    assert!(code.contains("where T: std::fmt::Debug,"));
}

#[test]
fn phantom_marker_parameter_is_not_bounded() {
    // A parameter reachable only through an unrecognized wrapper name is
    // never matched by the one-level detection, and thus never bounded.
    let d = record(
        "Field",
        vec!["T", "U"],
        vec![
            field("value", ident_ty("U")),
            field("marker", wrapper_ty("PhantomMarker", ident_ty("T"))),
        ],
    );
    let fields = match &d.shape {
        SchemaShape::NamedRecord(fields) => fields,
        _ => unreachable!(),
    };
    let bounded = infer_bounds(&d.generics, fields);
    assert_eq!(bounded, vec!["U".to_string()]);
    let code = synthesize_debug(&d).unwrap();
    assert!(code.contains("impl<T, U> std::fmt::Debug for Field<T, U> where U: std::fmt::Debug, {"));
    assert!(!code.contains("T: std::fmt::Debug"));
}

#[test]
fn deeply_nested_parameter_is_not_bounded() {
    // Two recognized wrapper layers: detection stops at one level, so the
    // parameter stays unbounded.
    let d = record(
        "Deep",
        vec!["T"],
        vec![field("value", wrapper_ty("Option", wrapper_ty("Vec", ident_ty("T"))))],
    );
    let code = synthesize_debug(&d).unwrap();
    assert!(!code.contains("where"));
    assert!(code.contains("impl<T> std::fmt::Debug for Deep<T> {"));
}

#[test]
fn unused_parameter_record_has_no_where_clause() {
    let d = record("Plain", vec!["T"], vec![field("x", ident_ty("u32"))]);
    let code = synthesize_debug(&d).unwrap();
    assert!(!code.contains("where"));
}
