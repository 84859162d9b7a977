use schemagen::model::{
    AnnLit, Annotation, CallArg, FieldDescriptor, GenArg, GenError, SchemaShape, Segment,
    TypeDescriptor, TypeExpr,
};
use schemagen::builder_gen::synthesize_builder;

fn ident_ty(name: &str) -> TypeExpr {
    TypeExpr::Path {
        text: name.to_string(),
        segments: vec![Segment { name: name.to_string(), args: vec![] }],
    }
}

fn wrapper_ty(outer: &str, inner: TypeExpr) -> TypeExpr {
    let text = format!("{}<{}>", outer, inner.text());
    TypeExpr::Path {
        text,
        segments: vec![Segment {
            name: outer.to_string(),
            args: vec![GenArg::Ty(Box::new(inner))],
        }],
    }
}

fn field(name: &str, ty: TypeExpr) -> FieldDescriptor {
    FieldDescriptor { name: name.to_string(), ty, annotations: vec![] }
}

fn each_ann(inner_key: &str, value: &str) -> Annotation {
    Annotation::Call {
        name: "builder".to_string(),
        arg: CallArg::Assign {
            key: inner_key.to_string(),
            value: AnnLit::Str(value.to_string()),
        },
    }
}

fn record(name: &str, fields: Vec<FieldDescriptor>) -> TypeDescriptor {
    TypeDescriptor {
        name: name.to_string(),
        generics: vec![],
        shape: SchemaShape::NamedRecord(fields),
    }
}

#[test]
fn required_fields_full_fragment() {
    let d = record("Point", vec![field("x", ident_ty("u32")), field("y", ident_ty("u32"))]);
    let code = synthesize_builder(&d).unwrap();
    let expected = "impl Point {\n\
                    \x20   pub fn builder() -> PointBuilder {\n\
                    \x20       PointBuilder {\n\
                    \x20           x: None,\n\
                    \x20           y: None,\n\
                    \x20       }\n\
                    \x20   }\n\
                    }\n\
                    \n\
                    pub struct PointBuilder {\n\
                    \x20   x: Option<u32>,\n\
                    \x20   y: Option<u32>,\n\
                    }\n\
                    \n\
                    impl PointBuilder {\n\
                    \x20   pub fn build(&mut self) -> Result<Point, Box<dyn std::error::Error>> {\n\
                    \x20       Ok(Point {\n\
                    \x20           x: self.x.clone().ok_or(\"x is not set\")?,\n\
                    \x20           y: self.y.clone().ok_or(\"y is not set\")?,\n\
                    \x20       })\n\
                    \x20   }\n\
                    \n\
                    \x20   fn x(&mut self, x: u32) -> &mut Self {\n\
                    \x20       self.x = Some(x);\n\
                    \x20       self\n\
                    \x20   }\n\
                    \x20   fn y(&mut self, y: u32) -> &mut Self {\n\
                    \x20       self.y = Some(y);\n\
                    \x20       self\n\
                    \x20   }\n\
                    }\n";
    assert_eq!(code, expected);
}

#[test]
fn emitted_builder_fragment_is_valid_rust() {
    let mut args = field("args", wrapper_ty("Vec", ident_ty("String")));
    args.annotations.push(each_ann("each", "arg"));
    let d = record(
        "Command",
        vec![
            field("executable", ident_ty("String")),
            args,
            field("current_dir", wrapper_ty("Option", ident_ty("String"))),
        ],
    );
    let code = synthesize_builder(&d).unwrap();
    syn::parse_file(&code).expect("emitted builder fragment must parse");
}

#[test]
fn optional_field_setter_takes_inner_type() {
    let d = record("Job", vec![field("nickname", wrapper_ty("Option", ident_ty("String")))]);
    let code = synthesize_builder(&d).unwrap();
    assert!(code.contains("fn nickname(&mut self, nickname: String) -> &mut Self"));
    assert!(code.contains("nickname: Option<String>,"));
    assert!(code.contains("nickname: self.nickname.clone(),\n"));
    assert!(!code.contains("ok_or"));
}

#[test]
fn each_accessor_with_differing_name_keeps_bulk_setter() {
    let mut args = field("args", wrapper_ty("Vec", ident_ty("String")));
    args.annotations.push(each_ann("each", "arg"));
    let d = record("Command", vec![args]);
    let code = synthesize_builder(&d).unwrap();
    assert!(code.contains("fn arg(&mut self, arg: String) -> &mut Self"));
    assert!(code.contains("fn args(&mut self, args: Vec<String>) -> &mut Self"));
    assert!(code.contains("args: self.args.clone().unwrap_or(vec![]),\n"));
}

#[test]
fn each_accessor_with_same_name_omits_bulk_setter() {
    let mut args = field("args", wrapper_ty("Vec", ident_ty("String")));
    args.annotations.push(each_ann("each", "args"));
    let d = record("Command", vec![args]);
    let code = synthesize_builder(&d).unwrap();
    assert!(code.contains("fn args(&mut self, args: String) -> &mut Self"));
    assert!(!code.contains("fn args(&mut self, args: Vec<String>)"));
}

#[test]
fn wrong_inner_key_is_syntax_error_naming_each() {
    let mut f = field("args", wrapper_ty("Vec", ident_ty("String")));
    f.annotations.push(each_ann("foo", "x"));
    let d = record("Command", vec![f]);
    match synthesize_builder(&d) {
        Err(GenError::DirectiveSyntax { message }) => {
            assert_eq!(message, "expected key `each`");
        }
        other => panic!("expected a directive syntax error, got {:?}", other.err()),
    }
}

#[test]
fn non_string_directive_value_is_syntax_error() {
    let mut f = field("args", wrapper_ty("Vec", ident_ty("String")));
    f.annotations.push(Annotation::Call {
        name: "builder".to_string(),
        arg: CallArg::Assign { key: "each".to_string(), value: AnnLit::NonStr },
    });
    let d = record("Command", vec![f]);
    match synthesize_builder(&d) {
        Err(GenError::DirectiveSyntax { message }) => {
            assert_eq!(message, "expected `identifier = \"literal\"`");
        }
        other => panic!("expected a directive syntax error, got {:?}", other.err()),
    }
}

#[test]
fn each_accessor_on_non_sequence_field_is_shape_error() {
    let mut f = field("args", ident_ty("String"));
    f.annotations.push(each_ann("each", "arg"));
    let d = record("Command", vec![f]);
    match synthesize_builder(&d) {
        Err(GenError::RepeatedShape { field }) => assert_eq!(field, "args"),
        other => panic!("expected a repeated-field shape error, got {:?}", other.err()),
    }
}

#[test]
fn unrelated_annotations_are_ignored() {
    let mut f = field("x", ident_ty("u32"));
    f.annotations.push(Annotation::Other);
    f.annotations.push(Annotation::Call {
        name: "serde".to_string(),
        arg: CallArg::Malformed,
    });
    let d = record("Point", vec![f]);
    let code = synthesize_builder(&d).unwrap();
    assert!(code.contains("fn x(&mut self, x: u32) -> &mut Self"));
}

#[test]
fn first_directive_of_a_kind_decides() {
    let mut args = field("args", wrapper_ty("Vec", ident_ty("String")));
    args.annotations.push(each_ann("each", "arg"));
    args.annotations.push(each_ann("each", "other"));
    let d = record("Command", vec![args]);
    let code = synthesize_builder(&d).unwrap();
    assert!(code.contains("fn arg(&mut self, arg: String)"));
    assert!(!code.contains("fn other"));
}

#[test]
fn empty_record_still_builds() {
    let d = record("Unit0", vec![]);
    let code = synthesize_builder(&d).unwrap();
    assert!(code.contains("pub struct Unit0Builder {\n}"));
    syn::parse_file(&code).expect("emitted fragment for an empty record must parse");
}

#[test]
fn non_record_shapes_are_rejected() {
    for shape in [
        SchemaShape::PositionalRecord,
        SchemaShape::UnitRecord,
        SchemaShape::TaggedUnion,
        SchemaShape::UntaggedUnion,
    ] {
        let d = TypeDescriptor {
            name: "Odd".to_string(),
            generics: vec![],
            shape,
        };
        assert!(matches!(synthesize_builder(&d), Err(GenError::UnsupportedShape)));
    }
}

#[test]
fn multi_segment_path_is_not_a_wrapper() {
    let ty = TypeExpr::Path {
        text: "std::option::Option<u32>".to_string(),
        segments: vec![
            Segment { name: "std".to_string(), args: vec![] },
            Segment { name: "option".to_string(), args: vec![] },
            Segment {
                name: "Option".to_string(),
                args: vec![GenArg::Ty(Box::new(ident_ty("u32")))],
            },
        ],
    };
    let d = record("Aliased", vec![field("v", ty)]);
    let code = synthesize_builder(&d).unwrap();
    assert!(code.contains("v: self.v.clone().ok_or(\"v is not set\")?,"));
    assert!(code.contains("fn v(&mut self, v: std::option::Option<u32>) -> &mut Self"));
}
