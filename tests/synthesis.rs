use derive_builder::annotation::{extract_attrs_value, parse_key_value};
use derive_builder::classify::{classify, inner_type_t, FieldClassification};
use derive_builder::model::{
    Annotation, ExpectedToken, FieldDescription, MalformedAnnotation, RecordBody, RecordDescription,
    SynthesisError, Token, TypeDescriptor,
};
use derive_builder::plan::{get_struct_and_builder_ident, get_struct_fields};

fn bare(name: &str) -> TypeDescriptor {
    TypeDescriptor::Bare { name: name.to_string() }
}

fn wrapped(outer: &str, inner: TypeDescriptor) -> TypeDescriptor {
    TypeDescriptor::Wrapped { outer: outer.to_string(), inner: Box::new(inner) }
}

fn ident(s: &str) -> Token {
    Token::Ident(s.to_string())
}

fn lit(s: &str) -> Token {
    Token::Literal(s.to_string())
}

fn builder_attr(tokens: Vec<Token>) -> Annotation {
    Annotation { path: vec!["builder".to_string()], args: Some(tokens) }
}

fn each(name: &str) -> Annotation {
    builder_attr(vec![ident("each"), Token::Punct('='), lit(&format!("\"{}\"", name))])
}

fn field(name: &str, ty: TypeDescriptor, annotations: Vec<Annotation>) -> FieldDescription {
    FieldDescription { name: name.to_string(), ty, annotations }
}

fn command_record() -> RecordDescription {
    RecordDescription {
        name: "Command".to_string(),
        body: RecordBody::Named(vec![
            field("executable", bare("String"), vec![]),
            field("args", wrapped("Vec", bare("String")), vec![each("arg")]),
            field("env", wrapped("Vec", bare("String")), vec![]),
            field("current_dir", wrapped("Option", bare("String")), vec![]),
        ]),
    }
}

#[test]
fn builder_name_appends_suffix() {
    let r = command_record();
    let (name, bident) = get_struct_and_builder_ident(&r);
    assert_eq!(name, "Command");
    assert_eq!(bident, "CommandBuilder");
}

#[test]
fn tuple_and_enum_records_are_unsupported() {
    for body in [RecordBody::Tuple, RecordBody::Unit, RecordBody::Enum] {
        let r = RecordDescription { name: "Pair".to_string(), body };
        assert_eq!(
            get_struct_fields(&r).unwrap_err(),
            SynthesisError::UnsupportedShape { name: "Pair".to_string() }
        );
        assert!(matches!(derive_builder::plan::derive(&r), Err(SynthesisError::UnsupportedShape { .. })));
    }
}

#[test]
fn named_record_fields_are_returned_in_order() {
    let r = command_record();
    let fs = get_struct_fields(&r).unwrap();
    let names: Vec<&str> = fs.iter().map(|f| f.name.as_str()).collect();
    assert_eq!(names, vec!["executable", "args", "env", "current_dir"]);
}

#[test]
fn inner_type_of_wrappers() {
    let t = wrapped("Option", bare("u8"));
    assert_eq!(inner_type_t("Option", &t), Some(&bare("u8")));
    assert_eq!(inner_type_t("Vec", &t), None);
    assert_eq!(inner_type_t("Option", &bare("Option")), None);
}

#[test]
fn classify_plain_optional_repeated() {
    let f = field("x", bare("String"), vec![]);
    assert_eq!(classify(&f).unwrap(), FieldClassification::Plain(bare("String")));
    let f = field("x", wrapped("Option", bare("String")), vec![]);
    assert_eq!(classify(&f).unwrap(), FieldClassification::AlreadyOptional(bare("String")));
    let f = field("x", wrapped("Vec", bare("String")), vec![each("item")]);
    assert_eq!(
        classify(&f).unwrap(),
        FieldClassification::Repeated(bare("String"), "item".to_string())
    );
    let f = field("x", wrapped("Vec", bare("String")), vec![]);
    assert_eq!(classify(&f).unwrap(), FieldClassification::Plain(wrapped("Vec", bare("String"))));
}

#[test]
fn append_annotation_on_non_sequence_is_plain() {
    let f = field("x", bare("String"), vec![each("item")]);
    assert_eq!(classify(&f).unwrap(), FieldClassification::Plain(bare("String")));
}

#[test]
fn optional_sequence_with_append_annotation_is_unsupported() {
    let f = field("x", wrapped("Option", wrapped("Vec", bare("u8"))), vec![each("item")]);
    assert_eq!(classify(&f).unwrap_err(), SynthesisError::UnsupportedShape { name: "x".to_string() });
}

#[test]
fn wrong_key_is_rejected() {
    let a = builder_attr(vec![ident("eachx"), Token::Punct('='), lit("\"x\"")]);
    let f = field("args", wrapped("Vec", bare("String")), vec![a]);
    assert_eq!(
        classify(&f).unwrap_err(),
        SynthesisError::MalformedAnnotation {
            field: "args".to_string(),
            expected: ExpectedToken::Key,
            found: Some(ident("eachx")),
        }
    );
    let r = RecordDescription { name: "R".to_string(), body: RecordBody::Named(vec![f]) };
    assert!(matches!(derive_builder::plan::derive(&r), Err(SynthesisError::MalformedAnnotation { .. })));
}

#[test]
fn missing_separator_is_rejected() {
    let tokens = vec![ident("each"), lit("\"x\"")];
    assert_eq!(
        parse_key_value(&tokens, "each").unwrap_err(),
        MalformedAnnotation { expected: ExpectedToken::Equals, found: Some(lit("\"x\"")) }
    );
}

#[test]
fn non_string_literal_is_rejected() {
    let tokens = vec![ident("each"), Token::Punct('='), lit("42")];
    assert_eq!(
        parse_key_value(&tokens, "each").unwrap_err(),
        MalformedAnnotation { expected: ExpectedToken::StringLiteral, found: Some(lit("42")) }
    );
    let tokens = vec![ident("each"), Token::Punct('='), ident("x")];
    assert_eq!(
        parse_key_value(&tokens, "each").unwrap_err(),
        MalformedAnnotation { expected: ExpectedToken::StringLiteral, found: Some(ident("x")) }
    );
}

#[test]
fn truncated_or_trailing_arguments_are_rejected() {
    let tokens = vec![ident("each"), Token::Punct('=')];
    assert_eq!(
        parse_key_value(&tokens, "each").unwrap_err(),
        MalformedAnnotation { expected: ExpectedToken::StringLiteral, found: None }
    );
    let tokens: Vec<Token> = vec![];
    assert_eq!(
        parse_key_value(&tokens, "each").unwrap_err(),
        MalformedAnnotation { expected: ExpectedToken::Key, found: None }
    );
    let tokens = vec![ident("each"), Token::Punct('='), lit("\"x\""), Token::Punct(',')];
    assert_eq!(
        parse_key_value(&tokens, "each").unwrap_err(),
        MalformedAnnotation { expected: ExpectedToken::End, found: Some(Token::Punct(',')) }
    );
}

#[test]
fn literal_escapes_are_resolved() {
    let tokens = vec![ident("each"), Token::Punct('='), lit("\"a\\x72g\"")];
    assert_eq!(parse_key_value(&tokens, "each").unwrap(), "arg");
    let tokens = vec![ident("each"), Token::Punct('='), lit("r\"arg\"")];
    assert_eq!(parse_key_value(&tokens, "each").unwrap(), "arg");
}

#[test]
fn absent_annotations_give_no_value() {
    let f = field("x", bare("u8"), vec![]);
    assert_eq!(extract_attrs_value(&f, "builder", "each"), Ok(None));
    let other = Annotation { path: vec!["serde".to_string()], args: Some(vec![ident("rename")]) };
    let two_segments = Annotation {
        path: vec!["a".to_string(), "builder".to_string()],
        args: Some(vec![ident("oops")]),
    };
    let f = field("x", bare("u8"), vec![other, two_segments]);
    assert_eq!(extract_attrs_value(&f, "builder", "each"), Ok(None));
}

#[test]
fn builder_annotation_without_arguments_is_rejected() {
    let bare_attr = Annotation { path: vec!["builder".to_string()], args: None };
    let f = field("xs", wrapped("Vec", bare("String")), vec![bare_attr, each("x")]);
    assert_eq!(
        extract_attrs_value(&f, "builder", "each"),
        Err(MalformedAnnotation { expected: ExpectedToken::ArgumentList, found: None })
    );
    assert_eq!(
        classify(&f).unwrap_err(),
        SynthesisError::MalformedAnnotation {
            field: "xs".to_string(),
            expected: ExpectedToken::ArgumentList,
            found: None,
        }
    );
}

#[test]
fn other_literal_kinds_are_rejected() {
    for text in ["c\"arg\"", "b\"arg\"", "'a'", "true", " \"arg\""] {
        let tokens = vec![ident("each"), Token::Punct('='), lit(text)];
        assert_eq!(
            parse_key_value(&tokens, "each").unwrap_err(),
            MalformedAnnotation { expected: ExpectedToken::StringLiteral, found: Some(lit(text)) }
        );
    }
}

#[test]
fn first_deciding_annotation_wins() {
    let f = field("x", bare("u8"), vec![each("one"), each("two")]);
    assert_eq!(extract_attrs_value(&f, "builder", "each"), Ok(Some("one".to_string())));
}

#[test]
fn derive_plans_command_builder() {
    let plan = derive_builder::plan::derive(&command_record()).unwrap();
    assert_eq!(plan.record_name, "Command");
    assert_eq!(plan.builder_name, "CommandBuilder");
    assert_eq!(plan.slots.len(), 4);
    let s = &plan.slots[0];
    assert_eq!(s.field, "executable");
    assert_eq!(s.slot_type, wrapped("Option", bare("String")));
    assert_eq!(s.setter_param, bare("String"));
    let s = &plan.slots[1];
    assert_eq!(s.field, "args");
    assert_eq!(s.slot_type, wrapped("Vec", bare("String")));
    assert_eq!(s.setter_param, wrapped("Vec", bare("String")));
    assert_eq!(s.classification, FieldClassification::Repeated(bare("String"), "arg".to_string()));
    let s = &plan.slots[2];
    assert_eq!(s.slot_type, wrapped("Option", wrapped("Vec", bare("String"))));
    assert_eq!(s.classification, FieldClassification::Plain(wrapped("Vec", bare("String"))));
    let s = &plan.slots[3];
    assert_eq!(s.slot_type, wrapped("Option", bare("String")));
    assert_eq!(s.setter_param, bare("String"));
}

#[test]
fn derive_reports_first_failing_field() {
    let bad_a = builder_attr(vec![ident("each"), lit("\"x\"")]);
    let bad_b = builder_attr(vec![ident("eachx")]);
    let r = RecordDescription {
        name: "R".to_string(),
        body: RecordBody::Named(vec![
            field("ok", bare("u8"), vec![]),
            field("first", bare("u8"), vec![bad_a]),
            field("second", bare("u8"), vec![bad_b]),
        ]),
    };
    assert_eq!(
        derive_builder::plan::derive(&r).unwrap_err(),
        SynthesisError::MalformedAnnotation {
            field: "first".to_string(),
            expected: ExpectedToken::Equals,
            found: Some(lit("\"x\"")),
        }
    );
}
