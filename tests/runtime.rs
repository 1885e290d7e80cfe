use derive_builder::builder::{FieldNotSet, FieldValue, RecordBuilder};
use derive_builder::model::{Annotation, FieldDescription, RecordBody, RecordDescription, Token, TypeDescriptor};
use derive_builder::plan::BuilderPlan;

fn ty(outer: Option<&str>) -> TypeDescriptor {
    let inner = TypeDescriptor::Bare { name: "u32".to_string() };
    match outer {
        Some(o) => TypeDescriptor::Wrapped { outer: o.to_string(), inner: Box::new(inner) },
        None => inner,
    }
}

fn field(name: &str, outer: Option<&str>, each: Option<&str>) -> FieldDescription {
    let annotations = match each {
        Some(e) => vec![Annotation {
            path: vec!["builder".to_string()],
            args: Some(vec![
                Token::Ident("each".to_string()),
                Token::Punct('='),
                Token::Literal(format!("\"{}\"", e)),
            ]),
        }],
        None => vec![],
    };
    FieldDescription { name: name.to_string(), ty: ty(outer), annotations }
}

fn plan(fields: Vec<FieldDescription>) -> BuilderPlan {
    derive_builder::plan::derive(&RecordDescription { name: "R".to_string(), body: RecordBody::Named(fields) }).unwrap()
}

#[test]
fn plain_fields_set_once_build_to_their_values() {
    let p = plan(vec![field("a", None, None), field("b", None, None), field("c", None, None)]);
    let mut b: RecordBuilder<u32> = RecordBuilder::new(&p);
    b.set(0, 7);
    b.set(1, 8);
    b.set(2, 9);
    assert_eq!(
        b.build().unwrap(),
        vec![FieldValue::Value(7), FieldValue::Value(8), FieldValue::Value(9)]
    );
}

#[test]
fn plain_fields_set_in_any_order_build_in_field_order() {
    let p = plan(vec![field("a", None, None), field("b", None, None), field("c", None, None)]);
    let mut b: RecordBuilder<u32> = RecordBuilder::new(&p);
    b.set(2, 30);
    b.set(0, 10);
    b.set(1, 20);
    assert_eq!(
        b.build().unwrap(),
        vec![FieldValue::Value(10), FieldValue::Value(20), FieldValue::Value(30)]
    );
}

#[test]
fn optional_field_may_be_omitted() {
    let p = plan(vec![field("a", None, None), field("o", Some("Option"), None)]);
    let mut b: RecordBuilder<u32> = RecordBuilder::new(&p);
    b.set(0, 1);
    assert_eq!(b.build().unwrap()[1], FieldValue::Maybe(None));
    b.set(1, 5);
    assert_eq!(b.build().unwrap()[1], FieldValue::Maybe(Some(5)));
}

#[test]
fn repeated_field_defaults_appends_and_overwrites() {
    let p = plan(vec![field("xs", Some("Vec"), Some("x"))]);
    let mut b: RecordBuilder<u32> = RecordBuilder::new(&p);
    assert_eq!(b.build().unwrap(), vec![FieldValue::Sequence(vec![])]);
    b.append(0, 3);
    b.append(0, 1);
    b.append(0, 2);
    assert_eq!(b.build().unwrap(), vec![FieldValue::Sequence(vec![3, 1, 2])]);
    b.set_all(0, vec![9]);
    assert_eq!(b.build().unwrap(), vec![FieldValue::Sequence(vec![9])]);
}

#[test]
fn unset_plain_field_is_named() {
    let p = plan(vec![
        field("a", None, None),
        field("b", None, None),
        field("c", Some("Option"), None),
        field("d", Some("Vec"), Some("x")),
    ]);
    let mut b: RecordBuilder<u32> = RecordBuilder::new(&p);
    assert_eq!(b.build().unwrap_err(), FieldNotSet { field: "a".to_string() });
    b.set(0, 1);
    b.set(2, 1);
    b.append(3, 1);
    assert_eq!(b.build().unwrap_err(), FieldNotSet { field: "b".to_string() });
    b.set(1, 2);
    assert!(b.build().is_ok());
}

#[test]
fn build_twice_gives_equal_results() {
    let p = plan(vec![field("a", None, None), field("xs", Some("Vec"), Some("x"))]);
    let mut b: RecordBuilder<u32> = RecordBuilder::new(&p);
    b.set(0, 4);
    b.append(1, 6);
    assert_eq!(b.build(), b.build());
    assert_eq!(b.len(), 2);
}
