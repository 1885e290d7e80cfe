//! Classification of a field by its type shape and its append annotation.
use vstd::prelude::*;
use crate::annotation::{annotation_named, args_value, attrs_value, extract_attrs_value, lemma_attrs_value_skip};
use crate::model::{eq_str, ExpectedToken, FieldDescription, SynthesisError, Token, TypeDescriptor};

verus! {

/// A field's classification: how its builder slot is set and validated.
#[derive(Debug, PartialEq, Eq)]
pub enum FieldClassification {
    /// A required value of the given type.
    Plain(TypeDescriptor),
    /// A field already of type `Option<T>`; holds `T`.
    AlreadyOptional(TypeDescriptor),
    /// A `Vec<T>` field with an append setter; holds `T` and the setter's name.
    Repeated(TypeDescriptor, String),
}

/// The mathematical content of a `FieldClassification`.
pub enum FieldShape {
    Plain(TypeDescriptor),
    AlreadyOptional(TypeDescriptor),
    Repeated(TypeDescriptor, Seq<char>),
}

impl View for FieldClassification {
    type V = FieldShape;

    open spec fn view(&self) -> FieldShape {
        match self {
            FieldClassification::Plain(t) => FieldShape::Plain(*t),
            FieldClassification::AlreadyOptional(t) => FieldShape::AlreadyOptional(*t),
            FieldClassification::Repeated(t, s) => FieldShape::Repeated(*t, s@),
        }
    }
}

pub open spec fn optional_marker() -> Seq<char> {
    "Option"@
}

pub open spec fn sequence_marker() -> Seq<char> {
    "Vec"@
}

pub open spec fn annotation_name() -> Seq<char> {
    "builder"@
}

pub open spec fn append_key() -> Seq<char> {
    "each"@
}

/// The argument of `ty` when it is the wrapper `marker<T>`.
pub open spec fn wrapped_in(marker: Seq<char>, ty: TypeDescriptor) -> Option<TypeDescriptor> {
    match ty {
        TypeDescriptor::Wrapped { outer, inner } => if outer@ == marker {
            Some(*inner)
        } else {
            None
        },
        TypeDescriptor::Bare { .. } => None,
    }
}

/// Returns `T` when `ty` is `ty_ident<T>`.
pub fn inner_type_t<'a>(ty_ident: &str, ty: &'a TypeDescriptor) -> (r: Option<&'a TypeDescriptor>)
    ensures
        match r {
            Some(t) => wrapped_in(ty_ident@, *ty) == Some(*t),
            None => wrapped_in(ty_ident@, *ty) is None,
        },
{
    match ty {
        TypeDescriptor::Wrapped { outer, inner } => {
            if eq_str(outer, ty_ident) {
                Some(&**inner)
            } else {
                None
            }
        },
        TypeDescriptor::Bare { .. } => None,
    }
}

/// The classification of a field, or the error that aborts synthesis.
///
/// `Option<T>` is already optional (an append annotation on `Option<Vec<T>>`
/// is unsupported); `Vec<T>` with `#[builder(each = "name")]` is repeated;
/// anything else is plain, an append annotation on a non-sequence type
/// included. A malformed `builder` annotation fails whatever the type.
pub open spec fn field_shape(f: FieldDescription) -> Result<FieldShape, SynthesisError> {
    match attrs_value(f.annotations@, annotation_name(), append_key()) {
        Err((expected, found)) => Err(SynthesisError::MalformedAnnotation { field: f.name, expected, found }),
        Ok(each) => match wrapped_in(optional_marker(), f.ty) {
            Some(t) => if each is Some && wrapped_in(sequence_marker(), t) is Some {
                Err(SynthesisError::UnsupportedShape { name: f.name })
            } else {
                Ok(FieldShape::AlreadyOptional(t))
            },
            None => match (each, wrapped_in(sequence_marker(), f.ty)) {
                (Some(v), Some(t)) => Ok(FieldShape::Repeated(t, v)),
                _ => Ok(FieldShape::Plain(f.ty)),
            },
        },
    }
}

pub open spec fn classified_as(
    r: Result<FieldClassification, SynthesisError>,
    f: FieldDescription,
) -> bool {
    match r {
        Ok(c) => field_shape(f) == Ok::<_, SynthesisError>(c@),
        Err(e) => field_shape(f) == Err::<FieldShape, _>(e),
    }
}

/// Classifies one field.
pub fn classify(field: &FieldDescription) -> (r: Result<FieldClassification, SynthesisError>)
    ensures
        classified_as(r, *field),
{
    let each = match extract_attrs_value(field, "builder", "each") {
        Ok(v) => v,
        Err(e) => {
            return Err(
                SynthesisError::MalformedAnnotation {
                    field: field.name.clone(),
                    expected: e.expected,
                    found: e.found,
                },
            );
        },
    };
    match inner_type_t("Option", &field.ty) {
        Some(t) => {
            if each.is_some() && inner_type_t("Vec", t).is_some() {
                Err(SynthesisError::UnsupportedShape { name: field.name.clone() })
            } else {
                Ok(FieldClassification::AlreadyOptional(t.copy()))
            }
        },
        None => match (each, inner_type_t("Vec", &field.ty)) {
            (Some(v), Some(t)) => Ok(FieldClassification::Repeated(t.copy(), v)),
            _ => Ok(FieldClassification::Plain(field.ty.copy())),
        },
    }
}

/// A `builder` annotation whose key is not `each` fails classification,
/// naming the field and the offending key, whatever the field's type: it is
/// never read as a plain field.
pub proof fn wrong_append_key_is_rejected(f: FieldDescription, i: int)
    requires
        0 <= i < f.annotations@.len(),
        annotation_named(f.annotations@[i], annotation_name()),
        f.annotations@[i].args is Some,
        f.annotations@[i].args.unwrap()@.len() > 0,
        f.annotations@[i].args.unwrap()@[0] is Ident,
        f.annotations@[i].args.unwrap()@[0]->Ident_0@ != append_key(),
        forall|j: int|
            0 <= j < i ==> !annotation_named(#[trigger] f.annotations@[j], annotation_name()),
    ensures
        field_shape(f) == Err::<FieldShape, _>(
            SynthesisError::MalformedAnnotation {
                field: f.name,
                expected: ExpectedToken::Key,
                found: Some(f.annotations@[i].args.unwrap()@[0]),
            },
        ),
{
    let attrs = f.annotations@;
    lemma_attrs_value_skip(attrs, annotation_name(), append_key(), i);
    assert(attrs.skip(i)[0] == attrs[i]);
    let tokens = attrs[i].args.unwrap()@;
    assert(args_value(tokens, append_key()) == Err::<Seq<char>, _>(
        (ExpectedToken::Key, Some(tokens[0])),
    ));
}

} // verus!
