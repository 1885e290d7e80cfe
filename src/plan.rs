//! The layout of a record's companion builder: its name, its slots and
//! the setters each slot gets.
use vstd::prelude::*;
use crate::classify::{classify, field_shape, optional_marker, FieldClassification, FieldShape};
use crate::model::{FieldDescription, RecordBody, RecordDescription, SynthesisError, TypeDescriptor};

verus! {

/// One slot of the builder, in field order.
///
/// A `Plain` field `T` is held as `Option<T>`; an already-optional field and
/// a repeated field `Vec<T>` keep the field's own type (a repeated slot
/// starts as the empty sequence, every other slot starts unset).
/// Every slot gets a setter named `field` taking `setter_param`; a
/// `Repeated(T, name)` slot also gets an append setter `name` taking `T`.
#[derive(Debug)]
pub struct Slot {
    pub field: String,
    pub slot_type: TypeDescriptor,
    pub setter_param: TypeDescriptor,
    pub classification: FieldClassification,
}

#[derive(Debug)]
pub struct BuilderPlan {
    pub record_name: String,
    pub builder_name: String,
    pub slots: Vec<Slot>,
}

/// The fields of a named-field record; any other record shape is unsupported.
pub fn get_struct_fields(ast: &RecordDescription) -> (r: Result<&Vec<FieldDescription>, SynthesisError>)
    ensures
        match ast.body {
            RecordBody::Named(fs) => r matches Ok(v) && *v == fs,
            _ => r == Err::<&Vec<FieldDescription>, _>(SynthesisError::UnsupportedShape { name: ast.name }),
        },
{
    match &ast.body {
        RecordBody::Named(fields) => Ok(fields),
        _ => Err(SynthesisError::UnsupportedShape { name: ast.name.clone() }),
    }
}

pub open spec fn builder_suffix() -> Seq<char> {
    "Builder"@
}

/// The record's name and its builder's name, the record's name followed by
/// `Builder` (`Command`, `CommandBuilder`).
pub fn get_struct_and_builder_ident(ast: &RecordDescription) -> (r: (String, String))
    ensures
        r.0@ == ast.name@,
        r.1@ == ast.name@ + builder_suffix(),
{
    let name = ast.name.clone();
    let mut bident = ast.name.clone();
    bident.append("Builder");
    (name, bident)
}

/// The slot type and setter parameter that a field of type `ty` with
/// shape `c` gets.
pub open spec fn slot_type_ok(st: TypeDescriptor, ty: TypeDescriptor, c: FieldShape) -> bool {
    match c {
        FieldShape::Plain(t) => st matches TypeDescriptor::Wrapped { outer, inner } && outer@
            == optional_marker() && *inner == t,
        _ => st == ty,
    }
}

pub open spec fn setter_param_ok(p: TypeDescriptor, ty: TypeDescriptor, c: FieldShape) -> bool {
    match c {
        FieldShape::Plain(t) => p == t,
        FieldShape::AlreadyOptional(t) => p == t,
        FieldShape::Repeated(_, _) => p == ty,
    }
}

/// `s` is the slot that field `f` gets.
pub open spec fn slot_for(s: Slot, f: FieldDescription) -> bool {
    &&& field_shape(f) == Ok::<_, SynthesisError>(s.classification@)
    &&& s.field == f.name
    &&& slot_type_ok(s.slot_type, f.ty, s.classification@)
    &&& setter_param_ok(s.setter_param, f.ty, s.classification@)
}

/// The error of the first field that cannot be classified, if any.
pub open spec fn first_error(fs: Seq<FieldDescription>) -> Option<SynthesisError>
    decreases fs.len(),
{
    if fs.len() == 0 {
        None
    } else {
        match field_shape(fs[0]) {
            Err(e) => Some(e),
            Ok(_) => first_error(fs.drop_first()),
        }
    }
}

/// The slots of `fields`, one per field in order; or the first field's error.
pub fn plan_slots(fields: &Vec<FieldDescription>) -> (r: Result<Vec<Slot>, SynthesisError>)
    ensures
        r is Err <==> first_error(fields@) is Some,
        r matches Err(e) ==> first_error(fields@) == Some(e),
        r matches Ok(slots) ==> slots@.len() == fields@.len() && forall|i: int|
            0 <= i < fields@.len() ==> #[trigger] slot_for(slots@[i], fields@[i]),
{
    let mut slots: Vec<Slot> = Vec::new();
    let mut i: usize = 0;
    assert(fields@.skip(0) =~= fields@);
    while i < fields.len()
        invariant
            i <= fields@.len(),
            slots@.len() == i,
            forall|j: int| 0 <= j < i ==> #[trigger] slot_for(slots@[j], fields@[j]),
            first_error(fields@) == first_error(fields@.skip(i as int)),
        decreases fields.len() - i,
    {
        proof {
            assert(fields@.skip(i as int).drop_first() =~= fields@.skip(i as int + 1));
            assert(fields@.skip(i as int)[0] == fields@[i as int]);
        }
        let f = &fields[i];
        let c = match classify(f) {
            Ok(c) => c,
            Err(e) => {
                return Err(e);
            },
        };
        let slot_type = match &c {
            FieldClassification::Plain(t) => TypeDescriptor::Wrapped {
                outer: String::from_str("Option"),
                inner: Box::new(t.copy()),
            },
            _ => f.ty.copy(),
        };
        let setter_param = match &c {
            FieldClassification::Plain(t) => t.copy(),
            FieldClassification::AlreadyOptional(t) => t.copy(),
            FieldClassification::Repeated(_, _) => f.ty.copy(),
        };
        slots.push(Slot { field: f.name.clone(), slot_type, setter_param, classification: c });
        i = i + 1;
    }
    Ok(slots)
}

/// Synthesizes the builder plan of a record: its builder's name and one
/// slot per field, or the error that aborts synthesis.
pub fn derive(ast: &RecordDescription) -> (r: Result<BuilderPlan, SynthesisError>)
    ensures
        match ast.body {
            RecordBody::Named(fs) => match r {
                Ok(p) => {
                    &&& first_error(fs@) is None
                    &&& p.record_name@ == ast.name@
                    &&& p.builder_name@ == ast.name@ + builder_suffix()
                    &&& p.slots@.len() == fs@.len()
                    &&& forall|i: int| 0 <= i < fs@.len() ==> #[trigger] slot_for(p.slots@[i], fs@[i])
                },
                Err(e) => first_error(fs@) == Some(e),
            },
            _ => r == Err::<BuilderPlan, _>(SynthesisError::UnsupportedShape { name: ast.name }),
        },
{
    let (record_name, builder_name) = get_struct_and_builder_ident(ast);
    let fields = match get_struct_fields(ast) {
        Ok(fs) => fs,
        Err(e) => {
            return Err(e);
        },
    };
    let slots = match plan_slots(fields) {
        Ok(s) => s,
        Err(e) => {
            return Err(e);
        },
    };
    Ok(BuilderPlan { record_name, builder_name, slots })
}

} // verus!
