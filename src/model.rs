//! The structural description of a record and of its fields.
use vstd::prelude::*;

verus! {

/// The shape of a declared type: an opaque bare type, or a single-argument
/// generic wrapper such as `Option<T>` or `Vec<T>`.
#[derive(Debug, PartialEq, Eq)]
pub enum TypeDescriptor {
    Bare { name: String },
    Wrapped { outer: String, inner: Box<TypeDescriptor> },
}

impl TypeDescriptor {
    /// A deep copy.
    pub fn copy(&self) -> (r: TypeDescriptor)
        ensures
            r == *self,
        decreases self,
    {
        match self {
            TypeDescriptor::Bare { name } => TypeDescriptor::Bare { name: name.clone() },
            TypeDescriptor::Wrapped { outer, inner } => {
                let i = (**inner).copy();
                TypeDescriptor::Wrapped { outer: outer.clone(), inner: Box::new(i) }
            },
        }
    }
}

/// One token of an annotation's argument list.
#[derive(Debug, PartialEq, Eq)]
pub enum Token {
    Ident(String),
    Punct(char),
    /// A literal, as written in the source (`"arg"`, `42`).
    Literal(String),
    /// Any other token tree (a delimited group), by its text.
    Other(String),
}

impl Token {
    pub fn copy(&self) -> (r: Token)
        ensures
            r == *self,
    {
        match self {
            Token::Ident(s) => Token::Ident(s.clone()),
            Token::Punct(c) => Token::Punct(*c),
            Token::Literal(s) => Token::Literal(s.clone()),
            Token::Other(s) => Token::Other(s.clone()),
        }
    }
}

/// An annotation on a field: `#[path(args)]`. `args` is `None` when the
/// annotation carries no parenthesised argument list.
#[derive(Debug)]
pub struct Annotation {
    pub path: Vec<String>,
    pub args: Option<Vec<Token>>,
}

#[derive(Debug)]
pub struct FieldDescription {
    pub name: String,
    pub ty: TypeDescriptor,
    pub annotations: Vec<Annotation>,
}

/// The body of a record declaration. Only `Named` records get a builder.
#[derive(Debug)]
pub enum RecordBody {
    Named(Vec<FieldDescription>),
    Tuple,
    Unit,
    Enum,
}

#[derive(Debug)]
pub struct RecordDescription {
    pub name: String,
    pub body: RecordBody,
}

/// What the annotation parser expected where it met something else.
#[derive(PartialEq, Eq, Structural, Clone, Copy, Debug)]
pub enum ExpectedToken {
    /// A parenthesised argument list after the annotation's name.
    ArgumentList,
    Key,
    Equals,
    StringLiteral,
    End,
}

/// A malformed `key = "literal"` argument list. `found` is the offending
/// token, or `None` when the list ended early.
#[derive(Debug, PartialEq, Eq)]
pub struct MalformedAnnotation {
    pub expected: ExpectedToken,
    pub found: Option<Token>,
}

/// A failure that aborts synthesis.
#[derive(Debug, PartialEq, Eq)]
pub enum SynthesisError {
    /// A field's annotation does not have the shape `key = "literal"`.
    MalformedAnnotation { field: String, expected: ExpectedToken, found: Option<Token> },
    /// The record is not a named-field record (`name` is the record), or a
    /// field combines an optional sequence with an append annotation
    /// (`name` is the field).
    UnsupportedShape { name: String },
}

/// Exact string comparison of an owned string with a literal.
pub fn eq_str(s: &String, lit: &str) -> (r: bool)
    ensures
        r == (s@ == lit@),
{
    let l = String::from_str(lit);
    *s == l
}

} // verus!
