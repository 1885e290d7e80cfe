//! Extraction of `#[attribute(key = "value")]` annotations.
use vstd::prelude::*;
use crate::model::{eq_str, Annotation, ExpectedToken, FieldDescription, MalformedAnnotation, Token};

verus! {

/// The value that a Rust string-literal token denotes (its escapes resolved),
/// or `None` when the token text is not a string literal.
pub uninterp spec fn str_literal_value(text: Seq<char>) -> Option<Seq<char>>;

/// Text that syn reads as a string literal or rejects, without panicking:
/// it starts with `"` or with `r` (a raw string).
pub open spec fn string_literal_start(text: Seq<char>) -> bool {
    text.len() > 0 && (text[0] == '"' || text[0] == 'r')
}

/// Relies on `syn::parse_str::<syn::LitStr>` (and `LitStr::value`) to read a
/// string-literal token: the result depends on the token's text alone.
/// syn 1 panics on literals of other kinds it does not know (`c"..."`), so
/// only text that starts as a string literal is handed over.
#[verifier::external_body]
fn parse_str_literal(text: &String) -> (r: Option<String>)
    requires
        string_literal_start(text@),
    ensures
        r is None <==> str_literal_value(text@) is None,
        r matches Some(v) ==> str_literal_value(text@) == Some(v@),
{
    match syn::parse_str::<syn::LitStr>(text) {
        Ok(lit) => Some(lit.value()),
        Err(_) => None,
    }
}

/// The value of a literal token's text, when it is a string literal.
pub open spec fn literal_value(text: Seq<char>) -> Option<Seq<char>> {
    if string_literal_start(text) {
        str_literal_value(text)
    } else {
        None
    }
}

pub open spec fn token_at(tokens: Seq<Token>, i: int) -> Option<Token> {
    if 0 <= i < tokens.len() {
        Some(tokens[i])
    } else {
        None
    }
}

/// The value of an argument list that reads exactly `key = "<literal>"`,
/// or what was expected and what was found instead.
pub open spec fn args_value(tokens: Seq<Token>, key: Seq<char>) -> Result<
    Seq<char>,
    (ExpectedToken, Option<Token>),
> {
    if !(token_at(tokens, 0) matches Some(Token::Ident(k)) && k@ == key) {
        Err((ExpectedToken::Key, token_at(tokens, 0)))
    } else if token_at(tokens, 1) != Some(Token::Punct('=')) {
        Err((ExpectedToken::Equals, token_at(tokens, 1)))
    } else if !(token_at(tokens, 2) matches Some(Token::Literal(text))
        && literal_value(text@) is Some) {
        Err((ExpectedToken::StringLiteral, token_at(tokens, 2)))
    } else if tokens.len() > 3 {
        Err((ExpectedToken::End, token_at(tokens, 3)))
    } else {
        match tokens[2] {
            Token::Literal(text) => Ok(literal_value(text@).unwrap()),
            _ => Err((ExpectedToken::StringLiteral, token_at(tokens, 2))),
        }
    }
}

pub open spec fn annotation_named(a: Annotation, attribute: Seq<char>) -> bool {
    a.path@.len() == 1 && a.path@[0]@ == attribute
}

/// The first annotation named `attribute` decides: its `key = "<literal>"`
/// value, or the malformation found in it (an annotation without an
/// argument list is malformed too). With no such annotation the value is
/// absent.
pub open spec fn attrs_value(attrs: Seq<Annotation>, attribute: Seq<char>, key: Seq<char>) -> Result<
    Option<Seq<char>>,
    (ExpectedToken, Option<Token>),
>
    decreases attrs.len(),
{
    if attrs.len() == 0 {
        Ok(None)
    } else if annotation_named(attrs[0], attribute) {
        match attrs[0].args {
            None => Err((ExpectedToken::ArgumentList, None)),
            Some(tokens) => match args_value(tokens@, key) {
                Ok(v) => Ok(Some(v)),
                Err(e) => Err(e),
            },
        }
    } else {
        attrs_value(attrs.drop_first(), attribute, key)
    }
}

/// `r` reports the outcome `spec` of an extraction.
pub open spec fn reports(
    r: Result<Option<String>, MalformedAnnotation>,
    spec: Result<Option<Seq<char>>, (ExpectedToken, Option<Token>)>,
) -> bool {
    match r {
        Ok(Some(v)) => spec == Ok::<_, (ExpectedToken, Option<Token>)>(Some(v@)),
        Ok(None) => spec == Ok::<_, (ExpectedToken, Option<Token>)>(None::<Seq<char>>),
        Err(e) => spec == Err::<Option<Seq<char>>, _>((e.expected, e.found)),
    }
}

fn copy_token_at(tokens: &Vec<Token>, i: usize) -> (r: Option<Token>)
    ensures
        r == token_at(tokens@, i as int),
{
    if i < tokens.len() {
        Some(tokens[i].copy())
    } else {
        None
    }
}

fn malformed(tokens: &Vec<Token>, i: usize, expected: ExpectedToken) -> (r: MalformedAnnotation)
    ensures
        r.expected == expected,
        r.found == token_at(tokens@, i as int),
{
    MalformedAnnotation { expected, found: copy_token_at(tokens, i) }
}

/// Reads an argument list of the exact shape `key = "<literal>"`.
pub fn parse_key_value(tokens: &Vec<Token>, key: &str) -> (r: Result<String, MalformedAnnotation>)
    ensures
        match r {
            Ok(v) => args_value(tokens@, key@) == Ok::<_, (ExpectedToken, Option<Token>)>(v@),
            Err(e) => args_value(tokens@, key@) == Err::<Seq<char>, _>((e.expected, e.found)),
        },
{
    let key_ok = tokens.len() > 0 && match &tokens[0] {
        Token::Ident(k) => eq_str(k, key),
        _ => false,
    };
    if !key_ok {
        return Err(malformed(tokens, 0, ExpectedToken::Key));
    }
    let eq_ok = tokens.len() > 1 && match &tokens[1] {
        Token::Punct(c) => *c == '=',
        _ => false,
    };
    if !eq_ok {
        return Err(malformed(tokens, 1, ExpectedToken::Equals));
    }
    let value = if tokens.len() > 2 {
        match &tokens[2] {
            Token::Literal(text) => {
                if literal_starts_as_string(text) {
                    parse_str_literal(text)
                } else {
                    None
                }
            },
            _ => None,
        }
    } else {
        None
    };
    match value {
        None => Err(malformed(tokens, 2, ExpectedToken::StringLiteral)),
        Some(v) => {
            if tokens.len() > 3 {
                Err(malformed(tokens, 3, ExpectedToken::End))
            } else {
                Ok(v)
            }
        },
    }
}

fn literal_starts_as_string(text: &String) -> (r: bool)
    ensures
        r == string_literal_start(text@),
{
    let t = text.as_str();
    if t.unicode_len() == 0 {
        false
    } else {
        let c = t.get_char(0);
        c == '"' || c == 'r'
    }
}

/// Whether `a` is the single-segment annotation `attribute`.
fn is_named(a: &Annotation, attribute: &str) -> (r: bool)
    ensures
        r == annotation_named(*a, attribute@),
{
    a.path.len() == 1 && eq_str(&a.path[0], attribute)
}

/// The value of `#[attribute(key = "...")]` on field `f`: absent when no
/// annotation named `attribute` is present; an error when the first such
/// annotation has no argument list, or one that is not exactly
/// `key = "<string literal>"` (naming the unexpected token).
pub fn extract_attrs_value(f: &FieldDescription, attribute: &str, key: &str) -> (r: Result<
    Option<String>,
    MalformedAnnotation,
>)
    ensures
        reports(r, attrs_value(f.annotations@, attribute@, key@)),
{
    let attrs = &f.annotations;
    let mut i: usize = 0;
    assert(attrs@.skip(0) =~= attrs@);
    while i < attrs.len()
        invariant
            i <= attrs@.len(),
            attrs@ == f.annotations@,
            attrs_value(attrs@, attribute@, key@) == attrs_value(attrs@.skip(i as int), attribute@, key@),
        decreases attrs.len() - i,
    {
        proof {
            assert(attrs@.skip(i as int).drop_first() =~= attrs@.skip(i as int + 1));
            assert(attrs@.skip(i as int)[0] == attrs@[i as int]);
        }
        let a = &attrs[i];
        if is_named(a, attribute) {
            return match &a.args {
                Some(tokens) => {
                    assert(attrs@.skip(i as int)[0].args.unwrap()@ == tokens@);
                    match parse_key_value(tokens, key) {
                        Ok(v) => Ok(Some(v)),
                        Err(e) => Err(e),
                    }
                },
                None => Err(MalformedAnnotation { expected: ExpectedToken::ArgumentList, found: None }),
            };
        }
        i = i + 1;
    }
    Ok(None)
}

/// Annotations before the first one named `attribute` do not matter.
pub proof fn lemma_attrs_value_skip(
    attrs: Seq<Annotation>,
    attribute: Seq<char>,
    key: Seq<char>,
    i: int,
)
    requires
        0 <= i <= attrs.len(),
        forall|j: int|
            0 <= j < i ==> !annotation_named(#[trigger] attrs[j], attribute),
    ensures
        attrs_value(attrs, attribute, key) == attrs_value(attrs.skip(i), attribute, key),
    decreases i,
{
    if i == 0 {
        assert(attrs.skip(0) =~= attrs);
    } else {
        let rest = attrs.drop_first();
        assert forall|j: int| 0 <= j < i - 1 implies !annotation_named(#[trigger] rest[j], attribute) by {
            assert(rest[j] == attrs[j + 1]);
        }
        lemma_attrs_value_skip(rest, attribute, key, i - 1);
        assert(rest.skip(i - 1) =~= attrs.skip(i));
    }
}

} // verus!
