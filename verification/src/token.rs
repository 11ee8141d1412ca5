//! The classified tokens the tokenizer hands to the parser, and the
//! byte-string helpers used to compare identifiers and keywords.

use vstd::prelude::*;

verus! {

/// Compares two byte strings for equality.
pub fn bytes_eq(a: &[u8], b: &[u8]) -> (r: bool)
    ensures
        r == (a@ =~= b@),
{
    if a.len() != b.len() {
        return false;
    }
    let mut i: usize = 0;
    while i < a.len()
        invariant
            i <= a@.len(),
            a@.len() == b@.len(),
            forall|j: int| 0 <= j < i ==> a@[j] == b@[j],
        decreases a@.len() - i,
    {
        if a[i] != b[i] {
            return false;
        }
        i = i + 1;
    }
    true
}

/// Copies a byte string.
pub fn clone_bytes(v: &[u8]) -> (r: Vec<u8>)
    ensures
        r@ =~= v@,
{
    let mut out: Vec<u8> = Vec::new();
    let mut i: usize = 0;
    while i < v.len()
        invariant
            i <= v@.len(),
            out@ =~= v@.subrange(0, i as int),
        decreases v@.len() - i,
    {
        out.push(v[i]);
        i = i + 1;
    }
    proof {
        assert(out@ =~= v@);
    }
    out
}

/// A numeric literal's parsed value.  Integer values are computed here;
/// floating-point literals keep their source text for a later lowering
/// stage, since this crate does no floating-point arithmetic.
#[derive(Debug, PartialEq, Eq)]
pub enum Number {
    /// A literal with no suffix, e.g. `27`.
    AbstractInt(i64),
    /// An `i`-suffixed literal, e.g. `27i`.
    I32(i32),
    /// A `u`-suffixed literal, e.g. `27u`.
    U32(u32),
    /// An unsuffixed literal in float form, e.g. `27.5` or `1e3`;
    /// the source text is kept verbatim.
    AbstractFloat(Vec<u8>),
    /// An `f`-suffixed literal, e.g. `27f`; the source text is kept
    /// verbatim.
    F32(Vec<u8>),
}

/// Why a numeric literal could not be turned into a [`Number`].
#[derive(Clone, Copy, Debug, PartialEq, Eq, Structural)]
pub enum NumberError {
    /// The text is not a well-formed numeric literal.
    Invalid,
    /// The value does not fit in the literal's type.
    NotRepresentable,
    /// The `h` (16-bit float) suffix is syntactically valid but the
    /// corresponding language extension is not available.
    UnimplementedF16,
}

/// A classified token, carrying no span; spans travel beside tokens in
/// the token stream.
#[derive(Debug, PartialEq, Eq)]
pub enum Token {
    /// `;`, `:`, `,` or `.`.
    Separator(u8),
    /// `(`, `)`, `{`, `}`, `[`, `]`, and the angle brackets `<` and `>`,
    /// whose reading as generic delimiters or comparisons is decided by
    /// grammar context.
    Paren(u8),
    /// `@`, introducing an attribute.
    Attribute,
    /// A numeric literal, already classified by the tokenizer.
    Number(Result<Number, NumberError>),
    /// An identifier or keyword.
    Word(Vec<u8>),
    /// A single-character operator: `+ - * / % ^ ! ~ = & |`.
    Operation(u8),
    /// A two-character logical or comparison operator, keyed by its
    /// first character: `&&`, `||`, `==`, `!=`, `<=`, `>=`.
    LogicalOperation(u8),
    /// `<<` or `>>`, keyed by its character.
    ShiftOperation(u8),
    /// A compound assignment operator, keyed by its operator character:
    /// `+= -= *= /= %= &= |= ^=`, and `<` / `>` for `<<=` / `>>=`.
    AssignmentOperation(u8),
    /// `++`.
    IncrementOperation,
    /// `--`.
    DecrementOperation,
    /// `->`.
    Arrow,
    /// A byte that starts no token.
    Unknown(u8),
    /// The end of the source.
    End,
}

/// Structural equality of numbers, comparing kept float text by value.
pub open spec fn number_eq_spec(a: Number, b: Number) -> bool {
    match (a, b) {
        (Number::AbstractInt(x), Number::AbstractInt(y)) => x == y,
        (Number::I32(x), Number::I32(y)) => x == y,
        (Number::U32(x), Number::U32(y)) => x == y,
        (Number::AbstractFloat(x), Number::AbstractFloat(y)) => x@ =~= y@,
        (Number::F32(x), Number::F32(y)) => x@ =~= y@,
        _ => false,
    }
}

/// Structural equality of tokens, comparing word text by value.
pub open spec fn token_eq_spec(a: Token, b: Token) -> bool {
    match (a, b) {
        (Token::Separator(x), Token::Separator(y)) => x == y,
        (Token::Paren(x), Token::Paren(y)) => x == y,
        (Token::Attribute, Token::Attribute) => true,
        (Token::Number(Ok(x)), Token::Number(Ok(y))) => number_eq_spec(x, y),
        (Token::Number(Err(x)), Token::Number(Err(y))) => x == y,
        (Token::Word(x), Token::Word(y)) => x@ =~= y@,
        (Token::Operation(x), Token::Operation(y)) => x == y,
        (Token::LogicalOperation(x), Token::LogicalOperation(y)) => x == y,
        (Token::ShiftOperation(x), Token::ShiftOperation(y)) => x == y,
        (Token::AssignmentOperation(x), Token::AssignmentOperation(y)) => x == y,
        (Token::IncrementOperation, Token::IncrementOperation) => true,
        (Token::DecrementOperation, Token::DecrementOperation) => true,
        (Token::Arrow, Token::Arrow) => true,
        (Token::Unknown(x), Token::Unknown(y)) => x == y,
        (Token::End, Token::End) => true,
        _ => false,
    }
}

/// Decides [`number_eq_spec`].
pub fn number_eq(a: &Number, b: &Number) -> (r: bool)
    ensures
        r == number_eq_spec(*a, *b),
{
    match (a, b) {
        (Number::AbstractInt(x), Number::AbstractInt(y)) => *x == *y,
        (Number::I32(x), Number::I32(y)) => *x == *y,
        (Number::U32(x), Number::U32(y)) => *x == *y,
        (Number::AbstractFloat(x), Number::AbstractFloat(y)) => bytes_eq(x.as_slice(), y.as_slice()),
        (Number::F32(x), Number::F32(y)) => bytes_eq(x.as_slice(), y.as_slice()),
        _ => false,
    }
}

/// Decides [`token_eq_spec`].
pub fn token_eq(a: &Token, b: &Token) -> (r: bool)
    ensures
        r == token_eq_spec(*a, *b),
{
    match (a, b) {
        (Token::Separator(x), Token::Separator(y)) => *x == *y,
        (Token::Paren(x), Token::Paren(y)) => *x == *y,
        (Token::Attribute, Token::Attribute) => true,
        (Token::Number(Ok(x)), Token::Number(Ok(y))) => number_eq(x, y),
        (Token::Number(Err(x)), Token::Number(Err(y))) => *x == *y,
        (Token::Word(x), Token::Word(y)) => bytes_eq(x.as_slice(), y.as_slice()),
        (Token::Operation(x), Token::Operation(y)) => *x == *y,
        (Token::LogicalOperation(x), Token::LogicalOperation(y)) => *x == *y,
        (Token::ShiftOperation(x), Token::ShiftOperation(y)) => *x == *y,
        (Token::AssignmentOperation(x), Token::AssignmentOperation(y)) => *x == *y,
        (Token::IncrementOperation, Token::IncrementOperation) => true,
        (Token::DecrementOperation, Token::DecrementOperation) => true,
        (Token::Arrow, Token::Arrow) => true,
        (Token::Unknown(x), Token::Unknown(y)) => *x == *y,
        (Token::End, Token::End) => true,
        _ => false,
    }
}

/// Copies a number.
pub fn clone_number(n: &Number) -> (r: Number)
    ensures
        number_eq_spec(*n, r),
{
    match n {
        Number::AbstractInt(x) => Number::AbstractInt(*x),
        Number::I32(x) => Number::I32(*x),
        Number::U32(x) => Number::U32(*x),
        Number::AbstractFloat(x) => Number::AbstractFloat(clone_bytes(x.as_slice())),
        Number::F32(x) => Number::F32(clone_bytes(x.as_slice())),
    }
}

/// Copies a token.
pub fn clone_token(t: &Token) -> (r: Token)
    ensures
        token_eq_spec(*t, r),
{
    match t {
        Token::Separator(x) => Token::Separator(*x),
        Token::Paren(x) => Token::Paren(*x),
        Token::Attribute => Token::Attribute,
        Token::Number(Ok(x)) => Token::Number(Ok(clone_number(x))),
        Token::Number(Err(x)) => Token::Number(Err(*x)),
        Token::Word(x) => Token::Word(clone_bytes(x.as_slice())),
        Token::Operation(x) => Token::Operation(*x),
        Token::LogicalOperation(x) => Token::LogicalOperation(*x),
        Token::ShiftOperation(x) => Token::ShiftOperation(*x),
        Token::AssignmentOperation(x) => Token::AssignmentOperation(*x),
        Token::IncrementOperation => Token::IncrementOperation,
        Token::DecrementOperation => Token::DecrementOperation,
        Token::Arrow => Token::Arrow,
        Token::Unknown(x) => Token::Unknown(*x),
        Token::End => Token::End,
    }
}

} // verus!
