//! The parse error surface: one error type whose variants carry the
//! spans a diagnostic renderer needs.  The first error anywhere aborts
//! the parse.

use vstd::prelude::*;

use crate::arena::Span;
use crate::ast::Scalar;
use crate::token::{NumberError, Token};

verus! {

/// What the parser would have accepted where an unexpected token
/// appeared.
#[derive(Debug, PartialEq, Eq)]
pub enum ExpectedToken {
    /// One specific token.
    Token(Token),
    Identifier,
    /// The start of an expression.
    PrimaryExpression,
    /// `=`, a compound assignment operator, `++` or `--`.
    Assignment,
    /// `case`, `default` or `}` inside a `switch` body.
    SwitchItem,
    /// `,` or `)` inside `workgroup_size(...)`.
    WorkgroupSizeSeparator,
    /// A global declaration keyword, `;` or the end of the source.
    GlobalItem,
    /// Only `diagnostic(...)` attributes may precede a block.
    DiagnosticAttribute,
    /// A directive's identifier list continues after `,` only with
    /// another identifier.
    AfterIdentListComma,
    /// A directive's identifier list ends only with `;`.
    AfterIdentListArg,
    /// `<` opening a generic argument list.
    GenericOpen,
    /// `>` closing a generic argument list.
    GenericClose,
}

/// Which of the paired resource attributes is absent.
#[derive(Clone, Copy, Debug, PartialEq, Eq, Structural)]
pub enum PairedAttribute {
    Group,
    Binding,
}

/// An engine bug surfaced as an error instead of bad input.
#[derive(Clone, Copy, Debug, PartialEq, Eq, Structural)]
pub enum InternalError {
    /// The rule-span stack was not empty at the end of a global
    /// declaration.
    RuleStackNotEmpty,
    /// `@group`/`@binding` attributes were parsed but the declaration
    /// they must precede never materialised.
    AttributeWithoutVariable,
}

/// Everything that can go wrong while parsing.
#[derive(Debug, PartialEq, Eq)]
pub enum Error {
    /// A token the grammar does not allow here, with what would have
    /// been accepted.
    Unexpected(Span, ExpectedToken),
    /// A malformed numeric literal.
    BadNumber(Span, NumberError),
    /// A numeric suffix that is syntactically valid but requires a
    /// language extension that is not available.
    EnableExtensionNotEnabled { span: Span },
    /// The same name declared twice in one scope.
    Redefinition { previous: Span, current: Span },
    /// The same attribute written twice on one item.
    RepeatedAttribute(Span),
    /// An attribute name this grammar does not know.
    UnknownAttribute(Span),
    /// A binding whose attributes combine location-style and built-in
    /// markers inconsistently.
    InconsistentBinding(Span),
    /// `@group` and `@binding` must appear together; names the absent
    /// one.
    MissingAttribute { needed: PairedAttribute, span: Span },
    /// A `@compute` function with no `@workgroup_size`.
    MissingWorkgroupSize(Span),
    /// An identifier where an address-space keyword was expected.
    UnknownAddressSpace(Span),
    /// An identifier where `read`, `write` or `read_write` was expected.
    UnknownStorageAccess(Span),
    /// An identifier where a built-in name was expected.
    UnknownBuiltin(Span),
    /// An identifier where an interpolation kind was expected.
    UnknownInterpolation(Span),
    /// An identifier where a sampling kind was expected.
    UnknownSampling(Span),
    /// An identifier where a scalar type was expected.
    UnknownScalarType(Span),
    /// An identifier where a storage texel format was expected.
    UnknownStorageFormat(Span),
    /// An identifier where a conservative-depth mode was expected.
    UnknownConservativeDepth(Span),
    /// A sampled texture whose component type is not a 4-byte float,
    /// signed or unsigned integer.
    BadTextureSampleType { span: Span, scalar: Scalar },
    /// A type keyword that cannot be written as a value constructor.
    TypeNotConstructible(Span),
    /// A `for` initializer that is not a call, assignment or local
    /// declaration.
    InvalidForInitializer(Span),
    /// `break if` outside the end of a `continuing` block.
    InvalidBreakIf(Span),
    /// More nested brace-enclosed statements than the limit allows.
    ExceededLimitForNestedBraces { span: Span, limit: u8 },
    /// A `diagnostic`, `enable` or `requires` directive after the first
    /// global declaration.
    DirectiveAfterFirstGlobalDecl { directive_span: Span },
    /// A `diagnostic(...)` severity that is not `off`, `info`, `warning`
    /// or `error`.
    DiagnosticInvalidSeverity { span: Span },
    /// One directive list filtered the same rule twice under a policy
    /// that forbids it.
    DiagnosticDuplicateTriggeringRule { first: Span, second: Span },
    /// A diagnostic filter on a site where filters are not yet
    /// supported, such as a compound statement.
    DiagnosticAttributeNotYetImplemented { span: Span },
    /// A diagnostic filter on a site that can never carry one.
    DiagnosticAttributeNotSupported { span: Span },
    /// An `enable` extension this implementation knows but has not
    /// implemented.
    EnableExtensionNotYetImplemented { span: Span },
    /// An `enable` extension name this implementation does not know.
    UnknownEnableExtension { span: Span },
    /// A `requires` extension this implementation knows but has not
    /// implemented.
    LanguageExtensionNotYetImplemented { span: Span },
    /// A `requires` extension name this implementation does not know.
    UnknownLanguageExtension { span: Span },
    /// An engine bug, never triggered by valid input.
    Internal(InternalError),
}

} // verus!
