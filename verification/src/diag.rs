use crate::span::Span;
use crate::token::{Kw, Punct};
use vstd::prelude::*;

verus! {

/// The grammar defects this parser can report.  Hard failures carry one of
/// these as well; recoverable defects are appended to the diagnostics sink
/// while parsing continues.
#[derive(Clone, Copy, PartialEq, Eq, Structural, Debug)]
pub enum SyntaxError {
    /// A specific punctuation token was required.
    Expected(Punct),
    /// A specific keyword was required.
    ExpectedKeyword(Kw),
    /// An identifier was required.
    IdentifierExpected,
    /// No token of the complete set of valid type-start tokens was found.
    TypeExpected,
    /// The end of the token buffer was reached where a token was required.
    Eof,
    /// Nested type grammar exceeded the configured depth limit.
    NestingTooDeep,
    /// A `.` followed the keyword `void` used as an entity name.
    UnexpectedDotAfterVoid,
    /// An accessibility or mutability modifier stood before a type reference.
    ModifierOnTypeRef,
    /// A type-parameter modifier that is never permitted here.
    InvalidTypeParamModifier(Kw),
    /// `in`/`out` used on a declaration that does not permit variance.
    ModifierNotPermitted(Kw),
    /// `const` used on a type parameter that does not permit it.
    ConstModifierNotPermitted,
    /// The same variance modifier appeared twice.
    DuplicateModifier(Kw),
    /// `in` must precede `out`.
    InMustPrecedeOut,
    /// The module specifier of an `import(...)` type must be a string literal.
    ImportArgNotString,
    /// An enum member name was a numeric literal.
    EnumNumericName,
    /// An enum member name was a computed `[...]` name.
    EnumComputedName,
    /// A required tuple element followed an optional element.
    RequiredAfterOptional,
    /// An interface was named after a reserved built-in type name.
    InterfaceNameReserved,
    /// A second `extends` clause followed the first.
    ExtendsRepeated,
    /// A heritage-clause element was not an entity name.
    InvalidHeritageExpression,
    /// An index signature held more than one parameter.
    IndexSignatureOneParameter,
    /// A method signature carried a `readonly` modifier.
    ReadOnlyMethod,
    /// A getter or setter signature carried a `readonly` modifier.
    GetterSetterCannotBeReadonly,
    /// A setter signature had an empty parameter list.
    SetterParamRequired,
    /// A private `#name` appeared inside an interface or type literal body.
    PrivateNameInInterface,
    /// `declare` appeared inside an already ambient context.
    NestedDeclare,
    /// A binding pattern stood where this parser only accepts plain names.
    UnsupportedBindingPattern,
    /// A token that cannot start an expression stood in expression position.
    ExpressionExpected,
    /// A statement that is not a type-level declaration stood in an ambient
    /// module body.
    DeclarationExpected,
}

/// A reported defect: where, and what.
#[derive(Clone, Copy, PartialEq, Eq, Structural, Debug)]
pub struct Diagnostic {
    pub span: Span,
    pub error: SyntaxError,
}

} // verus!
