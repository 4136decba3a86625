//! The translator's error taxonomy.
//!
//! Any error aborts the whole translation: an `Err` result carries no
//! rendered text, so a failed translation produces no output at all.

use vstd::prelude::*;

verus! {

/// The construct that a translation refused, carried so that callers can
/// report the shape of the offending node.
#[derive(Clone, Copy, Debug, PartialEq, Eq, Structural)]
pub enum Construct {
    /// An expression variant outside the supported subset.
    ExpressionKind,
    /// A unary operator outside the supported subset.
    UnaryOperator,
    /// A binary operator outside the supported subset.
    BinaryOperator,
    /// A table field given positionally, without a key or a name.
    KeylessTableField,
    /// An assignment whose target or value list does not have exactly one element.
    AssignmentArity,
    /// A local declaration that does not declare exactly one name.
    LocalNameArity,
    /// A local declaration without an initializer.
    LocalWithoutValue,
    /// A local declaration whose initializer list does not have exactly one element.
    LocalValueArity,
    /// A variadic parameter list in a function definition.
    VariadicParameters,
    /// A return statement with more than one value.
    MultipleReturnValues,
    /// A statement variant outside the supported subset.
    StatementKind,
}

/// Why a translation failed. The first unsupported construct met during the
/// depth-first walk of the tree is the one reported.
#[derive(Clone, Copy, Debug, PartialEq, Eq, Structural)]
pub enum TranslateError {
    /// The input uses a syntax form, operator, or arity the translator does
    /// not model.
    UnsupportedConstruct(Construct),
    /// An identifier collides with the name the translator reserves for the
    /// implicit method receiver in the target language.
    IllegalIdentifier,
}

} // verus!
