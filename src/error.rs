use vstd::prelude::*;
use crate::value::DataType;

verus! {

/// The builtin operators of the language.
#[derive(Clone, Copy, Debug, PartialEq, Eq, Structural)]
pub enum Builtin {
    Fn,
    Let,
    Const,
    Del,
    Call,
    Exists,
    P,
    Args,
    Yield,
    Return,
    Pass,
    Print,
}

/// A fatal condition of evaluation, with what it needs to be reported: the
/// operator, the shape it expected and what it got.
#[derive(Debug, PartialEq, Eq)]
pub enum RuntimeError {
    /// The operator was given no first argument.
    MissingArgument { op: Builtin },
    /// The first argument of a binding operator was not a `Memory`.
    ExpectedMemory { op: Builtin, actual: DataType },
    /// `fn`, `let` or `const` was given no block.
    MissingBlock { op: Builtin },
    /// `call` named nothing that is bound.
    UnknownName { name: String },
    /// The operator needs a call scope and there is none.
    OutsideCall { op: Builtin },
    /// `yield` ran in a call that was given no block.
    MissingYield,
    /// The index given to `p` was not a number.
    ExpectedNumber { actual: DataType },
    /// The type given to `p` was not a string.
    ExpectedTypeName { actual: DataType },
    /// The type given to `p` names no type.
    UnknownType { name: String },
    /// The index given to `p` was negative.
    NegativeIndex { index: i64 },
    /// The argument that `p` read is not of the type asked for.
    TypeMismatch { expected: DataType, actual: DataType },
    /// A name bound as a constant was bound again.
    ConstantViolation { name: String },
}

} // verus!
