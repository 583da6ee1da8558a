//! The error surface of the binding environment.
//!
//! Every fallible store operation returns a distinguishable outcome for each
//! of the failure kinds listed here.

use crate::value::ValueType;
use vstd::prelude::*;

verus! {

/// An error produced by a store operation or by a bound function.
#[derive(Debug, PartialEq, Eq)]
pub enum EvalexprError {
    /// A mutation was requested on a store that does not support it.
    ContextNotMutable,
    /// No function is bound to the given identifier.
    FunctionIdentifierNotFound(String),
    /// A variable reassignment tried to change the value's discriminant.
    /// Both the discriminant of the stored value and the discriminant of the
    /// rejected value are reported.
    TypeMismatch {
        /// The discriminant of the value already bound to the identifier.
        expected: ValueType,
        /// The discriminant of the value whose assignment was rejected.
        actual: ValueType,
    },
    /// The store keeps builtin functions permanently disabled and cannot
    /// enable them.
    BuiltinFunctionsCannotBeEnabled,
    /// The store keeps builtin functions permanently enabled and cannot
    /// disable them.
    BuiltinFunctionsCannotBeDisabled,
    /// A failure reported by a bound function itself, with a message.
    CustomMessage(String),
}

/// The result type of fallible store operations.
pub type EvalexprResult<T> = Result<T, EvalexprError>;

/// The outcome is a function-not-found error carrying the given identifier.
pub open spec fn is_function_not_found<T>(r: Result<T, EvalexprError>, identifier: Seq<char>) -> bool {
    &&& r matches Err(e)
    &&& e matches EvalexprError::FunctionIdentifierNotFound(name)
    &&& name@ == identifier
}

} // verus!
