//! A binding environment for an expression-evaluation engine: stores that
//! resolve identifiers to values and to callable functions while an
//! expression tree is evaluated.
//!
//! The crate offers a layered capability model (read-only, variable-mutable,
//! function-mutable, iterable), two zero-storage read-only stores with fixed
//! builtin-function flags, and a type-checked in-memory store in which a
//! variable, once bound, keeps its value type for as long as it stays bound.

pub mod context;
pub mod error;
pub mod global_context;
pub mod laws;
pub mod table;
pub mod value;

pub use context::Context;
pub use context::ContextWithMutableFunctions;
pub use context::ContextWithMutableVariables;
pub use context::EmptyContext;
pub use context::EmptyContextWithBuiltinFunctions;
pub use context::Function;
pub use context::HashMapContext;
pub use context::IterateVariablesContext;
pub use error::EvalexprError;
pub use error::EvalexprResult;
pub use value::Value;
pub use value::ValueType;
