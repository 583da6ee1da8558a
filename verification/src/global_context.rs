//! Single-operation cores of a process-wide shared store.
//!
//! A shared wrapper around one [`HashMapContext`] runs each of these
//! operations while holding a mutual-exclusion lock; the operations
//! themselves take the store through an explicit handle and are verified
//! here. The wrapper contributes only lazy one-time construction of the
//! store, lock acquisition and release around each call, and is kept outside
//! this crate's verified core.

use crate::context::Context;
use crate::context::ContextWithMutableFunctions;
use crate::context::ContextWithMutableVariables;
use crate::context::Function;
use crate::context::HashMapContext;
use crate::error::EvalexprError;
use crate::error::EvalexprResult;
use crate::value::Value;
use vstd::prelude::*;

verus! {

/// Runs a caller-supplied read-only operation against the shared store: the
/// unit of atomicity a caller controls explicitly. The shared wrapper holds
/// its lock for the whole call.
pub fn with_context<F: Function, R, Operation: FnOnce(&HashMapContext<F>) -> R>(
    context: &HashMapContext<F>,
    operation: Operation,
) -> (r: R)
    requires
        context.valid(),
        call_requires(operation, (context,)),
    ensures
        call_ensures(operation, (context,), r),
{
    operation(context)
}

/// Removes every variable and function binding of the shared store, leaving
/// the builtin-function flag untouched.
pub fn clear<F: Function>(context: &mut HashMapContext<F>)
    requires
        old(context).valid(),
    ensures
        final(context).valid(),
        final(context).variable_map() == Map::<Seq<char>, Value>::empty(),
        final(context).function_names() == Set::<Seq<char>>::empty(),
        final(context).function_map() == Map::<Seq<char>, F>::empty(),
        final(context).builtins_disabled() == old(context).builtins_disabled(),
{
    context.clear()
}

/// Binds a variable in the shared store, subject to the store's
/// type-stability rule.
pub fn set_value<F: Function>(
    context: &mut HashMapContext<F>,
    identifier: String,
    value: Value,
) -> (r: EvalexprResult<()>)
    requires
        old(context).valid(),
    ensures
        final(context).valid(),
        final(context).function_names() == old(context).function_names(),
        final(context).function_map() == old(context).function_map(),
        final(context).builtins_disabled() == old(context).builtins_disabled(),
        r matches Ok(()) <==> crate::context::assignment_allowed(
            old(context).variable_map(),
            identifier@,
            value,
        ),
        r matches Ok(()) ==> final(context).variable_map() == old(
            context,
        ).variable_map().insert(identifier@, value),
        r is Err ==> final(context).variable_map() == old(context).variable_map(),
{
    context.set_value(identifier, value)
}

/// Binds a function in the shared store, replacing any previous binding.
pub fn set_function<F: Function>(
    context: &mut HashMapContext<F>,
    identifier: String,
    function: F,
) -> (r: EvalexprResult<()>)
    requires
        old(context).valid(),
    ensures
        final(context).valid(),
        final(context).variable_map() == old(context).variable_map(),
        final(context).builtins_disabled() == old(context).builtins_disabled(),
        r matches Ok(()),
        final(context).function_names() == old(context).function_names().insert(identifier@),
        final(context).function_map() == old(context).function_map().insert(
            identifier@,
            function,
        ),
{
    context.set_function(identifier, function)
}

/// Returns a copy of the value bound to the identifier in the shared store,
/// or nothing.
pub fn get_value_copy<F: Function>(context: &HashMapContext<F>, identifier: &str) -> (r: Option<
    Value,
>)
    requires
        context.valid(),
    ensures
        r matches Some(value) ==> context.variable_map().contains_key(identifier@) && value@
            == context.variable_map().index(identifier@)@,
        r is None ==> !context.variable_map().contains_key(identifier@),
{
    match context.get_value(identifier) {
        Some(value) => Some(value.clone()),
        None => None,
    }
}

/// Calls the function bound to the identifier in the shared store, telling
/// "no such function" apart from "the function ran and failed": an unbound
/// identifier yields the absent value, never an error, and a bound
/// function's outcome is returned as it is, so every failure raised inside
/// the function's body - a function-not-found it reports itself included -
/// propagates as an error.
pub fn call_function_copy<F: Function>(
    context: &HashMapContext<F>,
    identifier: &str,
    argument: &Value,
) -> (r: EvalexprResult<Option<Value>>)
    requires
        context.valid(),
    ensures
        !context.function_names().contains(identifier@) <==> r == Ok::<
            Option<Value>,
            EvalexprError,
        >(None),
        context.function_names().contains(identifier@) ==> (r matches Ok(found) ==> found
            is Some),
        r is Err ==> context.function_names().contains(identifier@),
        r matches Ok(Some(value)) ==> call_ensures(
            <F as Function>::call,
            (&context.function_map().index(identifier@), argument, context),
            Ok::<Value, EvalexprError>(value),
        ),
        r matches Err(failure) ==> call_ensures(
            <F as Function>::call,
            (&context.function_map().index(identifier@), argument, context),
            Err::<Value, EvalexprError>(failure),
        ),
{
    if context.has_function(identifier) {
        match context.call_function(identifier, argument) {
            Ok(value) => Ok(Some(value)),
            Err(failure) => Err(failure),
        }
    } else {
        Ok(None)
    }
}

} // verus!
