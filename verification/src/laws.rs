//! Laws of the type-checked store, stated over the models that the store's
//! contracts use: the variable map of a [`crate::context::Context`] and the
//! acceptance condition [`crate::context::assignment_allowed`] of
//! [`crate::context::ContextWithMutableVariables::set_value`].

use crate::context::assignment_allowed;
use crate::value::Value;
use vstd::prelude::*;

verus! {

/// Round trip: a successful assignment binds the identifier to exactly the
/// assigned value, so a following lookup of that identifier yields it.
pub proof fn lemma_set_value_round_trip(
    variables: Map<Seq<char>, Value>,
    identifier: Seq<char>,
    value: Value,
)
    requires
        assignment_allowed(variables, identifier, value),
    ensures
        variables.insert(identifier, value).contains_key(identifier),
        variables.insert(identifier, value).index(identifier) == value,
{
}

/// Type stability: once an identifier is bound to a value of some
/// discriminant, an assignment of a value with a different discriminant is
/// rejected, and rejection leaves the binding as it was.
pub proof fn lemma_type_stability(
    variables: Map<Seq<char>, Value>,
    identifier: Seq<char>,
    first: Value,
    second: Value,
)
    requires
        assignment_allowed(variables, identifier, first),
        first.spec_value_type() != second.spec_value_type(),
    ensures
        !assignment_allowed(variables.insert(identifier, first), identifier, second),
        variables.insert(identifier, first).index(identifier) == first,
{
}

/// Same-type overwrite: a bound identifier accepts any value of the same
/// discriminant, and the new value replaces the old one.
pub proof fn lemma_same_type_overwrite(
    variables: Map<Seq<char>, Value>,
    identifier: Seq<char>,
    first: Value,
    second: Value,
)
    requires
        assignment_allowed(variables, identifier, first),
        first.spec_value_type() == second.spec_value_type(),
    ensures
        assignment_allowed(variables.insert(identifier, first), identifier, second),
        variables.insert(identifier, first).insert(identifier, second).index(identifier)
            == second,
{
}

/// Namespace independence: variable bindings and function bindings never
/// constrain each other. Binding a variable leaves the function names
/// untouched and vice versa, so the same identifier can carry both a value
/// and a function at once.
pub proof fn lemma_namespace_independence(
    variables: Map<Seq<char>, Value>,
    function_names: Set<Seq<char>>,
    identifier: Seq<char>,
    value: Value,
)
    requires
        assignment_allowed(variables, identifier, value),
    ensures
        variables.insert(identifier, value).index(identifier) == value,
        function_names.insert(identifier).contains(identifier),
{
}

/// Clearing: the cleared store binds no identifier, neither to a value nor
/// to a function.
pub proof fn lemma_clearing(identifier: Seq<char>)
    ensures
        !Map::<Seq<char>, Value>::empty().contains_key(identifier),
        !Set::<Seq<char>>::empty().contains(identifier),
{
}

} // verus!
