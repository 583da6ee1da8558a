//! The capability contracts of a binding environment, and their concrete
//! stores.
//!
//! A context resolves identifiers to values and to callable functions while
//! an expression tree is evaluated. The read-only contract is [`Context`];
//! variable mutation, function mutation and iteration are separate optional
//! capabilities. Two zero-storage stores ([`EmptyContext`] and
//! [`EmptyContextWithBuiltinFunctions`]) resolve nothing and differ only in
//! their fixed builtin-function flag. The [`HashMapContext`] is the mutable,
//! type-checked store: a variable, once bound, keeps its value type until it
//! is removed.

use crate::error::is_function_not_found;
use crate::error::EvalexprError;
use crate::error::EvalexprResult;
use crate::table::entries_model;
use crate::table::lemma_entries_model_contains;
use crate::table::lemma_entries_model_index;
use crate::table::Table;
use crate::value::Value;
use vstd::prelude::*;

verus! {

/// A variable assignment is accepted exactly when the identifier is unbound
/// or the bound value has the same discriminant as the new value.
pub open spec fn assignment_allowed(
    variables: Map<Seq<char>, Value>,
    identifier: Seq<char>,
    value: Value,
) -> bool {
    ||| !variables.contains_key(identifier)
    ||| variables.index(identifier).spec_value_type() == value.spec_value_type()
}

/// The read-only contract: resolve variables, call functions, and report the
/// builtin-function flag.
pub trait Context: Sized {
    /// The store's validity condition; every operation preserves it.
    spec fn valid(&self) -> bool;

    /// The modelled variable bindings.
    spec fn variable_map(&self) -> Map<Seq<char>, Value>;

    /// The identifiers bound to functions.
    spec fn function_names(&self) -> Set<Seq<char>>;

    /// Whether builtin functions are disabled.
    spec fn builtins_disabled(&self) -> bool;

    /// Returns the value bound to the given identifier, or nothing.
    fn get_value(&self, identifier: &str) -> (r: Option<&Value>)
        requires
            self.valid(),
        ensures
            r matches Some(value) ==> self.variable_map().contains_key(identifier@)
                && *value == self.variable_map().index(identifier@),
            r is None ==> !self.variable_map().contains_key(identifier@),
    ;

    /// Calls the function bound to the given identifier with the given
    /// argument and a read-only view of this store. When no function is
    /// bound, fails with a function-not-found error carrying the identifier;
    /// otherwise the outcome is whatever the bound function returns.
    fn call_function(&self, identifier: &str, argument: &Value) -> (r: EvalexprResult<Value>)
        requires
            self.valid(),
        ensures
            !self.function_names().contains(identifier@) ==> is_function_not_found(
                r,
                identifier@,
            ),
    ;

    /// Reports whether builtin functions are disabled.
    fn are_builtin_functions_disabled(&self) -> (r: bool)
        requires
            self.valid(),
        ensures
            r == self.builtins_disabled(),
    ;

    /// Disables builtin functions if `disabled` is true, and enables them
    /// otherwise. A store that cannot honour the requested direction fails
    /// and stays unchanged.
    fn set_builtin_functions_disabled(&mut self, disabled: bool) -> (r: EvalexprResult<()>)
        requires
            old(self).valid(),
        ensures
            final(self).valid(),
            final(self).variable_map() == old(self).variable_map(),
            final(self).function_names() == old(self).function_names(),
            r matches Ok(()) ==> final(self).builtins_disabled() == disabled,
            r is Err ==> final(self).builtins_disabled() == old(self).builtins_disabled(),
    ;
}

/// The variable-mutation capability. Stores that do not override
/// [`ContextWithMutableVariables::set_value`] reject every assignment with
/// [`EvalexprError::ContextNotMutable`] and stay unchanged.
pub trait ContextWithMutableVariables: Context {
    /// Binds the identifier to the value. A store that cannot accept the
    /// assignment fails and stays unchanged.
    fn set_value(&mut self, _identifier: String, _value: Value) -> (r: EvalexprResult<()>)
        requires
            old(self).valid(),
        ensures
            final(self).valid(),
            final(self).function_names() == old(self).function_names(),
            final(self).builtins_disabled() == old(self).builtins_disabled(),
            r matches Ok(()) ==> final(self).variable_map() == old(self).variable_map().insert(
                _identifier@,
                _value,
            ),
            r is Err ==> final(self).variable_map() == old(self).variable_map(),
    {
        Err(EvalexprError::ContextNotMutable)
    }
}

/// The function-mutation capability. Stores that do not override
/// [`ContextWithMutableFunctions::set_function`] reject every assignment
/// with [`EvalexprError::ContextNotMutable`] and stay unchanged.
pub trait ContextWithMutableFunctions: Context {
    /// The type of functions the store can bind.
    type Func;

    /// Binds the identifier to the function, replacing any previous
    /// binding unconditionally: function bindings carry no discriminant, so
    /// no type-stability check applies.
    fn set_function(&mut self, _identifier: String, _function: Self::Func) -> (r: EvalexprResult<
        (),
    >)
        requires
            old(self).valid(),
        ensures
            final(self).valid(),
            final(self).variable_map() == old(self).variable_map(),
            final(self).builtins_disabled() == old(self).builtins_disabled(),
            r matches Ok(()) ==> final(self).function_names() == old(self).function_names().insert(
                _identifier@,
            ),
            r is Err ==> final(self).function_names() == old(self).function_names(),
    {
        Err(EvalexprError::ContextNotMutable)
    }
}

/// The iteration capability: snapshots of the current variable bindings,
/// taken at call time. A snapshot is finite, freshly allocated on every
/// call, and does not observe later mutations; its order is unspecified.
pub trait IterateVariablesContext: Context {
    /// Returns a snapshot of the current variable bindings: one pair per
    /// bound identifier, carrying a value with the bound value's model.
    fn iter_variables(&self) -> (r: Vec<(String, Value)>)
        requires
            self.valid(),
        ensures
            forall|i: int|
                0 <= i < r@.len() ==> self.variable_map().contains_key(#[trigger] r@[i].0@)
                    && r@[i].1@ == self.variable_map().index(r@[i].0@)@,
            forall|i: int, j: int| 0 <= i < j < r@.len() ==> r@[i].0@ != r@[j].0@,
            forall|k: Seq<char>|
                #[trigger] self.variable_map().contains_key(k) ==> exists|i: int|
                    0 <= i < r@.len() && #[trigger] r@[i].0@ == k,
    ;

    /// Returns a snapshot of the currently bound variable names.
    fn iter_variable_names(&self) -> (r: Vec<String>)
        requires
            self.valid(),
        ensures
            forall|i: int|
                0 <= i < r@.len() ==> self.variable_map().contains_key(#[trigger] r@[i]@),
            forall|i: int, j: int| 0 <= i < j < r@.len() ==> r@[i]@ != r@[j]@,
            forall|k: Seq<char>|
                #[trigger] self.variable_map().contains_key(k) ==> exists|i: int|
                    0 <= i < r@.len() && #[trigger] r@[i]@ == k,
    ;
}

/// A callable function that a [`HashMapContext`] can bind to an identifier.
///
/// The store invokes it with one argument and a read-only reference to the
/// store itself, so the function body may read other bindings. Nothing is
/// assumed about its outcome: the store's contracts hold whatever a bound
/// function returns. A function that reaches back into a shared wrapper
/// around the same store from inside `call` can deadlock at run time; that
/// hazard is the caller's to avoid.
pub trait Function: Sized {
    /// Applies the function to the argument under the given store.
    fn call(&self, argument: &Value, context: &HashMapContext<Self>) -> (r: EvalexprResult<Value>)
        requires
            context.wf(),
    ;
}

/// A store that resolves nothing. Builtin functions are permanently
/// disabled: disabling them again is a no-op, enabling them fails.
#[derive(Debug, Default)]
pub struct EmptyContext;

impl Context for EmptyContext {
    open spec fn valid(&self) -> bool {
        true
    }

    open spec fn variable_map(&self) -> Map<Seq<char>, Value> {
        Map::empty()
    }

    open spec fn function_names(&self) -> Set<Seq<char>> {
        Set::empty()
    }

    open spec fn builtins_disabled(&self) -> bool {
        true
    }

    fn get_value(&self, identifier: &str) -> (r: Option<&Value>) {
        None
    }

    fn call_function(&self, identifier: &str, argument: &Value) -> (r: EvalexprResult<Value>)
        ensures
            is_function_not_found(r, identifier@),
    {
        Err(EvalexprError::FunctionIdentifierNotFound(identifier.to_owned()))
    }

    fn are_builtin_functions_disabled(&self) -> (r: bool) {
        true
    }

    /// Builtin functions stay disabled: re-disabling succeeds as a no-op,
    /// enabling fails.
    fn set_builtin_functions_disabled(&mut self, disabled: bool) -> (r: EvalexprResult<()>)
        ensures
            r matches Ok(()) <==> disabled,
            r matches Err(e) ==> e == EvalexprError::BuiltinFunctionsCannotBeEnabled,
    {
        if disabled {
            Ok(())
        } else {
            Err(EvalexprError::BuiltinFunctionsCannotBeEnabled)
        }
    }
}

impl IterateVariablesContext for EmptyContext {
    fn iter_variables(&self) -> (r: Vec<(String, Value)>)
        ensures
            r@.len() == 0,
    {
        Vec::new()
    }

    fn iter_variable_names(&self) -> (r: Vec<String>)
        ensures
            r@.len() == 0,
    {
        Vec::new()
    }
}

/// A store that resolves nothing. Builtin functions are permanently
/// enabled: re-enabling them is a no-op, disabling them fails.
#[derive(Debug, Default)]
pub struct EmptyContextWithBuiltinFunctions;

impl Context for EmptyContextWithBuiltinFunctions {
    open spec fn valid(&self) -> bool {
        true
    }

    open spec fn variable_map(&self) -> Map<Seq<char>, Value> {
        Map::empty()
    }

    open spec fn function_names(&self) -> Set<Seq<char>> {
        Set::empty()
    }

    open spec fn builtins_disabled(&self) -> bool {
        false
    }

    fn get_value(&self, identifier: &str) -> (r: Option<&Value>) {
        None
    }

    fn call_function(&self, identifier: &str, argument: &Value) -> (r: EvalexprResult<Value>)
        ensures
            is_function_not_found(r, identifier@),
    {
        Err(EvalexprError::FunctionIdentifierNotFound(identifier.to_owned()))
    }

    fn are_builtin_functions_disabled(&self) -> (r: bool) {
        false
    }

    /// Builtin functions stay enabled: re-enabling succeeds as a no-op,
    /// disabling fails.
    fn set_builtin_functions_disabled(&mut self, disabled: bool) -> (r: EvalexprResult<()>)
        ensures
            r matches Ok(()) <==> !disabled,
            r matches Err(e) ==> e == EvalexprError::BuiltinFunctionsCannotBeDisabled,
    {
        if disabled {
            Err(EvalexprError::BuiltinFunctionsCannotBeDisabled)
        } else {
            Ok(())
        }
    }
}

impl IterateVariablesContext for EmptyContextWithBuiltinFunctions {
    fn iter_variables(&self) -> (r: Vec<(String, Value)>)
        ensures
            r@.len() == 0,
    {
        Vec::new()
    }

    fn iter_variable_names(&self) -> (r: Vec<String>)
        ensures
            r@.len() == 0,
    {
        Vec::new()
    }
}

/// The mutable, type-checked store.
///
/// Variable and function bindings live in two independent mappings: the same
/// identifier may be bound to a value and to a function at once, with
/// unrelated meanings. A variable, once bound, may only be reassigned values
/// of the same discriminant for as long as it stays bound.
pub struct HashMapContext<F> {
    variables: Table<Value>,
    functions: Table<F>,
    without_builtin_functions: bool,
}

impl<F> HashMapContext<F> {
    /// The store's invariant: both backing tables keep at most one entry per
    /// identifier. Equal to the store's [`Context::valid`] condition.
    pub closed spec fn wf(&self) -> bool {
        self.variables.wf() && self.functions.wf()
    }

    /// The modelled function bindings, with the bound functions themselves.
    pub closed spec fn function_map(&self) -> Map<Seq<char>, F> {
        self.functions.model()
    }
}

impl<F: Function> HashMapContext<F> {

    /// Constructs a store with no bindings and builtin functions enabled.
    pub fn new() -> (context: Self)
        ensures
            context.valid(),
            context.variable_map() == Map::<Seq<char>, Value>::empty(),
            context.function_names() == Set::<Seq<char>>::empty(),
            context.function_map() == Map::<Seq<char>, F>::empty(),
            !context.builtins_disabled(),
    {
        let context = HashMapContext {
            variables: Table::new(),
            functions: Table::new(),
            without_builtin_functions: false,
        };
        proof {
            assert(context.function_names() =~= Set::<Seq<char>>::empty());
        }
        context
    }

    /// Reports whether a function is bound to the given identifier.
    pub fn has_function(&self, identifier: &str) -> (r: bool)
        requires
            self.valid(),
        ensures
            r == self.function_names().contains(identifier@),
    {
        let key: String = identifier.to_owned();
        self.functions.get(&key).is_some()
    }

    /// Removes all variable bindings, keeping function bindings and the
    /// builtin-function flag, and reusing the underlying storage.
    pub fn clear_variables(&mut self)
        requires
            old(self).valid(),
        ensures
            final(self).valid(),
            final(self).variable_map() == Map::<Seq<char>, Value>::empty(),
            final(self).function_names() == old(self).function_names(),
            final(self).function_map() == old(self).function_map(),
            final(self).builtins_disabled() == old(self).builtins_disabled(),
    {
        self.variables.clear()
    }

    /// Removes all function bindings, keeping variable bindings and the
    /// builtin-function flag, and reusing the underlying storage.
    pub fn clear_functions(&mut self)
        requires
            old(self).valid(),
        ensures
            final(self).valid(),
            final(self).variable_map() == old(self).variable_map(),
            final(self).function_names() == Set::<Seq<char>>::empty(),
            final(self).function_map() == Map::<Seq<char>, F>::empty(),
            final(self).builtins_disabled() == old(self).builtins_disabled(),
    {
        self.functions.clear();
        proof {
            assert(self.function_names() =~= Set::<Seq<char>>::empty());
        }
    }

    /// Removes all variable and function bindings, leaving the
    /// builtin-function flag untouched and reusing the underlying storage.
    pub fn clear(&mut self)
        requires
            old(self).valid(),
        ensures
            final(self).valid(),
            final(self).variable_map() == Map::<Seq<char>, Value>::empty(),
            final(self).function_names() == Set::<Seq<char>>::empty(),
            final(self).function_map() == Map::<Seq<char>, F>::empty(),
            final(self).builtins_disabled() == old(self).builtins_disabled(),
    {
        self.clear_variables();
        self.clear_functions();
    }
}

impl<F: Function> Context for HashMapContext<F> {
    open spec fn valid(&self) -> bool {
        self.wf()
    }

    closed spec fn variable_map(&self) -> Map<Seq<char>, Value> {
        self.variables.model()
    }

    closed spec fn function_names(&self) -> Set<Seq<char>> {
        self.functions.model().dom()
    }

    closed spec fn builtins_disabled(&self) -> bool {
        self.without_builtin_functions
    }

    fn get_value(&self, identifier: &str) -> (r: Option<&Value>) {
        let key: String = identifier.to_owned();
        self.variables.get(&key)
    }

    /// When a function is bound, the result is an outcome of invoking that
    /// very function on the given argument and this store.
    fn call_function(&self, identifier: &str, argument: &Value) -> (r: EvalexprResult<Value>)
        ensures
            self.function_names().contains(identifier@) ==> call_ensures(
                <F as Function>::call,
                (&self.function_map().index(identifier@), argument, self),
                r,
            ),
    {
        let key: String = identifier.to_owned();
        match self.functions.get(&key) {
            Some(function) => function.call(argument, self),
            None => Err(EvalexprError::FunctionIdentifierNotFound(key)),
        }
    }

    fn are_builtin_functions_disabled(&self) -> (r: bool) {
        self.without_builtin_functions
    }

    /// The flag of this store is freely configurable in both directions.
    fn set_builtin_functions_disabled(&mut self, disabled: bool) -> (r: EvalexprResult<()>)
        ensures
            r matches Ok(()),
            final(self).builtins_disabled() == disabled,
            final(self).function_map() == old(self).function_map(),
    {
        self.without_builtin_functions = disabled;
        Ok(())
    }
}

impl<F: Function> ContextWithMutableVariables for HashMapContext<F> {
    /// Enforces type stability: an identifier bound to a value of some
    /// discriminant only accepts values of that discriminant until the
    /// binding is removed. The first assignment to an unbound identifier is
    /// accepted unconditionally. A rejected assignment names both
    /// discriminants and leaves the store untouched.
    fn set_value(&mut self, identifier: String, value: Value) -> (r: EvalexprResult<()>)
        ensures
            r matches Ok(()) <==> assignment_allowed(
                old(self).variable_map(),
                identifier@,
                value,
            ),
            final(self).function_map() == old(self).function_map(),
            r matches Err(e) ==> (e matches EvalexprError::TypeMismatch { expected, actual }
                && expected == old(self).variable_map().index(identifier@).spec_value_type()
                && actual == value.spec_value_type()),
    {
        let existing_type = match self.variables.get(&identifier) {
            Some(existing) => Some(existing.value_type()),
            None => None,
        };
        match existing_type {
            Some(expected) => {
                let actual = value.value_type();
                if expected == actual {
                    self.variables.insert(identifier, value);
                    Ok(())
                } else {
                    Err(EvalexprError::TypeMismatch { expected, actual })
                }
            },
            None => {
                self.variables.insert(identifier, value);
                Ok(())
            },
        }
    }
}

impl<F: Function> ContextWithMutableFunctions for HashMapContext<F> {
    type Func = F;

    /// Binds the identifier to the function unconditionally.
    fn set_function(&mut self, identifier: String, function: F) -> (r: EvalexprResult<()>)
        ensures
            r matches Ok(()),
            final(self).function_map() == old(self).function_map().insert(identifier@, function),
    {
        self.functions.insert(identifier, function);
        proof {
            assert(self.function_names() =~= old(self).function_names().insert(identifier@));
        }
        Ok(())
    }
}

impl<F: Function> IterateVariablesContext for HashMapContext<F> {
    fn iter_variables(&self) -> (r: Vec<(String, Value)>) {
        let ghost entries = self.variables.entry_seq();
        let mut snapshot: Vec<(String, Value)> = Vec::new();
        let n = self.variables.len();
        let mut i: usize = 0;
        while i < n
            invariant
                i <= n,
                n == entries.len(),
                entries == self.variables.entry_seq(),
                self.valid(),
                snapshot@.len() == i as int,
                forall|j: int|
                    0 <= j < i ==> #[trigger] snapshot@[j].0@ == entries[j].0@ && snapshot@[j].1@
                        == entries[j].1@,
            decreases n - i,
        {
            let entry = self.variables.entry_at(i);
            snapshot.push((entry.0.clone(), entry.1.clone()));
            i += 1;
        }
        proof {
            lemma_snapshot_matches_model(self.variables.entry_seq(), snapshot@);
        }
        snapshot
    }

    fn iter_variable_names(&self) -> (r: Vec<String>) {
        let ghost entries = self.variables.entry_seq();
        let mut names: Vec<String> = Vec::new();
        let n = self.variables.len();
        let mut i: usize = 0;
        while i < n
            invariant
                i <= n,
                n == entries.len(),
                entries == self.variables.entry_seq(),
                self.valid(),
                names@.len() == i as int,
                forall|j: int| 0 <= j < i ==> #[trigger] names@[j]@ == entries[j].0@,
            decreases n - i,
        {
            let entry = self.variables.entry_at(i);
            names.push(entry.0.clone());
            i += 1;
        }
        proof {
            lemma_names_match_model(self.variables.entry_seq(), names@);
        }
        names
    }
}

/// A pointwise copy of a store's entries satisfies the snapshot contract of
/// [`IterateVariablesContext::iter_variables`].
proof fn lemma_snapshot_matches_model(
    entries: Seq<(String, Value)>,
    snapshot: Seq<(String, Value)>,
)
    requires
        crate::table::distinct_key_views(entries),
        snapshot.len() == entries.len(),
        forall|j: int|
            0 <= j < entries.len() ==> #[trigger] snapshot[j].0@ == entries[j].0@ && snapshot[j].1@
                == entries[j].1@,
    ensures
        forall|i: int|
            0 <= i < snapshot.len() ==> entries_model(entries).contains_key(
                #[trigger] snapshot[i].0@,
            ) && snapshot[i].1@ == entries_model(entries).index(snapshot[i].0@)@,
        forall|i: int, j: int| 0 <= i < j < snapshot.len() ==> snapshot[i].0@ != snapshot[j].0@,
        forall|k: Seq<char>|
            #[trigger] entries_model(entries).contains_key(k) ==> exists|i: int|
                0 <= i < snapshot.len() && #[trigger] snapshot[i].0@ == k,
{
    assert forall|i: int|
        0 <= i < snapshot.len() implies entries_model(entries).contains_key(
        #[trigger] snapshot[i].0@,
    ) && snapshot[i].1@ == entries_model(entries).index(snapshot[i].0@)@ by {
        lemma_entries_model_index(entries, i);
    }
    assert forall|k: Seq<char>| #[trigger]
        entries_model(entries).contains_key(k) implies exists|i: int|
        0 <= i < snapshot.len() && #[trigger] snapshot[i].0@ == k by {
        lemma_entries_model_contains(entries, k);
        let i = choose|i: int| 0 <= i < entries.len() && entries[i].0@ == k;
        assert(snapshot[i].0@ == k);
    }
}

/// A pointwise copy of a store's entry names satisfies the snapshot contract
/// of [`IterateVariablesContext::iter_variable_names`].
proof fn lemma_names_match_model(entries: Seq<(String, Value)>, names: Seq<String>)
    requires
        crate::table::distinct_key_views(entries),
        names.len() == entries.len(),
        forall|j: int| 0 <= j < entries.len() ==> #[trigger] names[j]@ == entries[j].0@,
    ensures
        forall|i: int|
            0 <= i < names.len() ==> entries_model(entries).contains_key(#[trigger] names[i]@),
        forall|i: int, j: int| 0 <= i < j < names.len() ==> names[i]@ != names[j]@,
        forall|k: Seq<char>|
            #[trigger] entries_model(entries).contains_key(k) ==> exists|i: int|
                0 <= i < names.len() && #[trigger] names[i]@ == k,
{
    assert forall|i: int|
        0 <= i < names.len() implies entries_model(entries).contains_key(
        #[trigger] names[i]@,
    ) by {
        lemma_entries_model_index(entries, i);
    }
    assert forall|k: Seq<char>| #[trigger]
        entries_model(entries).contains_key(k) implies exists|i: int|
        0 <= i < names.len() && #[trigger] names[i]@ == k by {
        lemma_entries_model_contains(entries, k);
        let i = choose|i: int| 0 <= i < entries.len() && entries[i].0@ == k;
        assert(names[i]@ == k);
    }
}

} // verus!
