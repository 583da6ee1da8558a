use evalexpr::Context;
use evalexpr::ContextWithMutableFunctions;
use evalexpr::ContextWithMutableVariables;
use evalexpr::EmptyContext;
use evalexpr::EmptyContextWithBuiltinFunctions;
use evalexpr::EvalexprError;
use evalexpr::Function;
use evalexpr::HashMapContext;
use evalexpr::IterateVariablesContext;
use evalexpr::Value;
use evalexpr::ValueType;

/// A small family of callable functions used to exercise the store.
enum TestFunction {
    /// Doubles an integer argument; fails on anything else.
    Double,
    /// Returns a copy of the value bound to the given variable.
    ReadVariable(String),
    /// Always fails with the given message.
    Fail(String),
}

impl Function for TestFunction {
    fn call(
        &self,
        argument: &Value,
        context: &HashMapContext<Self>,
    ) -> Result<Value, EvalexprError> {
        match self {
            TestFunction::Double => match argument {
                Value::Int(i) => Ok(Value::Int(i * 2)),
                _ => Err(EvalexprError::CustomMessage("expected an integer".to_string())),
            },
            TestFunction::ReadVariable(name) => match context.get_value(name.as_str()) {
                Some(value) => Ok(value.clone()),
                None => Err(EvalexprError::CustomMessage("unbound variable".to_string())),
            },
            TestFunction::Fail(message) => Err(EvalexprError::CustomMessage(message.clone())),
        }
    }
}

fn new_context() -> HashMapContext<TestFunction> {
    HashMapContext::new()
}

#[test]
fn set_then_get_round_trip() {
    let mut context = new_context();
    context.set_value("x".to_string(), Value::Int(1)).unwrap();
    assert_eq!(context.get_value("x"), Some(&Value::Int(1)));
    assert_eq!(context.get_value("y"), None);
}

#[test]
fn round_trip_every_discriminant() {
    let mut context = new_context();
    let bits = 1.5f64.to_bits();
    context.set_value("i".to_string(), Value::Int(-3)).unwrap();
    context.set_value("f".to_string(), Value::Float(bits)).unwrap();
    context.set_value("b".to_string(), Value::Boolean(true)).unwrap();
    context.set_value("t".to_string(), Value::Text("hello".to_string())).unwrap();
    context
        .set_value(
            "tuple".to_string(),
            Value::Tuple(vec![Value::Int(1), Value::Text("two".to_string())]),
        )
        .unwrap();
    context.set_value("e".to_string(), Value::Empty).unwrap();
    assert_eq!(context.get_value("i"), Some(&Value::Int(-3)));
    assert_eq!(context.get_value("f"), Some(&Value::Float(bits)));
    assert_eq!(context.get_value("b"), Some(&Value::Boolean(true)));
    assert_eq!(context.get_value("t"), Some(&Value::Text("hello".to_string())));
    assert_eq!(
        context.get_value("tuple"),
        Some(&Value::Tuple(vec![Value::Int(1), Value::Text("two".to_string())]))
    );
    assert_eq!(context.get_value("e"), Some(&Value::Empty));
}

#[test]
fn type_mismatch_is_rejected_and_store_unchanged() {
    let mut context = new_context();
    context.set_value("x".to_string(), Value::Int(1)).unwrap();
    let rejected = context.set_value("x".to_string(), Value::Text("a".to_string()));
    assert_eq!(
        rejected,
        Err(EvalexprError::TypeMismatch { expected: ValueType::Int, actual: ValueType::Text })
    );
    assert_eq!(context.get_value("x"), Some(&Value::Int(1)));
}

#[test]
fn same_type_overwrite_succeeds() {
    let mut context = new_context();
    context.set_value("x".to_string(), Value::Int(1)).unwrap();
    assert_eq!(context.set_value("x".to_string(), Value::Int(2)), Ok(()));
    assert_eq!(context.get_value("x"), Some(&Value::Int(2)));
}

#[test]
fn removing_a_binding_releases_its_type() {
    let mut context = new_context();
    context.set_value("x".to_string(), Value::Int(1)).unwrap();
    context.clear_variables();
    assert_eq!(context.set_value("x".to_string(), Value::Boolean(true)), Ok(()));
    assert_eq!(context.get_value("x"), Some(&Value::Boolean(true)));
}

#[test]
fn value_and_function_namespaces_are_independent() {
    let mut context = new_context();
    assert_eq!(context.set_value("f".to_string(), Value::Int(1)), Ok(()));
    assert_eq!(context.set_function("f".to_string(), TestFunction::Double), Ok(()));
    assert_eq!(context.get_value("f"), Some(&Value::Int(1)));
    assert_eq!(context.call_function("f", &Value::Int(21)), Ok(Value::Int(42)));
}

#[test]
fn missing_function_reports_the_identifier() {
    let context = new_context();
    assert_eq!(
        context.call_function("nope", &Value::Int(1)),
        Err(EvalexprError::FunctionIdentifierNotFound("nope".to_string()))
    );
}

#[test]
fn function_overwrite_is_unconditional() {
    let mut context = new_context();
    context.set_function("f".to_string(), TestFunction::Double).unwrap();
    context
        .set_function("f".to_string(), TestFunction::Fail("broken".to_string()))
        .unwrap();
    assert_eq!(
        context.call_function("f", &Value::Int(1)),
        Err(EvalexprError::CustomMessage("broken".to_string()))
    );
}

#[test]
fn bound_function_reads_the_store() {
    let mut context = new_context();
    context.set_value("y".to_string(), Value::Int(7)).unwrap();
    context
        .set_function("get_y".to_string(), TestFunction::ReadVariable("y".to_string()))
        .unwrap();
    assert_eq!(context.call_function("get_y", &Value::Empty), Ok(Value::Int(7)));
}

#[test]
fn empty_context_resolves_nothing() {
    let context = EmptyContext;
    assert_eq!(context.get_value("x"), None);
    assert_eq!(
        context.call_function("f", &Value::Int(1)),
        Err(EvalexprError::FunctionIdentifierNotFound("f".to_string()))
    );
    assert_eq!(context.iter_variables(), vec![]);
    assert_eq!(context.iter_variable_names(), Vec::<String>::new());
}

#[test]
fn empty_context_builtins_stay_disabled() {
    let mut context = EmptyContext;
    assert!(context.are_builtin_functions_disabled());
    assert_eq!(
        context.set_builtin_functions_disabled(false),
        Err(EvalexprError::BuiltinFunctionsCannotBeEnabled)
    );
    assert_eq!(context.set_builtin_functions_disabled(true), Ok(()));
    assert!(context.are_builtin_functions_disabled());
}

#[test]
fn empty_context_with_builtins_stays_enabled() {
    let mut context = EmptyContextWithBuiltinFunctions;
    assert!(!context.are_builtin_functions_disabled());
    assert_eq!(
        context.set_builtin_functions_disabled(true),
        Err(EvalexprError::BuiltinFunctionsCannotBeDisabled)
    );
    assert_eq!(context.set_builtin_functions_disabled(false), Ok(()));
    assert!(!context.are_builtin_functions_disabled());
    assert_eq!(context.get_value("x"), None);
    assert_eq!(
        context.call_function("f", &Value::Int(1)),
        Err(EvalexprError::FunctionIdentifierNotFound("f".to_string()))
    );
}

#[test]
fn hash_map_context_flag_is_configurable() {
    let mut context = new_context();
    assert!(!context.are_builtin_functions_disabled());
    assert_eq!(context.set_builtin_functions_disabled(true), Ok(()));
    assert!(context.are_builtin_functions_disabled());
    assert_eq!(context.set_builtin_functions_disabled(false), Ok(()));
    assert!(!context.are_builtin_functions_disabled());
}

#[test]
fn clear_empties_both_namespaces_and_keeps_the_flag() {
    let mut context = new_context();
    context.set_value("x".to_string(), Value::Int(1)).unwrap();
    context.set_function("f".to_string(), TestFunction::Double).unwrap();
    context.set_builtin_functions_disabled(true).unwrap();
    context.clear();
    assert_eq!(context.get_value("x"), None);
    assert_eq!(
        context.call_function("f", &Value::Int(1)),
        Err(EvalexprError::FunctionIdentifierNotFound("f".to_string()))
    );
    assert!(context.are_builtin_functions_disabled());
}

#[test]
fn clear_variables_keeps_functions() {
    let mut context = new_context();
    context.set_value("x".to_string(), Value::Int(1)).unwrap();
    context.set_function("f".to_string(), TestFunction::Double).unwrap();
    context.clear_variables();
    assert_eq!(context.get_value("x"), None);
    assert_eq!(context.call_function("f", &Value::Int(2)), Ok(Value::Int(4)));
}

#[test]
fn clear_functions_keeps_variables() {
    let mut context = new_context();
    context.set_value("x".to_string(), Value::Int(1)).unwrap();
    context.set_function("f".to_string(), TestFunction::Double).unwrap();
    context.clear_functions();
    assert_eq!(context.get_value("x"), Some(&Value::Int(1)));
    assert_eq!(
        context.call_function("f", &Value::Int(2)),
        Err(EvalexprError::FunctionIdentifierNotFound("f".to_string()))
    );
}

#[test]
fn iter_variables_snapshots_the_bindings() {
    let mut context = new_context();
    context.set_value("a".to_string(), Value::Int(1)).unwrap();
    context.set_value("b".to_string(), Value::Int(2)).unwrap();
    let mut snapshot = context.iter_variables();
    snapshot.sort_by(|left, right| left.0.cmp(&right.0));
    assert_eq!(
        snapshot,
        vec![("a".to_string(), Value::Int(1)), ("b".to_string(), Value::Int(2))]
    );

    // The snapshot does not observe later mutations.
    context.set_value("b".to_string(), Value::Int(3)).unwrap();
    assert_eq!(snapshot[1].1, Value::Int(2));
}

#[test]
fn iter_variable_names_lists_each_name_once() {
    let mut context = new_context();
    context.set_value("a".to_string(), Value::Int(1)).unwrap();
    context.set_value("b".to_string(), Value::Int(2)).unwrap();
    context.set_value("a".to_string(), Value::Int(9)).unwrap();
    let mut names = context.iter_variable_names();
    names.sort();
    assert_eq!(names, vec!["a".to_string(), "b".to_string()]);
}

#[test]
fn value_type_reports_the_discriminant() {
    assert_eq!(Value::Int(1).value_type(), ValueType::Int);
    assert_eq!(Value::Float(0).value_type(), ValueType::Float);
    assert_eq!(Value::Boolean(false).value_type(), ValueType::Boolean);
    assert_eq!(Value::Text(String::new()).value_type(), ValueType::Text);
    assert_eq!(Value::Tuple(vec![]).value_type(), ValueType::Tuple);
    assert_eq!(Value::Empty.value_type(), ValueType::Empty);
}

#[test]
fn clone_preserves_nested_values() {
    let original = Value::Tuple(vec![
        Value::Int(1),
        Value::Tuple(vec![Value::Text("inner".to_string()), Value::Empty]),
    ]);
    let copy = original.clone();
    assert_eq!(copy, original);
}


#[test]
fn has_function_reports_boundness() {
    let mut context = new_context();
    assert!(!context.has_function("f"));
    context.set_function("f".to_string(), TestFunction::Double).unwrap();
    assert!(context.has_function("f"));
    context.set_value("v".to_string(), Value::Int(1)).unwrap();
    assert!(!context.has_function("v"));
}
