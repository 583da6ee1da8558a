//! The tagged-union value type bound to identifiers, and its type tag.
//!
//! Only the discriminant (the value type) matters to the stores: a variable,
//! once bound, may only be reassigned values of the same discriminant.

use vstd::prelude::*;

verus! {

broadcast use vstd::std_specs::vec::group_vec_axioms, vstd::seq::group_seq_axioms;

/// The discriminant of a [`Value`].
#[derive(Clone, Copy, Debug, PartialEq, Eq, Structural)]
pub enum ValueType {
    /// A signed integer.
    Int,
    /// A floating-point number, carried as its bit pattern.
    Float,
    /// A boolean.
    Boolean,
    /// A text string.
    Text,
    /// A tuple of values.
    Tuple,
    /// The empty (unit) value.
    Empty,
}

/// A value bound to an identifier.
///
/// Floating-point numbers are carried as their IEEE 754 bit patterns and are
/// never interpreted by this crate; the stores only compare discriminants.
#[derive(Debug, PartialEq, Eq)]
pub enum Value {
    /// A signed integer.
    Int(i64),
    /// A floating-point number, as its IEEE 754 bit pattern.
    Float(u64),
    /// A boolean.
    Boolean(bool),
    /// A text string.
    Text(String),
    /// A tuple of values.
    Tuple(Vec<Value>),
    /// The empty (unit) value.
    Empty,
}

/// The mathematical model of a [`Value`].
#[verifier::ext_equal]
pub enum ValueModel {
    /// Model of [`Value::Int`].
    Int(int),
    /// Model of [`Value::Float`]: the bit pattern, uninterpreted.
    Float(u64),
    /// Model of [`Value::Boolean`].
    Boolean(bool),
    /// Model of [`Value::Text`].
    Text(Seq<char>),
    /// Model of [`Value::Tuple`].
    Tuple(Seq<ValueModel>),
    /// Model of [`Value::Empty`].
    Empty,
}

impl ValueModel {
    /// The discriminant of a modelled value.
    pub open spec fn value_type(&self) -> ValueType {
        match self {
            ValueModel::Int(_) => ValueType::Int,
            ValueModel::Float(_) => ValueType::Float,
            ValueModel::Boolean(_) => ValueType::Boolean,
            ValueModel::Text(_) => ValueType::Text,
            ValueModel::Tuple(_) => ValueType::Tuple,
            ValueModel::Empty => ValueType::Empty,
        }
    }
}

/// The model of a value.
pub open spec fn value_model(v: Value) -> ValueModel
    decreases v,
    via value_model_decreases_proof
{
    match v {
        Value::Int(i) => ValueModel::Int(i as int),
        Value::Float(bits) => ValueModel::Float(bits),
        Value::Boolean(b) => ValueModel::Boolean(b),
        Value::Text(s) => ValueModel::Text(s@),
        Value::Tuple(items) => ValueModel::Tuple(tuple_models(items@)),
        Value::Empty => ValueModel::Empty,
    }
}

#[via_fn]
proof fn value_model_decreases_proof(v: Value) {
    if let Value::Tuple(items) = v {
        assert(decreases_to!(v => items));
        assert(decreases_to!(items => items@));
    }
}

/// The models of a sequence of values, element by element.
pub open spec fn tuple_models(items: Seq<Value>) -> Seq<ValueModel>
    decreases items,
{
    if items.len() == 0 {
        Seq::empty()
    } else {
        tuple_models(items.drop_last()).push(value_model(items.last()))
    }
}

impl View for Value {
    type V = ValueModel;

    open spec fn view(&self) -> ValueModel {
        value_model(*self)
    }
}

/// Sequences of values with pointwise equal models have equal model
/// sequences.
pub proof fn lemma_tuple_models_pointwise(a: Seq<Value>, b: Seq<Value>)
    requires
        a.len() == b.len(),
        forall|i: int| 0 <= i < a.len() ==> a[i]@ == b[i]@,
    ensures
        tuple_models(a) == tuple_models(b),
    decreases a.len(),
{
    if a.len() > 0 {
        lemma_tuple_models_pointwise(a.drop_last(), b.drop_last());
    }
}

impl Value {
    /// The discriminant of this value.
    pub open spec fn spec_value_type(&self) -> ValueType {
        self@.value_type()
    }

    /// Returns the discriminant of this value.
    #[verifier::when_used_as_spec(spec_value_type)]
    pub fn value_type(&self) -> (t: ValueType)
        ensures
            t == self.spec_value_type(),
    {
        match self {
            Value::Int(_) => ValueType::Int,
            Value::Float(_) => ValueType::Float,
            Value::Boolean(_) => ValueType::Boolean,
            Value::Text(_) => ValueType::Text,
            Value::Tuple(_) => ValueType::Tuple,
            Value::Empty => ValueType::Empty,
        }
    }
}

impl Clone for Value {
    /// Cloning preserves the modelled value.
    #[verifier::loop_isolation(false)]
    fn clone(&self) -> (r: Self)
        ensures
            r@ == self@,
        decreases self,
    {
        match self {
            Value::Int(i) => Value::Int(*i),
            Value::Float(bits) => Value::Float(*bits),
            Value::Boolean(b) => Value::Boolean(*b),
            Value::Text(s) => Value::Text(s.clone()),
            Value::Tuple(items) => {
                let n = items.len();
                let mut cloned_items: Vec<Value> = Vec::new();
                let mut i: usize = 0;
                while i < n
                    invariant
                        i <= n,
                        n == items@.len(),
                        cloned_items@.len() == i as int,
                        forall|j: int| 0 <= j < i ==> cloned_items@[j]@ == items@[j]@,
                    decreases n - i,
                {
                    let item = &items[i];
                    proof {
                        assert(*self == Value::Tuple(*items));
                        assert(decreases_to!(*self => *items));
                        assert(decreases_to!(*items => items@));
                        assert(decreases_to!(items@ => items@[i as int]));
                    }
                    cloned_items.push(item.clone());
                    i += 1;
                }
                let result = Value::Tuple(cloned_items);
                proof {
                    lemma_tuple_models_pointwise(cloned_items@, items@);
                }
                result
            },
            Value::Empty => Value::Empty,
        }
    }
}

} // verus!
