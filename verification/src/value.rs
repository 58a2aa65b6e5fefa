//! The engine's dynamic value model.
//!
//! Everything scripting code can hold is one of these kinds: the absent value,
//! a boolean, an integer, a string, a function (identified by the callback
//! identifier it was registered under), or a handle to an exposed native
//! instance.  Attached user values and callback arguments are drawn from this
//! space.

use vstd::prelude::*;

use crate::userdata::AnyUserData;

verus! {

/// One value of the scripting engine's value space.
#[derive(Debug, Clone)]
pub enum Value {
    /// The absent value.
    Nil,
    /// A boolean.
    Bool(bool),
    /// An integer.
    Int(i64),
    /// A string.
    Str(String),
    /// A callable, named by the callback identifier it dispatches to.
    Function(u64),
    /// A handle to an exposed native instance.
    UserData(AnyUserData),
}

impl Value {
    /// Truthiness under the scripting language's rules: everything is true
    /// except the absent value and false.
    pub open spec fn truthy(self) -> bool {
        !(self is Nil || self == Value::Bool(false))
    }

    /// Whether two values are observationally equal: equal kinds and equal
    /// contents, with strings compared by their characters.
    pub open spec fn like(self, other: Value) -> bool {
        match (self, other) {
            (Value::Nil, Value::Nil) => true,
            (Value::Bool(a), Value::Bool(b)) => a == b,
            (Value::Int(a), Value::Int(b)) => a == b,
            (Value::Str(a), Value::Str(b)) => a@ == b@,
            (Value::Function(a), Value::Function(b)) => a == b,
            (Value::UserData(a), Value::UserData(b)) => a == b,
            _ => false,
        }
    }

    /// An exact copy of the value.
    pub fn duplicate(&self) -> (r: Value)
        ensures
            r == *self,
    {
        match self {
            Value::Nil => Value::Nil,
            Value::Bool(b) => Value::Bool(*b),
            Value::Int(i) => Value::Int(*i),
            Value::Str(s) => Value::Str(s.clone()),
            Value::Function(id) => Value::Function(*id),
            Value::UserData(h) => Value::UserData(*h),
        }
    }

    /// Whether the value is truthy.
    pub fn is_truthy(&self) -> (r: bool)
        ensures
            r == self.truthy(),
    {
        match self {
            Value::Nil => false,
            Value::Bool(b) => *b,
            _ => true,
        }
    }
}

impl PartialEq for Value {
    fn eq(&self, other: &Value) -> (r: bool) {
        match (self, other) {
            (Value::Nil, Value::Nil) => true,
            (Value::Bool(a), Value::Bool(b)) => a == b,
            (Value::Int(a), Value::Int(b)) => a == b,
            (Value::Str(a), Value::Str(b)) => *a == *b,
            (Value::Function(a), Value::Function(b)) => a == b,
            (Value::UserData(a), Value::UserData(b)) => a == b,
            _ => false,
        }
    }
}

impl vstd::std_specs::cmp::PartialEqSpecImpl for Value {
    open spec fn obeys_eq_spec() -> bool {
        true
    }

    open spec fn eq_spec(&self, other: &Value) -> bool {
        self.like(*other)
    }
}

impl Eq for Value {}

} // verus!
