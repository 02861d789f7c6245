//! The value type whose cells build lists.
use vstd::prelude::*;

use crate::cons::Cons;

verus! {

/// A value: the empty list, an atom, or a cons cell.
#[derive(Debug)]
pub enum Value {
    /// The empty list, which ends a proper list.
    Null,
    /// A boolean.
    Bool(bool),
    /// A signed integer.
    Number(i64),
    /// A cons cell, owned by the value.
    Cons(Cons),
}

impl Value {
    /// Whether the value is a cons cell.
    pub open spec fn is_cons_spec(&self) -> bool {
        self is Cons
    }

    /// Returns `true` if the value is a cons cell.
    pub fn is_cons(&self) -> (r: bool)
        ensures
            r == self.is_cons_spec(),
    {
        match self {
            Value::Cons(_) => true,
            _ => false,
        }
    }

    /// Compares two values structurally.
    pub fn equals(&self, other: &Value) -> (r: bool)
        ensures
            r == (*self == *other),
        decreases self,
    {
        match (self, other) {
            (Value::Null, Value::Null) => true,
            (Value::Bool(a), Value::Bool(b)) => *a == *b,
            (Value::Number(a), Value::Number(b)) => *a == *b,
            (Value::Cons(a), Value::Cons(b)) => a.equals(b),
            _ => false,
        }
    }

    /// A copy of the value, equal to it.
    pub(crate) fn deep_copy(&self) -> (r: Value)
        ensures
            r == *self,
        decreases self,
    {
        match self {
            Value::Null => Value::Null,
            Value::Bool(b) => Value::Bool(*b),
            Value::Number(n) => Value::Number(*n),
            Value::Cons(c) => Value::Cons(c.deep_copy()),
        }
    }
}

impl Clone for Value {
    fn clone(&self) -> (r: Value)
        ensures
            r == *self,
    {
        self.deep_copy()
    }
}

impl PartialEq for Value {
    fn eq(&self, other: &Value) -> (r: bool) {
        self.equals(other)
    }
}

impl vstd::std_specs::cmp::PartialEqSpecImpl for Value {
    open spec fn obeys_eq_spec() -> bool {
        true
    }

    open spec fn eq_spec(&self, other: &Value) -> bool {
        *self == *other
    }
}

impl From<bool> for Value {
    fn from(b: bool) -> (r: Value) {
        Value::Bool(b)
    }
}

impl vstd::std_specs::convert::FromSpecImpl<bool> for Value {
    open spec fn obeys_from_spec() -> bool {
        true
    }

    open spec fn from_spec(b: bool) -> Value {
        Value::Bool(b)
    }
}

impl From<Cons> for Value {
    fn from(c: Cons) -> (r: Value) {
        Value::Cons(c)
    }
}

impl vstd::std_specs::convert::FromSpecImpl<Cons> for Value {
    open spec fn obeys_from_spec() -> bool {
        true
    }

    open spec fn from_spec(c: Cons) -> Value {
        Value::Cons(c)
    }
}

impl From<i64> for Value {
    fn from(n: i64) -> (r: Value) {
        Value::Number(n)
    }
}

impl vstd::std_specs::convert::FromSpecImpl<i64> for Value {
    open spec fn obeys_from_spec() -> bool {
        true
    }

    open spec fn from_spec(n: i64) -> Value {
        Value::Number(n)
    }
}

} // verus!
