//! Values held by the variable environment of a run.

use vstd::prelude::*;

verus! {

/// A value that a script variable can hold: a piece of text, a boolean or an
/// integer. The orchestrator never looks inside a value; it only stores values
/// and hands them on.
#[derive(Debug)]
pub enum Value {
    Text(String),
    Bool(bool),
    Integer(i64),
}

impl Value {
    /// An exact copy of the value.
    pub fn duplicate(&self) -> (r: Value)
        ensures
            r == *self,
    {
        match self {
            Value::Text(s) => Value::Text(s.clone()),
            Value::Bool(b) => Value::Bool(*b),
            Value::Integer(i) => Value::Integer(*i),
        }
    }
}

} // verus!
