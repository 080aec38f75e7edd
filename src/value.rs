use vstd::prelude::*;

verus! {

/// The declared type of a column.
#[derive(Debug, Clone, Copy, PartialEq, Eq, Structural)]
pub enum DataType {
    Integer,
    Text,
    Boolean,
}

/// A scalar value stored in a row.
#[derive(Debug, Clone, PartialEq)]
pub enum Value {
    Null,
    Integer(i64),
    Text(String),
    Boolean(bool),
}

/// Two values collide under a uniqueness constraint when they are equal,
/// non-null and of the same type.
pub open spec fn collides(a: Value, b: Value) -> bool {
    match (a, b) {
        (Value::Integer(x), Value::Integer(y)) => x == y,
        (Value::Text(x), Value::Text(y)) => x@ == y@,
        (Value::Boolean(x), Value::Boolean(y)) => x == y,
        _ => false,
    }
}

impl Value {
    /// A copy of this value.
    pub fn copied(&self) -> (r: Value)
        ensures
            r == *self,
    {
        match self {
            Value::Null => Value::Null,
            Value::Integer(x) => Value::Integer(*x),
            Value::Text(s) => Value::Text(s.clone()),
            Value::Boolean(b) => Value::Boolean(*b),
        }
    }

    /// Whether this value collides with `other` under a uniqueness constraint.
    pub fn collides_with(&self, other: &Value) -> (r: bool)
        ensures
            r == collides(*self, *other),
    {
        match (self, other) {
            (Value::Integer(x), Value::Integer(y)) => *x == *y,
            (Value::Text(x), Value::Text(y)) => *x == *y,
            (Value::Boolean(x), Value::Boolean(y)) => *x == *y,
            _ => false,
        }
    }
}

} // verus!
