//! Typing of promise attributes.
//!
//! An [`AttributeType`] is a predicate over a [`Value`]: it names the kind
//! of value an attribute must hold. The declared schema of a promise pairs
//! attribute names with these types, and validation tests each supplied
//! value against the declared type before any lifecycle hook runs.

use vstd::prelude::*;

verus! {

use crate::value::{str_eq, Value};

/// The kind of value an attribute must hold.
#[derive(Debug, Clone, PartialEq)]
pub enum AttributeType {
    /// A boolean.
    Bool,
    /// A string.
    String,
    /// A number representable as a signed 64-bit integer.
    Integer,
    /// Any number.
    Float,
    /// An ordered sequence.
    List,
    /// A key-value object.
    Data,
    /// A string equal to one of the given variants.
    StringEnum(Vec<String>),
    /// A string naming an absolute filesystem path.
    AbsolutePath,
}

/// Whether `value` has the kind that `t` declares.
pub open spec fn spec_has_type(t: AttributeType, value: Value) -> bool {
    match t {
        AttributeType::Bool => value is Bool,
        AttributeType::String => value is Str,
        AttributeType::Integer => value is Int,
        AttributeType::Float => value is Int || value is Num,
        AttributeType::List => value is List,
        AttributeType::Data => value is Object,
        AttributeType::StringEnum(variants) => match value {
            Value::Str(s) => exists|i: int| 0 <= i < variants@.len() && variants@[i]@ == s@,
            _ => false,
        },
        AttributeType::AbsolutePath => match value {
            Value::Str(s) => s@.len() > 0 && s@[0] == '/',
            _ => false,
        },
    }
}

impl AttributeType {
    /// Tests whether `value` has this type.
    ///
    /// A path is taken to be absolute when it starts with the root
    /// separator, the rule of Unix-like platforms.
    pub fn has_type(&self, value: &Value) -> (r: bool)
        ensures
            r == spec_has_type(*self, *value),
    {
        match self {
            AttributeType::Bool => matches!(value, Value::Bool(_)),
            AttributeType::String => matches!(value, Value::Str(_)),
            AttributeType::Integer => matches!(value, Value::Int(_)),
            AttributeType::Float => matches!(value, Value::Int(_) | Value::Num(_)),
            AttributeType::List => matches!(value, Value::List(_)),
            AttributeType::Data => matches!(value, Value::Object(_)),
            AttributeType::StringEnum(variants) => match value {
                Value::Str(s) => contains_string(variants, s.as_str()),
                _ => false,
            },
            AttributeType::AbsolutePath => match value {
                Value::Str(s) => s.as_str().unicode_len() > 0 && s.as_str().get_char(0) == '/',
                _ => false,
            },
        }
    }
}

/// Whether one of `variants` equals `s`.
pub fn contains_string(variants: &Vec<String>, s: &str) -> (r: bool)
    ensures
        r == exists|i: int| 0 <= i < variants@.len() && variants@[i]@ == s@,
{
    let n = variants.len();
    let mut i: usize = 0;
    while i < n
        invariant
            n == variants@.len(),
            i <= n,
            forall|j: int| 0 <= j < i ==> variants@[j]@ != s@,
        decreases n - i,
    {
        if str_eq(variants[i].as_str(), s) {
            return true;
        }
        i = i + 1;
    }
    false
}

} // verus!
