//! JavaScript values as the library reads them.

pub mod array_buffer;
pub mod function;

use crate::error::Error;
use vstd::prelude::*;

verus! {

/// What an object holds, as far as the library reads it.
#[derive(Debug, Clone, PartialEq)]
pub enum ObjectData {
    /// Any object that is not an array buffer.
    Plain,
    /// An array buffer and its bytes.
    ArrayBuffer(Vec<u8>),
    /// An array buffer whose memory was detached.
    DetachedArrayBuffer,
}

/// A JavaScript value.
#[derive(Debug, Clone, PartialEq)]
pub enum Value {
    Undefined,
    Null,
    Bool(bool),
    Int(i32),
    String(String),
    Object(ObjectData),
}

/// The name of the JavaScript type of a value.
pub open spec fn type_str_of(v: Value) -> &'static str {
    match v {
        Value::Undefined => "undefined",
        Value::Null => "null",
        Value::Bool(_) => "bool",
        Value::Int(_) => "int",
        Value::String(_) => "string",
        Value::Object(_) => "object",
    }
}

impl Value {
    /// The name of the JavaScript type of this value.
    pub fn type_str(&self) -> (r: &'static str)
        ensures
            r == type_str_of(*self),
    {
        match self {
            Value::Undefined => "undefined",
            Value::Null => "null",
            Value::Bool(_) => "bool",
            Value::Int(_) => "int",
            Value::String(_) => "string",
            Value::Object(_) => "object",
        }
    }
}

/// A value that is an object.
#[derive(Debug, PartialEq)]
pub struct Object(Value);

impl Object {
    #[verifier::type_invariant]
    closed spec fn inv(self) -> bool {
        self.0 is Object
    }

    /// The value of this object.
    pub closed spec fn spec_value(&self) -> Value {
        self.0
    }

    /// What this object holds.
    pub closed spec fn spec_data(&self) -> ObjectData {
        self.0->Object_0
    }

    /// An object holding `data`.
    pub fn new(data: ObjectData) -> (r: Self)
        ensures
            r.spec_value() == Value::Object(data),
            r.spec_data() == data,
    {
        Object(Value::Object(data))
    }

    /// What this object holds.
    pub fn data(&self) -> (r: &ObjectData)
        ensures
            *r == self.spec_data(),
    {
        proof {
            use_type_invariant(self);
        }
        match &self.0 {
            Value::Object(data) => data,
            _ => vstd::pervasive::unreached(),
        }
    }

    /// Reference to value.
    pub fn as_value(&self) -> (r: &Value)
        ensures
            *r == self.spec_value(),
    {
        &self.0
    }

    /// Convert into value.
    pub fn into_value(self) -> (r: Value)
        ensures
            r == self.spec_value(),
    {
        self.0
    }

    /// Convert from value: fails unless the value is an object.
    pub fn from_value(value: Value) -> (r: Result<Self, Error>)
        ensures
            value is Object ==> (r matches Ok(o) && o.spec_value() == value),
            !(value is Object) ==> r == Err::<Self, Error>(
                Error::FromJs { from: type_str_of(value), to: "object" },
            ),
    {
        match value {
            Value::Object(data) => Ok(Object(Value::Object(data))),
            _ => {
                let from = value.type_str();
                Err(Error::FromJs { from, to: "object" })
            },
        }
    }
}

} // verus!
