//! Native functions callable from JavaScript.

pub mod ffi;

use crate::value::Value;
use vstd::prelude::*;

verus! {

/// The receiver and the arguments of a call from JavaScript.
#[derive(Debug, PartialEq)]
pub struct Input {
    pub this: Value,
    pub args: Vec<Value>,
}

} // verus!
