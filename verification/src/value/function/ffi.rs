//! Native functions and native classes as JavaScript function objects, and
//! the guard that the engine's call flags match the kind of function.

use crate::error::Error;
use crate::value::Value;
use crate::value::function::Input;
use std::marker::PhantomData;
use vstd::prelude::*;

verus! {

/// The engine's call flag that marks a call through `new`.
pub const JS_CALL_FLAG_CONSTRUCTOR: i32 = 1;

/// The message of the error thrown when a function is called with `new`
/// though it is no constructor, or without `new` though it is one.
pub const MUST_BE_CALLED_WITH_NEW: &'static str = "must be called with new";

/// Whether the engine's call flags mark a call through `new`.
pub open spec fn called_with_new(flags: i32) -> bool {
    flags & JS_CALL_FLAG_CONSTRUCTOR != 0
}

/// Whether the way of calling does not match the kind of function: a
/// constructor called without `new`, or a plain function called with it.
pub open spec fn call_kind_mismatch(is_ctor: bool, flags: i32) -> bool {
    is_ctor != called_with_new(flags)
}

/// The guard that precedes every call of a native function: a type error
/// when the way of calling does not match the kind of function.
pub fn check_call_kind(is_ctor: bool, flags: i32) -> (r: Result<(), Error>)
    ensures
        call_kind_mismatch(is_ctor, flags) ==> r == Err::<(), Error>(Error::Type(MUST_BE_CALLED_WITH_NEW)),
        !call_kind_mismatch(is_ctor, flags) ==> r == Ok::<(), Error>(()),
{
    let with_new = flags & JS_CALL_FLAG_CONSTRUCTOR != 0;
    if is_ctor != with_new {
        Err(Error::Type(MUST_BE_CALLED_WITH_NEW))
    } else {
        Ok(())
    }
}

/// Only the constructor bit of the call flags decides whether a call is made
/// through `new`: other flag bits (such as the engine's copy-argv flag, 2)
/// change nothing. So a constructor called through `new` with any extra
/// flags passes the guard, and a plain function so called does not.
pub proof fn law_call_kind_depends_only_on_constructor_bit(is_ctor: bool, flags: i32)
    ensures
        called_with_new(flags) == called_with_new(flags & 1),
        called_with_new(flags) == called_with_new(flags | 2),
        called_with_new(flags | 1),
        !called_with_new(flags & !1),
        called_with_new(1) && called_with_new(3) && !called_with_new(0) && !called_with_new(2),
        call_kind_mismatch(is_ctor, flags) == call_kind_mismatch(is_ctor, flags | 2),
        !call_kind_mismatch(true, flags | 1),
        call_kind_mismatch(false, flags | 1),
        !call_kind_mismatch(false, flags & !1),
        call_kind_mismatch(true, flags & !1),
{
    assert((flags & 1i32 != 0i32) == ((flags & 1i32) & 1i32 != 0i32)) by (bit_vector);
    assert((flags & 1i32 != 0i32) == ((flags | 2i32) & 1i32 != 0i32)) by (bit_vector);
    assert((flags | 1i32) & 1i32 != 0i32) by (bit_vector);
    assert((flags & !1i32) & 1i32 == 0i32) by (bit_vector);
    assert(1i32 & 1i32 != 0i32) by (bit_vector);
    assert(3i32 & 1i32 != 0i32) by (bit_vector);
    assert(0i32 & 1i32 == 0i32) by (bit_vector);
    assert(2i32 & 1i32 == 0i32) by (bit_vector);
}

/// A Rust closure as a JavaScript function.
pub struct JsFunction<F> {
    func: F,
}

impl<F: Fn(&Input) -> Result<Value, Error>> JsFunction<F> {
    /// The closure.
    pub closed spec fn spec_func(&self) -> F {
        self.func
    }

    pub fn new(func: F) -> (r: Self)
        ensures
            r.spec_func() == func,
    {
        JsFunction { func }
    }

    /// The closure.
    pub fn func(&self) -> (r: &F)
        ensures
            *r == self.spec_func(),
    {
        &self.func
    }

    /// A call from JavaScript: the kind check, then the closure on the
    /// input. What the closure returns is returned.
    pub fn call(&self, is_ctor: bool, flags: i32, input: &Input) -> (r: Result<Value, Error>)
        requires
            !call_kind_mismatch(is_ctor, flags) ==> call_requires(self.spec_func(), (input,)),
        ensures
            call_kind_mismatch(is_ctor, flags) ==> r == Err::<Value, Error>(
                Error::Type(MUST_BE_CALLED_WITH_NEW),
            ),
            !call_kind_mismatch(is_ctor, flags) ==> call_ensures(self.spec_func(), (input,), r),
    {
        match check_call_kind(is_ctor, flags) {
            Err(e) => Err(e),
            Ok(()) => (self.func)(input),
        }
    }
}

/// A native class instance as a JavaScript function object.
pub struct JsFunctionWithClass<C, A, R> {
    class: C,
    _phantom: PhantomData<(A, R)>,
}

impl<C, A, R> JsFunctionWithClass<C, A, R> {
    /// The class instance.
    pub closed spec fn spec_class(&self) -> C {
        self.class
    }

    pub fn new(class: C) -> (r: Self)
        ensures
            r.spec_class() == class,
    {
        JsFunctionWithClass { class, _phantom: PhantomData }
    }

    /// The class instance behind a function object, given the engine's opaque
    /// pointer of that object (`None` when the object is not of this class);
    /// fails with the type error for the class named `class_name`.
    pub fn get_opaque<'a>(opaque: Option<&'a Self>, class_name: &'static str) -> (r: Result<&'a C, Error>)
        ensures
            opaque is None ==> r == Err::<&C, Error>(Error::NotClassInstance(class_name)),
            opaque is Some ==> r == Ok::<&C, Error>(&opaque.unwrap().spec_class()),
    {
        match opaque {
            Some(this) => Ok(&this.class),
            None => Err(Error::NotClassInstance(class_name)),
        }
    }

    /// The class instance.
    pub fn class(&self) -> (r: &C)
        ensures
            *r == self.spec_class(),
    {
        &self.class
    }
}

} // verus!
