use vstd::prelude::*;

verus! {

/// Errors of the library.
#[derive(Debug, Clone, PartialEq, Eq)]
pub enum Error {
    /// The engine could not allocate.
    Allocation,
    /// An error without further detail.
    Unknown,
    /// A value could not be converted from one JavaScript type to another.
    FromJs { from: &'static str, to: &'static str },
    /// A JavaScript `TypeError` with its message.
    Type(&'static str),
    /// The type error "Not a <class> object": a value is not an instance of
    /// the native class named.
    NotClassInstance(&'static str),
    /// Text that is not valid UTF-8.
    Utf8,
    /// An exception was thrown by JavaScript code.
    Exception,
}

} // verus!
