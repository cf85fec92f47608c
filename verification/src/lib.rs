//! Verified core of a QuickJS binding: memory accounting and GC triggering,
//! the libc-like allocation protocol, the cross-thread task queues and the
//! value-level views of array buffers and native functions.

pub mod runtime;
pub mod allocator;
pub mod error;
pub mod value;
pub mod loader;
