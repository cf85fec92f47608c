//! The allocator interface handed to the engine, and the libc-like protocol
//! by which the engine's malloc, free, realloc and malloc_usable_size requests
//! are turned into calls of an [`Allocator`].

pub mod global;
pub mod qjs_wasm;

use vstd::prelude::*;

verus! {

/// Address of a memory block; 0 stands for the null pointer.
pub type RawMemPtr = usize;

/// The allocator interface.
///
/// The memory calls work on the addresses of blocks; the garbage-collection
/// calls let an allocator decide when the engine should collect. What each
/// call does is described by the implementation through a relation between
/// the allocator before the call, the arguments, the allocator after the call
/// and the result; what the memory system hands out is free within it. An
/// implementation that does not describe a call promises nothing about it.
pub trait Allocator {
    /// What `allocate` may do: `old` to `new`, answering `r`.
    open spec fn allocate_ensures(old: &Self, size: usize, new: &Self, r: RawMemPtr) -> bool {
        true
    }

    /// What `dealloc` may do: `old` to `new`.
    open spec fn dealloc_ensures(old: &Self, ptr: RawMemPtr, new: &Self) -> bool {
        true
    }

    /// What `realloc` may do: `old` to `new`, answering `r`.
    open spec fn realloc_ensures(old: &Self, ptr: RawMemPtr, new_size: usize, new: &Self, r: RawMemPtr) -> bool {
        true
    }

    /// What `usable_size` may answer for `ptr`.
    open spec fn usable_size_ensures(ptr: RawMemPtr, r: usize) -> bool {
        true
    }

    /// What `trigger_gc` may answer.
    open spec fn trigger_gc_ensures(&self, size: usize, r: i32) -> bool {
        true
    }

    /// What `set_gc_threshold` may do: `old` to `new`.
    open spec fn set_gc_threshold_ensures(old: &Self, size: usize, new: &Self) -> bool {
        true
    }

    /// What `enlarge_gc_threshold` may do: `old` to `new`.
    open spec fn enlarge_gc_threshold_ensures(old: &Self, new: &Self) -> bool {
        true
    }

    /// Allocate new memory.
    fn allocate(&mut self, size: usize) -> (r: RawMemPtr)
        ensures
            Self::allocate_ensures(&*old(self), size, &*final(self), r),
    ;

    /// De-allocate previously allocated memory.
    fn dealloc(&mut self, ptr: RawMemPtr)
        ensures
            Self::dealloc_ensures(&*old(self), ptr, &*final(self)),
    ;

    /// Re-allocate previously allocated memory.
    fn realloc(&mut self, ptr: RawMemPtr, new_size: usize) -> (r: RawMemPtr)
        ensures
            Self::realloc_ensures(&*old(self), ptr, new_size, &*final(self), r),
    ;

    /// Get the usable size of an allocated memory region.
    fn usable_size(ptr: RawMemPtr) -> (r: usize)
        where Self: Sized
        ensures
            Self::usable_size_ensures(ptr, r),
    ;

    /// Whether the engine should run the garbage collector before allocating
    /// `size` more bytes (1) or not (0).
    fn trigger_gc(&self, size: usize) -> (r: i32)
        ensures
            self.trigger_gc_ensures(size, r),
    ;

    /// Set the memory threshold for garbage collection.
    fn set_gc_threshold(&mut self, size: usize)
        ensures
            Self::set_gc_threshold_ensures(&*old(self), size, &*final(self)),
    ;

    /// Raise the threshold after a collection.
    fn enlarge_gc_threshold(&mut self)
        ensures
            Self::enlarge_gc_threshold_ensures(&*old(self), &*final(self)),
    ;
}

/// The call that an engine memory request turns into.
#[derive(PartialEq, Eq, Debug, Clone, Copy)]
pub enum AllocCall {
    /// No allocator call; the request answers null (or 0).
    Nothing,
    /// `allocate(size)`.
    Alloc(usize),
    /// `dealloc(ptr)`.
    Dealloc(RawMemPtr),
    /// `realloc(ptr, size)`.
    Realloc(RawMemPtr, usize),
    /// `usable_size(ptr)`.
    UsableSize(RawMemPtr),
}

/// `malloc(size)` as libc does it: a request for 0 bytes answers null.
pub open spec fn malloc_call(size: usize) -> AllocCall {
    if size == 0 { AllocCall::Nothing } else { AllocCall::Alloc(size) }
}

/// `free(ptr)` as libc does it: freeing null does nothing.
pub open spec fn free_call(ptr: RawMemPtr) -> AllocCall {
    if ptr == 0 { AllocCall::Nothing } else { AllocCall::Dealloc(ptr) }
}

/// `realloc(ptr, size)` as libc does it: from null it allocates; to 0 bytes
/// it frees and answers null.
pub open spec fn realloc_call(ptr: RawMemPtr, size: usize) -> AllocCall {
    if ptr == 0 && size != 0 {
        AllocCall::Alloc(size)
    } else if size == 0 {
        if ptr != 0 { AllocCall::Dealloc(ptr) } else { AllocCall::Nothing }
    } else {
        AllocCall::Realloc(ptr, size)
    }
}

/// `malloc_usable_size(ptr)` as libc does it: null has 0 usable bytes.
pub open spec fn usable_size_call(ptr: RawMemPtr) -> AllocCall {
    if ptr == 0 { AllocCall::Nothing } else { AllocCall::UsableSize(ptr) }
}

/// The allocator call for an engine `malloc` request.
pub fn malloc_plan(size: usize) -> (r: AllocCall)
    ensures
        r == malloc_call(size),
{
    if size == 0 {
        AllocCall::Nothing
    } else {
        AllocCall::Alloc(size)
    }
}

/// The allocator call for an engine `free` request.
pub fn free_plan(ptr: RawMemPtr) -> (r: AllocCall)
    ensures
        r == free_call(ptr),
{
    if ptr == 0 {
        AllocCall::Nothing
    } else {
        AllocCall::Dealloc(ptr)
    }
}

/// The allocator call for an engine `realloc` request.
pub fn realloc_plan(ptr: RawMemPtr, size: usize) -> (r: AllocCall)
    ensures
        r == realloc_call(ptr, size),
{
    if ptr == 0 && size != 0 {
        AllocCall::Alloc(size)
    } else if size == 0 {
        if ptr != 0 {
            AllocCall::Dealloc(ptr)
        } else {
            AllocCall::Nothing
        }
    } else {
        AllocCall::Realloc(ptr, size)
    }
}

/// The allocator call for an engine `malloc_usable_size` request.
pub fn usable_size_plan(ptr: RawMemPtr) -> (r: AllocCall)
    ensures
        r == usable_size_call(ptr),
{
    if ptr == 0 {
        AllocCall::Nothing
    } else {
        AllocCall::UsableSize(ptr)
    }
}

/// `realloc` from null is `malloc`; `realloc` to 0 bytes is `free` and answers
/// null; a non-null block resized to a non-zero size is a `realloc` call.
pub proof fn law_realloc_follows_libc(ptr: RawMemPtr, size: usize)
    ensures
        realloc_call(0, size) == malloc_call(size),
        realloc_call(ptr, 0) == free_call(ptr),
        ptr != 0 && size != 0 ==> realloc_call(ptr, size) == AllocCall::Realloc(ptr, size),
{
}

/// Null and zero-sized requests never reach the allocator.
pub proof fn law_null_requests_do_nothing()
    ensures
        malloc_call(0) == AllocCall::Nothing,
        free_call(0) == AllocCall::Nothing,
        realloc_call(0, 0) == AllocCall::Nothing,
        usable_size_call(0) == AllocCall::Nothing,
{
}

/// Holds the allocator that serves an engine runtime and answers the engine's
/// memory requests with libc's conventions.
pub struct AllocatorHolder<A: Allocator> {
    allocator: A,
}

impl<A: Allocator> AllocatorHolder<A> {
    /// The allocator held.
    pub closed spec fn spec_allocator(&self) -> A {
        self.allocator
    }

    pub fn new(allocator: A) -> (r: Self)
        ensures
            r.spec_allocator() == allocator,
    {
        AllocatorHolder { allocator }
    }

    /// The allocator held.
    pub fn allocator(&self) -> (r: &A)
        ensures
            *r == self.spec_allocator(),
    {
        &self.allocator
    }

    /// Serve an engine `malloc` request.
    pub fn malloc(&mut self, size: usize) -> (r: RawMemPtr)
        ensures
            malloc_call(size) == AllocCall::Nothing ==> r == 0 && *final(self) == *old(self),
            malloc_call(size) == AllocCall::Alloc(size) ==> A::allocate_ensures(
                &old(self).spec_allocator(),
                size,
                &final(self).spec_allocator(),
                r,
            ),
    {
        match malloc_plan(size) {
            AllocCall::Alloc(n) => self.allocator.allocate(n),
            _ => 0,
        }
    }

    /// Serve an engine `free` request.
    pub fn free(&mut self, ptr: RawMemPtr)
        ensures
            free_call(ptr) == AllocCall::Nothing ==> *final(self) == *old(self),
            free_call(ptr) == AllocCall::Dealloc(ptr) ==> A::dealloc_ensures(
                &old(self).spec_allocator(),
                ptr,
                &final(self).spec_allocator(),
            ),
    {
        match free_plan(ptr) {
            AllocCall::Dealloc(p) => self.allocator.dealloc(p),
            _ => {},
        }
    }

    /// Serve an engine `realloc` request.
    pub fn realloc(&mut self, ptr: RawMemPtr, size: usize) -> (r: RawMemPtr)
        ensures
            size == 0 ==> r == 0,
            realloc_call(ptr, size) == AllocCall::Nothing ==> *final(self) == *old(self),
            realloc_call(ptr, size) == AllocCall::Alloc(size) ==> A::allocate_ensures(
                &old(self).spec_allocator(),
                size,
                &final(self).spec_allocator(),
                r,
            ),
            realloc_call(ptr, size) == AllocCall::Dealloc(ptr) ==> A::dealloc_ensures(
                &old(self).spec_allocator(),
                ptr,
                &final(self).spec_allocator(),
            ),
            realloc_call(ptr, size) == AllocCall::Realloc(ptr, size) ==> A::realloc_ensures(
                &old(self).spec_allocator(),
                ptr,
                size,
                &final(self).spec_allocator(),
                r,
            ),
    {
        match realloc_plan(ptr, size) {
            AllocCall::Alloc(n) => self.allocator.allocate(n),
            AllocCall::Dealloc(p) => {
                self.allocator.dealloc(p);
                0
            },
            AllocCall::Realloc(p, n) => self.allocator.realloc(p, n),
            _ => 0,
        }
    }

    /// Serve an engine `malloc_usable_size` request.
    pub fn malloc_usable_size(ptr: RawMemPtr) -> (r: usize)
        ensures
            usable_size_call(ptr) == AllocCall::Nothing ==> r == 0,
            usable_size_call(ptr) == AllocCall::UsableSize(ptr) ==> A::usable_size_ensures(ptr, r),
    {
        match usable_size_plan(ptr) {
            AllocCall::UsableSize(p) => A::usable_size(p),
            _ => 0,
        }
    }

    /// Ask the allocator whether the engine should collect garbage.
    pub fn trigger_gc(&self, size: usize) -> (r: i32)
        ensures
            self.spec_allocator().trigger_gc_ensures(size, r),
    {
        self.allocator.trigger_gc(size)
    }

    /// Pass a new collection threshold to the allocator.
    pub fn set_gc_threshold(&mut self, size: usize)
        ensures
            A::set_gc_threshold_ensures(&old(self).spec_allocator(), size, &final(self).spec_allocator()),
    {
        self.allocator.set_gc_threshold(size)
    }

    /// Let the allocator raise its threshold after a collection.
    pub fn enlarge_gc_threshold(&mut self)
        ensures
            A::enlarge_gc_threshold_ensures(&old(self).spec_allocator(), &final(self).spec_allocator()),
    {
        self.allocator.enlarge_gc_threshold()
    }
}

} // verus!
