//! Memory accounting for runtimes that live on several threads: the main
//! runtime counts into one process-wide total, every worker thread into its
//! own; each allocator keeps its own collection threshold.

use vstd::prelude::*;

verus! {

/// `x + y` wrapped around modulo 2^BITS, as unsigned atomic addition does.
pub open spec fn wrapped_add(x: usize, y: usize) -> usize {
    if x + y <= usize::MAX {
        (x + y) as usize
    } else {
        (x + y - usize::MAX - 1) as usize
    }
}

/// `x - y` wrapped around modulo 2^BITS, as unsigned atomic subtraction does.
pub open spec fn wrapped_sub(x: usize, y: usize) -> usize {
    if x >= y {
        (x - y) as usize
    } else {
        (x - y + usize::MAX + 1) as usize
    }
}

/// The counters as seen from one thread.
pub struct ThreadMemoryView {
    /// Whether this thread runs the main runtime.
    pub is_main_runtime: bool,
    /// Bytes allocated by the main runtime.
    pub global_total: usize,
    /// Bytes allocated by this thread's worker runtime.
    pub thread_local: usize,
}

impl ThreadMemoryView {
    /// The count that this thread's allocations go to.
    pub open spec fn current(self) -> usize {
        if self.is_main_runtime { self.global_total } else { self.thread_local }
    }

    /// After `size` bytes are counted in.
    pub open spec fn after_inc(self, size: usize) -> Self {
        if self.is_main_runtime {
            ThreadMemoryView { global_total: wrapped_add(self.global_total, size), ..self }
        } else {
            ThreadMemoryView { thread_local: wrapped_add(self.thread_local, size), ..self }
        }
    }

    /// After `size` bytes are counted out.
    pub open spec fn after_dec(self, size: usize) -> Self {
        if self.is_main_runtime {
            ThreadMemoryView { global_total: wrapped_sub(self.global_total, size), ..self }
        } else {
            ThreadMemoryView { thread_local: wrapped_sub(self.thread_local, size), ..self }
        }
    }
}

/// The memory counters that one thread reads and updates: the flag that says
/// whether the thread runs the main runtime (initially it does), the
/// process-wide total of the main runtime and the thread's own total.
pub struct ThreadMemory {
    is_main_runtime: bool,
    global_total: usize,
    thread_local: usize,
}

impl View for ThreadMemory {
    type V = ThreadMemoryView;

    closed spec fn view(&self) -> ThreadMemoryView {
        ThreadMemoryView {
            is_main_runtime: self.is_main_runtime,
            global_total: self.global_total,
            thread_local: self.thread_local,
        }
    }
}

impl ThreadMemory {
    /// The counters of a thread given the current totals; a thread starts out
    /// as the main runtime's.
    pub fn new(global_total: usize, thread_local: usize) -> (r: Self)
        ensures
            r@ == (ThreadMemoryView { is_main_runtime: true, global_total, thread_local }),
    {
        ThreadMemory { is_main_runtime: true, global_total, thread_local }
    }

    /// The process-wide total of the main runtime.
    pub fn global_total(&self) -> (r: usize)
        ensures
            r == self@.global_total,
    {
        self.global_total
    }

    /// This thread's own total.
    pub fn thread_local(&self) -> (r: usize)
        ensures
            r == self@.thread_local,
    {
        self.thread_local
    }

    /// The count that this thread's allocations go to.
    pub fn current(&self) -> (r: usize)
        ensures
            r == self@.current(),
    {
        if self.is_main_runtime {
            self.global_total
        } else {
            self.thread_local
        }
    }

    /// Count a block of `size` bytes that the system allocator returned; a
    /// failed allocation (`allocated` false) is not counted.
    pub fn on_alloc(&mut self, size: usize, allocated: bool)
        ensures
            final(self)@ == (if allocated { old(self)@.after_inc(size) } else { old(self)@ }),
    {
        if allocated {
            memory_size_inc(self, size);
        }
    }

    /// Count out a freed block of `size` bytes.
    pub fn on_dealloc(&mut self, size: usize)
        ensures
            final(self)@ == old(self)@.after_dec(size),
    {
        memory_size_dec(self, size);
    }
}

/// Mark whether this thread runs the main runtime.
pub fn set_is_main_runtime(memory: &mut ThreadMemory, value: bool)
    ensures
        final(memory)@ == (ThreadMemoryView { is_main_runtime: value, ..old(memory)@ }),
{
    memory.is_main_runtime = value;
}

/// Whether this thread runs the main runtime.
pub fn is_main_runtime(memory: &ThreadMemory) -> (r: bool)
    ensures
        r == memory@.is_main_runtime,
{
    memory.is_main_runtime
}

/// Count `size` bytes in: into the process-wide total on the main runtime's
/// thread, into the thread's own total elsewhere. The count wraps around as
/// the atomic does.
pub fn memory_size_inc(memory: &mut ThreadMemory, size: usize)
    ensures
        final(memory)@ == old(memory)@.after_inc(size),
{
    if memory.is_main_runtime {
        memory.global_total = memory.global_total.wrapping_add(size);
    } else {
        memory.thread_local = memory.thread_local.wrapping_add(size);
    }
}

/// Count `size` bytes out, from the same total that [`memory_size_inc`]
/// counts into. The count wraps around as the atomic does.
pub fn memory_size_dec(memory: &mut ThreadMemory, size: usize)
    ensures
        final(memory)@ == old(memory)@.after_dec(size),
{
    if memory.is_main_runtime {
        memory.global_total = memory.global_total.wrapping_sub(size);
    } else {
        memory.thread_local = memory.thread_local.wrapping_sub(size);
    }
}

/// Whether allocating `size` more bytes passes `threshold`, counted against
/// this thread's total.
pub open spec fn gc_wanted(memory: ThreadMemoryView, threshold: usize, size: usize) -> bool {
    memory.current() + size > threshold
}

/// The allocator of a runtime on a multi-threaded host. Its collection
/// threshold is set and raised by the engine only.
pub struct QuickjsWasmAllocator {
    threshold: usize,
}

impl QuickjsWasmAllocator {
    /// The threshold.
    pub closed spec fn spec_threshold(&self) -> usize {
        self.threshold
    }

    /// An allocator whose threshold is 0.
    pub fn new() -> (r: Self)
        ensures
            r.spec_threshold() == 0,
    {
        QuickjsWasmAllocator { threshold: 0 }
    }

    /// The threshold.
    pub fn threshold(&self) -> (r: usize)
        ensures
            r == self.spec_threshold(),
    {
        self.threshold
    }

    /// Set the threshold.
    pub fn set_gc_threshold(&mut self, size: usize)
        ensures
            final(self).spec_threshold() == size,
    {
        self.threshold = size;
    }

    /// Whether allocating `size` more bytes passes the threshold, counted
    /// against the total of the calling thread: 1 if it does, 0 if not.
    pub fn trigger_gc(&self, memory: &ThreadMemory, size: usize) -> (r: i32)
        requires
            memory@.current() + size <= usize::MAX,
        ensures
            r == (if gc_wanted(memory@, self.spec_threshold(), size) { 1i32 } else { 0i32 }),
    {
        let now = memory.current();
        if now + size > self.threshold {
            1
        } else {
            0
        }
    }

    /// Raise the threshold to one and a half times the total of the calling
    /// thread.
    pub fn enlarge_gc_threshold(&mut self, memory: &ThreadMemory)
        requires
            memory@.current() + memory@.current() / 2 <= usize::MAX,
        ensures
            final(self).spec_threshold() == memory@.current() + memory@.current() / 2,
    {
        let now = memory.current();
        assert(now >> 1 == now / 2) by (bit_vector);
        self.threshold = now + (now >> 1);
    }
}

/// A collection is wanted exactly when the bytes the thread has counted plus
/// the bytes requested pass the threshold. Bytes already counted and bytes
/// requested weigh the same: counting `k` more bytes and then asking for
/// `size` gives the same answer as asking for `size + k` now; so counting
/// more never turns a wanted collection off, and at or below the threshold
/// none is wanted.
pub proof fn law_gc_wanted_counts_usage_and_request(
    m: ThreadMemoryView,
    threshold: usize,
    size: usize,
    k: usize,
)
    ensures
        gc_wanted(m, threshold, size) <==> m.current() + size > threshold,
        m.current() + size <= threshold ==> !gc_wanted(m, threshold, size),
        m.current() + k <= usize::MAX && size + k <= usize::MAX ==> (gc_wanted(
            m.after_inc(k),
            threshold,
            size,
        ) <==> gc_wanted(m, threshold, (size + k) as usize)),
        m.current() + k <= usize::MAX && gc_wanted(m, threshold, size) ==> gc_wanted(
            m.after_inc(k),
            threshold,
            size,
        ),
        gc_wanted(m, threshold, 0) <==> m.current() > threshold,
{
}

/// Counting bytes in and then out again restores the counters exactly, even
/// across wrap-around; and each thread only touches the total it counts into.
pub proof fn law_inc_then_dec_restores(v: ThreadMemoryView, size: usize)
    ensures
        v.after_inc(size).after_dec(size) == v,
        v.is_main_runtime ==> v.after_inc(size).thread_local == v.thread_local,
        !v.is_main_runtime ==> v.after_inc(size).global_total == v.global_total,
        v.after_inc(size).is_main_runtime == v.is_main_runtime,
{
}

/// After the threshold is enlarged, a collection is asked for exactly when
/// the new allocation exceeds half of what the thread counts now.
pub proof fn law_enlarged_threshold_triggers_above_half(v: ThreadMemoryView, size: usize)
    requires
        v.current() + v.current() / 2 <= usize::MAX,
    ensures
        gc_wanted(v, (v.current() + v.current() / 2) as usize, size) <==> size > v.current() / 2,
{
}

} // verus!
