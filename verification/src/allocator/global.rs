//! Process-wide memory accounting for the Rust global allocator: the bytes
//! currently allocated, the peak reached, and the garbage-collection
//! threshold that the engine's allocator consults.

use vstd::prelude::*;

verus! {

/// `x - y` wrapped around modulo 2^BITS, as unsigned atomic subtraction does.
pub open spec fn wrapped_sub(x: usize, y: usize) -> usize {
    if x >= y {
        (x - y) as usize
    } else {
        (x - y + usize::MAX + 1) as usize
    }
}

/// The collection threshold before any is set: 256 KiB.
pub const INITIAL_GC_THRESHOLD: usize = 262144;

/// The accounting state, as numbers.
pub struct GlobalMemoryView {
    /// Bytes currently allocated.
    pub total: usize,
    /// The largest total reached.
    pub peak: usize,
    /// Allocation above this total asks for a collection.
    pub threshold: usize,
}

impl GlobalMemoryView {
    /// After `size` more bytes are allocated.
    pub open spec fn after_alloc(self, size: usize) -> Self {
        let total = (self.total + size) as usize;
        GlobalMemoryView { total, peak: max_size(self.peak, total), ..self }
    }

    /// After `size` bytes are freed.
    pub open spec fn after_dealloc(self, size: usize) -> Self {
        GlobalMemoryView { total: wrapped_sub(self.total, size), ..self }
    }

    /// After a block of `old_size` bytes is replaced by one of `new_size`.
    pub open spec fn after_realloc(self, old_size: usize, new_size: usize) -> Self {
        self.after_dealloc(old_size).after_alloc(new_size)
    }

    /// After the threshold is raised to one and a half times the total.
    pub open spec fn after_enlarge(self) -> Self {
        GlobalMemoryView { threshold: (self.total + self.total / 2) as usize, ..self }
    }

    /// Whether allocating `size` more bytes passes the threshold.
    pub open spec fn gc_wanted(self, size: usize) -> bool {
        self.total + size > self.threshold
    }
}

/// Process-wide accounting of the memory allocated through the global
/// allocator.
pub struct GlobalMemory {
    total: usize,
    peak: usize,
    threshold: usize,
}

impl View for GlobalMemory {
    type V = GlobalMemoryView;

    closed spec fn view(&self) -> GlobalMemoryView {
        GlobalMemoryView { total: self.total, peak: self.peak, threshold: self.threshold }
    }
}

/// The larger of two sizes.
pub open spec fn max_size(a: usize, b: usize) -> usize {
    if a >= b { a } else { b }
}

impl GlobalMemory {
    /// Nothing allocated yet, the initial threshold.
    pub fn new() -> (r: Self)
        ensures
            r@.total == 0,
            r@.peak == 0,
            r@.threshold == INITIAL_GC_THRESHOLD,
    {
        GlobalMemory { total: 0, peak: 0, threshold: INITIAL_GC_THRESHOLD }
    }

    /// Bytes currently allocated.
    pub fn total(&self) -> (r: usize)
        ensures
            r == self@.total,
    {
        self.total
    }

    /// The collection threshold.
    pub fn threshold(&self) -> (r: usize)
        ensures
            r == self@.threshold,
    {
        self.threshold
    }

    /// Record `size` more bytes allocated and update the peak.
    pub fn on_alloc(&mut self, size: usize)
        requires
            old(self)@.total + size <= usize::MAX,
        ensures
            final(self)@ == old(self)@.after_alloc(size),
    {
        let prev = self.total;
        self.total = prev + size;
        if prev + size > self.peak {
            self.peak = prev + size;
        }
    }

    /// Record `size` bytes freed; the count wraps around as the atomic does.
    pub fn on_dealloc(&mut self, size: usize)
        ensures
            final(self)@ == old(self)@.after_dealloc(size),
    {
        self.total = self.total.wrapping_sub(size);
    }

    /// Record a block of `old_size` bytes replaced by one of `new_size`
    /// bytes. The count is updated whether or not the new block could be
    /// obtained.
    pub fn on_realloc(&mut self, old_size: usize, new_size: usize)
        requires
            wrapped_sub(old(self)@.total, old_size) + new_size <= usize::MAX,
        ensures
            final(self)@ == old(self)@.after_realloc(old_size, new_size),
    {
        self.on_dealloc(old_size);
        self.on_alloc(new_size);
    }

    /// Whether allocating `size` more bytes passes the threshold: 1 if it
    /// does, 0 if not.
    pub fn trigger_gc(&self, size: usize) -> (r: i32)
        requires
            self@.total + size <= usize::MAX,
        ensures
            r == (if self@.gc_wanted(size) { 1i32 } else { 0i32 }),
    {
        if self.total + size > self.threshold {
            1
        } else {
            0
        }
    }

    /// Set the collection threshold.
    pub fn set_gc_threshold(&mut self, size: usize)
        ensures
            final(self)@ == (GlobalMemoryView { threshold: size, ..old(self)@ }),
    {
        self.threshold = size;
    }

    /// Raise the threshold to one and a half times the current total.
    pub fn enlarge_gc_threshold(&mut self)
        requires
            old(self)@.total + old(self)@.total / 2 <= usize::MAX,
        ensures
            final(self)@ == old(self)@.after_enlarge(),
    {
        let now = self.total;
        assert(now >> 1 == now / 2) by (bit_vector);
        self.threshold = now + (now >> 1);
    }
}

/// Record `size` bytes allocated outside the global allocator.
pub fn memory_size_inc(memory: &mut GlobalMemory, size: usize)
    requires
        old(memory)@.total + size <= usize::MAX,
    ensures
        final(memory)@ == old(memory)@.after_alloc(size),
{
    memory.on_alloc(size);
}

/// Record `size` bytes released outside the global allocator.
pub fn memory_size_dec(memory: &mut GlobalMemory, size: usize)
    ensures
        final(memory)@ == old(memory)@.after_dealloc(size),
{
    memory.on_dealloc(size);
}

/// The peak of the memory used so far.
pub fn get_global_used_memory_size(memory: &GlobalMemory) -> (r: usize)
    ensures
        r == memory@.peak,
{
    memory.peak
}

/// Allocating and then freeing the same amount leaves the total as it was;
/// freeing changes neither the peak nor the threshold.
pub proof fn law_alloc_then_free_restores_total(v: GlobalMemoryView, size: usize)
    requires
        v.total + size <= usize::MAX,
    ensures
        v.after_alloc(size).after_dealloc(size).total == v.total,
        v.after_alloc(size).after_dealloc(size).peak >= v.peak,
        v.after_alloc(size).after_dealloc(size).threshold == v.threshold,
{
}

/// The peak never decreases, and stays at or above the total as long as
/// nothing is freed beyond what is allocated.
pub proof fn law_peak_bounds_total(v: GlobalMemoryView, size: usize, old_size: usize, new_size: usize)
    requires
        v.total <= v.peak,
    ensures
        v.total + size <= usize::MAX ==> v.after_alloc(size).total <= v.after_alloc(size).peak,
        v.total + size <= usize::MAX ==> v.after_alloc(size).peak >= v.peak,
        size <= v.total ==> v.after_dealloc(size).total <= v.after_dealloc(size).peak,
        old_size <= v.total && wrapped_sub(v.total, old_size) + new_size <= usize::MAX
            ==> v.after_realloc(old_size, new_size).total <= v.after_realloc(old_size, new_size).peak,
        wrapped_sub(v.total, old_size) + new_size <= usize::MAX
            ==> v.after_realloc(old_size, new_size).peak >= v.peak,
{
}

/// A realloc changes the total by the new size minus the old one: it is a
/// free of the old block followed by an allocation of the new one, leaves
/// the rest of what is allocated counted, and raises the peak to the new
/// total when that is higher. The threshold is not touched.
pub proof fn law_realloc_replaces_one_block(v: GlobalMemoryView, old_size: usize, new_size: usize)
    requires
        old_size <= v.total,
        v.total - old_size + new_size <= usize::MAX,
    ensures
        v.after_realloc(old_size, new_size) == v.after_dealloc(old_size).after_alloc(new_size),
        v.after_realloc(old_size, new_size).total + old_size == v.total + new_size,
        v.after_realloc(old_size, new_size).total >= v.total - old_size,
        v.after_realloc(old_size, new_size).peak >= v.after_realloc(old_size, new_size).total,
        v.after_realloc(old_size, new_size).peak >= v.peak,
        v.after_realloc(old_size, new_size).peak == v.peak
            || v.after_realloc(old_size, new_size).peak == v.after_realloc(old_size, new_size).total,
        v.after_realloc(old_size, new_size).threshold == v.threshold,
        v.after_realloc(old_size, old_size).total == v.total,
{
}

/// A collection is asked for exactly when the bytes allocated plus the bytes
/// requested pass the threshold; bytes already allocated and bytes requested
/// weigh the same.
pub proof fn law_gc_wanted_counts_usage_and_request(v: GlobalMemoryView, size: usize, k: usize)
    requires
        v.total + k <= usize::MAX,
        size + k <= usize::MAX,
    ensures
        v.gc_wanted(size) <==> v.total + size > v.threshold,
        v.after_alloc(k).gc_wanted(size) <==> v.gc_wanted((size + k) as usize),
        v.gc_wanted(size) ==> v.after_alloc(k).gc_wanted(size),
{
}

/// After the threshold is enlarged, a collection is asked for exactly when
/// the new allocation exceeds half of what is allocated now.
pub proof fn law_enlarged_threshold_triggers_above_half(v: GlobalMemoryView, size: usize)
    requires
        v.total + v.total / 2 <= usize::MAX,
    ensures
        v.after_enlarge().gc_wanted(size) <==> size > v.total / 2,
{
}

} // verus!
