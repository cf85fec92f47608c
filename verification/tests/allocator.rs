use rquickjs_core::allocator::global::{
    get_global_used_memory_size, memory_size_dec, memory_size_inc, GlobalMemory, INITIAL_GC_THRESHOLD,
};
use rquickjs_core::allocator::qjs_wasm::{
    is_main_runtime, memory_size_dec as wasm_memory_size_dec, memory_size_inc as wasm_memory_size_inc,
    set_is_main_runtime, QuickjsWasmAllocator, ThreadMemory,
};
use rquickjs_core::allocator::{
    free_plan, malloc_plan, realloc_plan, usable_size_plan, AllocCall, Allocator, AllocatorHolder, RawMemPtr,
};

/// An allocator that hands out increasing addresses and records its calls.
struct Recorder {
    next: usize,
    calls: Vec<AllocCall>,
}

impl Allocator for Recorder {
    fn allocate(&mut self, size: usize) -> RawMemPtr {
        self.calls.push(AllocCall::Alloc(size));
        self.next += 16;
        self.next
    }
    fn dealloc(&mut self, ptr: RawMemPtr) {
        self.calls.push(AllocCall::Dealloc(ptr));
    }
    fn realloc(&mut self, ptr: RawMemPtr, new_size: usize) -> RawMemPtr {
        self.calls.push(AllocCall::Realloc(ptr, new_size));
        ptr
    }
    fn usable_size(_ptr: RawMemPtr) -> usize {
        64
    }
    fn trigger_gc(&self, size: usize) -> i32 {
        (size > 100) as i32
    }
    fn set_gc_threshold(&mut self, _size: usize) {}
    fn enlarge_gc_threshold(&mut self) {}
}

#[test]
fn plans_follow_libc() {
    assert_eq!(malloc_plan(0), AllocCall::Nothing);
    assert_eq!(malloc_plan(8), AllocCall::Alloc(8));
    assert_eq!(free_plan(0), AllocCall::Nothing);
    assert_eq!(free_plan(32), AllocCall::Dealloc(32));
    assert_eq!(realloc_plan(0, 8), AllocCall::Alloc(8));
    assert_eq!(realloc_plan(32, 0), AllocCall::Dealloc(32));
    assert_eq!(realloc_plan(0, 0), AllocCall::Nothing);
    assert_eq!(realloc_plan(32, 8), AllocCall::Realloc(32, 8));
    assert_eq!(usable_size_plan(0), AllocCall::Nothing);
    assert_eq!(usable_size_plan(32), AllocCall::UsableSize(32));
}

#[test]
fn holder_serves_requests() {
    let mut holder = AllocatorHolder::new(Recorder { next: 0, calls: vec![] });
    assert_eq!(holder.malloc(0), 0);
    let p = holder.malloc(10);
    assert_eq!(p, 16);
    holder.free(0);
    assert_eq!(holder.realloc(p, 20), 16);
    assert_eq!(holder.realloc(p, 0), 0);
    assert_eq!(holder.realloc(0, 5), 32);
    holder.free(32);
    assert_eq!(
        holder.allocator().calls,
        vec![
            AllocCall::Alloc(10),
            AllocCall::Realloc(16, 20),
            AllocCall::Dealloc(16),
            AllocCall::Alloc(5),
            AllocCall::Dealloc(32),
        ]
    );
    assert_eq!(AllocatorHolder::<Recorder>::malloc_usable_size(0), 0);
    assert_eq!(AllocatorHolder::<Recorder>::malloc_usable_size(16), 64);
    assert_eq!(holder.trigger_gc(101), 1);
    assert_eq!(holder.trigger_gc(100), 0);
}

#[test]
fn global_inc_dec_and_peak() {
    let mut m = GlobalMemory::new();
    assert_eq!(get_global_used_memory_size(&m), 0);
    memory_size_inc(&mut m, 100);
    memory_size_inc(&mut m, 50);
    memory_size_dec(&mut m, 120);
    assert_eq!(get_global_used_memory_size(&m), 150);
    memory_size_inc(&mut m, 10);
    assert_eq!(get_global_used_memory_size(&m), 150);
    memory_size_inc(&mut m, 200);
    assert_eq!(get_global_used_memory_size(&m), 240);
}

#[test]
fn global_dec_wraps_like_the_atomic() {
    let mut m = GlobalMemory::new();
    memory_size_dec(&mut m, 1);
    m.on_alloc(0);
    assert_eq!(m.trigger_gc(0), 1);
    memory_size_inc(&mut m, 1);
    assert_eq!(m.trigger_gc(0), 0);
}

#[test]
fn global_gc_threshold() {
    let mut m = GlobalMemory::new();
    assert_eq!(INITIAL_GC_THRESHOLD, 256 * 1024);
    m.on_alloc(1000);
    assert_eq!(m.trigger_gc(256 * 1024 - 1000), 0);
    assert_eq!(m.trigger_gc(256 * 1024 - 999), 1);
    m.enlarge_gc_threshold();
    // threshold is now 1500
    assert_eq!(m.trigger_gc(500), 0);
    assert_eq!(m.trigger_gc(501), 1);
    m.set_gc_threshold(10);
    assert_eq!(m.trigger_gc(0), 1);
}

#[test]
fn global_realloc_counts_even_on_failure() {
    let mut m = GlobalMemory::new();
    m.on_alloc(100);
    m.on_realloc(100, 300);
    assert_eq!(get_global_used_memory_size(&m), 300);
    m.on_dealloc(300);
    m.set_gc_threshold(0);
    assert_eq!(m.trigger_gc(0), 0);
}

#[test]
fn wasm_counters_go_to_the_right_total() {
    let mut t = ThreadMemory::new(0, 0);
    assert!(is_main_runtime(&t));
    wasm_memory_size_inc(&mut t, 40);
    assert_eq!(t.global_total(), 40);
    assert_eq!(t.thread_local(), 0);
    set_is_main_runtime(&mut t, false);
    assert!(!is_main_runtime(&t));
    wasm_memory_size_inc(&mut t, 7);
    assert_eq!(t.global_total(), 40);
    assert_eq!(t.thread_local(), 7);
    assert_eq!(t.current(), 7);
    wasm_memory_size_dec(&mut t, 7);
    assert_eq!(t.thread_local(), 0);
}

#[test]
fn wasm_counters_wrap_and_restore() {
    let mut t = ThreadMemory::new(5, 0);
    wasm_memory_size_inc(&mut t, usize::MAX);
    assert_eq!(t.global_total(), 4);
    wasm_memory_size_dec(&mut t, usize::MAX);
    assert_eq!(t.global_total(), 5);
}

#[test]
fn wasm_alloc_counts_only_success() {
    let mut t = ThreadMemory::new(0, 0);
    t.on_alloc(16, false);
    assert_eq!(t.current(), 0);
    t.on_alloc(16, true);
    assert_eq!(t.current(), 16);
    t.on_dealloc(16);
    assert_eq!(t.current(), 0);
}

#[test]
fn wasm_allocator_threshold() {
    let mut a = QuickjsWasmAllocator::new();
    assert_eq!(a.threshold(), 0);
    let mut t = ThreadMemory::new(0, 0);
    assert_eq!(a.trigger_gc(&t, 0), 0);
    assert_eq!(a.trigger_gc(&t, 1), 1);
    wasm_memory_size_inc(&mut t, 1000);
    a.enlarge_gc_threshold(&t);
    assert_eq!(a.threshold(), 1500);
    assert_eq!(a.trigger_gc(&t, 500), 0);
    assert_eq!(a.trigger_gc(&t, 501), 1);
    set_is_main_runtime(&mut t, false);
    a.enlarge_gc_threshold(&t);
    assert_eq!(a.threshold(), 0);
    a.set_gc_threshold(42);
    assert_eq!(a.threshold(), 42);
}
