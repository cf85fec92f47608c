# rquickjs_core

The verified core of a Rust binding to the QuickJS engine:

- `allocator`: the libc conventions by which the engine's malloc, free,
  realloc and malloc_usable_size requests reach an `Allocator`; process-wide
  (`allocator::global`) and per-thread (`allocator::qjs_wasm`) memory
  accounting with the garbage-collection thresholds.
- `runtime`: reading the engine's pending-job status, the interrupt hook;
  `runtime::async_executor`: the task queues between worker threads and the
  JavaScript thread, the outstanding-task count, import results and the
  executor's idle flag.
- `value`: JavaScript values as the library reads them, array buffers, native
  function objects and the call-kind check.
- `loader`: module-name normalization of the default loader.

`app/` holds what touches the process: global allocator hooks and their
shared counters, the futures executor and worker-thread channels, and the
loader's file-system work. Everything that drives the engine itself needs the
engine's system crate and is not part of this crate.
