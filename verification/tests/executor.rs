use rquickjs_core::error::Error;
use rquickjs_core::runtime::async_executor::{
    ImportJsFuncRes,
    poll_idle, AsyncCtxInner, ExecutorPoll, IdleFlag, IdleFuture, JsStep, TaskPoll, TotalRefCount,
};
use rquickjs_core::runtime::{continue_pending_jobs, interrupt_answer, pending_job_outcome, PendingJob};

fn run(q: &mut AsyncCtxInner<&'static str, u32>) -> (Option<&'static str>, Option<u32>, i32) {
    let step = q.run_js_single_task();
    let code = step.code();
    match step {
        JsStep::Run { import, js } => (import, js, code),
        JsStep::Drained { .. } => (None, None, code),
    }
}

#[test]
fn total_ref_count() {
    let mut c = TotalRefCount::new();
    assert_eq!(c.get(), 0);
    c.inc();
    c.inc();
    c.dec();
    assert_eq!(c.get(), 1);
}

#[test]
fn queues_run_in_order() {
    let mut q: AsyncCtxInner<&'static str, u32> = AsyncCtxInner::new();
    assert!(!q.has_pipe());
    assert!(q.spawn_wasm_task(true));
    assert!(!q.spawn_wasm_task(false));
    assert!(q.has_pipe());
    assert_eq!(q.total(), 1);
    assert!(q.spawn_js_task(1));
    assert!(!q.spawn_js_task(2));
    assert!(!q.spawn_import_js_task("a"));
    assert!(!q.spawn_js_task(3));
    assert_eq!(run(&mut q), (Some("a"), Some(1), 0));
    assert_eq!(run(&mut q), (None, Some(2), 0));
    assert_eq!(run(&mut q), (None, Some(3), 0));
    // queues empty, one task still outstanding
    assert_eq!(run(&mut q), (None, None, 0));
    q.task_finished();
    assert_eq!(run(&mut q), (None, None, 1));
    // a task queued on empty queues needs a wake-up again
    assert!(q.spawn_import_js_task("b"));
    assert_eq!(run(&mut q), (Some("b"), None, 0));
}

#[test]
fn drained_step_reports_completion() {
    let mut q: AsyncCtxInner<&'static str, u32> = AsyncCtxInner::new();
    q.spawn_wasm_task(false);
    match q.run_js_single_task() {
        JsStep::Drained { completed } => assert!(completed),
        JsStep::Run { .. } => panic!("nothing was queued"),
    }
}

#[test]
fn idle_flag_protocol() {
    let mut flag = IdleFlag::new();
    assert_eq!(flag.idle(), IdleFuture::Ready);
    flag.spawn();
    assert_eq!(flag.idle(), IdleFuture::Waiting);
    match flag.poll_executor(TaskPoll::Ready(7u8)) {
        ExecutorPoll::Run(t) => assert_eq!(t, 7),
        _ => panic!("a ready task runs"),
    }
    assert!(!flag.is_idle());
    assert!(poll_idle(IdleFuture::Waiting, flag.is_idle(), true));
    assert!(!poll_idle(IdleFuture::Waiting, flag.is_idle(), false));
    assert!(matches!(flag.poll_executor(TaskPoll::<u8>::Pending), ExecutorPoll::Waiting));
    assert!(flag.is_idle());
    assert!(!poll_idle(IdleFuture::Waiting, flag.is_idle(), true));
    assert!(!poll_idle(IdleFuture::Ready, false, true));
    assert!(matches!(flag.poll_executor(TaskPoll::<u8>::Closed), ExecutorPoll::Finished));
}

#[test]
fn pending_job_codes() {
    assert_eq!(pending_job_outcome(0), PendingJob::NoJob);
    assert_eq!(pending_job_outcome(1), PendingJob::Executed);
    assert_eq!(pending_job_outcome(-1), PendingJob::Exception);
    assert!(!continue_pending_jobs(PendingJob::NoJob));
    assert!(continue_pending_jobs(PendingJob::Executed));
    assert!(continue_pending_jobs(PendingJob::Exception));
}

#[test]
fn interrupt_hook_answers() {
    let mut slot: Option<&'static str> = None;
    assert!(interrupt_answer(Ok(true), &mut slot));
    assert!(!interrupt_answer(Ok(false), &mut slot));
    assert_eq!(slot, None);
    assert!(interrupt_answer(Err("boom"), &mut slot));
    assert_eq!(slot, Some("boom"));
}

#[test]
fn import_result_slot() {
    let mut res = ImportJsFuncRes::new();
    res.share();
    res.set(Err(Error::Exception));
    let mut other = ImportJsFuncRes::new();
    other.share();
    other.set(Ok(()));
    assert_eq!(other.get(), None);
    res.release();
    assert_eq!(res.get(), Some(Err(Error::Exception)));
    assert_eq!(ImportJsFuncRes::new().get(), None);
}
