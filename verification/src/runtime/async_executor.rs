use crate::error::Error;
use std::collections::VecDeque;
use vstd::prelude::*;

verus! {

/// Count of asynchronous tasks started from the JavaScript side that have
/// not finished yet. Only used on the thread that owns the runtime.
pub struct TotalRefCount {
    count: u32,
}

impl View for TotalRefCount {
    type V = nat;

    closed spec fn view(&self) -> nat {
        self.count as nat
    }
}

impl TotalRefCount {
    /// A counter with no task outstanding.
    pub fn new() -> (r: Self)
        ensures
            r@ == 0,
    {
        TotalRefCount { count: 0 }
    }

    /// One more task outstanding.
    pub fn inc(&mut self)
        requires
            old(self)@ < u32::MAX,
        ensures
            final(self)@ == old(self)@ + 1,
        no_unwind
    {
        self.count = self.count + 1;
    }

    /// One task fewer outstanding.
    pub fn dec(&mut self)
        requires
            old(self)@ > 0,
        ensures
            final(self)@ == old(self)@ - 1,
        no_unwind
    {
        self.count = self.count - 1;
    }

    /// The number of outstanding tasks.
    pub fn get(&self) -> (r: u32)
        ensures
            r == self@,
    {
        self.count
    }
}

/// The state of the result slot of a module-import task.
pub struct ImportResView {
    /// The result stored by the task.
    pub res: Result<(), Error>,
    /// Whether the task has stored its result.
    pub done: bool,
    /// How many handles share the slot, this one included.
    pub holders: nat,
}

impl ImportResView {
    /// After the task stores `res`.
    pub open spec fn after_set(self, res: Result<(), Error>) -> Self {
        ImportResView { res, done: true, ..self }
    }

    /// After another handle is dropped.
    pub open spec fn after_release(self) -> Self {
        ImportResView { holders: (self.holders - 1) as nat, ..self }
    }

    /// What `get` answers in this state: the stored result, once it is stored
    /// and no other handle shares the slot.
    pub open spec fn answer(self) -> Option<Result<(), Error>> {
        if self.done && self.holders == 1 { Some(self.res) } else { None }
    }
}

/// The result slot of a module-import task, shared between the task and the
/// thread that waits for it. The task stores its result and raises the flag;
/// the waiting thread takes the result out once it holds the only handle.
pub struct ImportJsFuncRes {
    res: Result<(), Error>,
    flag: bool,
    holders: usize,
}

impl View for ImportJsFuncRes {
    type V = ImportResView;

    closed spec fn view(&self) -> ImportResView {
        ImportResView { res: self.res, done: self.flag, holders: self.holders as nat }
    }
}

impl ImportJsFuncRes {
    #[verifier::type_invariant]
    closed spec fn inv(self) -> bool {
        self.holders >= 1
    }

    /// An empty slot with a single handle.
    pub fn new() -> (r: Self)
        ensures
            r@ == (ImportResView { res: Ok(()), done: false, holders: 1 }),
    {
        ImportJsFuncRes { res: Ok(()), flag: false, holders: 1 }
    }

    /// Another handle to the slot is handed out.
    pub fn share(&mut self)
        requires
            old(self)@.holders < usize::MAX,
        ensures
            final(self)@ == (ImportResView { holders: old(self)@.holders + 1, ..old(self)@ }),
    {
        self.holders = self.holders + 1;
    }

    /// Another handle to the slot is dropped.
    pub fn release(&mut self)
        requires
            old(self)@.holders > 1,
        ensures
            final(self)@ == old(self)@.after_release(),
    {
        self.holders = self.holders - 1;
    }

    /// The task stores its result and raises the flag.
    pub fn set(&mut self, res: Result<(), Error>)
        ensures
            final(self)@ == old(self)@.after_set(res),
    {
        proof {
            use_type_invariant(&*self);
        }
        self.res = res;
        self.flag = true;
    }

    /// Take the result out: `Some` once it is stored and this is the only
    /// handle to the slot, `None` otherwise.
    pub fn get(self) -> (r: Option<Result<(), Error>>)
        ensures
            r == self@.answer(),
    {
        if self.flag && self.holders == 1 {
            Some(self.res)
        } else {
            None
        }
    }
}

/// A stored result is what the waiting thread gets back once the task has
/// dropped its handle; before the result is stored, or while the task still
/// holds its handle, nothing is got.
pub proof fn law_get_returns_what_was_set(v: ImportResView, res: Result<(), Error>)
    requires
        v.holders == 2,
    ensures
        v.after_set(res).after_release().answer() == Some(res),
        v.after_set(res).answer() is None,
        !v.done ==> v.answer() is None,
        !v.done ==> v.after_release().answer() is None,
{
}

/// What one turn of the JavaScript-side task executor does.
pub enum JsStep<I, J> {
    /// Both queues were empty: the wake-up pipe is drained and nothing runs.
    /// `completed` tells whether no started task is outstanding any more.
    Drained { completed: bool },
    /// The head of each non-empty queue, taken out to be run: the import
    /// task first, then the JavaScript task.
    Run { import: Option<I>, js: Option<J> },
}

impl<I, J> JsStep<I, J> {
    /// The status code handed back to the engine: 1 when the executor has
    /// completed all its work, 0 otherwise.
    pub open spec fn spec_code(&self) -> i32 {
        match self {
            JsStep::Drained { completed } => if *completed { 1 } else { 0 },
            JsStep::Run { .. } => 0,
        }
    }

    pub fn code(&self) -> (r: i32)
        ensures
            r == self.spec_code(),
    {
        match self {
            JsStep::Drained { completed } => if *completed { 1 } else { 0 },
            JsStep::Run { .. } => 0,
        }
    }
}

/// The abstract state of the task queues shared by the spawner and the
/// JavaScript-side executor.
pub struct QueuesView<I, J> {
    /// Pending module-import tasks, oldest first.
    pub imports: Seq<I>,
    /// Pending JavaScript tasks, oldest first.
    pub js: Seq<J>,
    /// Started tasks that have not finished.
    pub total: nat,
    /// Whether the wake-up pipe to the engine exists.
    pub pipe: bool,
}

impl<I, J> QueuesView<I, J> {
    /// Both queues are empty.
    pub open spec fn is_idle(self) -> bool {
        self.imports.len() == 0 && self.js.len() == 0
    }

    /// A wake-up must have been written whenever something waits in a queue,
    /// and that needs the pipe.
    pub open spec fn wf(self) -> bool {
        !self.is_idle() ==> self.pipe
    }

    pub open spec fn after_spawn_js(self, task: J) -> Self {
        QueuesView { js: self.js.push(task), ..self }
    }

    pub open spec fn after_spawn_import(self, task: I) -> Self {
        QueuesView { imports: self.imports.push(task), ..self }
    }

    pub open spec fn after_spawn_wasm(self, new_task: bool) -> Self {
        QueuesView {
            pipe: true,
            total: if new_task { self.total + 1 } else { self.total },
            ..self
        }
    }

    pub open spec fn after_finish(self) -> Self {
        QueuesView { total: (self.total - 1) as nat, ..self }
    }

    /// The step that one turn of the executor takes in this state.
    pub open spec fn step(self) -> JsStep<I, J> {
        if self.is_idle() {
            JsStep::Drained { completed: self.total == 0 }
        } else {
            JsStep::Run {
                import: if self.imports.len() > 0 { Some(self.imports[0]) } else { None },
                js: if self.js.len() > 0 { Some(self.js[0]) } else { None },
            }
        }
    }

    /// The state after one turn of the executor.
    pub open spec fn after_run(self) -> Self {
        QueuesView {
            imports: if self.imports.len() > 0 { self.imports.drop_first() } else { self.imports },
            js: if self.js.len() > 0 { self.js.drop_first() } else { self.js },
            ..self
        }
    }

    /// The JavaScript tasks in the order in which turns of the executor run
    /// them, from this state until both queues are empty.
    pub open spec fn js_run_order(self) -> Seq<J>
        decreases self.imports.len() + self.js.len(),
    {
        if self.is_idle() {
            Seq::empty()
        } else {
            let rest = self.after_run().js_run_order();
            if self.js.len() > 0 { seq![self.js[0]] + rest } else { rest }
        }
    }

    /// The import tasks in the order in which turns of the executor run
    /// them, from this state until both queues are empty.
    pub open spec fn import_run_order(self) -> Seq<I>
        decreases self.imports.len() + self.js.len(),
    {
        if self.is_idle() {
            Seq::empty()
        } else {
            let rest = self.after_run().import_run_order();
            if self.imports.len() > 0 { seq![self.imports[0]] + rest } else { rest }
        }
    }
}

/// The task queues through which other threads hand work to the thread that
/// runs JavaScript: JavaScript tasks, module-import tasks, the count of
/// outstanding tasks, and whether the wake-up pipe to the engine exists.
///
/// A queue that turns non-empty needs a wake-up written to the pipe; the
/// spawning functions say when.
pub struct AsyncCtxInner<I, J> {
    js_tasks: VecDeque<J>,
    import_js_tasks: VecDeque<I>,
    total: TotalRefCount,
    pipe: bool,
}

impl<I, J> View for AsyncCtxInner<I, J> {
    type V = QueuesView<I, J>;

    closed spec fn view(&self) -> QueuesView<I, J> {
        QueuesView {
            imports: self.import_js_tasks@,
            js: self.js_tasks@,
            total: self.total@,
            pipe: self.pipe,
        }
    }
}

impl<I, J> AsyncCtxInner<I, J> {
    #[verifier::type_invariant]
    closed spec fn inv(self) -> bool {
        self@.wf()
    }

    /// Empty queues, no outstanding task, no pipe yet.
    pub fn new() -> (r: Self)
        ensures
            r@.imports == Seq::<I>::empty(),
            r@.js == Seq::<J>::empty(),
            r@.total == 0,
            !r@.pipe,
    {
        AsyncCtxInner {
            js_tasks: VecDeque::new(),
            import_js_tasks: VecDeque::new(),
            total: TotalRefCount::new(),
            pipe: false,
        }
    }

    /// Whether the wake-up pipe has been created.
    pub fn has_pipe(&self) -> (r: bool)
        ensures
            r == self@.pipe,
    {
        self.pipe
    }

    /// The number of started tasks that have not finished.
    pub fn total(&self) -> (r: u32)
        ensures
            r == self@.total,
    {
        self.total.get()
    }

    /// Book-keeping for handing a task to a worker thread. The pipe is created
    /// on the first such task only; the result says whether this call is the
    /// one that must create it. A task that starts a new asynchronous
    /// operation (`new_task`) counts as outstanding until it finishes.
    pub fn spawn_wasm_task(&mut self, new_task: bool) -> (create_pipe: bool)
        requires
            new_task ==> old(self)@.total < u32::MAX,
        ensures
            create_pipe == !old(self)@.pipe,
            final(self)@ == old(self)@.after_spawn_wasm(new_task),
    {
        proof {
            use_type_invariant(&*self);
        }
        let create_pipe = !self.pipe;
        if create_pipe {
            self.pipe = true;
        }
        if new_task {
            self.total.inc();
        }
        create_pipe
    }

    /// Queue a JavaScript task. The result says whether a wake-up must be
    /// written to the pipe: exactly when both queues were empty.
    pub fn spawn_js_task(&mut self, task: J) -> (wake: bool)
        requires
            old(self)@.pipe,
        ensures
            wake == old(self)@.is_idle(),
            final(self)@ == old(self)@.after_spawn_js(task),
    {
        let wake = self.js_tasks.len() == 0 && self.import_js_tasks.len() == 0;
        let mut js_tasks = VecDeque::new();
        std::mem::swap(&mut js_tasks, &mut self.js_tasks);
        js_tasks.push_back(task);
        self.js_tasks = js_tasks;
        wake
    }

    /// Queue a module-import task. The result says whether a wake-up must be
    /// written to the pipe: exactly when both queues were empty.
    pub fn spawn_import_js_task(&mut self, task: I) -> (wake: bool)
        requires
            old(self)@.pipe,
        ensures
            wake == old(self)@.is_idle(),
            final(self)@ == old(self)@.after_spawn_import(task),
    {
        let wake = self.js_tasks.len() == 0 && self.import_js_tasks.len() == 0;
        let mut import_js_tasks = VecDeque::new();
        std::mem::swap(&mut import_js_tasks, &mut self.import_js_tasks);
        import_js_tasks.push_back(task);
        self.import_js_tasks = import_js_tasks;
        wake
    }

    /// A started task has resolved or rejected its promise.
    pub fn task_finished(&mut self)
        requires
            old(self)@.total > 0,
        ensures
            final(self)@ == old(self)@.after_finish(),
    {
        proof {
            use_type_invariant(&*self);
        }
        self.total.dec();
    }

    /// One turn of the executor on the JavaScript thread: with both queues
    /// empty it drains the pipe and reports whether all work is completed;
    /// otherwise it takes out the head of each non-empty queue.
    pub fn run_js_single_task(&mut self) -> (step: JsStep<I, J>)
        requires
            old(self)@.pipe,
        ensures
            step == old(self)@.step(),
            final(self)@ == old(self)@.after_run(),
    {
        if self.import_js_tasks.len() == 0 && self.js_tasks.len() == 0 {
            JsStep::Drained { completed: self.total.get() == 0 }
        } else {
            let mut import_js_tasks = VecDeque::new();
            std::mem::swap(&mut import_js_tasks, &mut self.import_js_tasks);
            let mut js_tasks = VecDeque::new();
            std::mem::swap(&mut js_tasks, &mut self.js_tasks);
            let import = import_js_tasks.pop_front();
            let js = js_tasks.pop_front();
            self.import_js_tasks = import_js_tasks;
            self.js_tasks = js_tasks;
            JsStep::Run { import, js }
        }
    }
}

/// What polling the stream of runnable tasks gave.
pub enum TaskPoll<T> {
    /// A task is ready to run.
    Ready(T),
    /// The spawner is gone and no task is left.
    Closed,
    /// No task is ready yet.
    Pending,
}

/// What one poll of the executor future does.
pub enum ExecutorPoll<T> {
    /// Run the task and wake the executor again; nothing else changes.
    Run(T),
    /// The executor is finished: the idle flag is set and waiting idle
    /// futures are woken.
    Finished,
    /// Nothing to do now: the idle flag is set and waiting idle futures are
    /// woken.
    Waiting,
}

/// What an idle future is when it is created.
#[derive(PartialEq, Eq, Debug, Clone, Copy)]
pub enum IdleFuture {
    /// Resolves at once: the executor was idle.
    Ready,
    /// Waits for the executor to become idle.
    Waiting,
}

/// The idle flag shared by the executor and its spawner: set when the
/// executor has found no task to run, cleared when a task is spawned.
pub struct IdleFlag {
    idle: bool,
}

impl View for IdleFlag {
    type V = bool;

    closed spec fn view(&self) -> bool {
        self.idle
    }
}

/// The executor's step for what polling its task stream gave.
pub open spec fn executor_step<T>(next: TaskPoll<T>) -> ExecutorPoll<T> {
    match next {
        TaskPoll::Ready(t) => ExecutorPoll::Run(t),
        TaskPoll::Closed => ExecutorPoll::Finished,
        TaskPoll::Pending => ExecutorPoll::Waiting,
    }
}

/// The idle flag after the executor is polled.
pub open spec fn idle_after_poll<T>(idle: bool, next: TaskPoll<T>) -> bool {
    if next is Ready { idle } else { true }
}

/// The idle future that the spawner hands out for an idle flag.
pub open spec fn idle_future_for(idle: bool) -> IdleFuture {
    if idle { IdleFuture::Ready } else { IdleFuture::Waiting }
}

/// Whether polling an idle future leaves it pending: only a waiting one,
/// while the executor is busy and the executor can still be told to wake it.
pub open spec fn idle_still_pending(future: IdleFuture, idle_now: bool, wake_sent: bool) -> bool {
    future == IdleFuture::Waiting && !idle_now && wake_sent
}

impl IdleFlag {
    /// A new executor is idle.
    pub fn new() -> (r: Self)
        ensures
            r@,
    {
        IdleFlag { idle: true }
    }

    /// Whether the executor is idle.
    pub fn is_idle(&self) -> (r: bool)
        ensures
            r == self@,
    {
        self.idle
    }

    /// A future was spawned: the executor is busy.
    pub fn spawn(&mut self)
        ensures
            !final(self)@,
    {
        self.idle = false;
    }

    /// One poll of the executor future. A ready task is run and the executor
    /// re-polled without touching the idle flag; otherwise the flag is set
    /// and the idle futures are woken.
    pub fn poll_executor<T>(&mut self, next: TaskPoll<T>) -> (r: ExecutorPoll<T>)
        ensures
            r == executor_step(next),
            final(self)@ == idle_after_poll(old(self)@, next),
    {
        match next {
            TaskPoll::Ready(t) => ExecutorPoll::Run(t),
            TaskPoll::Closed => {
                self.idle = true;
                ExecutorPoll::Finished
            },
            TaskPoll::Pending => {
                self.idle = true;
                ExecutorPoll::Waiting
            },
        }
    }

    /// The idle future: ready at once when the executor is idle.
    pub fn idle(&self) -> (r: IdleFuture)
        ensures
            r == idle_future_for(self@),
    {
        if self.idle {
            IdleFuture::Ready
        } else {
            IdleFuture::Waiting
        }
    }
}

/// One poll of an idle future: `true` when it stays pending. A waiting future
/// stays pending while the executor is busy and its waker could be handed to
/// the executor (`wake_sent`).
pub fn poll_idle(future: IdleFuture, idle_now: bool, wake_sent: bool) -> (pending: bool)
    ensures
        pending == idle_still_pending(future, idle_now, wake_sent),
{
    match future {
        IdleFuture::Waiting => !idle_now && wake_sent,
        IdleFuture::Ready => false,
    }
}

/// After a spawn, an idle future waits, and keeps waiting through polls that
/// run tasks, until a poll of the executor finds no task; from then on an
/// idle future resolves at once.
pub proof fn law_idle_follows_executor<T>(idle: bool, next: TaskPoll<T>, wake_sent: bool)
    ensures
        idle_future_for(false) == IdleFuture::Waiting,
        next is Ready ==> idle_after_poll(false, next) == false,
        !(next is Ready) ==> idle_future_for(idle_after_poll(idle, next)) == IdleFuture::Ready,
        !idle_still_pending(IdleFuture::Ready, idle, wake_sent),
        !idle_still_pending(IdleFuture::Waiting, idle_after_poll(idle, TaskPoll::<T>::Pending), wake_sent),
{
}

/// Running a ready task touches neither the idle flag nor what an idle future
/// created afterwards does; only a poll that finds no task (pending, or the
/// spawner gone) marks the executor idle, whatever it was before.
pub proof fn law_running_a_task_keeps_idle_flag<T>(idle: bool, t: T)
    ensures
        idle_after_poll(idle, TaskPoll::Ready(t)) == idle,
        idle_future_for(idle_after_poll(idle, TaskPoll::Ready(t))) == idle_future_for(idle),
        idle_after_poll(idle, TaskPoll::<T>::Pending),
        idle_after_poll(idle, TaskPoll::<T>::Closed),
        idle_after_poll(true, TaskPoll::Ready(t)) && !idle_after_poll(false, TaskPoll::Ready(t)),
{
}

/// Turns of the executor run the JavaScript tasks, and the import tasks,
/// exactly in the order in which they were queued.
pub proof fn law_run_order_is_queue_order<I, J>(v: QueuesView<I, J>)
    ensures
        v.js_run_order() == v.js,
        v.import_run_order() == v.imports,
    decreases v.imports.len() + v.js.len(),
{
    if !v.is_idle() {
        law_run_order_is_queue_order(v.after_run());
        if v.js.len() > 0 {
            assert(seq![v.js[0]] + v.js.drop_first() =~= v.js);
        } else {
            assert(v.js =~= Seq::<J>::empty());
        }
        if v.imports.len() > 0 {
            assert(seq![v.imports[0]] + v.imports.drop_first() =~= v.imports);
        } else {
            assert(v.imports =~= Seq::<I>::empty());
        }
    }
}

/// A queued task runs after every task queued before it in the same queue,
/// and is the last of them to run.
pub proof fn law_spawned_task_runs_last<I, J>(v: QueuesView<I, J>, js: J, import: I)
    ensures
        v.after_spawn_js(js).js_run_order() == v.js.push(js),
        v.after_spawn_import(import).import_run_order() == v.imports.push(import),
{
    law_run_order_is_queue_order(v.after_spawn_js(js));
    law_run_order_is_queue_order(v.after_spawn_import(import));
}

/// A task queued while both queues are empty is run by the very next turn
/// of the executor, and leaves the queues empty again.
pub proof fn law_next_turn_runs_first_task<I, J>(v: QueuesView<I, J>, js: J, import: I)
    requires
        v.is_idle(),
    ensures
        v.after_spawn_js(js).step() == (JsStep::<I, J>::Run { import: None, js: Some(js) }),
        v.after_spawn_js(js).after_run() == v,
        v.after_spawn_import(import).step() == (JsStep::<I, J>::Run { import: Some(import), js: None }),
        v.after_spawn_import(import).after_run() == v,
{
    assert(v.after_spawn_js(js).after_run().js =~= v.js);
    assert(v.after_spawn_import(import).after_run().imports =~= v.imports);
}

/// The executor reports completion exactly when nothing is queued and no
/// started task is outstanding.
pub proof fn law_completed_iff_no_work<I, J>(v: QueuesView<I, J>)
    ensures
        v.step().spec_code() == 1 <==> (v.is_idle() && v.total == 0),
        v.is_idle() ==> v.after_run() == v,
{
}

/// Starting a new asynchronous task and then finishing it leaves the count of
/// outstanding tasks as it was; a continuation of an existing task does not
/// count.
pub proof fn law_started_then_finished_balances<I, J>(v: QueuesView<I, J>)
    ensures
        v.after_spawn_wasm(true).after_finish().total == v.total,
        v.after_spawn_wasm(false).total == v.total,
{
}

/// Every transition keeps a queued task covered by a wake-up pipe.
pub proof fn law_transitions_keep_wf<I, J>(v: QueuesView<I, J>, js: J, import: I, new_task: bool)
    requires
        v.wf(),
    ensures
        v.after_spawn_wasm(new_task).wf(),
        v.pipe ==> v.after_spawn_js(js).wf(),
        v.pipe ==> v.after_spawn_import(import).wf(),
        v.after_run().wf(),
        v.after_finish().wf(),
{
}

} // verus!
