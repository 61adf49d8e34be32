//! The logic of a single threaded async runtime on io_uring.
//!
//! This crate decides, and does no IO: which task is polled next, who is woken up by what,
//! which operation a call submits and what its result means. Whoever drives it polls the
//! futures, owns the ring, and lends the kernel its buffers.
mod int_map;

pub mod error;
pub mod fs;
pub mod join_handle;
pub mod key;
pub mod laws;
pub mod net;
pub mod platform;
pub mod runtime;
pub mod task;
pub mod time;
pub mod util;

pub use error::InitError;
pub use join_handle::JoinHandle;

use nohash::IntMap;
use vstd::prelude::*;

use platform::sqe::Cqe;
use runtime::{Runtime, RuntimeView, WokenTask};

verus! {

/// What one thread has of this library: its runtime, once it has been initialized, and
/// whether a root task is being run on it.
pub struct LocalRuntime<T, R> {
    runtime: Option<Runtime<T, R>>,
    running: bool,
}

impl<T, R> LocalRuntime<T, R> {
    /// The thread's runtime.
    pub closed spec fn runtime(&self) -> Option<Runtime<T, R>> {
        self.runtime
    }

    /// Whether a root task is being run.
    pub closed spec fn running(&self) -> bool {
        self.running
    }

    /// What the thread's runtime knows.
    pub open spec fn state(&self) -> RuntimeView<T, R> {
        self.runtime()->Some_0@
    }

    /// [`init`] has been called.
    pub open spec fn initialized(&self) -> bool {
        self.runtime() is Some && self.state().wf()
    }

    /// A thread on which [`init`] has not been called.
    pub fn new() -> (local: Self)
        ensures
            local.runtime() is None,
            !local.running(),
    {
        LocalRuntime { runtime: None, running: false }
    }

    /// Whether [`init`] has been called.
    pub fn is_initialized(&self) -> (yes: bool)
        ensures
            yes == (self.runtime() is Some),
    {
        self.runtime.is_some()
    }

    /// Whether a root task is being run.
    pub fn is_running(&self) -> (yes: bool)
        ensures
            yes == self.running(),
    {
        self.running
    }

    /// The thread's runtime, to be used by the task that is being polled.
    pub fn runtime_mut(&mut self) -> (rt: &mut Runtime<T, R>)
        requires
            old(self).runtime() is Some,
        ensures
            *rt == old(self).runtime()->Some_0,
            final(self).runtime() == Some(*final(rt)),
            final(self).running() == old(self).running(),
    {
        self.runtime.as_mut().unwrap()
    }
}

/// Initializes the runtime of a thread, for a ring that has just been set up. Where setting
/// it up failed, that error is returned, and the thread keeps the runtime it had.
///
/// This must be called at least once on a thread before [`run`].
pub fn init<T, R>(local: &mut LocalRuntime<T, R>, ring: Result<(), InitError>) -> (res: Result<
    (),
    InitError,
>)
    ensures
        final(local).running() == old(local).running(),
        match ring {
            Ok(_) => {
                &&& res is Ok
                &&& final(local).initialized()
                &&& final(local).state() == RuntimeView::<T, R>::initial()
            },
            Err(err) => {
                &&& res matches Err(e)
                &&& e == err
                &&& final(local).runtime() == old(local).runtime()
            },
        },
{
    match Runtime::new(ring) {
        Ok(runtime) => {
            local.runtime = Some(runtime);
            Ok(())
        },
        Err(err) => Err(err),
    }
}

/// What has happened since the last step of [`run`].
pub enum RunEvent<T, R> {
    /// Nothing: this is the first step.
    Started,
    /// The root task was polled, and has not finished.
    RootPending,
    /// The root task was polled, and has finished.
    RootReady,
    /// The child task was polled, and has not finished.
    ChildPending(T),
    /// The child task was polled, and has finished with this result.
    ChildReady(R),
    /// The ring was waited on, and gave these completions.
    IoReady(Vec<Cqe>),
    /// The ring was replaced, and the child tasks were dropped.
    TasksDropped,
    /// A poll did not return: the run is left by a panic.
    Unwound,
}

/// What to do next.
pub enum RunAction<T> {
    /// Poll the root task.
    PollRoot,
    /// Poll this child task.
    PollChild(T),
    /// Submit what is in the submission queue, and wait for at least one completion.
    WaitForIo,
    /// Replace the ring by a new one, and drop these child tasks.
    DropTasks(IntMap<u32, T>),
    /// Return the root task's result.
    Return,
}

/// The state of the runtime once an event has been taken in.
pub open spec fn after_event<T, R>(
    rt: RuntimeView<T, R>,
    event: RunEvent<T, R>,
) -> RuntimeView<T, R> {
    match event {
        RunEvent::ChildPending(task) => rt.returned(task),
        RunEvent::ChildReady(res) => rt.finished(res),
        RunEvent::IoReady(cqes) => rt.io_done(cqes@),
        _ => rt,
    }
}

/// One step of running a root task: takes in what has happened, and says what to do next.
///
/// A run starts with [`RunEvent::Started`]. Each action is then performed and the event that
/// it led to handed to the next step, until the action is [`RunAction::Return`]. Woken tasks
/// are polled as long as there are any; only then is IO waited for. As soon as the root task
/// has finished, the child tasks that are left are given up, and the run is over. A run that is
/// left by a panic is over at once.
pub fn run<T, R>(local: &mut LocalRuntime<T, R>, event: RunEvent<T, R>) -> (action: RunAction<T>)
    requires
        old(local).initialized(),
    ensures
        final(local).initialized(),
        final(local).running() == match event {
            RunEvent::Started => true,
            RunEvent::TasksDropped => false,
            RunEvent::Unwound => false,
            _ => old(local).running(),
        },
        event is RootReady || event is Unwound <==> action is DropTasks,
        event is TasksDropped <==> action is Return,
        match action {
            RunAction::DropTasks(tasks) => {
                &&& tasks@ == old(local).state().tasks
                &&& final(local).state() == RuntimeView::<T, R>::initial()
            },
            RunAction::Return => final(local).state() == old(local).state(),
            RunAction::WaitForIo => {
                let rt = after_event(old(local).state(), event);
                rt.idle() && final(local).state() == rt.drained()
            },
            RunAction::PollRoot => {
                let rt = after_event(old(local).state(), event);
                exists|i: int|
                    {
                        &&& #[trigger] rt.is_next(i)
                        &&& rt.woken_at(i) is Root
                        &&& final(local).state() == rt.handed_out(i)
                    }
            },
            RunAction::PollChild(task) => {
                let rt = after_event(old(local).state(), event);
                exists|i: int|
                    {
                        &&& #[trigger] rt.is_next(i)
                        &&& rt.woken_at(i) == WokenTask::Child(task)
                        &&& final(local).state() == rt.handed_out(i)
                    }
            },
        },
{
    match event {
        RunEvent::Started => {
            local.running = true;
        },
        RunEvent::RootPending => {},
        RunEvent::RootReady => {
            return RunAction::DropTasks(local.runtime_mut().reset());
        },
        RunEvent::ChildPending(task) => {
            local.runtime_mut().return_task(task);
        },
        RunEvent::ChildReady(res) => {
            local.runtime_mut().task_finished(res);
        },
        RunEvent::IoReady(cqes) => {
            local.runtime_mut().wait_for_io(&cqes);
        },
        RunEvent::TasksDropped => {
            local.running = false;
            return RunAction::Return;
        },
        RunEvent::Unwound => {
            local.running = false;
            return RunAction::DropTasks(local.runtime_mut().reset());
        },
    }

    match local.runtime_mut().get_woken_task() {
        Some(WokenTask::Root) => RunAction::PollRoot,
        Some(WokenTask::Child(task)) => RunAction::PollChild(task),
        None => RunAction::WaitForIo,
    }
}

/// Spawns a child task and returns its [`JoinHandle`]. The task is polled without anybody
/// having to wait for it.
///
/// This can be used only while a root task is being run.
pub fn spawn<F, T, R>(local: &mut LocalRuntime<T, R>, task: T) -> (handle: JoinHandle<F>)
    requires
        old(local).initialized(),
        old(local).running(),
    ensures
        final(local).initialized(),
        final(local).running(),
        final(local).state() == old(local).state().spawned(task),
        handle@.id == old(local).state().task_id_counter,
        handle@.id != 0,
        !handle@.registered,
{
    local.runtime_mut().spawn(task)
}

/// What an event does to the runtime: a child task that has not finished is put back, the result
/// of one that has is taken, completions are taken in, and any other event changes nothing.
pub proof fn law_events_are_taken_in<T, R>(
    rt: RuntimeView<T, R>,
    task: T,
    res: R,
    cqes: Vec<Cqe>,
)
    ensures
        after_event(rt, RunEvent::ChildPending(task)) == rt.returned(task),
        after_event(rt, RunEvent::ChildReady(res)) == rt.finished(res),
        after_event(rt, RunEvent::IoReady(cqes)) == rt.io_done(cqes@),
        after_event(rt, RunEvent::Started) == rt,
        after_event(rt, RunEvent::RootPending) == rt,
        after_event(rt, RunEvent::RootReady) == rt,
        after_event(rt, RunEvent::TasksDropped) == rt,
        after_event(rt, RunEvent::Unwound) == rt,
{
}

/// What is known of a thread is what its runtime knows, all of it, and the thread is initialized
/// once it has one whose reserved numbers are reserved.
pub proof fn law_thread_is_its_runtime<T, R>(local: LocalRuntime<T, R>, runtime: Runtime<T, R>)
    requires
        local.runtime() == Some(runtime),
    ensures
        local.state() == runtime@,
        local.initialized() <==> runtime@.wf(),
{
}

} // verus!
