//! The scheduler: which tasks there are, which of them are to be polled, and who waits for
//! whose result.
//!
//! A [`Runtime`] does not poll. It hands the tasks out and takes them, or their results,
//! back, because a task that is being polled uses the runtime itself: it spawns tasks,
//! submits IO, awaits join handles.
use nohash::IntMap;
use vstd::prelude::*;

use crate::error::InitError;
use crate::int_map::{int_map_contains_key, int_map_get_mut, int_map_insert, int_map_remove};
use crate::join_handle::JoinHandle;
use crate::key::{io_key, succ, take_number, task_id, IoKey, TaskId};
use crate::platform::sqe::Cqe;
use crate::platform::{Platform, PlatformView};

verus! {

/// A task that has been woken up and is to be polled.
pub enum WokenTask<T> {
    Root,
    Child(T),
}

/// What is known of a task whose join handle is still there.
pub struct JoinHandleInfo<R> {
    /// The task's result, once it has finished.
    pub result: Option<R>,
    /// The task that is to be woken up then.
    pub waiting_task: Option<TaskId>,
}

/// What a [`Runtime`] knows. `T` is the type of its child tasks, `R` that of their results.
#[verifier::ext_equal]
pub struct RuntimeView<T, R> {
    /// The number of the next task.
    pub task_id_counter: u32,
    /// The task that was last handed out: the one being polled.
    pub current_task: TaskId,
    /// The child tasks that are not being polled.
    pub tasks: Map<u32, T>,
    /// The join handles that are still there, by the number of their task.
    pub join_handles: Map<u32, JoinHandleInfo<R>>,
    /// The tasks to be polled; the last one first.
    pub task_wakeups: Seq<TaskId>,
    /// The IO that tasks wait for.
    pub plat: PlatformView,
}

impl<T, R> RuntimeView<T, R> {
    /// Nothing but the root task, which is to be polled.
    pub open spec fn initial() -> Self {
        RuntimeView {
            task_id_counter: 1,
            current_task: task_id(0),
            tasks: Map::empty(),
            join_handles: Map::empty(),
            task_wakeups: seq![task_id(0)],
            plat: PlatformView::initial(),
        }
    }

    /// The reserved numbers stay reserved.
    pub open spec fn wf(self) -> bool {
        &&& self.task_id_counter != 0
        &&& self.plat.wf()
    }

    /// After a child task has been spawned, under the number that the counter stood at.
    pub open spec fn spawned(self, task: T) -> Self {
        let id = self.task_id_counter;
        RuntimeView {
            task_id_counter: succ(id),
            tasks: self.tasks.insert(id, task),
            join_handles: self.join_handles.insert(
                id,
                JoinHandleInfo { result: None, waiting_task: None },
            ),
            task_wakeups: self.task_wakeups.push(task_id(id)),
            ..self
        }
    }

    /// Whether a wakeup leads to a poll: that of the root task always does, that of a child
    /// task as long as the task is there.
    pub open spec fn runnable(self, id: TaskId) -> bool {
        id.inner == 0 || self.tasks.contains_key(id.inner)
    }

    /// The `i`-th wakeup is the next one that leads to a poll.
    pub open spec fn is_next(self, i: int) -> bool {
        &&& 0 <= i < self.task_wakeups.len()
        &&& self.runnable(self.task_wakeups[i])
        &&& forall|j: int|
            i < j < self.task_wakeups.len() ==> !self.runnable(#[trigger] self.task_wakeups[j])
    }

    /// The task of the `i`-th wakeup.
    pub open spec fn woken_at(self, i: int) -> WokenTask<T> {
        let id = self.task_wakeups[i].inner;
        if id == 0 {
            WokenTask::Root
        } else {
            WokenTask::Child(self.tasks[id])
        }
    }

    /// After the task of the `i`-th wakeup has been handed out, and the wakeups after it have
    /// been dropped.
    pub open spec fn handed_out(self, i: int) -> Self {
        let id = self.task_wakeups[i].inner;
        RuntimeView {
            current_task: self.task_wakeups[i],
            tasks: if id == 0 {
                self.tasks
            } else {
                self.tasks.remove(id)
            },
            task_wakeups: self.task_wakeups.take(i),
            ..self
        }
    }

    /// No wakeup leads to a poll.
    pub open spec fn idle(self) -> bool {
        forall|j: int|
            0 <= j < self.task_wakeups.len() ==> !self.runnable(#[trigger] self.task_wakeups[j])
    }

    /// After all wakeups have been dropped.
    pub open spec fn drained(self) -> Self {
        RuntimeView {
            current_task: if self.task_wakeups.len() == 0 {
                self.current_task
            } else {
                self.task_wakeups[0]
            },
            task_wakeups: Seq::empty(),
            ..self
        }
    }

    /// After the task being polled has been put back.
    pub open spec fn returned(self, task: T) -> Self {
        RuntimeView { tasks: self.tasks.insert(self.current_task.inner, task), ..self }
    }

    /// After the task being polled has finished. Its result goes into its join handle, and
    /// the task that waits for it is woken up; without a join handle the result is lost.
    pub open spec fn finished(self, res: R) -> Self {
        let id = self.current_task.inner;
        if self.join_handles.contains_key(id) {
            let waiting = self.join_handles[id].waiting_task;
            RuntimeView {
                join_handles: self.join_handles.insert(
                    id,
                    JoinHandleInfo { result: Some(res), waiting_task: waiting },
                ),
                task_wakeups: match waiting {
                    Some(task) => self.task_wakeups.push(task),
                    None => self.task_wakeups,
                },
                ..self
            }
        } else {
            self
        }
    }

    /// Whether the result of a task can be fetched from its join handle.
    pub open spec fn has_result(self, id: u32) -> bool {
        self.join_handles.contains_key(id) && self.join_handles[id].result is Some
    }

    /// After the join handle of a task has gone.
    pub open spec fn handle_dropped(self, id: u32) -> Self {
        RuntimeView { join_handles: self.join_handles.remove(id), ..self }
    }

    /// After the task being polled has asked to be woken up when task `id` finishes.
    pub open spec fn registered(self, id: u32) -> Self {
        RuntimeView {
            join_handles: self.join_handles.insert(
                id,
                JoinHandleInfo {
                    result: self.join_handles[id].result,
                    waiting_task: Some(self.current_task),
                },
            ),
            ..self
        }
    }

    /// After completions have arrived.
    pub open spec fn io_done(self, cqes: Seq<Cqe>) -> Self {
        RuntimeView {
            plat: self.plat.all_completed(cqes),
            task_wakeups: self.task_wakeups + self.plat.all_woken_by(cqes),
            ..self
        }
    }

    /// After the task being polled has submitted an operation.
    pub open spec fn io_submitted(self) -> Self {
        RuntimeView { plat: self.plat.submitted(self.current_task), ..self }
    }
}

/// The scheduler. `T` is the type of the child tasks that it keeps, `R` that of their
/// results.
pub struct Runtime<T, R> {
    task_id_counter: u32,
    current_task: TaskId,
    tasks: IntMap<u32, T>,
    join_handles: IntMap<u32, JoinHandleInfo<R>>,
    task_wakeups: Vec<TaskId>,
    plat: Platform,
}

impl<T, R> View for Runtime<T, R> {
    type V = RuntimeView<T, R>;

    closed spec fn view(&self) -> RuntimeView<T, R> {
        RuntimeView {
            task_id_counter: self.task_id_counter,
            current_task: self.current_task,
            tasks: self.tasks@,
            join_handles: self.join_handles@,
            task_wakeups: self.task_wakeups@,
            plat: self.plat@,
        }
    }
}

fn root_only() -> (wakeups: Vec<TaskId>)
    ensures
        wakeups@ == seq![task_id(0)],
{
    let mut wakeups = Vec::new();
    wakeups.push(TaskId::from(0));
    wakeups
}

impl<T, R> Runtime<T, R> {
    /// The runtime for a ring that has just been set up, or the error with which setting it
    /// up failed.
    pub fn new(ring: Result<(), InitError>) -> (runtime: Result<Self, InitError>)
        ensures
            match ring {
                Ok(_) => {
                    &&& runtime matches Ok(rt)
                    &&& rt@ == RuntimeView::<T, R>::initial()
                    &&& rt@.wf()
                },
                Err(err) => runtime matches Err(e) && e == err,
            },
    {
        match Platform::new(ring) {
            Ok(plat) => Ok(
                Runtime {
                    task_id_counter: 1,  // ids start from 1 since 0 is the root task
                    current_task: TaskId::from(0),
                    tasks: IntMap::default(),
                    join_handles: IntMap::default(),
                    task_wakeups: root_only(),  // the root task starts woken up
                    plat,
                },
            ),
            Err(err) => Err(err),
        }
    }

    /// The task that was last handed out.
    pub fn current_task(&self) -> (id: TaskId)
        ensures
            id == self@.current_task,
    {
        self.current_task
    }

    fn new_task_id(&mut self) -> (id: TaskId)
        ensures
            id == task_id(old(self)@.task_id_counter),
            final(self)@ == (RuntimeView {
                task_id_counter: succ(old(self)@.task_id_counter),
                ..old(self)@
            }),
    {
        TaskId::from(take_number(&mut self.task_id_counter))
    }

    /// Back to the state of a new runtime. Returns the child tasks that were left, so that
    /// they are dropped where the runtime is not borrowed: dropping a task may use the
    /// runtime, for example to cancel IO.
    pub fn reset(&mut self) -> (tasks: IntMap<u32, T>)
        ensures
            tasks@ == old(self)@.tasks,
            final(self)@ == RuntimeView::<T, R>::initial(),
            final(self)@.wf(),
    {
        let mut tasks: IntMap<u32, T> = IntMap::default();
        std::mem::swap(&mut tasks, &mut self.tasks);

        self.task_id_counter = 1;
        self.current_task = TaskId::from(0);
        self.join_handles = IntMap::default();
        self.task_wakeups = root_only();
        self.plat.reset();

        tasks
    }

    /// Takes in the completions that a wait has brought.
    pub fn wait_for_io(&mut self, cqes: &Vec<Cqe>)
        ensures
            final(self)@ == old(self)@.io_done(cqes@),
            old(self)@.wf() ==> final(self)@.wf(),
    {
        self.plat.wait_for_io(cqes, &mut self.task_wakeups)
    }

    /// Adds a child task, which is to be polled, and returns its join handle.
    pub fn spawn<F>(&mut self, task: T) -> (handle: JoinHandle<F>)
        requires
            old(self)@.wf(),
        ensures
            final(self)@ == old(self)@.spawned(task),
            final(self)@.wf(),
            handle@.id == old(self)@.task_id_counter,
            handle@.id != 0,
            !handle@.registered,
    {
        let id = self.new_task_id();

        int_map_insert(&mut self.tasks, id.inner, task);
        int_map_insert(
            &mut self.join_handles,
            id.inner,
            JoinHandleInfo { result: None, waiting_task: None },
        );
        self.task_wakeups.push(id);

        JoinHandle::new(id)
    }

    /// Hands the next woken task out, which becomes the current task. `None` if no wakeup is
    /// left that leads to a poll.
    ///
    /// The id of a wakeup need not be that of a task that is there: a task may be woken up
    /// several times and finish before all of its wakeups have been used.
    pub fn get_woken_task(&mut self) -> (woken: Option<WokenTask<T>>)
        ensures
            match woken {
                Some(task) => exists|i: int|
                    {
                        &&& #[trigger] old(self)@.is_next(i)
                        &&& task == old(self)@.woken_at(i)
                        &&& final(self)@ == old(self)@.handed_out(i)
                    },
                None => old(self)@.idle() && final(self)@ == old(self)@.drained(),
            },
            old(self)@.wf() ==> final(self)@.wf(),
    {
        let ghost before = self@;

        loop
            invariant
                self.task_wakeups@.len() <= before.task_wakeups.len(),
                self.task_wakeups@ == before.task_wakeups.take(self.task_wakeups@.len() as int),
                self@ == (RuntimeView {
                    current_task: if self.task_wakeups@.len() == before.task_wakeups.len() {
                        before.current_task
                    } else {
                        before.task_wakeups[self.task_wakeups@.len() as int]
                    },
                    task_wakeups: self.task_wakeups@,
                    ..before
                }),
                forall|j: int|
                    self.task_wakeups@.len() <= j < before.task_wakeups.len()
                        ==> !before.runnable(#[trigger] before.task_wakeups[j]),
                before == old(self)@,
            decreases self.task_wakeups@.len(),
        {
            let id = match self.task_wakeups.pop() {
                Some(id) => id,
                None => {
                    assert(self@ =~= before.drained());
                    return None;
                },
            };
            let ghost i = self.task_wakeups@.len() as int;
            assert(before.task_wakeups[i] == id);
            assert(self.task_wakeups@ =~= before.task_wakeups.take(i));

            self.current_task = id;

            if id.inner == 0 {
                assert(before.is_next(i));
                assert(self@ =~= before.handed_out(i));
                return Some(WokenTask::Root);
            }
            match int_map_remove(&mut self.tasks, id.inner) {
                Some(task) => {
                    assert(before.is_next(i));
                    assert(self@ =~= before.handed_out(i));
                    return Some(WokenTask::Child(task));
                },
                None => {
                    assert(self@.tasks =~= before.tasks);
                },
            }
        }
    }

    /// Takes the result of the current task, which has finished.
    pub fn task_finished(&mut self, res: R)
        ensures
            final(self)@ == old(self)@.finished(res),
            old(self)@.wf() ==> final(self)@.wf(),
    {
        match int_map_get_mut(&mut self.join_handles, self.current_task.inner) {
            // Write the result into the join handle and wake up its waiting task, if any
            Some(handle) => {
                handle.result = Some(res);

                if let Some(id) = handle.waiting_task {
                    self.task_wakeups.push(id);
                }
            },
            // Join handle dropped, discard the result
            None => (),
        }
    }

    /// Takes the current task back, which has not finished.
    pub fn return_task(&mut self, task: T)
        ensures
            final(self)@ == old(self)@.returned(task),
            old(self)@.wf() ==> final(self)@.wf(),
    {
        int_map_insert(&mut self.tasks, self.current_task.inner, task);
    }

    /// Whether the join handle of a task is still there.
    pub fn has_join_handle(&self, id: TaskId) -> (found: bool)
        ensures
            found == self@.join_handles.contains_key(id.inner),
    {
        int_map_contains_key(&self.join_handles, id.inner)
    }

    /// Fetches the result of a task, if the task has finished. Its join handle is then gone.
    pub fn pop_join_handle_result(&mut self, id: TaskId) -> (res: Option<R>)
        requires
            old(self)@.join_handles.contains_key(id.inner),
        ensures
            res == old(self)@.join_handles[id.inner].result,
            final(self)@ == (if old(self)@.has_result(id.inner) {
                old(self)@.handle_dropped(id.inner)
            } else {
                old(self)@
            }),
            old(self)@.wf() ==> final(self)@.wf(),
    {
        let ghost before = self@;
        match int_map_remove(&mut self.join_handles, id.inner) {
            Some(info) => {
                if info.result.is_some() {
                    info.result
                } else {
                    int_map_insert(&mut self.join_handles, id.inner, info);
                    assert(self@.join_handles =~= before.join_handles);
                    None
                }
            },
            None => None,
        }
    }

    /// Has the current task woken up when task `id` finishes.
    pub fn register_join_handle_wakeup(&mut self, id: TaskId)
        requires
            old(self)@.join_handles.contains_key(id.inner),
        ensures
            final(self)@ == old(self)@.registered(id.inner),
            old(self)@.wf() ==> final(self)@.wf(),
    {
        if let Some(info) = int_map_get_mut(&mut self.join_handles, id.inner) {
            info.waiting_task = Some(self.current_task);
        }
    }

    /// Forgets the join handle of a task. The task goes on, and its result will be lost.
    pub fn drop_join_handle(&mut self, id: TaskId)
        ensures
            final(self)@ == old(self)@.handle_dropped(id.inner),
            old(self)@.wf() ==> final(self)@.wf(),
    {
        int_map_remove(&mut self.join_handles, id.inner);
    }

    /// Records that the current task submits an operation, and returns the key to submit it
    /// under.
    pub(crate) fn submit_io(&mut self) -> (key: IoKey)
        ensures
            key == io_key(old(self)@.plat.io_key_counter),
            final(self)@ == old(self)@.io_submitted(),
            old(self)@.wf() ==> final(self)@.wf() && key.inner != 0,
    {
        self.plat.submit(self.current_task)
    }

    /// Fetches the result of an operation, if it has arrived.
    pub(crate) fn fetch_io(&mut self, key: IoKey) -> (result: Option<i32>)
        ensures
            final(self)@ == (RuntimeView {
                plat: old(self)@.plat.fetched(key.inner),
                ..old(self)@
            }),
            match result {
                Some(res) => old(self)@.plat.completions.contains_key(key.inner)
                    && old(self)@.plat.completions[key.inner] == res,
                None => !old(self)@.plat.completions.contains_key(key.inner),
            },
            old(self)@.wf() ==> final(self)@.wf(),
    {
        self.plat.fetch(key)
    }

    /// Gives an operation up, and returns whether it was under way.
    pub(crate) fn give_up_io(&mut self, key: IoKey) -> (under_way: bool)
        ensures
            final(self)@ == (RuntimeView {
                plat: old(self)@.plat.given_up(key.inner),
                ..old(self)@
            }),
            under_way == old(self)@.plat.submissions.contains_key(key.inner),
            old(self)@.wf() ==> final(self)@.wf(),
    {
        self.plat.give_up(key)
    }
}

} // verus!
