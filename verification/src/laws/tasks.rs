//! What holds of tasks as a whole: from the spawning of a task to its end, and to whoever waits
//! for it.
use vstd::prelude::*;

use super::io::{
    has_none_for, law_one_wakeup_per_operation, law_other_completions_do_not_matter, same_for,
};
use super::steps::{
    law_completion_ends_one_operation, law_completions_are_taken_in_order, same_at,
};
use crate::key::{task_id, TaskId};
use crate::platform::sqe::Cqe;
use crate::platform::PlatformView;
use crate::runtime::{RuntimeView, WokenTask};

verus! {

/// There is at most one next wakeup.
pub proof fn law_next_wakeup_is_unique<T, R>(rt: RuntimeView<T, R>, i: int, j: int)
    requires
        rt.is_next(i),
        rt.is_next(j),
    ensures
        i == j,
{
    if i < j {
        assert(!rt.runnable(rt.task_wakeups[j]));
    } else if j < i {
        assert(!rt.runnable(rt.task_wakeups[i]));
    }
}

/// There is a next wakeup unless no wakeup leads to a poll.
pub proof fn law_idle_or_next<T, R>(rt: RuntimeView<T, R>)
    ensures
        rt.idle() <==> !exists|i: int| rt.is_next(i),
{
    if exists|i: int| rt.is_next(i) {
        let i = choose|i: int| rt.is_next(i);
        assert(rt.runnable(rt.task_wakeups[i]));
    }
    if !rt.idle() {
        let j = choose|j: int|
            0 <= j < rt.task_wakeups.len() && rt.runnable(#[trigger] rt.task_wakeups[j]);
        lemma_next_from(rt, j);
    }
}

proof fn lemma_next_from<T, R>(rt: RuntimeView<T, R>, j: int)
    requires
        0 <= j < rt.task_wakeups.len(),
        rt.runnable(rt.task_wakeups[j]),
    ensures
        exists|i: int| rt.is_next(i),
    decreases rt.task_wakeups.len() - j,
{
    if !rt.is_next(j) {
        let k = choose|k: int|
            j < k < rt.task_wakeups.len() && rt.runnable(#[trigger] rt.task_wakeups[k]);
        lemma_next_from(rt, k);
    }
}

/// No wakeup that leads to a poll is dropped: when a task is handed out, all the others that
/// do stay.
pub proof fn law_no_useful_wakeup_is_dropped<T, R>(rt: RuntimeView<T, R>, i: int, j: int)
    requires
        rt.is_next(i),
        0 <= j < rt.task_wakeups.len(),
        j != i,
        rt.runnable(rt.task_wakeups[j]),
    ensures
        j < rt.handed_out(i).task_wakeups.len(),
        rt.handed_out(i).task_wakeups[j] == rt.task_wakeups[j],
{
}

/// A task that is there and has been woken up is polled before IO is waited for.
pub proof fn law_woken_task_is_polled_before_waiting<T, R>(rt: RuntimeView<T, R>, id: TaskId)
    requires
        rt.task_wakeups.contains(id),
        rt.runnable(id),
    ensures
        !rt.idle(),
{
}

/// A run starts by polling the root task.
pub proof fn law_root_task_is_polled_first<T, R>()
    ensures
        RuntimeView::<T, R>::initial().is_next(0),
        RuntimeView::<T, R>::initial().woken_at(0) is Root,
{
}

/// A spawned task is polled without anybody having to wait for it: it is the next to be.
pub proof fn law_spawned_task_is_polled_next<T, R>(rt: RuntimeView<T, R>, task: T)
    requires
        rt.wf(),
    ensures
        rt.spawned(task).is_next(rt.task_wakeups.len() as int),
        rt.spawned(task).woken_at(rt.task_wakeups.len() as int) == WokenTask::Child(task),
        rt.spawned(task).handed_out(rt.task_wakeups.len() as int).current_task == task_id(
            rt.task_id_counter,
        ),
{
}

/// A task that was polled and has not finished is back where it was: the tasks are those of
/// before.
pub proof fn law_pending_task_is_kept<T, R>(rt: RuntimeView<T, R>, i: int)
    requires
        rt.is_next(i),
        rt.woken_at(i) is Child,
    ensures
        rt.handed_out(i).returned(rt.woken_at(i)->Child_0).tasks == rt.tasks,
{
    assert(rt.handed_out(i).returned(rt.woken_at(i)->Child_0).tasks =~= rt.tasks);
}

/// Of the tasks, only one that was polled and has finished is gone.
pub proof fn law_only_finished_task_is_gone<T, R>(rt: RuntimeView<T, R>, i: int, res: R)
    requires
        rt.is_next(i),
        rt.woken_at(i) is Child,
    ensures
        rt.handed_out(i).finished(res).tasks == rt.tasks.remove(rt.task_wakeups[i].inner),
{
}

/// A wakeup that comes for a task while it is being polled is not lost: once the task is back,
/// the wakeup leads to a poll.
pub proof fn law_returned_task_can_be_woken<T, R>(rt: RuntimeView<T, R>, task: T)
    ensures
        rt.returned(task).runnable(rt.current_task),
{
}

/// The root task is not among the child tasks.
pub proof fn law_root_is_not_a_child<T, R>(rt: RuntimeView<T, R>, task: T)
    requires
        rt.wf(),
        !rt.tasks.contains_key(0),
    ensures
        !rt.spawned(task).tasks.contains_key(0),
        rt.current_task.inner != 0 ==> !rt.returned(task).tasks.contains_key(0),
        forall|i: int| !(#[trigger] rt.handed_out(i)).tasks.contains_key(0),
{
}

/// The result of a task that has finished is in its join handle, as long as that is there.
pub proof fn law_result_reaches_join_handle<T, R>(rt: RuntimeView<T, R>, res: R)
    requires
        rt.join_handles.contains_key(rt.current_task.inner),
    ensures
        rt.finished(res).has_result(rt.current_task.inner),
        rt.finished(res).join_handles[rt.current_task.inner].result == Some(res),
{
}

/// A task asks to be woken up when task `id` finishes. If the join handle is still as it was
/// left then, the result is there to be fetched, and the task that asked is woken up: it is the
/// next to be polled, if it is there.
pub proof fn law_waiting_task_is_woken<T, R>(
    waiting: RuntimeView<T, R>,
    finishing: RuntimeView<T, R>,
    id: u32,
    res: R,
)
    requires
        finishing.join_handles.contains_key(id),
        finishing.join_handles[id] == waiting.registered(id).join_handles[id],
        finishing.current_task.inner == id,
    ensures
        finishing.finished(res).has_result(id),
        finishing.finished(res).join_handles[id].result == Some(res),
        finishing.finished(res).task_wakeups == finishing.task_wakeups.push(waiting.current_task),
        finishing.runnable(waiting.current_task) ==> finishing.finished(res).is_next(
            finishing.task_wakeups.len() as int,
        ),
{
}

/// If the join handle has gone, the result is lost, and nothing else happens.
pub proof fn law_result_without_join_handle_is_lost<T, R>(rt: RuntimeView<T, R>, res: R)
    ensures
        rt.handle_dropped(rt.current_task.inner).finished(res) == rt.handle_dropped(
            rt.current_task.inner,
        ),
{
}

/// If the join handle of a task goes, the task goes on: it is still there, and still woken up.
pub proof fn law_task_goes_on_without_join_handle<T, R>(rt: RuntimeView<T, R>, id: u32)
    ensures
        rt.handle_dropped(id).tasks == rt.tasks,
        rt.handle_dropped(id).task_wakeups == rt.task_wakeups,
        rt.handle_dropped(id).plat == rt.plat,
        forall|i: int|
            #[trigger] rt.is_next(i) ==> rt.handle_dropped(id).is_next(i) && rt.handle_dropped(
                id,
            ).woken_at(i) == rt.woken_at(i),
{
}

/// A result can be fetched once: then the join handle is gone.
pub proof fn law_result_is_fetched_once<T, R>(rt: RuntimeView<T, R>, id: u32)
    ensures
        !rt.handle_dropped(id).has_result(id),
{
}

/// Something that happens to the tasks of a runtime.
pub enum TaskEvent<T, R> {
    /// A child task is spawned, under the next id.
    Spawn(T),
    /// The task of this wakeup is handed out.
    HandOut(int),
    /// No wakeup leads to a poll.
    Drain,
    /// The task being polled is put back.
    Return(T),
    /// The task being polled has finished.
    Finish(R),
    /// The task being polled asks to be woken up when the one with this id finishes.
    Register(u32),
    /// The join handle with this id goes, or its result is fetched.
    DropHandle(u32),
    /// The task being polled submits an operation.
    SubmitIo,
    /// The result of the operation with this key is fetched, if it is there.
    FetchIo(u32),
    /// The operation with this key is given up.
    GiveUpIo(u32),
    /// Completions arrive.
    IoDone(Seq<Cqe>),
}

/// The event can happen in this state: the task that is handed out is the next one, and
/// wakeups are dropped only if none of them leads to a poll.
pub open spec fn can_happen<T, R>(rt: RuntimeView<T, R>, event: TaskEvent<T, R>) -> bool {
    match event {
        TaskEvent::HandOut(i) => rt.is_next(i),
        TaskEvent::Drain => rt.idle(),
        TaskEvent::Register(id) => rt.join_handles.contains_key(id),
        _ => true,
    }
}

/// The state after an event.
pub open spec fn after_task<T, R>(
    rt: RuntimeView<T, R>,
    event: TaskEvent<T, R>,
) -> RuntimeView<T, R> {
    match event {
        TaskEvent::Spawn(task) => rt.spawned(task),
        TaskEvent::HandOut(i) => rt.handed_out(i),
        TaskEvent::Drain => rt.drained(),
        TaskEvent::Return(task) => rt.returned(task),
        TaskEvent::Finish(res) => rt.finished(res),
        TaskEvent::Register(id) => rt.registered(id),
        TaskEvent::DropHandle(id) => rt.handle_dropped(id),
        TaskEvent::SubmitIo => rt.io_submitted(),
        TaskEvent::FetchIo(key) => RuntimeView { plat: rt.plat.fetched(key), ..rt },
        TaskEvent::GiveUpIo(key) => RuntimeView { plat: rt.plat.given_up(key), ..rt },
        TaskEvent::IoDone(cqes) => rt.io_done(cqes),
    }
}

/// The state after events, in this order.
pub open spec fn after_all_tasks<T, R>(
    rt: RuntimeView<T, R>,
    events: Seq<TaskEvent<T, R>>,
) -> RuntimeView<T, R>
    decreases events.len(),
{
    if events.len() == 0 {
        rt
    } else {
        after_task(after_all_tasks(rt, events.drop_last()), events.last())
    }
}

/// Each of the events can happen when it does.
pub open spec fn all_can_happen<T, R>(
    rt: RuntimeView<T, R>,
    events: Seq<TaskEvent<T, R>>,
) -> bool
    decreases events.len(),
{
    events.len() > 0 ==> {
        &&& all_can_happen(rt, events.drop_last())
        &&& can_happen(after_all_tasks(rt, events.drop_last()), events.last())
    }
}

/// None of the events hands the task with this id out.
pub open spec fn not_handed_out<T, R>(
    rt: RuntimeView<T, R>,
    events: Seq<TaskEvent<T, R>>,
    id: TaskId,
) -> bool
    decreases events.len(),
{
    events.len() > 0 ==> {
        &&& not_handed_out(rt, events.drop_last(), id)
        &&& events.last() matches TaskEvent::HandOut(i) ==> after_all_tasks(
            rt,
            events.drop_last(),
        ).task_wakeups[i].inner != id.inner
    }
}

/// No wakeup is lost: once a task that is there has been woken up, it stays so, whatever
/// happens, until it is handed out to be polled.
pub proof fn law_wakeup_is_not_lost<T, R>(
    rt: RuntimeView<T, R>,
    events: Seq<TaskEvent<T, R>>,
    id: TaskId,
)
    requires
        rt.task_wakeups.contains(id),
        rt.runnable(id),
        all_can_happen(rt, events),
        not_handed_out(rt, events, id),
    ensures
        after_all_tasks(rt, events).task_wakeups.contains(id),
        after_all_tasks(rt, events).runnable(id),
    decreases events.len(),
{
    if events.len() > 0 {
        let before = after_all_tasks(rt, events.drop_last());
        let event = events.last();
        law_wakeup_is_not_lost(rt, events.drop_last(), id);
        let k = choose|k: int|
            0 <= k < before.task_wakeups.len() && before.task_wakeups[k] == id;
        let after = after_task(before, event);
        match event {
            TaskEvent::HandOut(i) => {
                law_no_useful_wakeup_is_dropped(before, i, k);
                assert(after.task_wakeups[k] == id);
            },
            TaskEvent::Drain => {
                assert(!before.runnable(before.task_wakeups[k]));
            },
            _ => {
                assert(after.task_wakeups[k] == id);
            },
        }
    }
}

/// The event is about the join handle of task `id`.
pub open spec fn is_about_handle<T, R>(
    rt: RuntimeView<T, R>,
    event: TaskEvent<T, R>,
    id: u32,
) -> bool {
    match event {
        TaskEvent::Spawn(_) => rt.task_id_counter == id,
        TaskEvent::Finish(_) => rt.current_task.inner == id,
        TaskEvent::Register(other) => other == id,
        TaskEvent::DropHandle(other) => other == id,
        _ => false,
    }
}

/// None of the events is about the join handle of task `id`.
pub open spec fn not_about_handle<T, R>(
    rt: RuntimeView<T, R>,
    events: Seq<TaskEvent<T, R>>,
    id: u32,
) -> bool
    decreases events.len(),
{
    events.len() > 0 ==> {
        &&& not_about_handle(rt, events.drop_last(), id)
        &&& !is_about_handle(after_all_tasks(rt, events.drop_last()), events.last(), id)
    }
}

/// Whatever happens to other tasks, a join handle stays as it was.
pub proof fn law_join_handle_is_left_alone<T, R>(
    rt: RuntimeView<T, R>,
    events: Seq<TaskEvent<T, R>>,
    id: u32,
)
    requires
        not_about_handle(rt, events, id),
    ensures
        after_all_tasks(rt, events).join_handles.contains_key(id) == rt.join_handles.contains_key(
            id,
        ),
        after_all_tasks(rt, events).join_handles[id] == rt.join_handles[id],
    decreases events.len(),
{
    if events.len() > 0 {
        law_join_handle_is_left_alone(rt, events.drop_last(), id);
    }
}

/// Awaiting a join handle: a task asks to be woken up when task `id` finishes. Whatever happens
/// to other tasks until then, it is woken up when that task finishes with a result; and
/// whatever happens to other tasks after that, the result is there to be fetched.
pub proof fn law_awaited_result_arrives<T, R>(
    rt: RuntimeView<T, R>,
    before: Seq<TaskEvent<T, R>>,
    res: R,
    after: Seq<TaskEvent<T, R>>,
    id: u32,
)
    requires
        rt.join_handles.contains_key(id),
        not_about_handle(rt.registered(id), before, id),
        after_all_tasks(rt.registered(id), before).current_task.inner == id,
        not_about_handle(after_all_tasks(rt.registered(id), before).finished(res), after, id),
    ensures
        after_all_tasks(rt.registered(id), before).finished(res).task_wakeups.contains(
            rt.current_task,
        ),
        ({
            let end = after_all_tasks(
                after_all_tasks(rt.registered(id), before).finished(res),
                after,
            );
            end.has_result(id) && end.join_handles[id].result == Some(res)
        }),
{
    let finishing = after_all_tasks(rt.registered(id), before);
    law_join_handle_is_left_alone(rt.registered(id), before, id);
    law_waiting_task_is_woken(rt, finishing, id, res);
    law_join_handle_is_left_alone(finishing.finished(res), after, id);
    assert(finishing.finished(res).task_wakeups[finishing.task_wakeups.len() as int]
        == rt.current_task);
}

/// The reserved numbers stay reserved, whatever happens.
pub proof fn law_runtime_stays_well_formed<T, R>(
    rt: RuntimeView<T, R>,
    events: Seq<TaskEvent<T, R>>,
)
    requires
        rt.wf(),
    ensures
        after_all_tasks(rt, events).wf(),
    decreases events.len(),
{
    if events.len() > 0 {
        law_runtime_stays_well_formed(rt, events.drop_last());
        if let TaskEvent::IoDone(cqes) = events.last() {
            law_one_wakeup_per_operation(
                after_all_tasks(rt, events.drop_last()).plat,
                cqes,
            );
        }
    }
}

/// The counter of task ids has not come round: all ids in use are smaller, be it that of a
/// task, of a join handle, of a wakeup or of a task that waits.
pub open spec fn ids_are_below<T, R>(rt: RuntimeView<T, R>) -> bool {
    let n = rt.task_id_counter;
    &&& rt.current_task.inner < n
    &&& forall|id: u32| #[trigger] rt.tasks.contains_key(id) ==> id < n
    &&& forall|id: u32| #[trigger] rt.join_handles.contains_key(id) ==> id < n
    &&& forall|id: u32| #[trigger]
        rt.join_handles.contains_key(id) ==> (rt.join_handles[id].waiting_task matches Some(task)
            ==> task.inner < n)
    &&& forall|i: int|
        0 <= i < rt.task_wakeups.len() ==> (#[trigger] rt.task_wakeups[i]).inner < n
    &&& waiting_tasks_are_below(rt.plat, n)
}

/// The ids of all tasks that wait for IO are smaller.
pub open spec fn waiting_tasks_are_below(plat: PlatformView, n: u32) -> bool {
    forall|key: u32| #[trigger]
        plat.submissions.contains_key(key) ==> plat.submissions[key].inner < n
}

/// How many tasks are spawned in the course of events.
pub open spec fn spawns<T, R>(events: Seq<TaskEvent<T, R>>) -> nat
    decreases events.len(),
{
    if events.len() == 0 {
        0
    } else if events.last() is Spawn {
        spawns(events.drop_last()) + 1
    } else {
        spawns(events.drop_last())
    }
}

proof fn lemma_completions_wake_tasks_that_wait(plat: PlatformView, cqes: Seq<Cqe>, n: u32)
    requires
        waiting_tasks_are_below(plat, n),
    ensures
        waiting_tasks_are_below(plat.all_completed(cqes), n),
        forall|i: int|
            0 <= i < plat.all_woken_by(cqes).len() ==> (#[trigger] plat.all_woken_by(
                cqes,
            )[i]).inner < n,
    decreases cqes.len(),
{
    if cqes.len() > 0 {
        lemma_completions_wake_tasks_that_wait(plat, cqes.drop_last(), n);
    }
}

/// A new runtime uses no id but that of the root task.
pub proof fn law_new_runtime_uses_no_id<T, R>()
    ensures
        ids_are_below(RuntimeView::<T, R>::initial()),
{
}

/// Whatever happens, as long as the counter does not come round, the id of the next task is not
/// that of any other one, nor of a join handle, nor does a wakeup for it linger: no two tasks
/// are mistaken for each other.
pub proof fn law_task_ids_are_fresh<T, R>(rt: RuntimeView<T, R>, events: Seq<TaskEvent<T, R>>)
    requires
        ids_are_below(rt),
        all_can_happen(rt, events),
        rt.task_id_counter + spawns(events) <= u32::MAX,
    ensures
        ids_are_below(after_all_tasks(rt, events)),
        after_all_tasks(rt, events).task_id_counter == rt.task_id_counter + spawns(events),
        ({
            let end = after_all_tasks(rt, events);
            &&& !end.tasks.contains_key(end.task_id_counter)
            &&& !end.join_handles.contains_key(end.task_id_counter)
            &&& !end.task_wakeups.contains(task_id(end.task_id_counter))
        }),
    decreases events.len(),
{
    if events.len() > 0 {
        law_task_ids_are_fresh(rt, events.drop_last());
        let before = after_all_tasks(rt, events.drop_last());
        if let TaskEvent::IoDone(cqes) = events.last() {
            lemma_completions_wake_tasks_that_wait(before.plat, cqes, before.task_id_counter);
        }
    }
}

/// A child task that is there stays there, whatever happens and whether or not it has been woken
/// up, until it is itself handed out: running out of wakeups, waiting for IO and the end of
/// other tasks do not take it away.
pub proof fn law_child_task_stays_until_handed_out<T, R>(
    rt: RuntimeView<T, R>,
    events: Seq<TaskEvent<T, R>>,
    id: TaskId,
)
    requires
        rt.tasks.contains_key(id.inner),
        not_handed_out(rt, events, id),
    ensures
        after_all_tasks(rt, events).tasks.contains_key(id.inner),
    decreases events.len(),
{
    if events.len() > 0 {
        law_child_task_stays_until_handed_out(rt, events.drop_last(), id);
    }
}

/// The event hands the task with this id out, puts it back or spawns it.
pub open spec fn is_about_task<T, R>(
    rt: RuntimeView<T, R>,
    event: TaskEvent<T, R>,
    id: u32,
) -> bool {
    match event {
        TaskEvent::Spawn(_) => rt.task_id_counter == id,
        TaskEvent::HandOut(i) => rt.task_wakeups[i].inner == id,
        TaskEvent::Return(_) => rt.current_task.inner == id,
        _ => false,
    }
}

/// None of the events hands the task with this id out, puts it back or spawns it.
pub open spec fn not_about_task<T, R>(
    rt: RuntimeView<T, R>,
    events: Seq<TaskEvent<T, R>>,
    id: u32,
) -> bool
    decreases events.len(),
{
    events.len() > 0 ==> {
        &&& not_about_task(rt, events.drop_last(), id)
        &&& !is_about_task(after_all_tasks(rt, events.drop_last()), events.last(), id)
    }
}

/// Whatever happens to other tasks, a child task stays what it was: there, and the same, or not
/// there.
pub proof fn law_child_task_is_left_alone<T, R>(
    rt: RuntimeView<T, R>,
    events: Seq<TaskEvent<T, R>>,
    id: u32,
)
    requires
        not_about_task(rt, events, id),
    ensures
        same_at(after_all_tasks(rt, events).tasks, rt.tasks, id),
    decreases events.len(),
{
    if events.len() > 0 {
        law_child_task_is_left_alone(rt, events.drop_last(), id);
    }
}

/// The event is about the operation with this key.
pub open spec fn is_about_operation<T, R>(
    rt: RuntimeView<T, R>,
    event: TaskEvent<T, R>,
    key: u32,
) -> bool {
    match event {
        TaskEvent::SubmitIo => rt.plat.io_key_counter == key,
        TaskEvent::FetchIo(other) => other == key,
        TaskEvent::GiveUpIo(other) => other == key,
        TaskEvent::IoDone(cqes) => !has_none_for(cqes, key),
        _ => false,
    }
}

/// None of the events is about the operation with this key.
pub open spec fn not_about_operation<T, R>(
    rt: RuntimeView<T, R>,
    events: Seq<TaskEvent<T, R>>,
    key: u32,
) -> bool
    decreases events.len(),
{
    events.len() > 0 ==> {
        &&& not_about_operation(rt, events.drop_last(), key)
        &&& !is_about_operation(after_all_tasks(rt, events.drop_last()), events.last(), key)
    }
}

/// Whatever tasks do, and whatever becomes of other operations, an operation stays as it was:
/// under way for the task that submitted it, or done with its result. Tasks that are spawned,
/// polled, put back or finish do not touch it.
pub proof fn law_operation_is_left_alone_by_tasks<T, R>(
    rt: RuntimeView<T, R>,
    events: Seq<TaskEvent<T, R>>,
    key: u32,
)
    requires
        not_about_operation(rt, events, key),
    ensures
        same_for(after_all_tasks(rt, events).plat, rt.plat, key),
    decreases events.len(),
{
    if events.len() > 0 {
        law_operation_is_left_alone_by_tasks(rt, events.drop_last(), key);
        if let TaskEvent::IoDone(cqes) = events.last() {
            law_other_completions_do_not_matter(
                after_all_tasks(rt, events.drop_last()).plat,
                cqes,
                key,
            );
        }
    }
}

/// A task is resumed when its IO completes: it submits an operation and is put back. Whatever
/// happens then that is not about that operation and does not hand it out, once the completion
/// arrives the task is still there, unchanged, it is woken up, and the result is there for it.
pub proof fn law_task_is_resumed_when_its_io_completes<T, R>(
    rt: RuntimeView<T, R>,
    task: T,
    events: Seq<TaskEvent<T, R>>,
    cqe: Cqe,
)
    requires
        cqe.user_data == rt.plat.io_key_counter,
        not_about_task(rt.io_submitted().returned(task), events, rt.current_task.inner),
        not_about_operation(rt.io_submitted().returned(task), events, rt.plat.io_key_counter),
    ensures
        ({
            let id = rt.current_task.inner;
            let end = after_all_tasks(rt.io_submitted().returned(task), events).io_done(seq![cqe]);
            &&& end.tasks.contains_key(id)
            &&& end.tasks[id] == task
            &&& end.task_wakeups.len() > 0
            &&& end.task_wakeups.last() == rt.current_task
            &&& end.plat.completions.contains_key(rt.plat.io_key_counter)
            &&& end.plat.completions[rt.plat.io_key_counter] == cqe.result
        }),
{
    let start = rt.io_submitted().returned(task);
    let waiting = after_all_tasks(start, events);
    law_child_task_is_left_alone(start, events, rt.current_task.inner);
    law_operation_is_left_alone_by_tasks(start, events, rt.plat.io_key_counter);
    law_completions_are_taken_in_order(waiting.plat, Seq::empty(), cqe);
    assert(Seq::empty().push(cqe) =~= seq![cqe]);
    law_completion_ends_one_operation(waiting.plat, rt.plat.io_key_counter, cqe.result);
}

} // verus!
