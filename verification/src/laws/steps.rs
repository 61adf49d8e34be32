//! What each step changes of a runtime, and that it leaves everything else as it was.
use vstd::prelude::*;

use crate::key::TaskId;
use crate::platform::sqe::{key_of, Cqe};
use crate::platform::PlatformView;
use crate::runtime::{RuntimeView, WokenTask};

verus! {

/// Two maps hold the same under this key: the same value, or nothing.
pub open spec fn same_at<V>(a: Map<u32, V>, b: Map<u32, V>, key: u32) -> bool {
    &&& a.contains_key(key) == b.contains_key(key)
    &&& a.contains_key(key) ==> a[key] == b[key]
}

/// Two maps hold the same under every key but this one.
pub open spec fn same_but<V>(a: Map<u32, V>, b: Map<u32, V>, key: u32) -> bool {
    forall|k: u32| k != key ==> #[trigger] same_at(a, b, k)
}

/// Two maps hold the same.
pub open spec fn same<V>(a: Map<u32, V>, b: Map<u32, V>) -> bool {
    forall|k: u32| #[trigger] same_at(a, b, k)
}

/// The wakeups of before come first, in their order.
pub open spec fn extends(after: Seq<TaskId>, before: Seq<TaskId>) -> bool {
    &&& before.len() <= after.len()
    &&& forall|i: int| 0 <= i < before.len() ==> #[trigger] after[i] == before[i]
}

/// The task that a wakeup is for is there to be polled: the root task always is.
pub open spec fn is_there<T, R>(rt: RuntimeView<T, R>, id: TaskId) -> bool {
    id.inner == 0 || rt.tasks.contains_key(id.inner)
}

/// A new runtime has no child task, no join handle and no IO. Its only wakeup is that of the
/// root task, and its first child task will have the number 1.
pub proof fn law_new_runtime_is_empty<T, R>()
    ensures
        ({
            let rt = RuntimeView::<T, R>::initial();
            &&& forall|id: u32| !(#[trigger] rt.tasks.contains_key(id))
            &&& forall|id: u32| !(#[trigger] rt.join_handles.contains_key(id))
            &&& forall|key: u32| !(#[trigger] rt.plat.submissions.contains_key(key))
            &&& forall|key: u32| !(#[trigger] rt.plat.completions.contains_key(key))
            &&& rt.task_wakeups.len() == 1
            &&& rt.task_wakeups[0].inner == 0
            &&& rt.current_task.inner == 0
            &&& rt.task_id_counter == 1
            &&& rt.plat.io_key_counter == 1
        }),
{
}

/// A new platform has no operation under way and no result, and its first key will be 1.
pub proof fn law_new_platform_is_empty()
    ensures
        ({
            let plat = PlatformView::initial();
            &&& forall|key: u32| !(#[trigger] plat.submissions.contains_key(key))
            &&& forall|key: u32| !(#[trigger] plat.completions.contains_key(key))
            &&& plat.io_key_counter == 1
        }),
{
}

/// Spawning adds one child task, which has not finished and which nobody waits for yet, and
/// wakes it up. It changes nothing of any other task and of no IO.
pub proof fn law_spawning_adds_one_task<T, R>(rt: RuntimeView<T, R>, task: T)
    ensures
        ({
            let id = rt.task_id_counter;
            let after = rt.spawned(task);
            &&& after.tasks.contains_key(id) && after.tasks[id] == task
            &&& same_but(after.tasks, rt.tasks, id)
            &&& after.join_handles.contains_key(id)
            &&& after.join_handles[id].result is None
            &&& after.join_handles[id].waiting_task is None
            &&& same_but(after.join_handles, rt.join_handles, id)
            &&& after.task_wakeups.len() == rt.task_wakeups.len() + 1
            &&& extends(after.task_wakeups, rt.task_wakeups)
            &&& after.task_wakeups.last().inner == id
            &&& after.task_id_counter == if id < u32::MAX {
                id + 1
            } else {
                1
            }
            &&& after.current_task == rt.current_task
            &&& after.plat == rt.plat
        }),
{
}

/// What the next wakeup is: the last one for a task that is there.
pub proof fn law_next_wakeup_is_last_for_task_that_is_there<T, R>(rt: RuntimeView<T, R>, i: int)
    ensures
        rt.is_next(i) <==> {
            &&& 0 <= i < rt.task_wakeups.len()
            &&& is_there(rt, rt.task_wakeups[i])
            &&& forall|j: int|
                i < j < rt.task_wakeups.len() ==> !is_there(rt, #[trigger] rt.task_wakeups[j])
        },
{
    assert forall|id: TaskId| #[trigger] rt.runnable(id) == is_there(rt, id) by {}
    if rt.is_next(i) {
        assert forall|j: int| i < j < rt.task_wakeups.len() implies !is_there(
            rt,
            #[trigger] rt.task_wakeups[j],
        ) by {
            assert(!rt.runnable(rt.task_wakeups[j]));
        }
    }
}

/// IO is waited for only if no wakeup is for a task that is there.
pub proof fn law_idle_without_wakeup_of_task_that_is_there<T, R>(rt: RuntimeView<T, R>)
    ensures
        rt.idle() <==> forall|i: int|
            0 <= i < rt.task_wakeups.len() ==> !is_there(rt, #[trigger] rt.task_wakeups[i]),
{
    assert forall|id: TaskId| #[trigger] rt.runnable(id) == is_there(rt, id) by {}
    if rt.idle() {
        assert forall|i: int| 0 <= i < rt.task_wakeups.len() implies !is_there(
            rt,
            #[trigger] rt.task_wakeups[i],
        ) by {
            assert(!rt.runnable(rt.task_wakeups[i]));
        }
    }
}

/// The task that is handed out is the one that its wakeup is for.
pub proof fn law_woken_task_is_that_of_its_wakeup<T, R>(rt: RuntimeView<T, R>, i: int)
    ensures
        match rt.woken_at(i) {
            WokenTask::Root => rt.task_wakeups[i].inner == 0,
            WokenTask::Child(task) => {
                &&& rt.task_wakeups[i].inner != 0
                &&& task == rt.tasks[rt.task_wakeups[i].inner]
            },
        },
{
}

/// Handing a task out takes it, and no other, from the tasks, and its wakeup and those after it
/// from the wakeups. It changes no join handle and no IO.
pub proof fn law_handing_out_takes_one_task<T, R>(rt: RuntimeView<T, R>, i: int)
    requires
        0 <= i < rt.task_wakeups.len(),
    ensures
        ({
            let id = rt.task_wakeups[i].inner;
            let after = rt.handed_out(i);
            &&& after.current_task == rt.task_wakeups[i]
            &&& id != 0 ==> !after.tasks.contains_key(id)
            &&& same_but(after.tasks, rt.tasks, id)
            &&& id == 0 ==> same(after.tasks, rt.tasks)
            &&& after.task_wakeups.len() == i
            &&& extends(rt.task_wakeups, after.task_wakeups)
            &&& same(after.join_handles, rt.join_handles)
            &&& after.task_id_counter == rt.task_id_counter
            &&& after.plat == rt.plat
        }),
{
}

/// Running out of wakeups drops the wakeups and nothing else: all tasks, join handles and IO
/// are as they were.
pub proof fn law_running_out_of_wakeups_keeps_everything<T, R>(rt: RuntimeView<T, R>)
    ensures
        ({
            let after = rt.drained();
            &&& after.task_wakeups.len() == 0
            &&& same(after.tasks, rt.tasks)
            &&& same(after.join_handles, rt.join_handles)
            &&& after.plat == rt.plat
            &&& after.task_id_counter == rt.task_id_counter
            &&& after.current_task == if rt.task_wakeups.len() == 0 {
                rt.current_task
            } else {
                rt.task_wakeups.first()
            }
        }),
{
}

/// Putting a task back changes nothing but that it is there again, under its number.
pub proof fn law_putting_back_restores_one_task<T, R>(rt: RuntimeView<T, R>, task: T)
    ensures
        ({
            let id = rt.current_task.inner;
            let after = rt.returned(task);
            &&& after.tasks.contains_key(id) && after.tasks[id] == task
            &&& same_but(after.tasks, rt.tasks, id)
            &&& same(after.join_handles, rt.join_handles)
            &&& after.task_wakeups == rt.task_wakeups
            &&& after.current_task == rt.current_task
            &&& after.task_id_counter == rt.task_id_counter
            &&& after.plat == rt.plat
        }),
{
}

/// A task that finishes leaves all tasks and all IO alone, and all join handles but its own.
/// Its own gets the result, and keeps who waits for it, who is woken up: nobody else is.
pub proof fn law_finishing_fills_one_join_handle<T, R>(rt: RuntimeView<T, R>, res: R)
    ensures
        ({
            let id = rt.current_task.inner;
            let after = rt.finished(res);
            &&& same(after.tasks, rt.tasks)
            &&& same_but(after.join_handles, rt.join_handles, id)
            &&& after.join_handles.contains_key(id) == rt.join_handles.contains_key(id)
            &&& extends(after.task_wakeups, rt.task_wakeups)
            &&& if rt.join_handles.contains_key(id) {
                &&& after.join_handles[id].result == Some(res)
                &&& after.join_handles[id].waiting_task == rt.join_handles[id].waiting_task
                &&& match rt.join_handles[id].waiting_task {
                    Some(task) => {
                        &&& after.task_wakeups.len() == rt.task_wakeups.len() + 1
                        &&& after.task_wakeups.last() == task
                    },
                    None => after.task_wakeups.len() == rt.task_wakeups.len(),
                }
            } else {
                after.task_wakeups.len() == rt.task_wakeups.len()
            }
            &&& after.current_task == rt.current_task
            &&& after.task_id_counter == rt.task_id_counter
            &&& after.plat == rt.plat
        }),
{
}

/// Whether a result can be fetched: its task has finished, and its join handle is there.
pub proof fn law_result_is_there_once_finished<T, R>(rt: RuntimeView<T, R>, id: u32)
    ensures
        rt.has_result(id) <==> rt.join_handles.contains_key(id) && rt.join_handles[id].result
            is Some,
{
}

/// A join handle that goes takes nothing with it: all tasks, wakeups, IO and other join handles
/// are as they were.
pub proof fn law_dropping_takes_one_join_handle<T, R>(rt: RuntimeView<T, R>, id: u32)
    ensures
        ({
            let after = rt.handle_dropped(id);
            &&& !after.join_handles.contains_key(id)
            &&& same_but(after.join_handles, rt.join_handles, id)
            &&& same(after.tasks, rt.tasks)
            &&& after.task_wakeups == rt.task_wakeups
            &&& after.current_task == rt.current_task
            &&& after.task_id_counter == rt.task_id_counter
            &&& after.plat == rt.plat
        }),
{
}

/// Asking to be woken up changes nothing but who waits for that one task.
pub proof fn law_registering_changes_who_waits<T, R>(rt: RuntimeView<T, R>, id: u32)
    requires
        rt.join_handles.contains_key(id),
    ensures
        ({
            let after = rt.registered(id);
            &&& after.join_handles.contains_key(id)
            &&& after.join_handles[id].waiting_task == Some(rt.current_task)
            &&& after.join_handles[id].result == rt.join_handles[id].result
            &&& same_but(after.join_handles, rt.join_handles, id)
            &&& same(after.tasks, rt.tasks)
            &&& after.task_wakeups == rt.task_wakeups
            &&& after.current_task == rt.current_task
            &&& after.task_id_counter == rt.task_id_counter
            &&& after.plat == rt.plat
        }),
{
}

/// Submitting an operation changes nothing but the IO, and of that only what is known of the new
/// operation: it is under way, for the task being polled.
pub proof fn law_submitting_adds_one_operation<T, R>(rt: RuntimeView<T, R>)
    ensures
        ({
            let key = rt.plat.io_key_counter;
            let after = rt.io_submitted();
            &&& after.plat.submissions.contains_key(key)
            &&& after.plat.submissions[key] == rt.current_task
            &&& same_but(after.plat.submissions, rt.plat.submissions, key)
            &&& same(after.plat.completions, rt.plat.completions)
            &&& after.plat.io_key_counter == if key < u32::MAX {
                key + 1
            } else {
                1
            }
            &&& same(after.tasks, rt.tasks)
            &&& same(after.join_handles, rt.join_handles)
            &&& after.task_wakeups == rt.task_wakeups
            &&& after.current_task == rt.current_task
            &&& after.task_id_counter == rt.task_id_counter
        }),
{
}

/// An operation that a task submits is under way for that task, whoever submits it.
pub proof fn law_operation_is_under_way_for_its_task(plat: PlatformView, task: TaskId)
    ensures
        plat.submitted(task).submissions.contains_key(plat.io_key_counter),
        plat.submitted(task).submissions[plat.io_key_counter] == task,
        same_but(plat.submitted(task).submissions, plat.submissions, plat.io_key_counter),
        same(plat.submitted(task).completions, plat.completions),
        plat.io_key_counter < u32::MAX ==> plat.submitted(task).io_key_counter
            == plat.io_key_counter + 1,
        plat.io_key_counter == u32::MAX ==> plat.submitted(task).io_key_counter == 1,
{
}

/// Fetching a result takes that one result, and giving an operation up takes that one operation.
pub proof fn law_fetching_and_giving_up_take_one(plat: PlatformView, key: u32)
    ensures
        !plat.fetched(key).completions.contains_key(key),
        same_but(plat.fetched(key).completions, plat.completions, key),
        same(plat.fetched(key).submissions, plat.submissions),
        plat.fetched(key).io_key_counter == plat.io_key_counter,
        !plat.given_up(key).submissions.contains_key(key),
        same_but(plat.given_up(key).submissions, plat.submissions, key),
        same(plat.given_up(key).completions, plat.completions),
        plat.given_up(key).io_key_counter == plat.io_key_counter,
{
}

/// The key that a completion is for: that of every operation is recognised from the user data
/// with which it is submitted, and user data with the same low half is for the same key.
pub proof fn law_key_is_recognised(key: u32, user_data: u64)
    ensures
        key_of(key as u64) == key,
        (user_data - key_of(user_data)) % 0x1_0000_0000 == 0,
{
}

/// A completion of an operation that is under way ends that one operation with its result, and
/// wakes its task; any other completion does nothing.
pub proof fn law_completion_ends_one_operation(plat: PlatformView, key: u32, result: i32)
    ensures
        ({
            let cqe = Cqe { user_data: key as u64, result };
            let after = plat.completed(cqe);
            let woken = plat.woken_by(cqe);
            &&& same_but(after.submissions, plat.submissions, key)
            &&& same_but(after.completions, plat.completions, key)
            &&& after.io_key_counter == plat.io_key_counter
            &&& !after.submissions.contains_key(key)
            &&& if plat.submissions.contains_key(key) {
                &&& after.completions.contains_key(key)
                &&& after.completions[key] == result
                &&& woken.len() == 1
                &&& woken[0] == plat.submissions[key]
            } else {
                &&& same_at(after.completions, plat.completions, key)
                &&& woken.len() == 0
            }
        }),
{
    law_key_is_recognised(key, 0);
}

/// A completion counts by the low half of its user data and by its result, and by nothing else.
pub proof fn law_completion_counts_by_its_key(plat: PlatformView, cqe: Cqe)
    ensures
        ({
            let plain = Cqe { user_data: key_of(cqe.user_data) as u64, result: cqe.result };
            &&& plat.completed(cqe) == plat.completed(plain)
            &&& plat.woken_by(cqe) == plat.woken_by(plain)
        }),
{
    law_key_is_recognised(key_of(cqe.user_data), 0);
}

/// Completions are taken in one after the other, in their order: what the last one does, it does
/// after all the others.
pub proof fn law_completions_are_taken_in_order(plat: PlatformView, cqes: Seq<Cqe>, cqe: Cqe)
    ensures
        plat.all_completed(Seq::empty()) == plat,
        plat.all_woken_by(Seq::empty()).len() == 0,
        plat.all_completed(cqes.push(cqe)) == plat.all_completed(cqes).completed(cqe),
        plat.all_woken_by(cqes.push(cqe)) == plat.all_woken_by(cqes) + plat.all_completed(
            cqes,
        ).woken_by(cqe),
{
    assert(cqes.push(cqe).drop_last() =~= cqes);
}

/// Completions change the IO and add the wakeups that they bring, in their order. They change no
/// task and no join handle.
pub proof fn law_completions_only_wake<T, R>(rt: RuntimeView<T, R>, cqes: Seq<Cqe>)
    ensures
        ({
            let after = rt.io_done(cqes);
            let woken = rt.plat.all_woken_by(cqes);
            &&& after.plat == rt.plat.all_completed(cqes)
            &&& extends(after.task_wakeups, rt.task_wakeups)
            &&& after.task_wakeups.len() == rt.task_wakeups.len() + woken.len()
            &&& forall|i: int|
                0 <= i < woken.len() ==> after.task_wakeups[rt.task_wakeups.len() + i]
                    == #[trigger] woken[i]
            &&& same(after.tasks, rt.tasks)
            &&& same(after.join_handles, rt.join_handles)
            &&& after.current_task == rt.current_task
            &&& after.task_id_counter == rt.task_id_counter
        }),
{
}

/// The reserved numbers: no task and no operation gets the number 0, and nothing is recorded
/// under the key 0.
pub proof fn law_zero_is_reserved<T, R>(rt: RuntimeView<T, R>)
    ensures
        rt.wf() <==> {
            &&& rt.task_id_counter != 0
            &&& rt.plat.io_key_counter != 0
            &&& !rt.plat.submissions.contains_key(0)
            &&& !rt.plat.completions.contains_key(0)
            &&& rt.plat.submissions.dom().finite()
        },
{
}

} // verus!
