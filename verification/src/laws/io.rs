//! What holds of IO as a whole: from the submission of an operation to its result.
use vstd::prelude::*;

use crate::key::TaskId;
use crate::platform::sqe::{key_of, Cqe};
use crate::platform::PlatformView;
use crate::runtime::RuntimeView;

verus! {

/// The `n`-th completion is the first one for this key.
pub open spec fn is_first_for(cqes: Seq<Cqe>, key: u32, n: int) -> bool {
    &&& 0 <= n < cqes.len()
    &&& key_of(cqes[n].user_data) == key
    &&& forall|j: int| 0 <= j < n ==> key_of((#[trigger] cqes[j]).user_data) != key
}

/// None of the completions is for this key.
pub open spec fn has_none_for(cqes: Seq<Cqe>, key: u32) -> bool {
    forall|j: int| 0 <= j < cqes.len() ==> key_of((#[trigger] cqes[j]).user_data) != key
}

/// An operation is as far in one state as in the other: under way for the same task, done with
/// the same result, or neither.
pub open spec fn same_for(a: PlatformView, b: PlatformView, key: u32) -> bool {
    &&& a.submissions.contains_key(key) == b.submissions.contains_key(key)
    &&& a.submissions[key] == b.submissions[key]
    &&& a.completions.contains_key(key) == b.completions.contains_key(key)
    &&& a.completions[key] == b.completions[key]
}

/// Completions for other operations leave an operation as it was.
pub proof fn law_other_completions_do_not_matter(plat: PlatformView, cqes: Seq<Cqe>, key: u32)
    requires
        has_none_for(cqes, key),
    ensures
        same_for(plat.all_completed(cqes), plat, key),
    decreases cqes.len(),
{
    if cqes.len() > 0 {
        let init = cqes.drop_last();
        assert forall|j: int| 0 <= j < init.len() implies key_of((#[trigger] init[j]).user_data)
            != key by {
            assert(init[j] == cqes[j]);
        }
        law_other_completions_do_not_matter(plat, init, key);
        assert(key_of(cqes[cqes.len() - 1].user_data) != key);
    }
}

/// A completion for an operation that nobody waits for changes nothing of it: it does not
/// come to be under way, and has no result that it did not have before.
pub proof fn law_unexpected_completions_are_dropped(plat: PlatformView, cqes: Seq<Cqe>, key: u32)
    requires
        !plat.submissions.contains_key(key),
    ensures
        same_for(plat.all_completed(cqes), plat, key),
    decreases cqes.len(),
{
    if cqes.len() > 0 {
        law_unexpected_completions_are_dropped(plat, cqes.drop_last(), key);
    }
}

/// Completions for operations that nobody waits for change nothing at all, and wake nobody:
/// those of closes and of cancellations, which go by the reserved key 0, and those of
/// operations that were given up.
pub proof fn law_only_unexpected_completions_change_nothing(plat: PlatformView, cqes: Seq<Cqe>)
    requires
        forall|j: int|
            0 <= j < cqes.len() ==> !plat.submissions.contains_key(
                key_of((#[trigger] cqes[j]).user_data),
            ),
    ensures
        plat.all_completed(cqes) == plat,
        plat.all_woken_by(cqes) == Seq::<TaskId>::empty(),
    decreases cqes.len(),
{
    if cqes.len() > 0 {
        let init = cqes.drop_last();
        assert forall|j: int| 0 <= j < init.len() implies !plat.submissions.contains_key(
            key_of((#[trigger] init[j]).user_data),
        ) by {
            assert(init[j] == cqes[j]);
        }
        law_only_unexpected_completions_change_nothing(plat, init);
        assert(!plat.submissions.contains_key(key_of(cqes[cqes.len() - 1].user_data)));
        assert(plat.all_woken_by(cqes) =~= Seq::<TaskId>::empty());
    }
}

/// The reserved key: whatever completions come in for it, nobody is woken up and nothing is
/// recorded.
pub proof fn law_reserved_key_wakes_nobody(plat: PlatformView, cqes: Seq<Cqe>)
    requires
        plat.wf(),
        forall|j: int| 0 <= j < cqes.len() ==> key_of((#[trigger] cqes[j]).user_data) == 0,
    ensures
        plat.all_completed(cqes) == plat,
        plat.all_woken_by(cqes) == Seq::<TaskId>::empty(),
{
    law_only_unexpected_completions_change_nothing(plat, cqes);
}

/// An operation that is under way is done with the first completion for it: that completion's
/// result is its result, whatever else comes in, and the task that waits for it is woken up.
pub proof fn law_first_completion_counts(plat: PlatformView, cqes: Seq<Cqe>, key: u32, n: int)
    requires
        plat.submissions.contains_key(key),
        is_first_for(cqes, key, n),
    ensures
        !plat.all_completed(cqes).submissions.contains_key(key),
        plat.all_completed(cqes).completions.contains_key(key),
        plat.all_completed(cqes).completions[key] == cqes[n].result,
        plat.all_woken_by(cqes).contains(plat.submissions[key]),
    decreases cqes.len(),
{
    let init = cqes.drop_last();
    let woken = plat.all_woken_by(init);
    let last = plat.all_completed(init).woken_by(cqes.last());

    if n == cqes.len() - 1 {
        assert forall|j: int| 0 <= j < init.len() implies key_of((#[trigger] init[j]).user_data)
            != key by {
            assert(init[j] == cqes[j]);
        }
        law_other_completions_do_not_matter(plat, init, key);
        assert((woken + last)[woken.len() as int] == plat.submissions[key]);
    } else {
        assert forall|j: int| 0 <= j < n implies key_of((#[trigger] init[j]).user_data) != key by {
            assert(init[j] == cqes[j]);
        }
        law_first_completion_counts(plat, init, key, n);
        let i = choose|i: int| 0 <= i < woken.len() && woken[i] == plat.submissions[key];
        assert((woken + last)[i] == plat.submissions[key]);
    }
}

/// Each operation that is done wakes one task: as many operations are no longer under way as
/// tasks are woken up.
pub proof fn law_one_wakeup_per_operation(plat: PlatformView, cqes: Seq<Cqe>)
    requires
        plat.wf(),
    ensures
        plat.all_completed(cqes).wf(),
        plat.all_completed(cqes).submissions.len() + plat.all_woken_by(cqes).len()
            == plat.submissions.len(),
    decreases cqes.len(),
{
    if cqes.len() > 0 {
        law_one_wakeup_per_operation(plat, cqes.drop_last());
    }
}

/// From the submission of an operation to its result: after the task being polled has
/// submitted one, the completions that come in make the first of them for its key its
/// result, and wake that task up.
pub proof fn law_submitted_operation_gets_its_result<T, R>(
    rt: RuntimeView<T, R>,
    cqes: Seq<Cqe>,
    n: int,
)
    requires
        rt.wf(),
        is_first_for(cqes, rt.plat.io_key_counter, n),
    ensures
        ({
            let key = rt.plat.io_key_counter;
            let done = rt.io_submitted().io_done(cqes);
            &&& done.plat.completions.contains_key(key)
            &&& done.plat.completions[key] == cqes[n].result
            &&& done.task_wakeups.contains(rt.current_task)
        }),
{
    let key = rt.plat.io_key_counter;
    let submitted = rt.io_submitted();
    law_first_completion_counts(submitted.plat, cqes, key, n);
    let woken = submitted.plat.all_woken_by(cqes);
    let i = choose|i: int| 0 <= i < woken.len() && woken[i] == rt.current_task;
    let done = submitted.io_done(cqes);
    assert(done.task_wakeups[rt.task_wakeups.len() + i] == rt.current_task);
}

/// An operation has no result before a completion for it has come in, unless one is left
/// over from an operation that had the same key.
pub proof fn law_operation_without_completion_has_no_result<T, R>(
    rt: RuntimeView<T, R>,
    cqes: Seq<Cqe>,
)
    requires
        rt.wf(),
        has_none_for(cqes, rt.plat.io_key_counter),
        !rt.plat.completions.contains_key(rt.plat.io_key_counter),
    ensures
        !rt.io_submitted().io_done(cqes).plat.completions.contains_key(rt.plat.io_key_counter),
        rt.io_submitted().io_done(cqes).plat.submissions.contains_key(rt.plat.io_key_counter),
{
    law_other_completions_do_not_matter(rt.io_submitted().plat, cqes, rt.plat.io_key_counter);
}

/// Submitting, fetching and giving up one operation leaves every other one as it was.
pub proof fn law_operations_do_not_interfere(
    plat: PlatformView,
    task: TaskId,
    key: u32,
    other: u32,
)
    ensures
        other != plat.io_key_counter ==> same_for(plat.submitted(task), plat, other),
        other != key ==> same_for(plat.fetched(key), plat, other),
        other != key ==> same_for(plat.given_up(key), plat, other),
{
}

/// An operation that was given up wakes nobody: whatever comes in for it is dropped.
pub proof fn law_given_up_operation_is_forgotten(plat: PlatformView, cqes: Seq<Cqe>, key: u32)
    requires
        forall|j: int| 0 <= j < cqes.len() ==> key_of((#[trigger] cqes[j]).user_data) == key,
    ensures
        plat.given_up(key).all_completed(cqes) == plat.given_up(key),
        plat.given_up(key).all_woken_by(cqes) == Seq::<TaskId>::empty(),
{
    law_only_unexpected_completions_change_nothing(plat.given_up(key), cqes);
}

/// The counter of IO keys has not come round: all keys in use are smaller.
pub open spec fn keys_are_below(plat: PlatformView) -> bool {
    forall|key: u32|
        #![trigger plat.submissions.contains_key(key)]
        #![trigger plat.completions.contains_key(key)]
        plat.submissions.contains_key(key) || plat.completions.contains_key(key) ==> key
            < plat.io_key_counter
}

/// Something that happens to the IO of a runtime.
pub enum IoEvent {
    /// A task submits an operation, under the next key.
    Submit(TaskId),
    /// The result of the operation with this key is fetched, if it is there.
    Fetch(u32),
    /// The operation with this key is given up.
    GiveUp(u32),
    /// A completion arrives.
    Complete(Cqe),
}

/// The state after an event.
pub open spec fn after_io(plat: PlatformView, event: IoEvent) -> PlatformView {
    match event {
        IoEvent::Submit(task) => plat.submitted(task),
        IoEvent::Fetch(key) => plat.fetched(key),
        IoEvent::GiveUp(key) => plat.given_up(key),
        IoEvent::Complete(cqe) => plat.completed(cqe),
    }
}

/// The state after events, in this order.
pub open spec fn after_all_io(plat: PlatformView, events: Seq<IoEvent>) -> PlatformView
    decreases events.len(),
{
    if events.len() == 0 {
        plat
    } else {
        after_io(after_all_io(plat, events.drop_last()), events.last())
    }
}

/// The key of the operation that an event is about.
pub open spec fn key_of_event(plat: PlatformView, event: IoEvent) -> u32 {
    match event {
        IoEvent::Submit(_) => plat.io_key_counter,
        IoEvent::Fetch(key) => key,
        IoEvent::GiveUp(key) => key,
        IoEvent::Complete(cqe) => key_of(cqe.user_data),
    }
}

/// None of the events is about the operation with this key.
pub open spec fn not_about(plat: PlatformView, events: Seq<IoEvent>, key: u32) -> bool
    decreases events.len(),
{
    events.len() > 0 ==> {
        &&& not_about(plat, events.drop_last(), key)
        &&& key_of_event(after_all_io(plat, events.drop_last()), events.last()) != key
    }
}

/// Whatever happens to other operations, an operation stays as it was.
pub proof fn law_operation_is_left_alone(plat: PlatformView, events: Seq<IoEvent>, key: u32)
    requires
        not_about(plat, events, key),
    ensures
        same_for(after_all_io(plat, events), plat, key),
    decreases events.len(),
{
    if events.len() > 0 {
        law_operation_is_left_alone(plat, events.drop_last(), key);
    }
}

/// An operation that is under way gets the result of its completion, whatever happens to other
/// operations before and after that completion, and the completion wakes the task that waits.
pub proof fn law_operation_gets_its_result_whatever_else_happens(
    plat: PlatformView,
    before: Seq<IoEvent>,
    cqe: Cqe,
    after: Seq<IoEvent>,
)
    requires
        plat.submissions.contains_key(key_of(cqe.user_data)),
        not_about(plat, before, key_of(cqe.user_data)),
        not_about(after_all_io(plat, before).completed(cqe), after, key_of(cqe.user_data)),
    ensures
        after_all_io(plat, before).woken_by(cqe) == seq![plat.submissions[key_of(cqe.user_data)]],
        ({
            let end = after_all_io(after_all_io(plat, before).completed(cqe), after);
            &&& end.completions.contains_key(key_of(cqe.user_data))
            &&& end.completions[key_of(cqe.user_data)] == cqe.result
        }),
{
    let key = key_of(cqe.user_data);
    law_operation_is_left_alone(plat, before, key);
    law_operation_is_left_alone(after_all_io(plat, before).completed(cqe), after, key);
}

/// The reserved numbers stay reserved, whatever happens.
pub proof fn law_io_stays_well_formed(plat: PlatformView, events: Seq<IoEvent>)
    requires
        plat.wf(),
    ensures
        after_all_io(plat, events).wf(),
    decreases events.len(),
{
    if events.len() > 0 {
        law_io_stays_well_formed(plat, events.drop_last());
    }
}

/// Completions that arrive together count as if they arrived one by one.
pub proof fn law_completions_count_one_by_one(plat: PlatformView, cqes: Seq<Cqe>)
    ensures
        plat.all_completed(cqes) == after_all_io(
            plat,
            cqes.map_values(|cqe: Cqe| IoEvent::Complete(cqe)),
        ),
    decreases cqes.len(),
{
    if cqes.len() > 0 {
        let one = |cqe: Cqe| IoEvent::Complete(cqe);
        law_completions_count_one_by_one(plat, cqes.drop_last());
        assert(cqes.map_values(one).drop_last() =~= cqes.drop_last().map_values(one));
    }
}

/// How many operations are submitted in the course of events.
pub open spec fn submits(events: Seq<IoEvent>) -> nat
    decreases events.len(),
{
    if events.len() == 0 {
        0
    } else if events.last() is Submit {
        submits(events.drop_last()) + 1
    } else {
        submits(events.drop_last())
    }
}

/// A new platform uses no key.
pub proof fn law_new_platform_uses_no_key()
    ensures
        keys_are_below(PlatformView::initial()),
{
}

/// Whatever happens, as long as the counter does not come round, the key of the next operation
/// is not that of any other one, under way or done: no two operations are mistaken for each
/// other.
pub proof fn law_io_keys_are_fresh(plat: PlatformView, events: Seq<IoEvent>)
    requires
        keys_are_below(plat),
        plat.io_key_counter + submits(events) <= u32::MAX,
    ensures
        keys_are_below(after_all_io(plat, events)),
        after_all_io(plat, events).io_key_counter == plat.io_key_counter + submits(events),
        ({
            let end = after_all_io(plat, events);
            &&& !end.submissions.contains_key(end.io_key_counter)
            &&& !end.completions.contains_key(end.io_key_counter)
        }),
    decreases events.len(),
{
    if events.len() > 0 {
        law_io_keys_are_fresh(plat, events.drop_last());
    }
}

} // verus!
