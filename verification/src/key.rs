//! Identifiers of tasks and of submitted IO.
//!
//! Both are numbers, but not aliases of `u32`: each carries a `PhantomData<Rc<()>>`, which
//! is neither `Send` nor `Sync`, and so neither is anything that holds one. The runtime is
//! single threaded, and a future that was moved to another thread would look its key up in
//! the wrong runtime.
use std::marker::PhantomData;
use std::rc::Rc;

use vstd::prelude::*;
use vstd::std_specs::cmp::PartialEqSpec;
use vstd::std_specs::convert::FromSpec;

verus! {

/// The key under which an IO operation was submitted. Keys start from 1: 0 marks operations
/// that nobody waits for.
#[derive(Clone, Copy, Debug, Hash)]
pub struct IoKey {
    pub inner: u32,
    pub phantom: PhantomData<Rc<()>>,
}

/// The id of a task. Ids start from 1: 0 is the root task.
#[derive(Clone, Copy, Debug, Hash)]
pub struct TaskId {
    pub inner: u32,
    pub phantom: PhantomData<Rc<()>>,
}

/// The key with the given number.
pub open spec fn io_key(n: u32) -> IoKey {
    IoKey { inner: n, phantom: PhantomData }
}

/// The id with the given number.
pub open spec fn task_id(n: u32) -> TaskId {
    TaskId { inner: n, phantom: PhantomData }
}

/// The number that a counter of ids hands out after `n`: one more, and 1 again after the
/// largest, so that 0 never comes up.
pub open spec fn succ(n: u32) -> u32 {
    if n == u32::MAX {
        1
    } else {
        (n + 1) as u32
    }
}

/// The value of a counter that stood at `n`, after it has handed out `k` numbers.
pub open spec fn succ_iter(n: u32, k: nat) -> u32
    decreases k,
{
    if k == 0 {
        n
    } else {
        succ(succ_iter(n, (k - 1) as nat))
    }
}

/// Advances a counter of ids and returns the number that it stood at.
pub(crate) fn take_number(counter: &mut u32) -> (n: u32)
    ensures
        n == *old(counter),
        *final(counter) == succ(*old(counter)),
{
    let n: u32 = *counter;
    let mut next: u32 = n.wrapping_add(1);

    // 0 is reserved
    if next == 0 {
        next = 1;
    }

    *counter = next;
    n
}

proof fn lemma_succ_iter_closed_form(n: u32, k: nat)
    requires
        n != 0,
        k < u32::MAX,
    ensures
        succ_iter(n, k) == if n + k <= u32::MAX {
            n + k
        } else {
            n + k - u32::MAX
        },
    decreases k,
{
    if k > 0 {
        lemma_succ_iter_closed_form(n, (k - 1) as nat);
    }
}

/// A counter that does not stand at 0 never hands out 0, however often it is used.
pub proof fn law_numbers_are_not_zero(n: u32, k: nat)
    requires
        n != 0,
    ensures
        succ_iter(n, k) != 0,
    decreases k,
{
    if k > 0 {
        law_numbers_are_not_zero(n, (k - 1) as nat);
    }
}

/// The numbers that a counter hands out do not repeat before all 2^32 - 1 of them have been
/// used: two takes less than that many apart give different numbers.
pub proof fn law_numbers_do_not_repeat(n: u32, i: nat, j: nat)
    requires
        n != 0,
        i < j,
        j - i < u32::MAX,
    ensures
        succ_iter(n, i) != succ_iter(n, j),
{
    law_numbers_are_not_zero(n, i);
    lemma_succ_iter_split(n, i, (j - i) as nat);
    lemma_succ_iter_closed_form(succ_iter(n, i), (j - i) as nat);
}

proof fn lemma_succ_iter_split(n: u32, i: nat, k: nat)
    ensures
        succ_iter(n, i + k) == succ_iter(succ_iter(n, i), k),
    decreases k,
{
    if k > 0 {
        lemma_succ_iter_split(n, i, (k - 1) as nat);
    }
}

impl From<u32> for IoKey {
    fn from(value: u32) -> (key: Self) {
        Self { inner: value, phantom: PhantomData }
    }
}

impl vstd::std_specs::convert::FromSpecImpl<u32> for IoKey {
    open spec fn obeys_from_spec() -> bool {
        true
    }

    open spec fn from_spec(value: u32) -> Self {
        io_key(value)
    }
}

impl PartialEq for IoKey {
    fn eq(&self, other: &Self) -> (equal: bool) {
        self.inner == other.inner
    }
}

impl Eq for IoKey {

}

impl nohash::IsEnabled for IoKey {

}

impl From<u32> for TaskId {
    fn from(value: u32) -> (id: Self) {
        Self { inner: value, phantom: PhantomData }
    }
}

impl vstd::std_specs::convert::FromSpecImpl<u32> for TaskId {
    open spec fn obeys_from_spec() -> bool {
        true
    }

    open spec fn from_spec(value: u32) -> Self {
        task_id(value)
    }
}

impl PartialEq for TaskId {
    fn eq(&self, other: &Self) -> (equal: bool) {
        self.inner == other.inner
    }
}

impl Eq for TaskId {

}

impl nohash::IsEnabled for TaskId {

}

impl vstd::std_specs::cmp::PartialEqSpecImpl for IoKey {
    open spec fn obeys_eq_spec() -> bool {
        true
    }

    open spec fn eq_spec(&self, other: &Self) -> bool {
        self.inner == other.inner
    }
}

impl vstd::std_specs::cmp::PartialEqSpecImpl for TaskId {
    open spec fn obeys_eq_spec() -> bool {
        true
    }

    open spec fn eq_spec(&self, other: &Self) -> bool {
        self.inner == other.inner
    }
}

/// A counter counts: each number is one more than the one before, and after the largest comes 1.
pub proof fn law_numbers_count_up(n: u32)
    ensures
        n < u32::MAX ==> succ(n) == n + 1,
        n == u32::MAX ==> succ(n) == 1,
{
}

/// Keys and ids are their numbers: they are made from them and hold them.
pub proof fn law_keys_hold_their_numbers(n: u32)
    ensures
        io_key(n).inner == n,
        task_id(n).inner == n,
        <IoKey as FromSpec<u32>>::obeys_from_spec(),
        <IoKey as FromSpec<u32>>::from_spec(n).inner == n,
        <TaskId as FromSpec<u32>>::obeys_from_spec(),
        <TaskId as FromSpec<u32>>::from_spec(n).inner == n,
{
}

/// Two keys are equal if their numbers are, and so are two ids.
pub proof fn law_keys_are_equal_by_their_numbers(a: IoKey, b: IoKey, c: TaskId, d: TaskId)
    ensures
        IoKey::obeys_eq_spec(),
        TaskId::obeys_eq_spec(),
        a.eq_spec(&b) <==> a.inner == b.inner,
        c.eq_spec(&d) <==> c.inner == d.inner,
{
}

} // verus!
