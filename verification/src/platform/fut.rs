//! Futures of submitted operations.
use vstd::prelude::*;

use super::sqe::{Op, Sqe};
use crate::key::{io_key, IoKey};
use crate::runtime::{Runtime, RuntimeView};

verus! {

/// How far an operation has come.
#[derive(Clone, Copy, Debug)]
pub enum FutState {
    NotSubmitted,
    Submitted(IoKey),
    Done,
}

/// What a poll of an [`IoUringFut`] asks of whoever polls it.
#[derive(Debug)]
pub enum FutPoll {
    /// Submit the future's entry to the ring, and wait.
    Submit,
    /// Wait.
    Pending,
    /// Done: the result of the operation.
    Ready(i32),
}

/// An operation that its future submits when it is first polled.
#[derive(Debug)]
pub struct IoUringFut {
    sqe: Sqe,
    state: FutState,
}

impl IoUringFut {
    /// The entry of the submission queue.
    pub closed spec fn entry(&self) -> Sqe {
        self.sqe
    }

    /// How far the operation has come.
    pub closed spec fn progress(&self) -> FutState {
        self.state
    }

    /// The future of an operation that has not been submitted.
    pub fn new(sqe: Sqe) -> (fut: Self)
        ensures
            fut.entry() == sqe,
            fut.progress() == FutState::NotSubmitted,
    {
        IoUringFut { sqe, state: FutState::NotSubmitted }
    }

    /// The entry of the submission queue. Once the future has been polled, its user data is
    /// the key of the operation.
    pub fn sqe(&self) -> (sqe: &Sqe)
        ensures
            *sqe == self.entry(),
    {
        &self.sqe
    }

    /// How far the operation has come.
    pub fn state(&self) -> (state: FutState)
        ensures
            state == self.progress(),
    {
        self.state
    }

    /// Submits the operation, if that has not been done, or else looks whether its result
    /// has arrived. Must not be called again once the result has been handed out.
    pub fn poll<T, R>(&mut self, rt: &mut Runtime<T, R>) -> (poll: FutPoll)
        requires
            !(old(self).progress() is Done),
        ensures
            final(self).entry().op == old(self).entry().op,
            match old(self).progress() {
                FutState::NotSubmitted => {
                    &&& poll is Submit
                    &&& final(self).progress() == FutState::Submitted(
                        io_key(old(rt)@.plat.io_key_counter),
                    )
                    &&& final(self).entry().user_data == old(rt)@.plat.io_key_counter
                    &&& final(rt)@ == old(rt)@.io_submitted()
                },
                FutState::Submitted(key) => {
                    &&& final(self).entry() == old(self).entry()
                    &&& final(rt)@ == (RuntimeView {
                        plat: old(rt)@.plat.fetched(key.inner),
                        ..old(rt)@
                    })
                    &&& if old(rt)@.plat.completions.contains_key(key.inner) {
                        &&& poll == FutPoll::Ready(old(rt)@.plat.completions[key.inner])
                        &&& final(self).progress() is Done
                    } else {
                        &&& poll is Pending
                        &&& final(rt)@ == old(rt)@
                        &&& final(self).progress() == old(self).progress()
                    }
                },
                FutState::Done => true,
            },
            old(rt)@.wf() ==> final(rt)@.wf(),
    {
        let ghost before = rt@;
        match self.state {
            FutState::NotSubmitted => {
                let key = rt.submit_io();
                self.sqe.user_data = key.inner as u64;
                self.state = FutState::Submitted(key);
                FutPoll::Submit
            },
            FutState::Submitted(key) => {
                match rt.fetch_io(key) {
                    Some(res) => {
                        self.state = FutState::Done;
                        FutPoll::Ready(res)
                    },
                    None => {
                        assert(rt@.plat.completions =~= before.plat.completions);
                        FutPoll::Pending
                    },
                }
            },
            FutState::Done => FutPoll::Pending,
        }
    }

    /// Gives the operation up. If it is under way, nobody will be woken up by its completion,
    /// and the entry to submit is returned that cancels it.
    pub fn drop<T, R>(&mut self, rt: &mut Runtime<T, R>) -> (cancel: Option<Sqe>)
        ensures
            *final(self) == *old(self),
            match old(self).progress() {
                FutState::Submitted(key) => {
                    &&& final(rt)@ == (RuntimeView {
                        plat: old(rt)@.plat.given_up(key.inner),
                        ..old(rt)@
                    })
                    &&& cancel == (if old(rt)@.plat.submissions.contains_key(key.inner) {
                        Some(cancellation(key.inner))
                    } else {
                        None
                    })
                },
                _ => cancel is None && final(rt)@ == old(rt)@,
            },
            old(rt)@.wf() ==> final(rt)@.wf(),
    {
        if let FutState::Submitted(key) = self.state {
            if rt.give_up_io(key) {
                return Some(
                    Sqe { op: Op::AsyncCancel { user_data: key.inner as u64 }, user_data: 0 },
                );
            }
        }
        None
    }
}

/// The entry that cancels the operation with this key. Nobody waits for it.
pub open spec fn cancellation(key: u32) -> Sqe {
    Sqe { op: Op::AsyncCancel { user_data: key as u64 }, user_data: 0 }
}

/// A cancellation names the operation that it cancels by the user data with which that was
/// submitted, and is itself for the reserved key.
pub proof fn law_cancellation_names_its_operation(key: u32)
    ensures
        cancellation(key).op matches Op::AsyncCancel { user_data } && user_data == key,
        cancellation(key).user_data == 0,
{
}

} // verus!
