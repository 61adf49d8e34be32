//! Bookkeeping of the IO that the tasks of a runtime wait for.
pub mod addr;
pub mod fut;
pub mod ops;
pub mod ring;
pub mod sqe;
pub(crate) mod sys;

use nohash::IntMap;
use vstd::prelude::*;

use crate::error::InitError;
use crate::int_map::{int_map_insert, int_map_remove};
use crate::key::{io_key, succ, take_number, IoKey, TaskId};
use sqe::{key_of, Cqe};

verus! {

/// What a [`Platform`] knows.
#[verifier::ext_equal]
pub struct PlatformView {
    /// The number of the next IO key.
    pub io_key_counter: u32,
    /// For the key of each operation under way, the task that waits for it.
    pub submissions: Map<u32, TaskId>,
    /// For the key of each operation that is done, its result, until it is fetched.
    pub completions: Map<u32, i32>,
}

impl PlatformView {
    /// No IO yet. Keys start from 1, since 0 is reserved for operations that nobody waits for.
    pub open spec fn initial() -> Self {
        PlatformView {
            io_key_counter: 1,
            submissions: Map::empty(),
            completions: Map::empty(),
        }
    }

    /// The reserved key 0 is never handed out, and nothing is recorded under it. There are
    /// only so many operations under way.
    pub open spec fn wf(self) -> bool {
        &&& self.io_key_counter != 0
        &&& self.submissions.dom().finite()
        &&& !self.submissions.contains_key(0)
        &&& !self.completions.contains_key(0)
    }

    /// After `task` has submitted an operation, under the key that the counter stood at.
    pub open spec fn submitted(self, task: TaskId) -> Self {
        PlatformView {
            io_key_counter: succ(self.io_key_counter),
            submissions: self.submissions.insert(self.io_key_counter, task),
            completions: self.completions,
        }
    }

    /// After the result of the operation with this key has been fetched.
    pub open spec fn fetched(self, key: u32) -> Self {
        PlatformView { completions: self.completions.remove(key), ..self }
    }

    /// After the operation with this key has been given up.
    pub open spec fn given_up(self, key: u32) -> Self {
        PlatformView { submissions: self.submissions.remove(key), ..self }
    }

    /// After one completion has arrived. It counts only if somebody still waits for it.
    pub open spec fn completed(self, cqe: Cqe) -> Self {
        let key = key_of(cqe.user_data);
        if self.submissions.contains_key(key) {
            PlatformView {
                io_key_counter: self.io_key_counter,
                submissions: self.submissions.remove(key),
                completions: self.completions.insert(key, cqe.result),
            }
        } else {
            self
        }
    }

    /// The task that one completion wakes, if any.
    pub open spec fn woken_by(self, cqe: Cqe) -> Seq<TaskId> {
        let key = key_of(cqe.user_data);
        if self.submissions.contains_key(key) {
            seq![self.submissions[key]]
        } else {
            Seq::empty()
        }
    }

    /// After completions have arrived, in this order.
    pub open spec fn all_completed(self, cqes: Seq<Cqe>) -> Self
        decreases cqes.len(),
    {
        if cqes.len() == 0 {
            self
        } else {
            self.all_completed(cqes.drop_last()).completed(cqes.last())
        }
    }

    /// The tasks that completions wake, in the order of the completions.
    pub open spec fn all_woken_by(self, cqes: Seq<Cqe>) -> Seq<TaskId>
        decreases cqes.len(),
    {
        if cqes.len() == 0 {
            Seq::empty()
        } else {
            self.all_woken_by(cqes.drop_last()) + self.all_completed(cqes.drop_last()).woken_by(
                cqes.last(),
            )
        }
    }
}

/// What has happened since the last step of [`submit_sqe`].
#[derive(Debug, PartialEq, Eq, Structural)]
pub enum SubmitEvent {
    /// Nothing: this is the first step.
    Started,
    /// The entry was pushed into the submission queue.
    Pushed,
    /// The entry could not be pushed, because the submission queue is full.
    Full,
    /// The submission queue was submitted.
    Submitted,
}

/// What to do next to submit an entry.
#[derive(Debug, PartialEq, Eq, Structural)]
pub enum SubmitAction {
    /// Try and push the entry into the submission queue.
    Push,
    /// Submit the submission queue, to make space in it.
    Submit,
    /// Nothing: it is in the submission queue.
    Return,
}

/// One step of submitting an entry: takes in what has happened, and says what to do next. The
/// entry is pushed; whenever there is no space for it, the queue is submitted, and it is tried
/// again.
pub fn submit_sqe(event: SubmitEvent) -> (action: SubmitAction)
    ensures
        action == match event {
            SubmitEvent::Started => SubmitAction::Push,
            SubmitEvent::Pushed => SubmitAction::Return,
            SubmitEvent::Full => SubmitAction::Submit,
            SubmitEvent::Submitted => SubmitAction::Push,
        },
{
    match event {
        SubmitEvent::Started => SubmitAction::Push,
        SubmitEvent::Pushed => SubmitAction::Return,
        SubmitEvent::Full => SubmitAction::Submit,
        SubmitEvent::Submitted => SubmitAction::Push,
    }
}

/// The IO side of a runtime: which task waits for which operation, and the results that
/// have arrived. The ring itself is driven from outside.
pub struct Platform {
    io_key_counter: u32,
    submissions: IntMap<u32, TaskId>,
    completions: IntMap<u32, i32>,
}

impl View for Platform {
    type V = PlatformView;

    closed spec fn view(&self) -> PlatformView {
        PlatformView {
            io_key_counter: self.io_key_counter,
            submissions: self.submissions@,
            completions: self.completions@,
        }
    }
}

impl Platform {
    fn initial() -> (plat: Self)
        ensures
            plat@ == PlatformView::initial(),
            plat@.wf(),
    {
        Platform {
            io_key_counter: 1,  // keys start from 1 since 0 is reserved for fd close operations
            submissions: IntMap::default(),
            completions: IntMap::default(),
        }
    }

    /// The bookkeeping for a ring that has just been set up, or the error with which setting
    /// it up failed.
    pub fn new(ring: Result<(), InitError>) -> (plat: Result<Self, InitError>)
        ensures
            match ring {
                Ok(_) => plat matches Ok(p) && p@ == PlatformView::initial() && p@.wf(),
                Err(err) => plat matches Err(e) && e == err,
            },
    {
        match ring {
            Ok(_) => Ok(Self::initial()),
            Err(err) => Err(err),
        }
    }

    /// Takes in the completions that a wait has brought, in the order in which the ring gave
    /// them, and appends the tasks that they wake to `wakeups`.
    ///
    /// A completion that nobody waits for is dropped: that of an operation whose future is
    /// gone, of a cancellation, of a close.
    pub fn wait_for_io(&mut self, cqes: &Vec<Cqe>, wakeups: &mut Vec<TaskId>)
        ensures
            final(self)@ == old(self)@.all_completed(cqes@),
            final(wakeups)@ == old(wakeups)@ + old(self)@.all_woken_by(cqes@),
            old(self)@.wf() ==> final(self)@.wf(),
    {
        let ghost before = self@;
        let ghost awake = wakeups@;
        let mut i: usize = 0;

        assert(cqes@.take(0) =~= Seq::<Cqe>::empty());
        assert(wakeups@ =~= awake + before.all_woken_by(cqes@.take(0)));

        while i < cqes.len()
            invariant
                i <= cqes.len(),
                self@ == before.all_completed(cqes@.take(i as int)),
                wakeups@ == awake + before.all_woken_by(cqes@.take(i as int)),
                before.wf() ==> self@.wf(),
            decreases cqes.len() - i,
        {
            let cqe = cqes[i];
            let key: u32 = (cqe.user_data % 0x1_0000_0000) as u32;
            let ghost plat = self@;

            proof {
                assert(cqes@.take(i + 1).drop_last() =~= cqes@.take(i as int));
                assert(cqes@.take(i + 1).last() == cqe);
            }

            if let Some(task_id) = int_map_remove(&mut self.submissions, key) {
                int_map_insert(&mut self.completions, key, cqe.result);
                wakeups.push(task_id);
            } else {
                assert(self@.submissions =~= plat.submissions);
            }

            assert(self@ == plat.completed(cqe));
            assert(wakeups@ =~= awake + before.all_woken_by(cqes@.take(i + 1)));
            i = i + 1;
        }

        assert(cqes@.take(i as int) =~= cqes@);
    }

    /// Forgets all IO: the state of a new [`Platform`]. Whoever drives the ring replaces it
    /// by a new one at the same time, to get rid of the IO that is under way.
    pub fn reset(&mut self)
        ensures
            final(self)@ == PlatformView::initial(),
            final(self)@.wf(),
    {
        *self = Self::initial();
    }

    fn new_io_key(&mut self) -> (key: IoKey)
        ensures
            key == io_key(old(self)@.io_key_counter),
            final(self)@ == (PlatformView {
                io_key_counter: succ(old(self)@.io_key_counter),
                ..old(self)@
            }),
    {
        IoKey::from(take_number(&mut self.io_key_counter))
    }

    /// Records that `task` submits an operation, and returns the key to submit it under.
    pub(crate) fn submit(&mut self, task: TaskId) -> (key: IoKey)
        ensures
            key == io_key(old(self)@.io_key_counter),
            final(self)@ == old(self)@.submitted(task),
            old(self)@.wf() ==> final(self)@.wf() && key.inner != 0,
    {
        let key = self.new_io_key();
        int_map_insert(&mut self.submissions, key.inner, task);
        key
    }

    /// Fetches the result of an operation, if it has arrived.
    pub(crate) fn fetch(&mut self, key: IoKey) -> (result: Option<i32>)
        ensures
            final(self)@ == old(self)@.fetched(key.inner),
            match result {
                Some(res) => old(self)@.completions.contains_key(key.inner)
                    && old(self)@.completions[key.inner] == res,
                None => !old(self)@.completions.contains_key(key.inner),
            },
            old(self)@.wf() ==> final(self)@.wf(),
    {
        int_map_remove(&mut self.completions, key.inner)
    }

    /// Gives an operation up, and returns whether it was under way.
    pub(crate) fn give_up(&mut self, key: IoKey) -> (under_way: bool)
        ensures
            final(self)@ == old(self)@.given_up(key.inner),
            under_way == old(self)@.submissions.contains_key(key.inner),
            old(self)@.wf() ==> final(self)@.wf(),
    {
        int_map_remove(&mut self.submissions, key.inner).is_some()
    }
}

} // verus!
