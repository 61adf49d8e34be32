//! Handles to spawned tasks.
use std::marker::PhantomData;

use vstd::prelude::*;

use crate::key::TaskId;
use crate::runtime::{Runtime, RuntimeView};
use crate::task::Poll;

verus! {

/// What a [`JoinHandle`] knows.
pub struct JoinHandleView {
    /// The number of the task.
    pub id: u32,
    /// Whether the handle has already asked for a wakeup.
    pub registered: bool,
}

/// A handle to a spawned task, with which to wait for the task to complete and obtain its
/// result.
///
/// The task runs whether or not anybody waits for it. If the handle is dropped, the task
/// goes on and its result is lost.
pub struct JoinHandle<T> {
    id: TaskId,
    registered: bool,
    phantom: PhantomData<T>,
}

impl<T> View for JoinHandle<T> {
    type V = JoinHandleView;

    closed spec fn view(&self) -> JoinHandleView {
        JoinHandleView { id: self.id.inner, registered: self.registered }
    }
}

impl<T> JoinHandle<T> {
    /// The handle to the task with this id.
    pub fn new(id: TaskId) -> (handle: Self)
        ensures
            handle@ == (JoinHandleView { id: id.inner, registered: false }),
    {
        JoinHandle { id, registered: false, phantom: PhantomData }
    }

    /// The id of the task.
    pub fn id(&self) -> (id: TaskId)
        ensures
            id.inner == self@.id,
    {
        self.id
    }

    /// Looks whether the task has finished. If it has, its result is handed out, and the
    /// runtime forgets the handle. If not, the first such look has the current task woken up
    /// when it does.
    pub fn poll<K, R>(&mut self, rt: &mut Runtime<K, R>) -> (poll: Poll<R>)
        requires
            old(rt)@.join_handles.contains_key(old(self)@.id),
        ensures
            final(self)@.id == old(self)@.id,
            match old(rt)@.join_handles[old(self)@.id].result {
                Some(res) => {
                    &&& poll == Poll::Ready(res)
                    &&& final(rt)@ == old(rt)@.handle_dropped(old(self)@.id)
                    &&& final(self)@.registered == old(self)@.registered
                },
                None => {
                    &&& poll == Poll::<R>::Pending
                    &&& final(rt)@ == (if old(self)@.registered {
                        old(rt)@
                    } else {
                        old(rt)@.registered(old(self)@.id)
                    })
                    &&& final(self)@.registered
                },
            },
            old(rt)@.wf() ==> final(rt)@.wf(),
    {
        match rt.pop_join_handle_result(self.id) {
            Some(res) => Poll::Ready(res),
            None => {
                if !self.registered {
                    rt.register_join_handle_wakeup(self.id);
                    self.registered = true;
                }
                Poll::Pending
            },
        }
    }

    /// Gives the handle up: the runtime forgets it.
    pub fn drop<K, R>(&mut self, rt: &mut Runtime<K, R>)
        ensures
            final(rt)@ == old(rt)@.handle_dropped(old(self)@.id),
            final(self)@ == old(self)@,
            old(rt)@.wf() ==> final(rt)@.wf(),
    {
        rt.drop_join_handle(self.id);
    }
}

} // verus!
