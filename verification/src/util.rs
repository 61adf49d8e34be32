//! Combining futures.
//!
//! A future is given here by a closure that polls it once. Where a contract asks for the
//! closure's precondition only in some cases, the future is polled only in those.
use vstd::prelude::*;

use crate::task::Poll;

verus! {

/// What is known of a future's output after it has been polled, if it still had to be:
/// `after` is `before` where that is there already, and else what the poll gave.
pub open spec fn polled<T, F: FnOnce() -> Poll<T>>(
    before: Option<T>,
    fut: F,
    after: Option<T>,
) -> bool {
    match before {
        Some(_) => after == before,
        None => match after {
            Some(out) => fut.ensures((), Poll::Ready(out)),
            None => fut.ensures((), Poll::Pending),
        },
    }
}

/// Like [`polled`], for a future that can fail and did not.
pub open spec fn polled_ok<T, E, F: FnOnce() -> Poll<Result<T, E>>>(
    before: Option<T>,
    fut: F,
    after: Option<T>,
) -> bool {
    match before {
        Some(_) => after == before,
        None => match after {
            Some(out) => fut.ensures((), Poll::Ready(Ok(out))),
            None => fut.ensures((), Poll::Pending),
        },
    }
}

/// Polls two futures for the output of the one that completes first. `fut2` is polled only if
/// `fut1` is pending: if both are ready, the output is that of `fut1`.
pub fn or<T, F1: FnOnce() -> Poll<T>, F2: FnOnce() -> Poll<T>>(fut1: F1, fut2: F2) -> (poll: Poll<
    T,
>)
    requires
        fut1.requires(()),
        fut1.ensures((), Poll::Pending) ==> fut2.requires(()),
    ensures
        (poll is Ready && fut1.ensures((), poll)) || (fut1.ensures((), Poll::Pending)
            && fut2.ensures((), poll)),
{
    match fut1() {
        Poll::Ready(t) => Poll::Ready(t),
        Poll::Pending => fut2(),
    }
}

/// Joins two futures: waits for both to complete. Holds the output of the one that completed
/// first until the other has completed too.
#[derive(Debug)]
pub struct Zip<T1, T2> {
    out1: Option<T1>,
    out2: Option<T2>,
}

impl<T1, T2> Zip<T1, T2> {
    /// The output of the first future, if it alone has completed.
    pub closed spec fn first(&self) -> Option<T1> {
        self.out1
    }

    /// The output of the second future, if it alone has completed.
    pub closed spec fn second(&self) -> Option<T2> {
        self.out2
    }

    /// Polls the futures that have not completed, `fut1` before `fut2`. Once both have, their
    /// outputs are handed out.
    pub fn poll<F1: FnOnce() -> Poll<T1>, F2: FnOnce() -> Poll<T2>>(
        &mut self,
        fut1: F1,
        fut2: F2,
    ) -> (poll: Poll<(T1, T2)>)
        requires
            old(self).first() is None ==> fut1.requires(()),
            forall|out1: Option<T1>|
                old(self).second() is None && #[trigger] polled(old(self).first(), fut1, out1)
                    ==> fut2.requires(()),
        ensures
            match poll {
                Poll::Ready((t1, t2)) => {
                    &&& polled(old(self).first(), fut1, Some(t1))
                    &&& polled(old(self).second(), fut2, Some(t2))
                    &&& final(self).first() is None
                    &&& final(self).second() is None
                },
                Poll::Pending => {
                    &&& polled(old(self).first(), fut1, final(self).first())
                    &&& polled(old(self).second(), fut2, final(self).second())
                    &&& final(self).first() is None || final(self).second() is None
                },
            },
    {
        if self.out1.is_none() {
            if let Poll::Ready(out) = fut1() {
                self.out1 = Some(out);
            }
        }
        assert(polled(old(self).first(), fut1, self.first()));
        if self.out2.is_none() {
            if let Poll::Ready(out) = fut2() {
                self.out2 = Some(out);
            }
        }
        assert(polled(old(self).second(), fut2, self.second()));

        match (self.out1.take(), self.out2.take()) {
            (Some(t1), Some(t2)) => Poll::Ready((t1, t2)),
            (out1, out2) => {
                self.out1 = out1;
                self.out2 = out2;
                Poll::Pending
            },
        }
    }
}

/// Joins two futures, neither of which has been polled.
pub fn zip<T1, T2>() -> (zip: Zip<T1, T2>)
    ensures
        zip.first() is None,
        zip.second() is None,
{
    Zip { out1: None, out2: None }
}

/// What a future that is being joined has given, from one poll to the next: at first nothing,
/// then what `polls[i]`, which polls it, made of it.
pub open spec fn is_history<T, F: FnOnce() -> Poll<T>>(
    polls: Seq<F>,
    outs: Seq<Option<T>>,
) -> bool {
    &&& outs.len() == polls.len() + 1
    &&& outs[0] is None
    &&& forall|i: int| 0 <= i < polls.len() ==> #[trigger] polled(outs[i], polls[i], outs[i + 1])
}

/// The `k`-th poll of a future is the first that gave its output.
pub open spec fn completes_at<T, F: FnOnce() -> Poll<T>>(polls: Seq<F>, out: T, k: int) -> bool {
    &&& 0 <= k < polls.len()
    &&& polls[k].ensures((), Poll::Ready(out))
    &&& forall|i: int| 0 <= i < k ==> (#[trigger] polls[i]).ensures((), Poll::Pending)
}

proof fn lemma_completes<T, F: FnOnce() -> Poll<T>>(polls: Seq<F>, outs: Seq<Option<T>>) -> (k: int)
    requires
        is_history(polls, outs),
        outs.last() is Some,
    ensures
        completes_at(polls, outs.last()->0, k),
        outs[k] is None,
        forall|i: int| k < i < outs.len() ==> #[trigger] outs[i] == outs.last(),
    decreases polls.len(),
{
    let n = polls.len() - 1;
    assert(polled(outs[n], polls[n], outs[n + 1]));
    if outs[n] is Some {
        let (before, given) = (polls.drop_last(), outs.drop_last());
        assert forall|i: int| 0 <= i < before.len() implies #[trigger] polled(
            given[i],
            before[i],
            given[i + 1],
        ) by {
            assert(polled(outs[i], polls[i], outs[i + 1]));
        }
        let k = lemma_completes(before, given);
        assert forall|i: int| 0 <= i < k implies (#[trigger] polls[i]).ensures(
            (),
            Poll::Pending,
        ) by {
            assert(before[i] == polls[i]);
        }
        assert forall|i: int| k < i < outs.len() implies #[trigger] outs[i] == outs.last() by {
            if i < n + 1 {
                assert(given[i] == given.last());
            }
        }
        k
    } else {
        assert forall|i: int| 0 <= i < n implies (#[trigger] polls[i]).ensures(
            (),
            Poll::Pending,
        ) by {
            lemma_nothing_before(polls, outs, i, n);
        }
        n
    }
}

proof fn lemma_nothing_before<T, F: FnOnce() -> Poll<T>>(
    polls: Seq<F>,
    outs: Seq<Option<T>>,
    i: int,
    n: int,
)
    requires
        is_history(polls, outs),
        0 <= i < n < outs.len(),
        outs[n] is None,
    ensures
        polls[i].ensures((), Poll::Pending),
        outs[i] is None,
    decreases n - i,
{
    assert(polled(outs[i], polls[i], outs[i + 1]));
    if i + 1 < n {
        lemma_nothing_before(polls, outs, i + 1, n);
    }
}

/// Joining two futures, over all the polls of a join: if after the last one both outputs are
/// there and before it they were not, then each output is what the first ready poll of its
/// future gave, all polls of that future before were pending, and the later of the two is the
/// last poll of the join.
pub proof fn law_joins_first_ready_polls<
    T1,
    T2,
    F1: FnOnce() -> Poll<T1>,
    F2: FnOnce() -> Poll<T2>,
>(polls1: Seq<F1>, polls2: Seq<F2>, outs1: Seq<Option<T1>>, outs2: Seq<Option<T2>>)
    requires
        polls1.len() == polls2.len(),
        is_history(polls1, outs1),
        is_history(polls2, outs2),
        outs1.last() is Some,
        outs2.last() is Some,
        forall|i: int|
            0 <= i < polls1.len() ==> (#[trigger] outs1[i]) is None || outs2[i] is None,
    ensures
        exists|k1: int, k2: int|
            {
                &&& #[trigger] completes_at(polls1, outs1.last()->0, k1)
                &&& #[trigger] completes_at(polls2, outs2.last()->0, k2)
                &&& k1 == polls1.len() - 1 || k2 == polls1.len() - 1
            },
{
    let k1 = lemma_completes(polls1, outs1);
    let k2 = lemma_completes(polls2, outs2);
    let n = polls1.len() - 1;
    assert(outs1[n] is None || outs2[n] is None);
}

/// Joins two fallible futures: waits for both to complete, or one of them to fail. Holds the
/// output of the one that completed first until the other has completed too.
#[derive(Debug)]
pub struct TryZip<T1, T2> {
    out1: Option<T1>,
    out2: Option<T2>,
}

impl<T1, T2> TryZip<T1, T2> {
    /// The output of the first future, if it alone has completed.
    pub closed spec fn first(&self) -> Option<T1> {
        self.out1
    }

    /// The output of the second future, if it alone has completed.
    pub closed spec fn second(&self) -> Option<T2> {
        self.out2
    }

    /// Polls the futures that have not completed. If one of them fails, its error is handed
    /// out, and `fut2` is not polled after `fut1` has failed. Once both have completed, their
    /// outputs are handed out.
    pub fn poll<E, F1: FnOnce() -> Poll<Result<T1, E>>, F2: FnOnce() -> Poll<Result<T2, E>>>(
        &mut self,
        fut1: F1,
        fut2: F2,
    ) -> (poll: Poll<Result<(T1, T2), E>>)
        requires
            old(self).first() is None ==> fut1.requires(()),
            forall|out1: Option<T1>|
                old(self).second() is None && #[trigger] polled_ok(old(self).first(), fut1, out1)
                    ==> fut2.requires(()),
        ensures
            match poll {
                Poll::Ready(Err(err)) => {
                    ||| {
                        &&& old(self).first() is None
                        &&& fut1.ensures((), Poll::Ready(Err(err)))
                        &&& *final(self) == *old(self)
                    }
                    ||| {
                        &&& polled_ok(old(self).first(), fut1, final(self).first())
                        &&& old(self).second() is None
                        &&& fut2.ensures((), Poll::Ready(Err(err)))
                        &&& final(self).second() is None
                    }
                },
                Poll::Ready(Ok((t1, t2))) => {
                    &&& polled_ok(old(self).first(), fut1, Some(t1))
                    &&& polled_ok(old(self).second(), fut2, Some(t2))
                    &&& final(self).first() is None
                    &&& final(self).second() is None
                },
                Poll::Pending => {
                    &&& polled_ok(old(self).first(), fut1, final(self).first())
                    &&& polled_ok(old(self).second(), fut2, final(self).second())
                    &&& final(self).first() is None || final(self).second() is None
                },
            },
    {
        if self.out1.is_none() {
            if let Poll::Ready(out) = fut1() {
                match out {
                    Ok(t) => self.out1 = Some(t),
                    Err(err) => return Poll::Ready(Err(err)),
                }
            }
        }
        assert(polled_ok(old(self).first(), fut1, self.first()));
        if self.out2.is_none() {
            if let Poll::Ready(out) = fut2() {
                match out {
                    Ok(t) => self.out2 = Some(t),
                    Err(err) => return Poll::Ready(Err(err)),
                }
            }
        }
        assert(polled_ok(old(self).second(), fut2, self.second()));

        match (self.out1.take(), self.out2.take()) {
            (Some(t1), Some(t2)) => Poll::Ready(Ok((t1, t2))),
            (out1, out2) => {
                self.out1 = out1;
                self.out2 = out2;
                Poll::Pending
            },
        }
    }
}

/// Joins two fallible futures, neither of which has been polled.
pub fn try_zip<T1, T2>() -> (zip: TryZip<T1, T2>)
    ensures
        zip.first() is None,
        zip.second() is None,
{
    TryZip { out1: None, out2: None }
}

/// A future that is being joined is asked for its output as long as that is not there, and its
/// output is what it gave; once there it stays.
pub proof fn law_output_is_what_the_future_gave<T, F: FnOnce() -> Poll<T>>(fut: F, out: T, other: T)
    ensures
        polled(None, fut, Some(out)) <==> fut.ensures((), Poll::Ready(out)),
        polled(None, fut, None::<T>) <==> fut.ensures((), Poll::Pending),
        polled(Some(out), fut, Some(out)),
        polled(Some(out), fut, Some(other)) ==> other == out,
        !polled(Some(out), fut, None),
{
}

/// Likewise for a future that can fail: what it gave is its output where it did not.
pub proof fn law_output_is_what_the_fallible_future_gave<
    T,
    E,
    F: FnOnce() -> Poll<Result<T, E>>,
>(fut: F, out: T, other: T)
    ensures
        polled_ok(None, fut, Some(out)) <==> fut.ensures((), Poll::Ready(Ok(out))),
        polled_ok(None, fut, None::<T>) <==> fut.ensures((), Poll::Pending),
        polled_ok(Some(out), fut, Some(out)),
        polled_ok(Some(out), fut, Some(other)) ==> other == out,
        !polled_ok(Some(out), fut, None),
{
}

} // verus!
