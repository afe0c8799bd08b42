//! The outbound message queue: a FIFO queue with an exact sequential
//! model, and a shared handle that serialises access to it through a lock.
use std::collections::VecDeque;
use vstd::prelude::*;
use vstd::rwlock::{RwLock, RwLockPredicate};

verus! {

/// A first-in first-out queue. Its view is the sequence of queued items,
/// head first. Threads share it through a `SharedQueue`.
pub struct MessageQueue<T> {
    items: VecDeque<T>,
}

impl<T> View for MessageQueue<T> {
    type V = Seq<T>;

    closed spec fn view(&self) -> Seq<T> {
        self.items@
    }
}

/// What `pop` does to a queue whose contents are `q`: the head, if any,
/// and the contents left behind.
pub open spec fn pop_spec<T>(q: Seq<T>) -> (Option<T>, Seq<T>) {
    if q.len() == 0 {
        (None, q)
    } else {
        (Some(q[0]), q.drop_first())
    }
}

/// The contents after pushing each of `xs`, in order, onto `q`.
pub open spec fn push_all<T>(q: Seq<T>, xs: Seq<T>) -> Seq<T>
    decreases xs.len(),
{
    if xs.len() == 0 {
        q
    } else {
        push_all(q.push(xs[0]), xs.drop_first())
    }
}

/// The items that repeated `pop` calls hand out until the queue reports
/// that it is empty.
pub open spec fn drain_all<T>(q: Seq<T>) -> Seq<T>
    decreases q.len(),
{
    match pop_spec(q).0 {
        Some(x) => seq![x] + drain_all(pop_spec(q).1),
        None => Seq::empty(),
    }
}

impl<T> MessageQueue<T> {
    pub fn new() -> (r: Self)
        ensures
            r@ == Seq::<T>::empty(),
    {
        MessageQueue { items: VecDeque::new() }
    }

    /// Appends `item` at the tail.
    pub fn push(&mut self, item: T)
        ensures
            final(self)@ == old(self)@.push(item),
    {
        self.items.push_back(item);
    }

    /// Removes and returns the head, or `None` without waiting when the
    /// buffer is empty.
    pub fn pop(&mut self) -> (r: Option<T>)
        ensures
            (r, final(self)@) == pop_spec(old(self)@),
    {
        let r = self.items.pop_front();
        proof {
            if old(self)@.len() > 0 {
                assert(self@ =~= old(self)@.drop_first());
            }
        }
        r
    }

    pub fn len(&self) -> (r: usize)
        ensures
            r == self@.len(),
    {
        self.items.len()
    }
}

/// Pushing a sequence onto `q` appends it.
pub proof fn lemma_push_all<T>(q: Seq<T>, xs: Seq<T>)
    ensures
        push_all(q, xs) == q + xs,
    decreases xs.len(),
{
    if xs.len() > 0 {
        lemma_push_all(q.push(xs[0]), xs.drop_first());
        assert(q.push(xs[0]) + xs.drop_first() =~= q + xs);
    } else {
        assert(q + xs =~= q);
    }
}

/// Draining hands out exactly the queued items, head first.
pub proof fn lemma_drain_all<T>(q: Seq<T>)
    ensures
        drain_all(q) == q,
    decreases q.len(),
{
    if q.len() > 0 {
        lemma_drain_all(q.drop_first());
        assert(seq![q[0]] + q.drop_first() =~= q);
    } else {
        assert(q =~= Seq::<T>::empty());
    }
}

/// Items pushed onto an empty `MessageQueue`, whatever producers they come
/// from and however those interleave, are handed out by repeated `pop`
/// exactly once each, in the order of the pushes; so each producer's items
/// come out in that producer's own order.
pub proof fn lemma_fifo_delivery<T>(pushes: Seq<T>, producer: spec_fn(T) -> bool)
    ensures
        drain_all(push_all(Seq::empty(), pushes)) == pushes,
        drain_all(push_all(Seq::empty(), pushes)).filter(producer) == pushes.filter(producer),
{
    lemma_push_all(Seq::<T>::empty(), pushes);
    assert(Seq::<T>::empty() + pushes =~= pushes);
    lemma_drain_all(pushes);
}

/// An empty queue answers `pop` with `None` and stays empty.
pub proof fn lemma_pop_empty<T>()
    ensures
        pop_spec(Seq::<T>::empty()) == (Option::<T>::None, Seq::<T>::empty()),
{
}

/// The lock's invariant on the queue it guards: any queue is admitted.
pub struct AnyQueue;

impl<T> RwLockPredicate<MessageQueue<T>> for AnyQueue {
    open spec fn inv(self, v: MessageQueue<T>) -> bool {
        true
    }
}

/// A handle through which any number of threads push to and pop from one
/// `MessageQueue`. Each call holds the lock for one queue operation, so
/// calls are serialised and none waits for data. What a `pop` returns
/// depends on what other threads did before it, so it is stated only of
/// the queue inside the lock, by `MessageQueue`'s contracts.
pub struct SharedQueue<T> {
    inner: RwLock<MessageQueue<T>, AnyQueue>,
}

impl<T> SharedQueue<T> {
    pub fn new() -> (r: Self) {
        SharedQueue { inner: RwLock::new(MessageQueue::new(), Ghost(AnyQueue)) }
    }

    /// Appends `item` at the tail of the shared queue.
    pub fn push(&self, item: T) {
        let (mut q, handle) = self.inner.acquire_write();
        q.push(item);
        handle.release_write(q);
    }

    /// Removes and returns the head of the shared queue, or `None` when it
    /// is empty; it never waits for an item to arrive.
    pub fn pop(&self) -> (r: Option<T>) {
        let (mut q, handle) = self.inner.acquire_write();
        let r = q.pop();
        handle.release_write(q);
        r
    }
}

} // verus!
