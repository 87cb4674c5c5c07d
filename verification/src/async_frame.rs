//! The interest pool: registration slots that suspended operations write a
//! resumption handle into, and that a driver drains once per tick.

use std::task::Waker;
use vstd::prelude::*;

verus! {

/// `std::task::Waker`, carried through as an opaque value.
#[verifier::external_type_specification]
#[verifier::external_body]
pub struct ExWaker(Waker);

/// Calls `Waker::wake_by_ref`, which asks the executor to poll the task the
/// handle belongs to. Nothing is claimed about its effect.
#[verifier::external_body]
fn wake_by_ref(waker: &Waker) {
    waker.wake_by_ref();
}

/// Calls `Waker::clone`. Nothing is claimed about the copy.
#[verifier::external_body]
fn clone_waker(waker: &Waker) -> Waker {
    waker.clone()
}

/// A handle to one registration slot of a [`PollingPool`].
pub struct FrameBlocker {
    slot: usize,
}

impl FrameBlocker {
    /// The index of the slot this handle refers to.
    pub closed spec fn slot(&self) -> int {
        self.slot as int
    }

    /// A fresh suspension point on this handle's slot. Evaluating it once
    /// suspends; evaluating it again completes.
    pub fn yield_control(&self) -> (point: YieldLater)
        ensures
            !point.has_yielded(),
            point.slot() == self.slot(),
    {
        YieldLater::new(self)
    }

    /// One pass of a wait on this handle for a condition that was just
    /// checked: done with `event` if the condition holds, else suspended at a
    /// fresh suspension point, which registers `waker` in the slot.
    pub fn wait_until<E>(
        &self,
        condition: bool,
        event: E,
        pool: &mut PollingPool,
        waker: &Waker,
    ) -> (outcome: Poll<E>)
        requires
            old(pool).owns(self),
        ensures
            outcome == ready_if(condition, event),
            final(pool)@ == if condition {
                old(pool)@
            } else {
                old(pool)@.update(self.slot(), true)
            },
            final(pool).resumed() == old(pool).resumed(),
    {
        if condition {
            Poll::Ready(event)
        } else {
            let mut point = self.yield_control();
            point.poll(pool, waker);
            Poll::Pending
        }
    }
}

/// A pool of registration slots. Each slot holds at most one pending
/// resumption handle.
pub struct PollingPool {
    children: Vec<Option<Waker>>,
    resumed: Ghost<Seq<int>>,
}

/// The indices of the filled slots among `slots`, in rising order.
pub open spec fn filled_slots(slots: Seq<bool>) -> Seq<int>
    decreases slots.len(),
{
    if slots.len() == 0 {
        Seq::empty()
    } else if slots.last() {
        filled_slots(slots.drop_last()).push(slots.len() - 1)
    } else {
        filled_slots(slots.drop_last())
    }
}

/// No slot of a drained pool is filled, so draining it again resumes
/// nothing.
pub proof fn lemma_drained_has_none_filled(slots: nat)
    ensures
        filled_slots(Seq::new(slots, |i: int| false)) == Seq::<int>::empty(),
    decreases slots,
{
    if slots > 0 {
        assert(Seq::new(slots, |i: int| false).drop_last() =~= Seq::new(
            (slots - 1) as nat,
            |i: int| false,
        ));
        lemma_drained_has_none_filled((slots - 1) as nat);
    }
}

impl View for PollingPool {
    type V = Seq<bool>;

    /// For each slot, whether it holds a pending resumption handle.
    closed spec fn view(&self) -> Seq<bool> {
        Seq::new(self.children@.len(), |i: int| self.children@[i].is_some())
    }
}

impl Default for PollingPool {
    /// A pool without slots.
    fn default() -> (pool: PollingPool)
        ensures
            pool@ == Seq::<bool>::empty(),
            pool.resumed() == Seq::<int>::empty(),
    {
        PollingPool::new()
    }
}

impl PollingPool {
    /// Whether `blocker` refers to a slot of this pool.
    pub open spec fn owns(&self, blocker: &FrameBlocker) -> bool {
        0 <= blocker.slot() < self@.len()
    }

    /// The slots whose handle the pool has invoked so far, one entry for each
    /// invocation, in the order of the invocations.
    pub closed spec fn resumed(&self) -> Seq<int> {
        self.resumed@
    }

    /// A pool without slots.
    pub fn new() -> (pool: PollingPool)
        ensures
            pool@ == Seq::<bool>::empty(),
            pool.resumed() == Seq::<int>::empty(),
    {
        let pool = PollingPool { children: Vec::new(), resumed: Ghost(Seq::empty()) };
        assert(pool@ =~= Seq::<bool>::empty());
        pool
    }

    /// Returns true if `blocker` refers to a slot of this pool.
    pub fn has_slot(&self, blocker: &FrameBlocker) -> (owned: bool)
        ensures
            owned == self.owns(blocker),
    {
        blocker.slot < self.children.len()
    }

    /// Adds a fresh, empty slot and returns the handle bound to it.
    pub fn new_blocker(&mut self) -> (blocker: FrameBlocker)
        ensures
            final(self)@ == old(self)@.push(false),
            final(self).resumed() == old(self).resumed(),
            blocker.slot() == old(self)@.len(),
    {
        let slot = self.children.len();
        self.children.push(None);
        assert(self@ =~= old(self)@.push(false));
        FrameBlocker { slot }
    }

    /// Resumes every slot that holds a pending handle, and clears it: each
    /// filled slot's handle is taken out and invoked once, in the order of the
    /// slots, and no other handle is invoked.
    pub fn wake_children(&mut self)
        ensures
            final(self)@ == Seq::new(old(self)@.len(), |i: int| false),
            final(self).resumed() == old(self).resumed() + filled_slots(old(self)@),
    {
        let n = self.children.len();
        let mut i: usize = 0;
        assert(old(self)@.take(0) =~= Seq::<bool>::empty());
        assert(self.resumed() =~= old(self).resumed() + filled_slots(old(self)@.take(0)));
        while i < n
            invariant
                i <= n,
                n == self.children@.len(),
                n == old(self)@.len(),
                forall|j: int| 0 <= j < i ==> self.children@[j].is_none(),
                forall|j: int| i <= j < n ==> self.children@[j].is_some() == old(self)@[j],
                self.resumed() == old(self).resumed() + filled_slots(old(self)@.take(i as int)),
            decreases n - i,
        {
            let taken = self.children[i].take();
            proof {
                let upto = old(self)@.take(i + 1);
                assert(upto.drop_last() =~= old(self)@.take(i as int));
                assert(upto.last() == old(self)@[i as int]);
            }
            if let Some(waker) = taken {
                wake_by_ref(&waker);
                proof {
                    self.resumed@ = self.resumed@.push(i as int);
                    assert(self.resumed() =~= old(self).resumed() + filled_slots(
                        old(self)@.take(i + 1),
                    ));
                }
            }
            i += 1;
        }
        assert(old(self)@.take(n as int) =~= old(self)@);
        assert(self@ =~= Seq::new(old(self)@.len(), |i: int| false));
    }
}

/// Whether an operation has finished, and with what.
#[derive(Debug, PartialEq, Eq)]
pub enum Poll<T> {
    Ready(T),
    Pending,
}

/// A wait whose condition holds is ready with its event; any other is pending.
pub open spec fn ready_if<T>(condition: bool, value: T) -> Poll<T> {
    if condition {
        Poll::Ready(value)
    } else {
        Poll::Pending
    }
}

impl<T> Poll<T> {
    /// Returns true if the operation is still pending.
    pub fn is_pending(&self) -> (pending: bool)
        ensures
            pending == (self is Pending),
    {
        match self {
            Poll::Ready(_) => false,
            Poll::Pending => true,
        }
    }

    /// Returns true if the operation has finished.
    pub fn is_ready(&self) -> (ready: bool)
        ensures
            ready == (self is Ready),
    {
        match self {
            Poll::Ready(_) => true,
            Poll::Pending => false,
        }
    }
}

/// A one-shot suspension point bound to one slot: it suspends exactly once,
/// then completes.
pub struct YieldLater {
    has_yielded: bool,
    slot: usize,
}

impl YieldLater {
    /// Whether the point has been evaluated before.
    pub closed spec fn has_yielded(&self) -> bool {
        self.has_yielded
    }

    /// The index of the slot the point registers in.
    pub closed spec fn slot(&self) -> int {
        self.slot as int
    }

    /// A suspension point on the slot of `blocker` that has not been
    /// evaluated yet.
    pub fn new(blocker: &FrameBlocker) -> (point: YieldLater)
        ensures
            !point.has_yielded(),
            point.slot() == blocker.slot(),
    {
        YieldLater { has_yielded: false, slot: blocker.slot }
    }

    /// Returns true if the point's slot is a slot of `pool`.
    pub fn fits(&self, pool: &PollingPool) -> (fits: bool)
        ensures
            fits == (0 <= self.slot() < pool@.len()),
    {
        self.slot < pool.children.len()
    }

    /// Evaluates the point. The first evaluation stores a copy of `waker` in
    /// the slot, replacing whatever was there, and reports `Pending`; every
    /// later one reports `Ready` and leaves the pool alone.
    pub fn poll(&mut self, pool: &mut PollingPool, waker: &Waker) -> (outcome: Poll<()>)
        requires
            0 <= old(self).slot() < old(pool)@.len(),
        ensures
            final(self).has_yielded(),
            final(self).slot() == old(self).slot(),
            old(self).has_yielded() ==> outcome == Poll::Ready(()) && final(pool)@ == old(pool)@,
            !old(self).has_yielded() ==> outcome == Poll::<()>::Pending && final(pool)@
                == old(pool)@.update(old(self).slot(), true),
            final(pool).resumed() == old(pool).resumed(),
    {
        if self.has_yielded {
            Poll::Ready(())
        } else {
            self.has_yielded = true;
            pool.children.set(self.slot, Some(clone_waker(waker)));
            assert(pool@ =~= old(pool)@.update(old(self).slot(), true));
            Poll::Pending
        }
    }
}

} // verus!
