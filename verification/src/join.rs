//! The combinator that runs several suspendable computations as one task.
//!
//! A join keeps one slot per child.  In each round the caller polls the
//! children that `pending_children` lists, each once, and records every
//! outcome; `poll` then says whether the join as a whole has completed.
use crate::step::{Step, Wakeup};
use crate::timers::sleeper_step;
use vstd::prelude::*;

verus! {

/// The slots of `children` computations, none of which has completed.
pub open spec fn unstarted<T>(children: nat) -> Seq<Option<T>> {
    Seq::new(children, |i: int| None::<T>)
}

/// The children that have not completed, in ascending order.
pub open spec fn pending<T>(slots: Seq<Option<T>>) -> Seq<usize>
    decreases slots.len(),
{
    if slots.len() == 0 {
        Seq::empty()
    } else if slots.last() is None {
        pending(slots.drop_last()).push((slots.len() - 1) as usize)
    } else {
        pending(slots.drop_last())
    }
}

/// The slots after `child` was polled with outcome `step`: a completed child
/// leaves its value in its slot, a pending one leaves the slots as they were.
pub open spec fn recorded<T>(slots: Seq<Option<T>>, child: int, step: Step<T>) -> Seq<Option<T>> {
    match step {
        Step::Completed(value) => slots.update(child, Some(value)),
        Step::Pending(_) => slots,
    }
}

/// Every child has completed.
pub open spec fn joined<T>(slots: Seq<Option<T>>) -> bool {
    forall|i: int| 0 <= i < slots.len() ==> (#[trigger] slots[i]) is Some
}

/// The children's values, in the order of the children.
pub open spec fn results<T>(slots: Seq<Option<T>>) -> Seq<T> {
    Seq::new(slots.len(), |i: int| slots[i]->0)
}

/// `pending` lists exactly the children that have not completed, each once
/// and in ascending order.
pub proof fn lemma_pending_lists_each_once<T>(slots: Seq<Option<T>>)
    requires
        slots.len() <= usize::MAX,
    ensures
        pending(slots).len() <= slots.len(),
        forall|k: int|
            0 <= k < pending(slots).len() ==> (#[trigger] pending(slots)[k]) < slots.len()
                && slots[pending(slots)[k] as int] is None,
        forall|j: int, k: int|
            0 <= j < k < pending(slots).len() ==> pending(slots)[j] < pending(slots)[k],
        forall|i: int|
            0 <= i < slots.len() && (#[trigger] slots[i]) is None ==> pending(slots).contains(
                i as usize,
            ),
        joined(slots) <==> pending(slots).len() == 0,
    decreases slots.len(),
{
    if slots.len() > 0 {
        let front = slots.drop_last();
        let last = slots.len() - 1;
        lemma_pending_lists_each_once(front);
        assert forall|i: int| 0 <= i < slots.len() && (#[trigger] slots[i]) is None implies pending(
            slots,
        ).contains(i as usize) by {
            if i < last {
                assert(front[i] is None);
                let k = choose|k: int|
                    0 <= k < pending(front).len() && pending(front)[k] == i as usize;
                assert(pending(slots)[k] == i as usize);
            } else {
                assert(pending(slots)[pending(slots).len() - 1] == last as usize);
            }
        }
        if joined(slots) {
            assert forall|i: int| 0 <= i < front.len() implies (#[trigger] front[i]) is Some by {
                assert(slots[i] is Some);
            }
        }
        if pending(slots).len() == 0 {
            assert(joined(front));
            assert forall|i: int| 0 <= i < slots.len() implies (#[trigger] slots[i]) is Some by {
                if i < last {
                    assert(front[i] is Some);
                }
            }
        }
    }
}

/// The state of a join over computations that all yield a `T`.
pub struct Join<T> {
    slots: Vec<Option<T>>,
}

impl<T> Join<T> {
    /// One slot per child: its value once it has completed.
    pub closed spec fn view(&self) -> Seq<Option<T>> {
        self.slots@
    }

    /// A join over `children` computations, none of them polled yet.
    pub fn new(children: usize) -> (join: Self)
        ensures
            join@ == unstarted::<T>(children as nat),
    {
        let mut slots: Vec<Option<T>> = Vec::new();
        let mut i: usize = 0;
        while i < children
            invariant
                i <= children,
                slots@ == unstarted::<T>(i as nat),
            decreases children - i,
        {
            slots.push(None);
            i = i + 1;
            assert(slots@ =~= unstarted::<T>(i as nat));
        }
        Join { slots }
    }

    /// Number of children.
    pub fn len(&self) -> (n: usize)
        ensures
            n == self@.len(),
    {
        self.slots.len()
    }

    /// Whether `child` has completed.
    pub fn is_done(&self, child: usize) -> (done: bool)
        requires
            child < self@.len(),
        ensures
            done == self@[child as int] is Some,
    {
        self.slots[child].is_some()
    }

    /// The children to poll in the coming round: those that have not
    /// completed, each once, in ascending order.  A child that completes
    /// during the round is not polled again in it, and the others are polled
    /// whatever happens to the children before them.
    pub fn pending_children(&self) -> (children: Vec<usize>)
        ensures
            children@ == pending(self@),
    {
        let mut children: Vec<usize> = Vec::new();
        let mut i: usize = 0;
        assert(self.slots@.subrange(0, 0) =~= Seq::<Option<T>>::empty());
        while i < self.slots.len()
            invariant
                i <= self.slots@.len(),
                children@ == pending(self.slots@.subrange(0, i as int)),
            decreases self.slots@.len() - i,
        {
            assert(self.slots@.subrange(0, i + 1).drop_last() =~= self.slots@.subrange(
                0,
                i as int,
            ));
            if self.slots[i].is_none() {
                children.push(i);
            }
            i = i + 1;
        }
        assert(self.slots@.subrange(0, i as int) =~= self.slots@);
        children
    }

    /// Records the outcome of polling `child`, which must be one that has not
    /// completed: a completed computation is never polled again.
    pub fn record(&mut self, child: usize, step: Step<T>)
        requires
            child < old(self)@.len(),
            old(self)@[child as int] is None,
        ensures
            final(self)@ == recorded(old(self)@, child as int, step),
    {
        match step {
            Step::Completed(value) => {
                self.slots.set(child, Some(value));
            },
            Step::Pending(_) => {},
        }
    }

    /// Whether every child has completed.
    pub fn is_joined(&self) -> (done: bool)
        ensures
            done == joined(self@),
    {
        let mut i: usize = 0;
        while i < self.slots.len()
            invariant
                i <= self.slots@.len(),
                forall|j: int| 0 <= j < i ==> (#[trigger] self.slots@[j]) is Some,
            decreases self.slots@.len() - i,
        {
            if self.slots[i].is_none() {
                return false;
            }
            i = i + 1;
        }
        true
    }

    /// Polls the join itself, after a round.  Once every child has completed
    /// the join completes with all their values, in the order of the
    /// children, and keeps none.  While any child is pending the join is
    /// pending and nothing changes; the pending children have asked for
    /// their own wake-ups, so the join asks for none.
    pub fn poll(&mut self) -> (step: Step<Vec<T>>)
        ensures
            joined(old(self)@) ==> final(self)@.len() == 0 && (step matches Step::Completed(values)
                && values@ == results(old(self)@)),
            !joined(old(self)@) ==> final(self)@ == old(self)@ && step == Step::<Vec<T>>::Pending(
                Wakeup::Armed,
            ),
    {
        if !self.is_joined() {
            return Step::Pending(Wakeup::Armed);
        }
        let mut slots: Vec<Option<T>> = Vec::new();
        std::mem::swap(&mut self.slots, &mut slots);
        let ghost all = slots@;
        let mut reversed: Vec<T> = Vec::new();
        while slots.len() > 0
            invariant
                slots@.len() <= all.len(),
                slots@ == all.subrange(0, slots@.len() as int),
                joined(all),
                reversed@.len() == all.len() - slots@.len(),
                forall|k: int|
                    0 <= k < reversed@.len() ==> reversed@[k] == (#[trigger] all[all.len() - 1
                        - k])->0,
            decreases slots@.len(),
        {
            let ghost n = slots@.len();
            assert(slots@[n - 1] == all[n - 1]);
            match slots.pop() {
                Some(Some(value)) => {
                    reversed.push(value);
                },
                _ => {
                    assert(all[n - 1] is Some);
                    assert(false);
                },
            }
            assert(slots@ =~= all.subrange(0, slots@.len() as int));
        }
        let mut values: Vec<T> = Vec::new();
        while reversed.len() > 0
            invariant
                reversed@.len() + values@.len() == all.len(),
                forall|k: int|
                    0 <= k < reversed@.len() ==> reversed@[k] == (#[trigger] all[all.len() - 1
                        - k])->0,
                forall|k: int| 0 <= k < values@.len() ==> values@[k] == (#[trigger] all[k])->0,
            decreases reversed@.len(),
        {
            let ghost n = reversed@.len();
            let ghost m = values@.len();
            assert(reversed@[n - 1] == all[all.len() - 1 - (n - 1)]->0);
            match reversed.pop() {
                Some(value) => {
                    values.push(value);
                },
                None => {},
            }
            assert(values@[m as int] == all[m as int]->0);
        }
        assert(values@ =~= results(all));
        Step::Completed(values)
    }
}

/// The slots of a join over timers after one round at the instant `now` has
/// reached the children below `upto`: each of them that had not completed
/// was polled once with its own deadline.  (The three timer strategies
/// complete at the same polls, so one of them stands for all.)
pub open spec fn timers_polled(slots: Seq<Option<()>>, deadlines: Seq<u64>, now: u64, upto: int) -> Seq<
    Option<()>,
>
    decreases upto,
{
    if upto <= 0 {
        slots
    } else {
        let before = timers_polled(slots, deadlines, now, upto - 1);
        if before[upto - 1] is None {
            recorded(before, upto - 1, sleeper_step(deadlines[upto - 1], now))
        } else {
            before
        }
    }
}

/// The slots of a join over timers with the given deadlines after one full
/// round at each of the instants `times`, in turn.
pub open spec fn timers_joined(deadlines: Seq<u64>, times: Seq<u64>) -> Seq<Option<()>>
    decreases times.len(),
{
    if times.len() == 0 {
        unstarted(deadlines.len())
    } else {
        timers_polled(
            timers_joined(deadlines, times.drop_last()),
            deadlines,
            times.last(),
            deadlines.len() as int,
        )
    }
}

proof fn lemma_timers_polled(slots: Seq<Option<()>>, deadlines: Seq<u64>, now: u64, upto: int)
    requires
        slots.len() == deadlines.len(),
        0 <= upto <= slots.len(),
    ensures
        timers_polled(slots, deadlines, now, upto).len() == slots.len(),
        forall|i: int|
            0 <= i < upto ==> ((#[trigger] timers_polled(slots, deadlines, now, upto)[i]) is Some
                <==> slots[i] is Some || now >= deadlines[i]),
        forall|i: int|
            upto <= i < slots.len() ==> (#[trigger] timers_polled(slots, deadlines, now, upto)[i])
                == slots[i],
    decreases upto,
{
    if upto > 0 {
        lemma_timers_polled(slots, deadlines, now, upto - 1);
    }
}

proof fn lemma_timers_joined(deadlines: Seq<u64>, times: Seq<u64>)
    requires
        forall|j: int, k: int| 0 <= j <= k < times.len() ==> times[j] <= times[k],
    ensures
        timers_joined(deadlines, times).len() == deadlines.len(),
        forall|i: int|
            0 <= i < deadlines.len() ==> ((#[trigger] timers_joined(deadlines, times)[i]) is Some
                <==> times.len() > 0 && times.last() >= deadlines[i]),
    decreases times.len(),
{
    if times.len() > 0 {
        let earlier = times.drop_last();
        assert forall|j: int, k: int| 0 <= j <= k < earlier.len() implies earlier[j]
            <= earlier[k] by {
            assert(earlier[j] == times[j]);
            assert(earlier[k] == times[k]);
        }
        lemma_timers_joined(deadlines, earlier);
        lemma_timers_polled(
            timers_joined(deadlines, earlier),
            deadlines,
            times.last(),
            deadlines.len() as int,
        );
        if earlier.len() > 0 {
            assert(earlier.last() == times[times.len() - 2]);
            assert(earlier.last() <= times.last());
        }
    }
}

/// A join over timers completes only after the latest of them: when the
/// children are polled in rounds at instants that never go back, the join
/// has completed after a round exactly if that round's instant has reached
/// every deadline, and by then every child has completed.
pub proof fn lemma_join_waits_for_latest_timer(deadlines: Seq<u64>, times: Seq<u64>)
    requires
        times.len() > 0,
        forall|j: int, k: int| 0 <= j <= k < times.len() ==> times[j] <= times[k],
    ensures
        joined(timers_joined(deadlines, times)) <==> forall|i: int|
            0 <= i < deadlines.len() ==> times.last() >= #[trigger] deadlines[i],
        timers_joined(deadlines, times).len() == deadlines.len(),
{
    lemma_timers_joined(deadlines, times);
    let slots = timers_joined(deadlines, times);
    if joined(slots) {
        assert forall|i: int| 0 <= i < deadlines.len() implies times.last()
            >= #[trigger] deadlines[i] by {
            assert(slots[i] is Some);
        }
    }
}

/// A join of two timers completes no earlier than the later of the two.
pub proof fn lemma_join_of_two_timers(first: u64, second: u64, times: Seq<u64>)
    requires
        times.len() > 0,
        forall|j: int, k: int| 0 <= j <= k < times.len() ==> times[j] <= times[k],
    ensures
        joined(timers_joined(seq![first, second], times)) <==> times.last() >= first
            && times.last() >= second,
{
    let deadlines = seq![first, second];
    lemma_join_waits_for_latest_timer(deadlines, times);
    assert(deadlines[0] == first && deadlines[1] == second);
}

} // verus!
