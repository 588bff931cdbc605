//! The timeout service: a list of pending timers, kept latest deadline first,
//! from whose end the earliest timer is fired once its deadline has passed.
use vstd::prelude::*;

verus! {

/// A message to the timeout service.
pub enum TimeoutEvent<W> {
    /// Stop the service.
    Close,
    /// Fire the handle once the instant (in nanoseconds) has passed.
    Signal(u64, W),
}

/// Deadlines never increase from the front of the list to its back.
pub open spec fn latest_first<W>(s: Seq<(u64, W)>) -> bool {
    forall|i: int, j: int| 0 <= i <= j < s.len() ==> s[i].0 >= s[j].0
}

/// Length of the leading run of timers that are due no earlier than `deadline`.
pub open spec fn slot<W>(s: Seq<(u64, W)>, deadline: u64) -> int
    decreases s.len(),
{
    if s.len() > 0 && s[0].0 >= deadline {
        1 + slot(s.subrange(1, s.len() as int), deadline)
    } else {
        0
    }
}

/// The list after a timer has been added: the new timer stands behind every
/// timer that is due no earlier, and in front of every timer that is due
/// earlier.
pub open spec fn enqueue<W>(s: Seq<(u64, W)>, deadline: u64, waker: W) -> Seq<(u64, W)> {
    s.insert(slot(s, deadline), (deadline, waker))
}

/// The earliest timer of the list has passed at `now`.
pub open spec fn due<W>(s: Seq<(u64, W)>, now: u64) -> bool {
    s.len() > 0 && s.last().0 < now
}

/// The list after the service has taken in one message.
pub open spec fn received<W>(s: Seq<(u64, W)>, event: TimeoutEvent<W>) -> Seq<(u64, W)> {
    match event {
        TimeoutEvent::Close => s,
        TimeoutEvent::Signal(deadline, waker) => enqueue(s, deadline, waker),
    }
}

/// The list after the service has taken in the messages of `inbox` in their
/// order, and whether the service goes on: a `Close` stops it, and what
/// follows the `Close` is not looked at.
pub open spec fn taken_in<W>(s: Seq<(u64, W)>, inbox: Seq<TimeoutEvent<W>>) -> (Seq<(u64, W)>, bool)
    decreases inbox.len(),
{
    if inbox.len() == 0 {
        (s, true)
    } else {
        match inbox[0] {
            TimeoutEvent::Close => (s, false),
            TimeoutEvent::Signal(deadline, waker) => taken_in(
                enqueue(s, deadline, waker),
                inbox.subrange(1, inbox.len() as int),
            ),
        }
    }
}

/// What the thread of the timeout service does after one turn.
#[derive(Debug, PartialEq, Eq)]
pub enum Turn<W> {
    /// Stop: the service was closed.
    Closed,
    /// Fire this handle and take the next turn at once.
    Fired(W),
    /// Yield the processor, then take the next turn.
    Idle,
}

/// One turn of the service at the instant `now`, on a list that has taken
/// in the turn's messages: the earliest timer fires if its deadline has
/// passed.
pub open spec fn turned<W>(s: Seq<(u64, W)>, now: u64) -> (Seq<(u64, W)>, Turn<W>) {
    if due(s, now) {
        (s.drop_last(), Turn::Fired(s.last().1))
    } else {
        (s, Turn::Idle)
    }
}

/// `slot` skips a prefix whose timers are all due no earlier than `deadline`.
proof fn lemma_slot_skips_prefix<W>(s: Seq<(u64, W)>, deadline: u64, k: int)
    requires
        0 <= k <= s.len(),
        forall|i: int| 0 <= i < k ==> s[i].0 >= deadline,
    ensures
        slot(s, deadline) == k + slot(s.subrange(k, s.len() as int), deadline),
    decreases k,
{
    if k == 0 {
        assert(s.subrange(0, s.len() as int) =~= s);
    } else {
        let rest = s.subrange(1, s.len() as int);
        lemma_slot_skips_prefix(rest, deadline, k - 1);
        assert(rest.subrange(k - 1, rest.len() as int) =~= s.subrange(k, s.len() as int));
    }
}

/// In a list that is latest first, `slot` is the one position that parts the
/// timers due no earlier than `deadline` from those due earlier.
pub proof fn lemma_slot_parts_list<W>(s: Seq<(u64, W)>, deadline: u64)
    requires
        latest_first(s),
    ensures
        0 <= slot(s, deadline) <= s.len(),
        forall|i: int| 0 <= i < slot(s, deadline) ==> s[i].0 >= deadline,
        forall|i: int| slot(s, deadline) <= i < s.len() ==> s[i].0 < deadline,
    decreases s.len(),
{
    if s.len() > 0 && s[0].0 >= deadline {
        let rest = s.subrange(1, s.len() as int);
        assert forall|i: int, j: int| 0 <= i <= j < rest.len() implies rest[i].0 >= rest[j].0 by {
            assert(rest[i] == s[i + 1]);
            assert(rest[j] == s[j + 1]);
        }
        lemma_slot_parts_list(rest, deadline);
        assert forall|i: int| 0 <= i < slot(s, deadline) implies s[i].0 >= deadline by {
            if i > 0 {
                assert(s[i] == rest[i - 1]);
            }
        }
        assert forall|i: int| slot(s, deadline) <= i < s.len() implies s[i].0 < deadline by {
            assert(s[i] == rest[i - 1]);
        }
    } else if s.len() > 0 {
        assert forall|i: int| 0 <= i < s.len() implies s[i].0 < deadline by {
            assert(s[0].0 >= s[i].0);
        }
    }
}

/// Adding a timer keeps the list latest first.
pub proof fn lemma_enqueue_keeps_order<W>(s: Seq<(u64, W)>, deadline: u64, waker: W)
    requires
        latest_first(s),
    ensures
        latest_first(enqueue(s, deadline, waker)),
        enqueue(s, deadline, waker).len() == s.len() + 1,
{
    lemma_slot_parts_list(s, deadline);
    let k = slot(s, deadline);
    let t = enqueue(s, deadline, waker);
    assert forall|i: int, j: int| 0 <= i <= j < t.len() implies t[i].0 >= t[j].0 by {
        if i < k && j > k {
            assert(t[i] == s[i]);
            assert(t[j] == s[j - 1]);
        }
    }
}

/// Timers fire in the order of their deadlines: the timer at the end of the
/// list, which fires next, is due no later than any other, and what stays
/// behind is latest first again.
pub proof fn lemma_fires_in_deadline_order<W>(s: Seq<(u64, W)>)
    requires
        latest_first(s),
        s.len() > 0,
    ensures
        forall|i: int| 0 <= i < s.len() ==> s.last().0 <= (#[trigger] s[i]).0,
        latest_first(s.drop_last()),
{
}

/// No timer fires early, and none is held back by a later one: whatever
/// else is pending, a new timer is the next to fire exactly if it is due
/// before every pending timer or together with the earliest of them, and it
/// fires once its own deadline has passed.
pub proof fn lemma_earlier_timer_overtakes<W>(s: Seq<(u64, W)>, deadline: u64, waker: W, now: u64)
    requires
        latest_first(s),
    ensures
        (s.len() == 0 || deadline <= s.last().0) <==> enqueue(s, deadline, waker).last() == (
            deadline,
            waker,
        ) && slot(s, deadline) == s.len(),
        due(enqueue(s, deadline, waker), now) ==> deadline < now || due(s, now),
        deadline < now ==> due(enqueue(s, deadline, waker), now),
{
    lemma_slot_parts_list(s, deadline);
    lemma_enqueue_keeps_order(s, deadline, waker);
    let t = enqueue(s, deadline, waker);
    let k = slot(s, deadline);
    assert(t[k] == (deadline, waker));
    if k < s.len() {
        assert(t.last() == s.last());
        assert(s[k].0 < deadline);
        assert(s[k].0 >= s.last().0);
    }
}

/// A `Close` always stops the service: whatever is pending and whatever
/// else has arrived, a turn whose messages hold a `Close` is the last, and a
/// turn whose messages hold none goes on.
pub proof fn lemma_close_stops_the_service<W>(s: Seq<(u64, W)>, inbox: Seq<TimeoutEvent<W>>)
    ensures
        taken_in(s, inbox).1 <==> forall|k: int| 0 <= k < inbox.len() ==> !((#[trigger] inbox[k])
            is Close),
    decreases inbox.len(),
{
    if inbox.len() > 0 {
        let rest = inbox.subrange(1, inbox.len() as int);
        match inbox[0] {
            TimeoutEvent::Close => {},
            TimeoutEvent::Signal(deadline, waker) => {
                lemma_close_stops_the_service(enqueue(s, deadline, waker), rest);
                if taken_in(s, inbox).1 {
                    assert forall|k: int| 0 <= k < inbox.len() implies !((#[trigger] inbox[k])
                        is Close) by {
                        if k > 0 {
                            assert(inbox[k] == rest[k - 1]);
                        }
                    }
                } else {
                    let k = choose|k: int| 0 <= k < rest.len() && (#[trigger] rest[k]) is Close;
                    assert(inbox[k + 1] is Close);
                }
            },
        }
    }
}

/// The state of the timeout service: its pending timers.
pub struct TimeoutHandler<W> {
    timeouts: Vec<(u64, W)>,
}

impl<W> TimeoutHandler<W> {
    #[verifier::type_invariant]
    spec fn ordered(self) -> bool {
        latest_first(self.timeouts@)
    }

    /// The pending timers, latest deadline first.
    pub closed spec fn view(&self) -> Seq<(u64, W)> {
        self.timeouts@
    }

    /// A service with no pending timer.
    pub fn new() -> (handler: Self)
        ensures
            handler@ == Seq::<(u64, W)>::empty(),
    {
        TimeoutHandler { timeouts: Vec::new() }
    }

    /// Number of pending timers.
    pub fn len(&self) -> (n: usize)
        ensures
            n == self@.len(),
    {
        self.timeouts.len()
    }

    /// The deadline that is due first, if any timer is pending.
    pub fn next_deadline(&self) -> (earliest: Option<u64>)
        ensures
            latest_first(self@),
            self@.len() == 0 ==> earliest is None,
            self@.len() > 0 ==> earliest == Some(self@.last().0),
    {
        proof {
            use_type_invariant(self);
        }
        let n = self.timeouts.len();
        if n == 0 {
            None
        } else {
            Some(self.timeouts[n - 1].0)
        }
    }

    /// Adds a timer that fires `waker` once `deadline` has passed.
    pub fn register_timeout(&mut self, deadline: u64, waker: W)
        ensures
            final(self)@ == enqueue(old(self)@, deadline, waker),
            latest_first(final(self)@),
    {
        proof {
            use_type_invariant(&*self);
            lemma_slot_parts_list(self.timeouts@, deadline);
            lemma_enqueue_keeps_order(self.timeouts@, deadline, waker);
        }
        let mut timeouts: Vec<(u64, W)> = Vec::new();
        std::mem::swap(&mut self.timeouts, &mut timeouts);
        let n = timeouts.len();
        let mut k: usize = 0;
        while k < n && timeouts[k].0 >= deadline
            invariant
                n == timeouts@.len(),
                k <= n,
                forall|i: int| 0 <= i < k ==> timeouts@[i].0 >= deadline,
            decreases n - k,
        {
            k = k + 1;
        }
        proof {
            lemma_slot_skips_prefix(timeouts@, deadline, k as int);
        }
        timeouts.insert(k, (deadline, waker));
        self.timeouts = timeouts;
    }

    /// Takes in one message.  Returns `false` when the message closes the
    /// service, `true` when the service goes on.
    pub fn receive(&mut self, event: TimeoutEvent<W>) -> (running: bool)
        ensures
            running == !(event is Close),
            final(self)@ == received(old(self)@, event),
            latest_first(final(self)@),
    {
        proof {
            use_type_invariant(&*self);
        }
        match event {
            TimeoutEvent::Close => false,
            TimeoutEvent::Signal(deadline, waker) => {
                self.register_timeout(deadline, waker);
                true
            },
        }
    }

    /// One turn of the service's thread: takes in the messages that have
    /// arrived, in their order, and then fires the earliest timer if its
    /// deadline has passed at `now`.  A `Close` among the messages ends the
    /// turn at once, and the service with it.
    pub fn turn(&mut self, inbox: Vec<TimeoutEvent<W>>, now: u64) -> (turn: Turn<W>)
        ensures
            latest_first(final(self)@),
            !taken_in(old(self)@, inbox@).1 ==> turn == Turn::<W>::Closed && final(self)@
                == taken_in(old(self)@, inbox@).0,
            taken_in(old(self)@, inbox@).1 ==> (final(self)@, turn) == turned(
                taken_in(old(self)@, inbox@).0,
                now,
            ),
    {
        let ghost all = inbox@;
        assert(all.subrange(0, all.len() as int) =~= all);
        for event in it: inbox.into_iter()
            invariant
                it.seq() == all,
                taken_in(old(self)@, all) == taken_in(
                    self@,
                    all.subrange(it.index() as int, all.len() as int),
                ),
        {
            let ghost rest = all.subrange(it.index() as int, all.len() as int);
            assert(rest[0] == event);
            assert(rest.subrange(1, rest.len() as int) =~= all.subrange(
                it.index() + 1,
                all.len() as int,
            ));
            if !self.receive(event) {
                proof {
                    use_type_invariant(&*self);
                }
                return Turn::Closed;
            }
        }
        match self.fire_due(now) {
            Some(waker) => Turn::Fired(waker),
            None => Turn::Idle,
        }
    }

    /// Fires the earliest timer if its deadline has passed at `now`: the timer
    /// leaves the list and its handle is returned for the caller to wake.
    /// Otherwise nothing changes and the caller should yield.
    pub fn fire_due(&mut self, now: u64) -> (fired: Option<W>)
        ensures
            latest_first(final(self)@),
            due(old(self)@, now) ==> fired == Some(old(self)@.last().1) && final(self)@ == old(self)@.drop_last(),
            !due(old(self)@, now) ==> fired is None && final(self)@ == old(self)@,
    {
        proof {
            use_type_invariant(&*self);
        }
        let n = self.timeouts.len();
        if n > 0 && self.timeouts[n - 1].0 < now {
            let mut timeouts: Vec<(u64, W)> = Vec::new();
            std::mem::swap(&mut self.timeouts, &mut timeouts);
            let last = timeouts.pop();
            self.timeouts = timeouts;
            match last {
                Some(entry) => Some(entry.1),
                None => None,
            }
        } else {
            None
        }
    }
}

} // verus!
