//! The readiness service: wake handles waiting for a socket to become
//! readable or writable, each under the token that the readiness multiplexer
//! reports back.
use std::collections::HashMap;
use vstd::prelude::*;

verus! {

broadcast use vstd::std_specs::hash::group_hash_axioms;

/// The direction in which a socket is awaited.
#[derive(Clone, Copy, Debug, PartialEq, Eq, Structural)]
pub enum Interest {
    Readable,
    Writable,
}

/// What the caller has to hand to the readiness multiplexer for one
/// suspended operation.
#[derive(Clone, Copy, Debug, PartialEq, Eq, Structural)]
pub struct Registration {
    pub token: usize,
    pub interest: Interest,
}

/// The token handed out after `id`.
pub open spec fn next_token(id: usize) -> usize {
    if id == usize::MAX {
        0
    } else {
        (id + 1) as usize
    }
}

/// The handles to wake for the reported tokens, in the order of the report:
/// one for each token that has a handle waiting and was not reported before.
pub open spec fn woken<W>(wakers: Map<usize, W>, tokens: Seq<usize>) -> Seq<W>
    decreases tokens.len(),
{
    if tokens.len() == 0 {
        Seq::empty()
    } else {
        let before = tokens.drop_last();
        let id = tokens.last();
        if wakers.contains_key(id) && !before.contains(id) {
            woken(wakers, before).push(wakers[id])
        } else {
            woken(wakers, before)
        }
    }
}

/// The handles that still wait after the reported tokens have been served.
pub open spec fn unwoken<W>(wakers: Map<usize, W>, tokens: Seq<usize>) -> Map<usize, W> {
    wakers.remove_keys(tokens.to_set())
}

/// The state of the readiness service.
pub struct IOHandler<W> {
    wakers: HashMap<usize, W>,
    id_counter: usize,
}

impl<W> IOHandler<W> {
    /// The waiting handles by token.
    pub closed spec fn wakers(&self) -> Map<usize, W> {
        self.wakers@
    }

    /// The token that the next registration gets.
    pub closed spec fn next_id(&self) -> usize {
        self.id_counter
    }

    /// A service with nothing registered, whose tokens start at zero.
    pub fn new() -> (handler: Self)
        ensures
            handler.wakers() == Map::<usize, W>::empty(),
            handler.next_id() == 0,
    {
        IOHandler { wakers: HashMap::new(), id_counter: 0 }
    }

    /// Number of waiting handles.
    pub fn len(&self) -> (n: usize)
        ensures
            n == self.wakers().len(),
    {
        self.wakers.len()
    }

    /// Whether a handle waits under `id`.
    pub fn is_registered(&self, id: usize) -> (waiting: bool)
        ensures
            waiting == self.wakers().contains_key(id),
    {
        self.wakers.contains_key(&id)
    }

    /// Stores `waker` under a new token and returns the token.
    pub fn register_waker(&mut self, waker: W) -> (id: usize)
        ensures
            id == old(self).next_id(),
            final(self).next_id() == next_token(id),
            final(self).wakers() == old(self).wakers().insert(id, waker),
    {
        let id = self.id_counter;
        self.id_counter = if id == usize::MAX {
            0
        } else {
            id + 1
        };
        self.wakers.insert(id, waker);
        id
    }

    /// Registers a suspended operation: stores `waker` under a new token and
    /// says what to register with the readiness multiplexer.
    pub fn register_operation(&mut self, interest: Interest, waker: W) -> (registration:
        Registration)
        ensures
            registration == (Registration { token: old(self).next_id(), interest }),
            final(self).next_id() == next_token(old(self).next_id()),
            final(self).wakers() == old(self).wakers().insert(old(self).next_id(), waker),
    {
        let token = self.register_waker(waker);
        Registration { token, interest }
    }

    /// Serves one readiness event: the handle waiting under `id`, if there is
    /// one, leaves the table and is returned for the caller to wake.
    pub fn take_waker(&mut self, id: usize) -> (waker: Option<W>)
        ensures
            final(self).next_id() == old(self).next_id(),
            final(self).wakers() == old(self).wakers().remove(id),
            old(self).wakers().contains_key(id) ==> waker == Some(old(self).wakers()[id]),
            !old(self).wakers().contains_key(id) ==> waker is None,
    {
        self.wakers.remove(&id)
    }

    /// Serves a batch of readiness events, given by their tokens in the order
    /// in which the multiplexer reported them.  Returns the handles to wake,
    /// in that order.
    pub fn dispatch(&mut self, tokens: &Vec<usize>) -> (fired: Vec<W>)
        ensures
            final(self).next_id() == old(self).next_id(),
            fired@ == woken(old(self).wakers(), tokens@),
            final(self).wakers() == unwoken(old(self).wakers(), tokens@),
    {
        let mut fired: Vec<W> = Vec::new();
        let mut i: usize = 0;
        assert(tokens@.subrange(0, 0) =~= Seq::<usize>::empty());
        assert(self.wakers() =~= unwoken(old(self).wakers(), Seq::<usize>::empty()));
        while i < tokens.len()
            invariant
                i <= tokens@.len(),
                self.next_id() == old(self).next_id(),
                fired@ == woken(old(self).wakers(), tokens@.subrange(0, i as int)),
                self.wakers() == unwoken(old(self).wakers(), tokens@.subrange(0, i as int)),
            decreases tokens@.len() - i,
        {
            let id = tokens[i];
            let ghost seen = tokens@.subrange(0, i as int);
            let ghost next = tokens@.subrange(0, i + 1);
            proof {
                assert(next.drop_last() =~= seen);
                assert(next.last() == id);
                assert(next.to_set() =~= seen.to_set().insert(id));
                assert(unwoken(old(self).wakers(), seen).remove(id) =~= unwoken(
                    old(self).wakers(),
                    next,
                ));
                assert(seen.contains(id) <==> seen.to_set().contains(id));
            }
            match self.take_waker(id) {
                Some(waker) => {
                    fired.push(waker);
                },
                None => {},
            }
            i = i + 1;
        }
        assert(tokens@.subrange(0, i as int) =~= tokens@);
        fired
    }
}

/// Tokens are fresh: while every waiting handle sits under a token below the
/// counter, and the counter has not reached the end of its range, the token
/// handed out next is not in use, and the same holds again afterwards.
pub proof fn lemma_tokens_are_fresh<W>(wakers: Map<usize, W>, next_id: usize, waker: W)
    requires
        forall|id: usize| wakers.contains_key(id) ==> id < next_id,
        next_id < usize::MAX,
    ensures
        !wakers.contains_key(next_id),
        next_token(next_id) > next_id,
        forall|id: usize| #[trigger]
            wakers.insert(next_id, waker).contains_key(id) ==> id < next_token(next_id),
{
}

/// One registration brings one wake: when the token of a new registration
/// is reported, exactly its handle is woken, and the table is what it was
/// before the registration.
pub proof fn lemma_registration_wakes_once<W>(wakers: Map<usize, W>, id: usize, waker: W)
    requires
        !wakers.contains_key(id),
    ensures
        woken(wakers.insert(id, waker), seq![id]) == seq![waker],
        unwoken(wakers.insert(id, waker), seq![id]) == wakers,
{
    let tokens = seq![id];
    assert(tokens[0] == id);
    assert(tokens.contains(id));
    assert(tokens.drop_last() =~= Seq::<usize>::empty());
    assert(!tokens.drop_last().contains(id));
    reveal_with_fuel(woken, 2);
    assert(woken(wakers.insert(id, waker), tokens) =~= seq![waker]);
    assert forall|other: usize| tokens.to_set().contains(other) implies other == id by {
        let i = choose|i: int| 0 <= i < tokens.len() && tokens[i] == other;
        assert(tokens[i] == id);
    }
    assert(unwoken(wakers.insert(id, waker), tokens) =~= wakers);
}

/// A registration is single-shot: once its token has been served, nothing
/// waits under it, so a second report of the token wakes nothing.
pub proof fn lemma_token_wakes_once<W>(wakers: Map<usize, W>, id: usize)
    ensures
        !unwoken(wakers, seq![id]).contains_key(id),
        woken(unwoken(wakers, seq![id]), seq![id]) == Seq::<W>::empty(),
        woken(wakers, seq![id, id]) == woken(wakers, seq![id]),
{
    let once = seq![id];
    let twice = seq![id, id];
    assert(once[0] == id);
    assert(once.contains(id));
    assert(once.to_set().contains(id));
    assert(once.drop_last() =~= Seq::<usize>::empty());
    assert(twice.drop_last() =~= once);
    reveal_with_fuel(woken, 3);
}

} // verus!
