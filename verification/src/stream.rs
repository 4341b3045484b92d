//! The simulation's local stream of one payload type, as a bridge sees it
//! during a tick.
//!
//! An item's identity is the position at which it was raised in the current
//! tick. Identities are what the import ledger records, so they only have to
//! be told apart within one tick; `update` starts the next one.

use vstd::prelude::*;

verus! {

/// Identity of an item on a local stream, valid for the tick it was raised in.
#[derive(Clone, Copy, Debug, PartialEq, Eq, Structural)]
pub struct MessageId {
    pub id: usize,
}

/// The items raised on the local stream in the current tick, oldest first.
pub struct Messages<M> {
    raised: Vec<M>,
}

impl<M> View for Messages<M> {
    type V = Seq<M>;

    closed spec fn view(&self) -> Seq<M> {
        self.raised@
    }
}

impl<M> Messages<M> {
    /// A stream on which nothing has been raised.
    pub fn new() -> (stream: Self)
        ensures
            stream@ == Seq::<M>::empty(),
    {
        Messages { raised: Vec::new() }
    }

    /// Raises `message` and returns the identity it got: its position.
    pub fn write(&mut self, message: M) -> (id: MessageId)
        ensures
            final(self)@ == old(self)@.push(message),
            id.id == old(self)@.len(),
    {
        let id = MessageId { id: self.raised.len() };
        self.raised.push(message);
        id
    }

    /// Number of items raised in this tick.
    pub fn len(&self) -> (n: usize)
        ensures
            n == self@.len(),
    {
        self.raised.len()
    }

    pub fn is_empty(&self) -> (empty: bool)
        ensures
            empty == (self@.len() == 0),
    {
        self.raised.len() == 0
    }

    /// The item with identity `id`, if one was raised in this tick.
    pub fn get(&self, id: MessageId) -> (item: Option<&M>)
        ensures
            item == if id.id < self@.len() {
                Some(&self@[id.id as int])
            } else {
                None
            },
    {
        if id.id < self.raised.len() {
            Some(&self.raised[id.id])
        } else {
            None
        }
    }

    /// Starts the next tick: everything raised so far is gone and identities
    /// start over.
    pub fn update(&mut self)
        ensures
            final(self)@ == Seq::<M>::empty(),
    {
        self.raised.clear();
    }
}

} // verus!
