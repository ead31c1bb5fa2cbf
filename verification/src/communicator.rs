//! The communicator of a worker that runs alone: it reports the worker's place
//! among its peers and allocates channels that stay on the worker.
use crate::observer::Observer;
use crate::pullable::Pullable;
use crate::queue::Queue;
use vstd::prelude::*;

verus! {

/// The communicator of the single worker of a computation.
pub struct Thread;

impl Thread {
    /// The rank of this worker among its peers, counted from zero.
    pub open spec fn spec_index(&self) -> u64 {
        0
    }

    /// The number of workers.
    pub open spec fn spec_peers(&self) -> u64 {
        1
    }

    /// The rank of this worker among its peers, counted from zero.
    #[verifier::when_used_as_spec(spec_index)]
    pub fn index(&self) -> (rank: u64)
        ensures
            rank == self.spec_index(),
            rank == 0,
            rank < self.peers(),
    {
        0
    }

    /// The number of workers.
    #[verifier::when_used_as_spec(spec_peers)]
    pub fn peers(&self) -> (count: u64)
        ensures
            count == self.spec_peers(),
            count == 1,
    {
        1
    }

    /// Allocates a channel: one idle push endpoint for each peer, one pull
    /// endpoint that has delivered nothing, and the empty queue between them.
    pub fn new_channel<T: Clone, D>(&mut self) -> (channel: (
        Vec<Observer<T, D>>,
        Pullable<T, D>,
        Queue<T, D>,
    ))
        ensures
            *final(self) == *old(self),
            channel.0@.len() == old(self).peers(),
            forall|i: int| 0 <= i < channel.0@.len() ==> (#[trigger] channel.0@[i]).session() is None,
            channel.1.current() is None,
            channel.2@ == Seq::<(T, Seq<D>)>::empty(),
    {
        let mut observers: Vec<Observer<T, D>> = Vec::new();
        observers.push(Observer::new());
        (observers, Pullable::new(), Queue::new())
    }
}

} // verus!
