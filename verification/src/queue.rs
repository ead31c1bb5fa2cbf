//! The channel queue: timestamped messages waiting between the push endpoint
//! and the pull endpoint of one channel, in arrival order.
use std::collections::VecDeque;
use vstd::prelude::*;

verus! {

/// An owned, resizable buffer of payload elements.
pub type Message<D> = Vec<D>;

/// The pending entries of one channel, oldest first.
///
/// A queue is viewed as the sequence of its entries, each a timestamp paired
/// with the payload elements of its message.
pub struct Queue<T, D> {
    entries: VecDeque<(T, Message<D>)>,
}

/// What one stored entry looks like in the queue's view.
pub open spec fn entry_view<T, D>(entry: (T, Message<D>)) -> (T, Seq<D>) {
    (entry.0, entry.1@)
}

/// What the next `pull` delivers from `pending`: its oldest entry, if it has
/// one.
pub open spec fn front<T, D>(pending: Seq<(T, Seq<D>)>) -> Option<(T, Seq<D>)> {
    if pending.len() == 0 {
        None
    } else {
        Some(pending[0])
    }
}

/// What the next `pull` leaves of `pending`: all but its oldest entry.
pub open spec fn rest<T, D>(pending: Seq<(T, Seq<D>)>) -> Seq<(T, Seq<D>)> {
    if pending.len() == 0 {
        pending
    } else {
        pending.drop_first()
    }
}

impl<T, D> View for Queue<T, D> {
    type V = Seq<(T, Seq<D>)>;

    closed spec fn view(&self) -> Seq<(T, Seq<D>)> {
        self.entries@.map_values(|entry: (T, Message<D>)| entry_view(entry))
    }
}

impl<T, D> Queue<T, D> {
    /// The front entry, if there is one, carries at least one payload element.
    pub open spec fn deliverable(&self) -> bool {
        front(self@) matches Some(entry) ==> entry.1.len() > 0
    }

    /// A queue with nothing pending.
    pub fn new() -> (queue: Self)
        ensures
            queue@ == Seq::<(T, Seq<D>)>::empty(),
    {
        let queue = Queue { entries: VecDeque::new() };
        assert(queue@ =~= Seq::<(T, Seq<D>)>::empty());
        queue
    }

    /// The number of pending entries.
    pub fn len(&self) -> (count: usize)
        ensures
            count == self@.len(),
    {
        self.entries.len()
    }

    /// Whether nothing is pending.
    pub fn is_empty(&self) -> (empty: bool)
        ensures
            empty == (self@.len() == 0),
    {
        self.entries.len() == 0
    }

    /// Whether the next `pull` may go ahead: either nothing is pending, or the
    /// front message is not empty.
    pub fn is_deliverable(&self) -> (ok: bool)
        ensures
            ok == self.deliverable(),
    {
        if self.entries.len() == 0 {
            true
        } else {
            self.entries[0].1.len() > 0
        }
    }

    /// Appends one entry behind all pending ones.
    pub(crate) fn push_back(&mut self, time: T, message: Message<D>)
        ensures
            final(self)@ == old(self)@.push((time, message@)),
    {
        self.entries.push_back((time, message));
        assert(self@ =~= old(self)@.push((time, message@)));
    }

    /// Removes the oldest pending entry, if there is one.
    pub(crate) fn pop_front(&mut self) -> (entry: Option<(T, Message<D>)>)
        ensures
            final(self)@ == rest(old(self)@),
            match entry {
                Some(oldest) => front(old(self)@) == Some(entry_view(oldest)),
                None => front(old(self)@) is None,
            },
    {
        let entry = self.entries.pop_front();
        assert(self@ =~= rest(old(self)@));
        entry
    }
}

} // verus!
