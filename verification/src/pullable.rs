//! The pull endpoint of a channel: a non-blocking reader that hands out the
//! pending entries one at a time, oldest first.
use crate::queue::{entry_view, front, rest, Message, Queue};
use vstd::prelude::*;

verus! {

/// The pull endpoint of one channel.
///
/// It keeps the entry it delivered last, so that the references it handed out
/// stay valid until the next `pull`.
pub struct Pullable<T, D> {
    current: Option<(T, Message<D>)>,
}

impl<T, D> Pullable<T, D> {
    /// The entry delivered by the last `pull`, as it stands now.
    pub closed spec fn current(&self) -> Option<(T, Seq<D>)> {
        match self.current {
            Some(entry) => Some(entry_view(entry)),
            None => None,
        }
    }

    /// An endpoint that has delivered nothing yet.
    pub fn new() -> (pullable: Self)
        ensures
            pullable.current() is None,
    {
        Pullable { current: None }
    }

    /// Takes the oldest pending entry out of `source` and lends it to the
    /// caller; returns `None`, leaving `source` as it was, when nothing is
    /// pending. The entry delivered before is dropped either way.
    ///
    /// A delivered message is never empty: the caller has to see to it that
    /// the front message of `source`, if there is one, holds an element.
    pub fn pull(&mut self, source: &mut Queue<T, D>) -> (delivery: Option<(&T, &mut Message<D>)>)
        requires
            old(source).deliverable(),
        ensures
            final(source)@ == rest(old(source)@),
            old(source)@.len() == 0 ==> delivery is None && final(source)@ == old(source)@,
            match delivery {
                Some((time, message)) => {
                    &&& front(old(source)@) == Some((*time, message@))
                    &&& message@.len() > 0
                    &&& final(self).current() == Some((*time, final(message)@))
                },
                None => {
                    &&& front(old(source)@) is None
                    &&& final(self).current() is None
                },
            },
    {
        self.current = source.pop_front();
        match &mut self.current {
            Some((time, message)) => Some((&*time, message)),
            None => None,
        }
    }
}

} // verus!
