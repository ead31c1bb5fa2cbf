//! The push endpoint of a channel: a writer that works in sessions, each
//! opened for one timestamp and shut again.
use crate::queue::{Message, Queue};
use core::marker::PhantomData;
use vstd::prelude::*;

verus! {

/// The capacity of the buffer that `give` leaves with the caller.
pub const BUFFER_CAPACITY: usize = 4096;

/// The push endpoint of one channel carrying messages of `D` under timestamps
/// of `T`. It is idle, or open for one timestamp.
pub struct Observer<T, D> {
    time: Option<T>,
    payload: PhantomData<D>,
}

/// `after` is `before` with one entry more at its tail: `message`, under a
/// clone of `time`.
pub open spec fn handed_over<T: Clone, D>(
    before: Seq<(T, Seq<D>)>,
    after: Seq<(T, Seq<D>)>,
    time: T,
    message: Seq<D>,
) -> bool {
    &&& after.len() == before.len() + 1
    &&& after == before.push(after.last())
    &&& cloned(time, after.last().0)
    &&& after.last().1 == message
}

impl<T, D> Observer<T, D> {
    /// The timestamp of the open session; `None` while the endpoint is idle.
    pub closed spec fn session(&self) -> Option<T> {
        self.time
    }

    /// An idle endpoint.
    pub fn new() -> (observer: Self)
        ensures
            observer.session() is None,
    {
        Observer { time: None, payload: PhantomData }
    }

    /// Whether a session is open.
    pub fn is_open(&self) -> (open: bool)
        ensures
            open == (self.session() is Some),
    {
        self.time.is_some()
    }

    /// Opens a session for `time`. The endpoint has to be idle.
    pub fn open(&mut self, time: &T) where T: Clone
        requires
            old(self).session() is None,
        ensures
            final(self).session() matches Some(opened) && cloned(*time, opened),
    {
        self.time = Some(time.clone());
    }

    /// Shuts the open session. The timestamp handed in is not looked at.
    pub fn shut(&mut self, _time: &T)
        requires
            old(self).session() is Some,
        ensures
            final(self).session() is None,
    {
        self.time = None;
    }

    /// Moves the whole of `data` to the tail of `dest`, under the timestamp of
    /// the open session, and leaves an empty buffer of `BUFFER_CAPACITY` in
    /// its place. A session has to be open.
    pub fn give(&mut self, dest: &mut Queue<T, D>, data: &mut Message<D>) where T: Clone
        requires
            old(self).session() is Some,
        ensures
            final(self).session() == old(self).session(),
            final(data)@ == Seq::<D>::empty(),
            handed_over(old(dest)@, final(dest)@, old(self).session().unwrap(), old(data)@),
    {
        let time = self.time.as_ref().unwrap().clone();
        let mut message: Message<D> = Vec::with_capacity(BUFFER_CAPACITY);
        core::mem::swap(data, &mut message);
        dest.push_back(time, message);
    }
}

} // verus!
