//! Delivery order: a channel hands its entries out in the order in which they
//! were handed in, whatever the timestamps and however gives and pulls
//! alternate.
use crate::queue::{front, rest};
use vstd::prelude::*;

verus! {

/// One call on a channel, as its queue sees it.
pub enum Call<T, D> {
    /// A `give` that stored this message under this timestamp.
    Give(T, Seq<D>),
    /// A `pull`.
    Pull,
}

/// The entries pending after `calls` were made, in order, on a fresh channel.
pub open spec fn pending_after<T, D>(calls: Seq<Call<T, D>>) -> Seq<(T, Seq<D>)>
    decreases calls.len(),
{
    if calls.len() == 0 {
        Seq::empty()
    } else {
        let before = pending_after(calls.drop_last());
        match calls.last() {
            Call::Give(time, message) => before.push((time, message)),
            Call::Pull => rest(before),
        }
    }
}

/// The entries that the pulls among `calls` delivered, in the order of the
/// pulls. A pull that found nothing pending delivered nothing.
pub open spec fn delivered_by<T, D>(calls: Seq<Call<T, D>>) -> Seq<(T, Seq<D>)>
    decreases calls.len(),
{
    if calls.len() == 0 {
        Seq::empty()
    } else {
        let earlier = delivered_by(calls.drop_last());
        match calls.last() {
            Call::Give(_, _) => earlier,
            Call::Pull => match front(pending_after(calls.drop_last())) {
                Some(entry) => earlier.push(entry),
                None => earlier,
            },
        }
    }
}

/// The entries that the gives among `calls` stored, in the order of the gives.
pub open spec fn given_by<T, D>(calls: Seq<Call<T, D>>) -> Seq<(T, Seq<D>)>
    decreases calls.len(),
{
    if calls.len() == 0 {
        Seq::empty()
    } else {
        let earlier = given_by(calls.drop_last());
        match calls.last() {
            Call::Give(time, message) => earlier.push((time, message)),
            Call::Pull => earlier,
        }
    }
}

/// One give for each of `entries`, in order.
pub open spec fn gives<T, D>(entries: Seq<(T, Seq<D>)>) -> Seq<Call<T, D>> {
    Seq::new(entries.len(), |i: int| Call::Give(entries[i].0, entries[i].1))
}

/// `count` pulls.
pub open spec fn pulls<T, D>(count: nat) -> Seq<Call<T, D>> {
    Seq::new(count, |i: int| Call::Pull)
}

/// A give adds the entry it stored to what is pending and to what was given,
/// and delivers nothing.
pub proof fn lemma_give_extends<T, D>(calls: Seq<Call<T, D>>, time: T, message: Seq<D>)
    ensures
        pending_after(calls.push(Call::Give(time, message))) == pending_after(calls).push(
            (time, message),
        ),
        given_by(calls.push(Call::Give(time, message))) == given_by(calls).push((time, message)),
        delivered_by(calls.push(Call::Give(time, message))) == delivered_by(calls),
{
    assert(calls.push(Call::Give(time, message)).drop_last() =~= calls);
}

/// A pull takes the oldest pending entry, if there is one, and adds it to what
/// was delivered; it gives nothing.
pub proof fn lemma_pull_extends<T, D>(calls: Seq<Call<T, D>>)
    ensures
        pending_after(calls.push(Call::Pull)) == rest(pending_after(calls)),
        given_by(calls.push(Call::Pull)) == given_by(calls),
        delivered_by(calls.push(Call::Pull)) == match front(pending_after(calls)) {
            Some(entry) => delivered_by(calls).push(entry),
            None => delivered_by(calls),
        },
{
    assert(calls.push(Call::<T, D>::Pull).drop_last() =~= calls);
}

/// After any calls on a fresh channel, what was delivered, followed by what is
/// still pending, is what was given, in the order in which it was given:
/// nothing is lost, doubled or overtaken.
pub proof fn lemma_delivery_in_order<T, D>(calls: Seq<Call<T, D>>)
    ensures
        delivered_by(calls) + pending_after(calls) == given_by(calls),
    decreases calls.len(),
{
    if calls.len() == 0 {
        assert(delivered_by(calls) + pending_after(calls) =~= given_by(calls));
    } else {
        let earlier = calls.drop_last();
        lemma_delivery_in_order(earlier);
        assert(delivered_by(calls) + pending_after(calls) =~= given_by(calls));
    }
}

/// Gives alone deliver nothing and leave every entry pending, in order.
pub proof fn lemma_gives_queue_up<T, D>(entries: Seq<(T, Seq<D>)>)
    ensures
        pending_after(gives(entries)) == entries,
        delivered_by(gives(entries)) == Seq::<(T, Seq<D>)>::empty(),
    decreases entries.len(),
{
    if entries.len() > 0 {
        lemma_gives_queue_up(entries.drop_last());
        assert(gives(entries).drop_last() =~= gives(entries.drop_last()));
        assert(entries =~= entries.drop_last().push(entries.last()));
    } else {
        assert(pending_after(gives(entries)) =~= entries);
    }
}

/// First in, first out: when `entries` are given to a fresh channel and
/// `count` pulls follow, the pulls deliver the first `count` of the entries,
/// in the order in which they were given, and the others stay pending. Pulls
/// beyond the last entry deliver nothing.
pub proof fn lemma_first_in_first_out<T, D>(entries: Seq<(T, Seq<D>)>, count: nat)
    ensures
        count <= entries.len() ==> {
            &&& delivered_by(gives(entries) + pulls(count)) == entries.take(count as int)
            &&& pending_after(gives(entries) + pulls(count)) == entries.skip(count as int)
        },
        count >= entries.len() ==> {
            &&& delivered_by(gives(entries) + pulls(count)) == entries
            &&& pending_after(gives(entries) + pulls(count)) == Seq::<(T, Seq<D>)>::empty()
        },
    decreases count,
{
    let calls = gives(entries) + pulls::<T, D>(count);
    if count == 0 {
        lemma_gives_queue_up(entries);
        assert(calls =~= gives(entries));
        assert(entries.take(0) =~= Seq::<(T, Seq<D>)>::empty());
        assert(entries.skip(0) =~= entries);
    } else {
        let fewer = (count - 1) as nat;
        lemma_first_in_first_out(entries, fewer);
        assert(calls.drop_last() =~= gives(entries) + pulls::<T, D>(fewer));
        assert(calls.last() == Call::<T, D>::Pull);
        if count <= entries.len() {
            assert(entries.take(count as int) =~= entries.take(fewer as int).push(
                entries[fewer as int],
            ));
            assert(entries.skip(count as int) =~= entries.skip(fewer as int).drop_first());
            if count == entries.len() {
                assert(entries.take(count as int) =~= entries);
                assert(entries.skip(count as int) =~= Seq::<(T, Seq<D>)>::empty());
            }
        }
    }
}

} // verus!
