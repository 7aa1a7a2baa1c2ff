use vstd::prelude::*;

verus! {

use crate::channel::channel_send;

/// A per-worker buffer that accumulates result items and hands them to a
/// shared channel as one message per batch, once the buffer reaches its
/// flush threshold or at teardown.
#[verifier::reject_recursive_types(T)]
pub struct BatchSender<T> {
    buffer: Vec<T>,
    tx: crossbeam_channel::Sender<Vec<T>>,
    limit: usize,
    delivered: Ghost<Seq<Seq<T>>>,
}

/// One push against a sender with buffer `buffered`, flushed batches
/// `flushed` and threshold `limit`: the item is appended to the buffer; if
/// the buffer then reaches the threshold a flush is attempted, which moves
/// the whole buffer into the flushed history exactly when the channel took
/// it (`taken`).
pub open spec fn push_step<T>(
    buffered: Seq<T>,
    flushed: Seq<Seq<T>>,
    limit: nat,
    item: T,
    taken: bool,
) -> (Seq<T>, Seq<Seq<T>>) {
    let b = buffered.push(item);
    if b.len() < limit {
        (b, flushed)
    } else if taken {
        (Seq::<T>::empty(), flushed.push(b))
    } else {
        (b, flushed)
    }
}

/// One teardown flush: a non-empty buffer is flushed as one batch exactly
/// when the channel took it (`taken`); an empty buffer is left alone.
pub open spec fn flush_step<T>(
    buffered: Seq<T>,
    flushed: Seq<Seq<T>>,
    taken: bool,
) -> (Seq<T>, Seq<Seq<T>>) {
    if buffered.len() == 0 {
        (buffered, flushed)
    } else if taken {
        (Seq::<T>::empty(), flushed.push(buffered))
    } else {
        (buffered, flushed)
    }
}

/// The state after pushing `items` one by one, when the channel takes every
/// attempted flush.
pub open spec fn push_all<T>(
    buffered: Seq<T>,
    flushed: Seq<Seq<T>>,
    limit: nat,
    items: Seq<T>,
) -> (Seq<T>, Seq<Seq<T>>)
    decreases items.len(),
{
    if items.len() == 0 {
        (buffered, flushed)
    } else {
        let prev = push_all(buffered, flushed, limit, items.drop_last());
        push_step(prev.0, prev.1, limit, items.last(), true)
    }
}

impl<T> BatchSender<T> {
    /// Items pushed but not yet flushed, in push order.
    pub closed spec fn buffered(self) -> Seq<T> {
        self.buffer@
    }

    /// The batches this sender has handed to the channel, oldest first.
    pub closed spec fn flushed(self) -> Seq<Seq<T>> {
        self.delivered@
    }

    /// The flush threshold.
    pub closed spec fn threshold(self) -> nat {
        self.limit as nat
    }

    /// Every item this sender has accepted and not lost, flushed batches
    /// first, then the buffer, in push order.
    pub open spec fn items(self) -> Seq<T> {
        self.flushed().flatten() + self.buffered()
    }

    pub fn new(tx: crossbeam_channel::Sender<Vec<T>>, limit: usize) -> (r: Self)
        ensures
            r.buffered() == Seq::<T>::empty(),
            r.flushed() == Seq::<Seq<T>>::empty(),
            r.threshold() == limit as nat,
    {
        BatchSender {
            buffer: Vec::with_capacity(limit),
            tx,
            limit,
            delivered: Ghost(Seq::empty()),
        }
    }

    fn needs_flush(&self) -> (r: bool)
        ensures
            r == (self.buffered().len() >= self.threshold()),
    {
        self.buffer.len() >= self.limit
    }

    fn send_buffer(&mut self) -> (ok: bool)
        ensures
            final(self).threshold() == old(self).threshold(),
            ok ==> final(self).flushed() == old(self).flushed().push(old(self).buffered())
                && final(self).buffered() == Seq::<T>::empty(),
            !ok ==> final(self).flushed() == old(self).flushed()
                && final(self).buffered() == old(self).buffered(),
    {
        let ghost b = self.buffer@;
        let mut batch: Vec<T> = Vec::new();
        core::mem::swap(&mut batch, &mut self.buffer);
        match channel_send(&self.tx, batch) {
            Ok(_) => {
                self.delivered = Ghost(self.delivered@.push(b));
                true
            }
            Err(v) => {
                self.buffer = v;
                false
            }
        }
    }

    /// Appends the item to the buffer and flushes once the buffer reaches
    /// the threshold. Returns false exactly when a flush was attempted and
    /// the channel's receiving end was gone; the items then stay buffered,
    /// so no item is ever lost while the channel is usable.
    pub fn send(&mut self, item: T) -> (ok: bool)
        ensures
            final(self).threshold() == old(self).threshold(),
            final(self).buffered() == push_step(
                old(self).buffered(),
                old(self).flushed(),
                old(self).threshold(),
                item,
                ok,
            ).0,
            final(self).flushed() == push_step(
                old(self).buffered(),
                old(self).flushed(),
                old(self).threshold(),
                item,
                ok,
            ).1,
            old(self).buffered().len() + 1 < old(self).threshold() ==> ok,
            final(self).items() == old(self).items().push(item),
    {
        self.buffer.push(item);
        if self.needs_flush() {
            let ok = self.send_buffer();
            proof {
                if ok {
                    old(self).flushed().lemma_flatten_push(old(self).buffered().push(item));
                    assert(final(self).items() =~= old(self).items().push(item));
                } else {
                    assert(final(self).items() =~= old(self).items().push(item));
                }
            }
            ok
        } else {
            proof {
                assert(final(self).items() =~= old(self).items().push(item));
            }
            true
        }
    }

    /// Flushes whatever is still buffered as one final batch. Returns false
    /// exactly when there was something to flush and the channel's receiving
    /// end was gone; the items then stay buffered.
    pub fn finish(&mut self) -> (ok: bool)
        ensures
            final(self).threshold() == old(self).threshold(),
            final(self).buffered() == flush_step(
                old(self).buffered(),
                old(self).flushed(),
                ok,
            ).0,
            final(self).flushed() == flush_step(
                old(self).buffered(),
                old(self).flushed(),
                ok,
            ).1,
            old(self).buffered().len() == 0 ==> ok,
            final(self).items() == old(self).items(),
    {
        if self.buffer.len() == 0 {
            true
        } else {
            let ok = self.send_buffer();
            proof {
                if ok {
                    old(self).flushed().lemma_flatten_push(old(self).buffered());
                    assert(final(self).items() =~= old(self).items());
                }
            }
            ok
        }
    }
}

impl<T> Drop for BatchSender<T> {
    /// Relies on `crossbeam_channel::Sender::send`: at teardown any residual
    /// buffer is flushed as one last batch; a failed send is dropped, since
    /// the worker has no further work either way.
    #[verifier::external_body]
    fn drop(&mut self)
        opens_invariants none
        no_unwind
    {
        if !self.buffer.is_empty() {
            let _ = self.tx.send(core::mem::take(&mut self.buffer));
        }
    }
}

/// Law: pushing fewer items than the threshold into a fresh sender only
/// buffers them, in push order, and flushes nothing, even when the channel
/// would take every flush.
pub proof fn lemma_under_threshold_only_buffers<T>(limit: nat, items: Seq<T>)
    requires
        items.len() < limit,
    ensures
        push_all(Seq::<T>::empty(), Seq::<Seq<T>>::empty(), limit, items).0 == items,
        push_all(Seq::<T>::empty(), Seq::<Seq<T>>::empty(), limit, items).1
            == Seq::<Seq<T>>::empty(),
    decreases items.len(),
{
    if items.len() > 0 {
        lemma_under_threshold_only_buffers(limit, items.drop_last());
        assert(items.drop_last().push(items.last()) =~= items);
    } else {
        assert(items =~= Seq::<T>::empty());
    }
}

/// Law: pushing exactly threshold-many items (threshold above zero) into a
/// fresh sender triggers exactly one flush, whose single batch holds all the
/// items in push order, and leaves the buffer empty.
pub proof fn lemma_threshold_flushes_once<T>(limit: nat, items: Seq<T>)
    requires
        items.len() == limit,
        limit > 0,
    ensures
        push_all(Seq::<T>::empty(), Seq::<Seq<T>>::empty(), limit, items).0 == Seq::<T>::empty(),
        push_all(Seq::<T>::empty(), Seq::<Seq<T>>::empty(), limit, items).1 == seq![items],
{
    lemma_under_threshold_only_buffers(limit, items.drop_last());
    assert(items.drop_last().push(items.last()) =~= items);
    assert(Seq::<Seq<T>>::empty().push(items) =~= seq![items]);
}

/// Law: pushing fewer items than the threshold and then tearing down flushes
/// exactly those items as one batch, in push order.
pub proof fn lemma_teardown_flushes_residue<T>(limit: nat, items: Seq<T>)
    requires
        0 < items.len() < limit,
    ensures
        ({
            let after = push_all(Seq::<T>::empty(), Seq::<Seq<T>>::empty(), limit, items);
            flush_step(after.0, after.1, true).0 == Seq::<T>::empty()
                && flush_step(after.0, after.1, true).1 == seq![items]
        }),
{
    lemma_under_threshold_only_buffers(limit, items);
    assert(Seq::<Seq<T>>::empty().push(items) =~= seq![items]);
}

} // verus!
