//! The ordered conduits between pipeline stages.
//!
//! A relay is a single-producer/single-consumer queue: items come out in
//! the order they went in, and nothing is reordered or duplicated. A
//! closed relay stands for one whose receiving side was torn down — the
//! mark of a superseded generation — so nothing more can be delivered
//! through it.

use vstd::prelude::*;

verus! {

/// An ordered single-producer/single-consumer conduit between two
/// pipeline stages.
pub struct Relay<T> {
    items: Vec<T>,
    closed: bool,
}

impl<T> Relay<T> {
    /// The items sent and not yet received, oldest first.
    pub closed spec fn pending(&self) -> Seq<T> {
        self.items@
    }

    /// Whether the receiving side is gone.
    pub closed spec fn is_closed(&self) -> bool {
        self.closed
    }

    /// A fresh, open, empty relay.
    pub fn new() -> (r: Relay<T>)
        ensures
            r.pending() == Seq::<T>::empty(),
            !r.is_closed(),
    {
        Relay { items: Vec::new(), closed: false }
    }

    /// How many items wait in the relay.
    pub fn len(&self) -> (n: usize)
        ensures
            n == self.pending().len(),
    {
        self.items.len()
    }

    /// Send one item. Delivery succeeds exactly when the receiving side
    /// is still there; a rejected item is dropped, since the receiver
    /// that could have taken it no longer exists.
    pub fn send(&mut self, t: T) -> (delivered: bool)
        ensures
            delivered == !old(self).is_closed(),
            final(self).is_closed() == old(self).is_closed(),
            old(self).is_closed() ==> final(self).pending() == old(self).pending(),
            !old(self).is_closed() ==> final(self).pending() == old(self).pending().push(t),
    {
        if self.closed {
            false
        } else {
            self.items.push(t);
            true
        }
    }

    /// Receive the oldest item, if one waits.
    pub fn recv(&mut self) -> (r: Option<T>)
        ensures
            final(self).is_closed() == old(self).is_closed(),
            old(self).pending().len() == 0 ==> r is None && final(self).pending() == old(
                self).pending(),
            old(self).pending().len() > 0 ==> r == Some(old(self).pending()[0]) && final(
                self).pending() == old(self).pending().drop_first(),
    {
        if self.items.len() == 0 {
            None
        } else {
            let t = self.items.remove(0);
            proof {
                assert(old(self).pending().remove(0) =~= old(self).pending().drop_first());
            }
            Some(t)
        }
    }

    /// Tear down the receiving side.
    pub fn close(&mut self)
        ensures
            final(self).pending() == old(self).pending(),
            final(self).is_closed(),
    {
        self.closed = true;
    }
}

} // verus!
