//! Sequence producers: the capability that the progress adapter wraps.

use vstd::prelude::*;

verus! {

/// A pull-based producer of a lazy, possibly infinite, sequence of items.
///
/// A producer is modelled by the spec function `nth`: `nth(k)` is the item
/// that the `k + 1`-th call of `produce` from the current state would hand
/// out, or `None` if the producer is exhausted by then. The model makes no
/// demand that the sequence be finite.
pub trait Producer: Sized {
    type Item;

    /// The item that the `k + 1`-th production step from this state yields,
    /// or `None` if the producer is exhausted by then.
    spec fn nth(&self, k: nat) -> Option<Self::Item>;

    /// Hand out the next item, or `None` when exhausted. Afterwards the
    /// producer's model is shifted by one place.
    fn produce(&mut self) -> (r: Option<Self::Item>)
        ensures
            r == old(self).nth(0),
            forall|k: nat| #[trigger] final(self).nth(k) == old(self).nth(k + 1),
    ;
}

/// The exact-length capability: a producer that can report precisely how
/// many items remain before exhaustion.
pub trait ExactSizeProducer: Producer {
    /// How many items remain before exhaustion.
    spec fn remaining_len(&self) -> nat;

    /// Report the exact number of remaining items: `nth(k)` yields an item
    /// exactly for `k` below this count.
    fn len(&self) -> (n: usize)
        ensures
            n as nat == self.remaining_len(),
            forall|k: nat| (#[trigger] self.nth(k)) is Some <==> k < self.remaining_len(),
    ;
}

/// A producer that hands out the elements of a vector in order.
pub struct VecProducer<T> {
    /// The elements, in production order.
    pub items: Vec<T>,
    /// How many elements have been produced already.
    pub at: usize,
}

impl<T> VecProducer<T> {
    /// Wrap a vector as a producer of its elements, none produced yet.
    pub fn new(items: Vec<T>) -> (p: Self)
        ensures
            p.items == items,
            p.at == 0,
    {
        VecProducer { items, at: 0 }
    }
}

impl<T: Copy> Producer for VecProducer<T> {
    type Item = T;

    open spec fn nth(&self, k: nat) -> Option<T> {
        if self.at + k < self.items@.len() {
            Some(self.items@[self.at + k])
        } else {
            None
        }
    }

    fn produce(&mut self) -> (r: Option<T>) {
        if self.at < self.items.len() {
            let x = self.items[self.at];
            self.at = self.at + 1;
            Some(x)
        } else {
            None
        }
    }
}

impl<T: Copy> ExactSizeProducer for VecProducer<T> {
    open spec fn remaining_len(&self) -> nat {
        if self.at <= self.items@.len() {
            (self.items@.len() - self.at) as nat
        } else {
            0
        }
    }

    fn len(&self) -> (n: usize) {
        if self.at >= self.items.len() {
            0
        } else {
            self.items.len() - self.at
        }
    }
}

} // verus!
