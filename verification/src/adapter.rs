//! The progress adapter: a wrapper around a sequence producer that renders
//! a progress bar on every production step.

use vstd::prelude::*;

use crate::producer::ExactSizeProducer;
use crate::producer::Producer;
use crate::state::Bounded;
use crate::state::ProgressDisplay;
use crate::state::Unbounded;

verus! {

/// A sequence producer wrapped with a progress display.
///
/// `Iter` is the inner producer, `Bound` the bound strategy that renders the
/// bar. The adapter starts in the unbounded strategy and can be upgraded,
/// once and irreversibly, to the bounded strategy when the inner producer
/// reports an exact remaining length.
pub struct Progress<Iter, Bound> {
    /// The inner sequence producer, exclusively owned.
    pub iter: Iter,
    /// How many production steps have been taken: starts at 0 and grows by
    /// exactly one per step.
    pub i: usize,
    /// The bound strategy that renders the bar.
    pub bound: Bound,
}

impl<Iter> Progress<Iter, Unbounded> {
    /// Wrap a producer in a fresh adapter: position 0, unbounded display
    /// with the default fill glyph.
    pub fn new(iter: Iter) -> (p: Self)
        ensures
            p == (Progress { iter, i: 0usize, bound: Unbounded { bar: "*" } }),
    {
        let unbound = Unbounded { bar: "*" };
        Progress { iter, i: 0, bound: unbound }
    }

    /// The adapter with its fill glyph replaced and all else unchanged.
    pub open spec fn spec_with_bars(self, bar: &'static str) -> Self {
        Progress { iter: self.iter, i: self.i, bound: Unbounded { bar } }
    }

    /// Replace the fill glyph of the unbounded display.
    pub fn with_bars_of(self, bar: &'static str) -> (p: Self)
        ensures
            p == self.spec_with_bars(bar),
    {
        Progress { iter: self.iter, i: self.i, bound: Unbounded { bar } }
    }
}

impl<Iter: ExactSizeProducer> Progress<Iter, Unbounded> {
    /// Upgrade the adapter to the bounded display. The bound is the inner
    /// producer's exact remaining length at the moment of the upgrade; the
    /// fill glyph, the position and the producer carry over, and the
    /// delimiters start at their defaults. The unbounded adapter is
    /// consumed: this transition is one-way.
    pub fn with_bound(self) -> (p: Progress<Iter, Bounded>)
        ensures
            p.iter == self.iter,
            p.i == self.i,
            p.bound.bound as nat == self.iter.remaining_len(),
            forall|k: nat| (#[trigger] self.iter.nth(k)) is Some <==> k < p.bound.bound as nat,
            p.bound.delims == ('[', ']'),
            p.bound.bar == self.bound.bar,
    {
        let n = self.iter.len();
        let bound = Bounded { bound: n, delims: ('[', ']'), bar: self.bound.bar };
        Progress { iter: self.iter, i: self.i, bound }
    }
}

impl<Iter> Progress<Iter, Bounded> {
    /// The adapter with its delimiter pair replaced and all else unchanged.
    pub open spec fn spec_with_delims(self, delims: (char, char)) -> Self {
        Progress {
            iter: self.iter,
            i: self.i,
            bound: Bounded { bound: self.bound.bound, delims, bar: self.bound.bar },
        }
    }

    /// Replace the delimiter pair of the bounded display.
    pub fn with_delims(self, delims: (char, char)) -> (p: Self)
        ensures
            p == self.spec_with_delims(delims),
    {
        Progress {
            iter: self.iter,
            i: self.i,
            bound: Bounded { bound: self.bound.bound, delims, bar: self.bound.bar },
        }
    }

    /// The adapter with its fill glyph replaced and all else unchanged.
    pub open spec fn spec_with_bars(self, bar: &'static str) -> Self {
        Progress {
            iter: self.iter,
            i: self.i,
            bound: Bounded { bound: self.bound.bound, delims: self.bound.delims, bar },
        }
    }

    /// Replace the fill glyph of the bounded display.
    pub fn with_bars_of(self, bar: &'static str) -> (p: Self)
        ensures
            p == self.spec_with_bars(bar),
    {
        Progress {
            iter: self.iter,
            i: self.i,
            bound: Bounded { bound: self.bound.bound, delims: self.bound.delims, bar },
        }
    }
}

/// Setting the fill glyph twice keeps only the later glyph: the first call
/// leaves no residue.
pub proof fn lemma_fill_last_wins<Iter>(
    p: Progress<Iter, Unbounded>,
    a: &'static str,
    b: &'static str,
)
    ensures
        p.spec_with_bars(a).spec_with_bars(b) == p.spec_with_bars(b),
{
}

/// Setting the fill glyph of a bounded adapter twice keeps only the later
/// glyph: the first call leaves no residue.
pub proof fn lemma_bounded_fill_last_wins<Iter>(
    p: Progress<Iter, Bounded>,
    a: &'static str,
    b: &'static str,
)
    ensures
        p.spec_with_bars(a).spec_with_bars(b) == p.spec_with_bars(b),
{
}

/// Setting the delimiter pair twice keeps only the later pair.
pub proof fn lemma_delims_last_wins<Iter>(
    p: Progress<Iter, Bounded>,
    a: (char, char),
    b: (char, char),
)
    ensures
        p.spec_with_delims(a).spec_with_delims(b) == p.spec_with_delims(b),
{
}

impl<Iter: Producer, Bound: ProgressDisplay> Progress<Iter, Bound> {
    /// One production step. First the bar is rendered at the current
    /// position — so the first step renders the empty bar, and the step
    /// that discovers exhaustion still renders one final frame. Then the
    /// position advances by one, and then the inner producer is pulled.
    /// The frame and the produced item, if any, are handed back; sending
    /// the frame to the output sink is the caller's business.
    pub fn next(&mut self) -> (r: (String, Option<Iter::Item>))
        requires
            old(self).bound.pos_ok(old(self).i as nat),
            old(self).i < usize::MAX,
        ensures
            r.0@ == old(self).bound.frame(old(self).i as nat),
            r.1 == old(self).iter.nth(0),
            final(self).i == old(self).i + 1,
            final(self).bound == old(self).bound,
            forall|k: nat| #[trigger] final(self).iter.nth(k) == old(self).iter.nth(k + 1),
    {
        let frame = self.bound.display(self.i);
        self.i = self.i + 1;
        let item = self.iter.produce();
        (frame, item)
    }
}

impl<Iter: ExactSizeProducer, Bound: ProgressDisplay> Progress<Iter, Bound> {
    /// Drive the adapter to exhaustion. With `n` items remaining in the
    /// inner producer, this takes `n + 1` production steps: one per item
    /// and one that discovers exhaustion. It hands back the rendered
    /// frames, one per step at positions growing by exactly one, and the
    /// produced items in production order.
    pub fn consume(self) -> (r: (Vec<String>, Vec<Iter::Item>))
        requires
            self.i + self.iter.remaining_len() < usize::MAX,
            forall|p: nat|
                self.i <= p <= self.i + self.iter.remaining_len() ==> #[trigger] self.bound.pos_ok(
                    p,
                ),
        ensures
            r.0.len() == self.iter.remaining_len() + 1,
            forall|j: int|
                0 <= j <= self.iter.remaining_len() ==> #[trigger] r.0[j]@ == self.bound.frame(
                    (self.i + j) as nat,
                ),
            r.1.len() == self.iter.remaining_len(),
            forall|j: int|
                0 <= j < self.iter.remaining_len() ==> Some(#[trigger] r.1[j]) == self.iter.nth(
                    j as nat,
                ),
    {
        let ghost orig = self;
        let ghost n = self.iter.remaining_len();
        let mut p = self;
        let _total = p.iter.len();
        let mut frames: Vec<String> = Vec::new();
        let mut items: Vec<Iter::Item> = Vec::new();
        loop
            invariant_except_break
                frames.len() == items.len(),
                p.i == orig.i + items.len(),
                forall|k: nat| #[trigger] p.iter.nth(k) == orig.iter.nth((k + items.len()) as nat),
            invariant
                items.len() <= n,
                p.bound == orig.bound,
                orig.i + n < usize::MAX,
                n == orig.iter.remaining_len(),
                forall|q: nat| orig.i <= q <= orig.i + n ==> #[trigger] orig.bound.pos_ok(q),
                forall|k: nat| (#[trigger] orig.iter.nth(k)) is Some <==> k < n,
                forall|j: int|
                    0 <= j < frames.len() ==> #[trigger] frames[j]@ == orig.bound.frame(
                        (orig.i + j) as nat,
                    ),
                forall|j: int| 0 <= j < items.len() ==> Some(#[trigger] items[j]) == orig.iter.nth(
                    j as nat,
                ),
            ensures
                items.len() == n,
                frames.len() == n + 1,
                forall|j: int|
                    0 <= j < frames.len() ==> #[trigger] frames[j]@ == orig.bound.frame(
                        (orig.i + j) as nat,
                    ),
                forall|j: int| 0 <= j < items.len() ==> Some(#[trigger] items[j]) == orig.iter.nth(
                    j as nat,
                ),
            decreases n - items.len(),
        {
            let ghost steps = items.len() as nat;
            let (frame, item) = p.next();
            frames.push(frame);
            match item {
                Some(x) => {
                    proof {
                        assert(orig.iter.nth(steps) is Some);
                    }
                    items.push(x);
                },
                None => {
                    proof {
                        assert(!(orig.iter.nth(steps) is Some));
                    }
                    break ;
                },
            }
        }
        (frames, items)
    }
}

/// The ergonomic entry point: any producer can be wrapped into a fresh
/// unbounded progress adapter with a single chained call.
pub trait ProgressIteratorExt: Sized {
    /// Wrap this producer in a fresh adapter: position 0, unbounded display
    /// with the default fill glyph.
    fn progress(self) -> (p: Progress<Self, Unbounded>)
        ensures
            p == (Progress { iter: self, i: 0usize, bound: Unbounded { bar: "*" } }),
    ;
}

impl<Iter: Producer> ProgressIteratorExt for Iter {
    fn progress(self) -> (p: Progress<Self, Unbounded>) {
        Progress::new(self)
    }
}

} // verus!
