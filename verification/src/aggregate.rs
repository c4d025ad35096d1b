use vstd::prelude::*;

use crate::fade::FadeItem;
use crate::frac::UnitFrac;

verus! {

/// The set of live splash items for one run, advanced together once per
/// tick. The aggregator owns the items; the host keys its display objects
/// by position in this set.
pub struct FadeAggregator {
    pub items: Vec<FadeItem>,
}

impl FadeAggregator {
    /// Well-formed: every held item is.
    pub open spec fn inv(self) -> bool {
        forall|i: int| 0 <= i < self.items@.len() ==> self.items@[i].inv()
    }

    /// The whole set is done after a tick of `delta`: there is at least one
    /// item, and every item, advanced by this tick, is finished. An empty
    /// set is never done, so a run that has not yet spawned its items
    /// cannot complete spuriously.
    pub open spec fn spec_all_done(self, delta: u64) -> bool {
        self.items@.len() > 0 && forall|i: int|
            0 <= i < self.items@.len() ==> self.items@[i].spec_ticked(delta).spec_item_finished()
    }

    /// An empty aggregator.
    pub fn new() -> (r: FadeAggregator)
        ensures
            r.items@.len() == 0,
            r.inv(),
    {
        FadeAggregator { items: Vec::new() }
    }

    /// Add one item to the set.
    pub fn add_item(&mut self, item: FadeItem)
        requires
            old(self).inv(),
            item.inv(),
        ensures
            final(self).inv(),
            final(self).items@ == old(self).items@.push(item),
    {
        self.items.push(item);
    }

    pub fn len(&self) -> (r: usize)
        ensures
            r == self.items@.len(),
    {
        self.items.len()
    }

    /// Remove every item, as on phase exit.
    pub fn clear(&mut self)
        ensures
            final(self).items@.len() == 0,
            final(self).inv(),
    {
        self.items = Vec::new();
    }

    /// Advance every item exactly once by `delta`, collect each item's new
    /// opacity in order, and report whether the whole set is now done:
    /// at least one item, and every one of them finished in this same call.
    pub fn tick_all(&mut self, delta: u64) -> (r: (Vec<UnitFrac>, bool))
        requires
            old(self).inv(),
        ensures
            final(self).inv(),
            final(self).items@.len() == old(self).items@.len(),
            forall|i: int|
                0 <= i < old(self).items@.len() ==> final(self).items@[i] == old(
                    self,
                ).items@[i].spec_ticked(delta),
            r.0@.len() == old(self).items@.len(),
            forall|i: int|
                0 <= i < old(self).items@.len() ==> r.0@[i] == old(self).items@[i].spec_tick_opacity(
                    delta,
                ),
            forall|i: int| 0 <= i < r.0@.len() ==> r.0@[i].inv(),
            r.1 == old(self).spec_all_done(delta),
    {
        let n = self.items.len();
        let mut new_items: Vec<FadeItem> = Vec::new();
        let mut opacities: Vec<UnitFrac> = Vec::new();
        let mut all_finished = true;
        let mut i: usize = 0;
        while i < n
            invariant
                i <= n,
                n == self.items@.len(),
                *self == *old(self),
                old(self).inv(),
                new_items@.len() == i as int,
                opacities@.len() == i as int,
                forall|j: int|
                    0 <= j < i ==> new_items@[j] == self.items@[j].spec_ticked(delta),
                forall|j: int|
                    0 <= j < i ==> opacities@[j] == self.items@[j].spec_tick_opacity(delta),
                forall|j: int| 0 <= j < i ==> opacities@[j].inv(),
                forall|j: int| 0 <= j < i ==> new_items@[j].inv(),
                all_finished == (forall|j: int|
                    0 <= j < i ==> self.items@[j].spec_ticked(delta).spec_item_finished()),
            decreases n - i,
        {
            let mut item = self.items[i];
            let stepped = item.tick(delta);
            new_items.push(item);
            opacities.push(stepped.0);
            all_finished = all_finished && stepped.1;
            i = i + 1;
        }
        self.items = new_items;
        let all_done = n > 0 && all_finished;
        (opacities, all_done)
    }
}

/// An aggregator holding no items never declares the set done, whatever the
/// delta: completion requires at least one item.
pub proof fn lemma_empty_never_done(agg: FadeAggregator, delta: u64)
    requires
        agg.items@.len() == 0,
    ensures
        !agg.spec_all_done(delta),
{
}

} // verus!
