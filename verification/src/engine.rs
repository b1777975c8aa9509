//! The update engine: an ordered collection of items, advanced one day at a
//! time.

use vstd::prelude::*;
use crate::item::Item;
use crate::tick::{item_tick, tickable, update_item};

verus! {

/// The update engine. It owns the items in construction order and advances
/// each of them, in place and independently, once per call to
/// [`GildedRose::update_quality`].
pub struct GildedRose {
    pub items: Vec<Item>,
}

impl GildedRose {
    /// Builds the engine over the given items, kept in order.
    pub fn new(items: Vec<Item>) -> (rose: GildedRose)
        ensures
            rose.items == items,
    {
        GildedRose { items }
    }

    /// Advances every item by one day: each item becomes exactly
    /// [`item_tick`] of its old value, and the order is preserved.
    pub fn update_quality(&mut self)
        requires
            forall|i: int|
                0 <= i < old(self).items@.len() ==> tickable(#[trigger] old(self).items@[i]@),
        ensures
            final(self).items@.len() == old(self).items@.len(),
            forall|i: int|
                0 <= i < old(self).items@.len() ==> final(self).items@[i]@ == item_tick(
                    #[trigger] old(self).items@[i]@,
                ),
    {
        let n: usize = self.items.len();
        let mut i: usize = 0;
        while i < n
            invariant
                i <= n,
                n == self.items@.len(),
                self.items@.len() == old(self).items@.len(),
                forall|j: int|
                    0 <= j < old(self).items@.len() ==> tickable(#[trigger] old(self).items@[j]@),
                forall|j: int|
                    0 <= j < i ==> self.items@[j]@ == item_tick(#[trigger] old(self).items@[j]@),
                forall|j: int| i <= j < n ==> self.items@[j] == #[trigger] old(self).items@[j],
            decreases n - i,
        {
            proof {
                assert(self.items@[i as int] == old(self).items@[i as int]);
                assert(tickable(old(self).items@[i as int]@));
            }
            update_item(&mut self.items[i]);
            i += 1;
        }
    }
}

} // verus!
