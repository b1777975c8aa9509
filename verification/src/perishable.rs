//! An item tagged, once at construction, with the category its name selects.
//!
//! Classifying on every tick by string comparison works, but re-reads the
//! name each day; a `Perishable` carries the category as a closed tag beside
//! the item, so the daily update is an exhaustive match on the tag.

use vstd::prelude::*;
use crate::category::{category_of, classify, ItemType};
use crate::item::Item;
use crate::tick::{
    item_tick, tickable, update_aging, update_conjured, update_event_ticket, update_normal,
};

verus! {

/// An item together with the category derived from its name.
pub struct Perishable {
    pub item: Item,
    pub item_type: ItemType,
}

impl Perishable {
    /// The tag agrees with the item's name. [`build_perishable`] establishes
    /// this and [`Perishable::update`] preserves it; the name never changes.
    pub open spec fn wf(&self) -> bool {
        self.item_type == category_of(self.item@.name)
    }

    /// The category assigned at construction.
    pub fn get_type(&self) -> (t: ItemType)
        ensures
            t == self.item_type,
    {
        self.item_type
    }

    /// Advances the item by one day, dispatching on the stored tag; the
    /// result is the same [`item_tick`] step that the name selects.
    pub fn update(&mut self)
        requires
            old(self).wf(),
            tickable(old(self).item@),
        ensures
            final(self).wf(),
            final(self).item_type == old(self).item_type,
            final(self).item@ == item_tick(old(self).item@),
    {
        match self.item_type {
            ItemType::Legendary => {},
            ItemType::Normal => update_normal(&mut self.item),
            ItemType::Aging => update_aging(&mut self.item),
            ItemType::EventTicket => update_event_ticket(&mut self.item),
            ItemType::Conjured => update_conjured(&mut self.item),
        }
    }
}

/// Classifies the item's name once and pairs the item with its category.
pub fn build_perishable(item: Item) -> (p: Perishable)
    ensures
        p.item == item,
        p.item_type == category_of(item@.name),
        p.wf(),
{
    let item_type = classify(item.name.as_str());
    Perishable { item, item_type }
}

} // verus!
