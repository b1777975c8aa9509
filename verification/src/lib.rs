//! A verified inventory of perishable shop items.
//!
//! Each item carries a display name, a `sell_in` counter (days left to sell)
//! and a `quality` score. Once per simulated day the engine advances every
//! item by one tick, following rules chosen by the item's category, which is
//! derived from its name. The tick rules, the dispatch and the engine loop
//! are verified; the laws module proves the global properties of the rules
//! (monotonicity, bounds, invariance) for any number of ticks.

mod category;
mod engine;
mod item;
mod laws;
mod perishable;
mod tick;

pub use category::{category_of, classify, has_prefix, ItemType};
pub use engine::GildedRose;
pub use item::{decimal_digit, decimal_digits, decimal_str, rendered, Item, ItemModel};
pub use laws::{
    lemma_aging_quality_non_decreasing, lemma_conjured_double_rate,
    lemma_event_ticket_worthless_after_event, lemma_legendary_invariant,
    lemma_normal_quality_non_increasing, lemma_normal_zero_quality_stays_zero,
    lemma_quality_bounded, ticks,
};
pub use perishable::{build_perishable, Perishable};
pub use tick::{
    aging_tick, conjured_tick, drop_quality, event_ticket_tick, is_expired, item_tick,
    legendary_tick, normal_tick, raise_quality, tick, tickable, update_aging, update_conjured,
    update_event_ticket, update_item, update_normal, CONJURED_DEGRADING_RATE, DEGRADING_RATE,
    EXPIRED_DEGRADING_RATE, MAXIMUM_QUALITY, MINIMUM_QUALITY,
};
