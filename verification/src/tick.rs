//! The daily update rule of each category, as a spec-level transition on
//! `(sell_in, quality)` pairs, and the verified executable updates.

use vstd::prelude::*;
use crate::category::{category_of, classify, ItemType};
use crate::item::{Item, ItemModel};

verus! {

/// Quality never falls below this floor under any rule.
pub const MINIMUM_QUALITY: i32 = 0;

/// Quality never rises above this cap under any rule.
pub const MAXIMUM_QUALITY: i32 = 50;

/// How much quality a normal item loses per day before the sell-by date.
pub const DEGRADING_RATE: i32 = 1;

/// Multiplier on the degrading rate once the sell-by date has passed.
pub const EXPIRED_DEGRADING_RATE: i32 = 2;

/// Multiplier on the degrading rate for conjured items.
pub const CONJURED_DEGRADING_RATE: i32 = 2;

/// One step of quality decay, floored at the minimum.
pub open spec fn drop_quality(q: int) -> int {
    if q - 1 < MINIMUM_QUALITY as int {
        MINIMUM_QUALITY as int
    } else {
        q - 1
    }
}

/// One step of quality growth, capped at the maximum.
pub open spec fn raise_quality(q: int) -> int {
    if q + 1 > MAXIMUM_QUALITY as int {
        MAXIMUM_QUALITY as int
    } else {
        q + 1
    }
}

/// A normal item loses one quality, floored at 0, then ages one day; once
/// past the sell-by date it loses a second point, again floored at 0.
pub open spec fn normal_tick(s: int, q: int) -> (int, int) {
    let q1: int = drop_quality(q);
    let s1: int = s - 1;
    if s1 < 0 {
        (s1, drop_quality(q1))
    } else {
        (s1, q1)
    }
}

/// An aging item ages one day and gains one quality, capped at 50; once past
/// the sell-by date it gains a second point, again capped at 50.
pub open spec fn aging_tick(s: int, q: int) -> (int, int) {
    let s1: int = s - 1;
    let q1: int = raise_quality(q);
    if s1 < 0 {
        (s1, raise_quality(q1))
    } else {
        (s1, q1)
    }
}

/// An event ticket gains one quality, one more within ten days of the event
/// and a third within five, each capped at 50; the thresholds are read from
/// `sell_in` before it is decremented, and once the event has passed
/// (`sell_in <= 0` before the decrement) the quality collapses to exactly 0.
pub open spec fn event_ticket_tick(s: int, q: int) -> (int, int) {
    let q1: int = raise_quality(q);
    let q2: int = if s <= 10 { raise_quality(q1) } else { q1 };
    let q3: int = if s <= 5 { raise_quality(q2) } else { q2 };
    let q4: int = if s <= 0 { 0 } else { q3 };
    (s - 1, q4)
}

/// A conjured item ages one day and then loses quality at twice the normal
/// rate: two points per day, four once past the sell-by date, floored at 0.
pub open spec fn conjured_tick(s: int, q: int) -> (int, int) {
    let s1: int = s - 1;
    let rate: int = if s1 < 0 {
        (CONJURED_DEGRADING_RATE * EXPIRED_DEGRADING_RATE) as int
    } else {
        (CONJURED_DEGRADING_RATE * DEGRADING_RATE) as int
    };
    let q1: int = if q - rate < MINIMUM_QUALITY as int {
        MINIMUM_QUALITY as int
    } else {
        q - rate
    };
    (s1, q1)
}

/// A legendary item never changes.
pub open spec fn legendary_tick(s: int, q: int) -> (int, int) {
    (s, q)
}

/// One daily tick of the rule that the category selects.
pub open spec fn tick(t: ItemType, s: int, q: int) -> (int, int) {
    match t {
        ItemType::Normal => normal_tick(s, q),
        ItemType::Aging => aging_tick(s, q),
        ItemType::EventTicket => event_ticket_tick(s, q),
        ItemType::Legendary => legendary_tick(s, q),
        ItemType::Conjured => conjured_tick(s, q),
    }
}

/// One daily tick of a whole item: the name picks the category, the
/// category's rule rewrites the counters, the name stays.
pub open spec fn item_tick(m: ItemModel) -> ItemModel {
    let r: (int, int) = tick(category_of(m.name), m.sell_in, m.quality);
    ItemModel { name: m.name, sell_in: r.0, quality: r.1 }
}

/// The one machine limit on a tick: every rule but the legendary one
/// decrements `sell_in`, which must not underflow.
pub open spec fn tickable(m: ItemModel) -> bool {
    m.sell_in > i32::MIN as int || category_of(m.name) == ItemType::Legendary
}

/// The item is past its sell-by date. Reads only; the item is unchanged.
pub fn is_expired(item: &mut Item) -> (r: bool)
    ensures
        *final(item) == *old(item),
        r == (old(item)@.sell_in < 0),
{
    item.sell_in < 0
}

/// Applies [`normal_tick`] to the item's counters.
pub fn update_normal(item: &mut Item)
    requires
        old(item)@.sell_in > i32::MIN as int,
    ensures
        final(item)@.name == old(item)@.name,
        final(item)@.sell_in == normal_tick(old(item)@.sell_in, old(item)@.quality).0,
        final(item)@.quality == normal_tick(old(item)@.sell_in, old(item)@.quality).1,
{
    item.quality = if item.quality > MINIMUM_QUALITY {
        item.quality - DEGRADING_RATE
    } else {
        MINIMUM_QUALITY
    };
    item.sell_in -= 1;
    if is_expired(item) {
        item.quality = if item.quality > MINIMUM_QUALITY {
            item.quality - DEGRADING_RATE
        } else {
            MINIMUM_QUALITY
        };
    }
}

/// Applies [`aging_tick`] to the item's counters.
pub fn update_aging(item: &mut Item)
    requires
        old(item)@.sell_in > i32::MIN as int,
    ensures
        final(item)@.name == old(item)@.name,
        final(item)@.sell_in == aging_tick(old(item)@.sell_in, old(item)@.quality).0,
        final(item)@.quality == aging_tick(old(item)@.sell_in, old(item)@.quality).1,
{
    item.sell_in -= 1;
    item.quality = if item.quality < MAXIMUM_QUALITY {
        item.quality + 1
    } else {
        MAXIMUM_QUALITY
    };
    if is_expired(item) {
        item.quality = if item.quality < MAXIMUM_QUALITY {
            item.quality + 1
        } else {
            MAXIMUM_QUALITY
        };
    }
}

/// Applies [`event_ticket_tick`] to the item's counters.
pub fn update_event_ticket(item: &mut Item)
    requires
        old(item)@.sell_in > i32::MIN as int,
    ensures
        final(item)@.name == old(item)@.name,
        final(item)@.sell_in == event_ticket_tick(old(item)@.sell_in, old(item)@.quality).0,
        final(item)@.quality == event_ticket_tick(old(item)@.sell_in, old(item)@.quality).1,
{
    item.quality = if item.quality < MAXIMUM_QUALITY {
        item.quality + 1
    } else {
        MAXIMUM_QUALITY
    };
    if item.sell_in <= 10 {
        item.quality = if item.quality < MAXIMUM_QUALITY {
            item.quality + 1
        } else {
            MAXIMUM_QUALITY
        };
    }
    if item.sell_in <= 5 {
        item.quality = if item.quality < MAXIMUM_QUALITY {
            item.quality + 1
        } else {
            MAXIMUM_QUALITY
        };
    }
    if item.sell_in <= 0 {
        item.quality = 0;
    }
    item.sell_in -= 1;
}

/// Applies [`conjured_tick`] to the item's counters.
pub fn update_conjured(item: &mut Item)
    requires
        old(item)@.sell_in > i32::MIN as int,
    ensures
        final(item)@.name == old(item)@.name,
        final(item)@.sell_in == conjured_tick(old(item)@.sell_in, old(item)@.quality).0,
        final(item)@.quality == conjured_tick(old(item)@.sell_in, old(item)@.quality).1,
{
    item.sell_in -= 1;
    let rate: i32 = if is_expired(item) {
        CONJURED_DEGRADING_RATE * EXPIRED_DEGRADING_RATE
    } else {
        CONJURED_DEGRADING_RATE * DEGRADING_RATE
    };
    item.quality = if item.quality > rate {
        item.quality - rate
    } else {
        MINIMUM_QUALITY
    };
}

/// One daily tick of one item: classifies the name and applies the
/// category's rule, exactly as [`item_tick`] says.
pub fn update_item(item: &mut Item)
    requires
        tickable(old(item)@),
    ensures
        final(item)@ == item_tick(old(item)@),
{
    let t = classify(item.name.as_str());
    match t {
        ItemType::Legendary => {},
        ItemType::Normal => update_normal(item),
        ItemType::Aging => update_aging(item),
        ItemType::EventTicket => update_event_ticket(item),
        ItemType::Conjured => update_conjured(item),
    }
}

} // verus!
