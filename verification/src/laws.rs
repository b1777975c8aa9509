//! The global laws of the tick rules, proved for any number of days.

use vstd::prelude::*;
use crate::category::ItemType;
use crate::tick::{conjured_tick, normal_tick, tick};

verus! {

/// `n` daily ticks of the rule that the category selects.
pub open spec fn ticks(t: ItemType, s: int, q: int, n: nat) -> (int, int)
    decreases n,
{
    if n == 0 {
        (s, q)
    } else {
        let r: (int, int) = tick(t, s, q);
        ticks(t, r.0, r.1, (n - 1) as nat)
    }
}

/// A normal item's quality is non-increasing from each day to the next and
/// never negative, however many days elapse.
pub proof fn lemma_normal_quality_non_increasing(s: int, q: int, n: nat)
    requires
        0 <= q,
    ensures
        0 <= ticks(ItemType::Normal, s, q, n).1 <= q,
        ticks(ItemType::Normal, s, q, n + 1).1 <= ticks(ItemType::Normal, s, q, n).1,
    decreases n,
{
    reveal_with_fuel(ticks, 2);
    if n > 0 {
        let r = normal_tick(s, q);
        lemma_normal_quality_non_increasing(r.0, r.1, (n - 1) as nat);
    }
}

/// An aging item's quality is non-decreasing from each day to the next and
/// never exceeds 50, however many days elapse.
pub proof fn lemma_aging_quality_non_decreasing(s: int, q: int, n: nat)
    requires
        q <= 50,
    ensures
        q <= ticks(ItemType::Aging, s, q, n).1 <= 50,
        ticks(ItemType::Aging, s, q, n).1 <= ticks(ItemType::Aging, s, q, n + 1).1,
    decreases n,
{
    reveal_with_fuel(ticks, 2);
    if n > 0 {
        let r = tick(ItemType::Aging, s, q);
        lemma_aging_quality_non_decreasing(r.0, r.1, (n - 1) as nat);
    }
}

/// A legendary item is frozen: both counters are invariant under any number
/// of ticks.
pub proof fn lemma_legendary_invariant(s: int, q: int, n: nat)
    ensures
        ticks(ItemType::Legendary, s, q, n) == (s, q),
    decreases n,
{
    if n > 0 {
        lemma_legendary_invariant(s, q, (n - 1) as nat);
    }
}

/// Once an event ticket's `sell_in` is negative, its quality is exactly 0
/// after every further tick.
pub proof fn lemma_event_ticket_worthless_after_event(s: int, q: int, n: nat)
    requires
        s < 0,
        n >= 1,
    ensures
        ticks(ItemType::EventTicket, s, q, n).1 == 0,
    decreases n,
{
    reveal_with_fuel(ticks, 2);
    if n > 1 {
        let r = tick(ItemType::EventTicket, s, q);
        lemma_event_ticket_worthless_after_event(r.0, r.1, (n - 1) as nat);
    }
}

/// In one tick from the same starting counters, a conjured item loses
/// exactly twice what a normal item loses. This needs enough quality for
/// neither rule to hit the floor at 0: with less (say quality 1, where both
/// items merely fall to 0) the ratio is lost to clamping.
pub proof fn lemma_conjured_double_rate(s: int, q: int)
    requires
        if s <= 0 { q >= 4 } else { q >= 2 },
    ensures
        q - conjured_tick(s, q).1 == 2 * (q - normal_tick(s, q).1),
{
}

/// Under every non-legendary rule, a quality that starts in `[0, 50]` stays
/// in `[0, 50]` after every tick.
pub proof fn lemma_quality_bounded(t: ItemType, s: int, q: int, n: nat)
    requires
        t != ItemType::Legendary,
        0 <= q <= 50,
    ensures
        0 <= ticks(t, s, q, n).1 <= 50,
    decreases n,
{
    if n > 0 {
        let r = tick(t, s, q);
        lemma_quality_bounded(t, r.0, r.1, (n - 1) as nat);
    }
}

/// A normal item that starts at quality 0 stays at exactly 0 forever.
pub proof fn lemma_normal_zero_quality_stays_zero(s: int, n: nat)
    ensures
        ticks(ItemType::Normal, s, 0, n).1 == 0,
{
    lemma_normal_quality_non_increasing(s, 0, n);
}

} // verus!
