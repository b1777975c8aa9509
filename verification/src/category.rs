//! Category dispatch: deriving an item's update rule from its name.

use vstd::prelude::*;
use vstd::string::StrSliceExecFns;

verus! {

/// The closed set of update rules. The category is derived from the item's
/// name: three names are matched exactly, a `Conjured` prefix marks a
/// conjured item, and everything else is a normal item.
#[derive(Clone, Copy, Debug, PartialEq, Eq, Structural)]
pub enum ItemType {
    Normal,
    Aging,
    EventTicket,
    Legendary,
    Conjured,
}

/// `p` is a prefix of `s`.
pub open spec fn has_prefix(s: Seq<char>, p: Seq<char>) -> bool {
    p.len() <= s.len() && s.subrange(0, p.len() as int) == p
}

/// The category that a name selects. Exact matches first, then the
/// `Conjured` prefix, and `Normal` as the fallback.
pub open spec fn category_of(name: Seq<char>) -> ItemType {
    if name == "Sulfuras, Hand of Ragnaros"@ {
        ItemType::Legendary
    } else if name == "Aged Brie"@ {
        ItemType::Aging
    } else if name == "Backstage passes to a TAFKAL80ETC concert"@ {
        ItemType::EventTicket
    } else if has_prefix(name, "Conjured"@) {
        ItemType::Conjured
    } else {
        ItemType::Normal
    }
}

/// Character-by-character string equality.
fn str_eq(a: &str, b: &str) -> (r: bool)
    ensures
        r == (a@ == b@),
{
    let n: usize = a.unicode_len();
    if n != b.unicode_len() {
        return false;
    }
    let mut i: usize = 0;
    while i < n
        invariant
            n == a@.len(),
            n == b@.len(),
            i <= n,
            forall|j: int| 0 <= j < i ==> a@[j] == b@[j],
        decreases n - i,
    {
        if a.get_char(i) != b.get_char(i) {
            return false;
        }
        i += 1;
    }
    proof {
        assert(a@ =~= b@);
    }
    true
}

/// Character-by-character prefix test.
fn str_has_prefix(s: &str, p: &str) -> (r: bool)
    ensures
        r == has_prefix(s@, p@),
{
    let plen: usize = p.unicode_len();
    if plen > s.unicode_len() {
        return false;
    }
    let mut i: usize = 0;
    while i < plen
        invariant
            plen == p@.len(),
            plen <= s@.len(),
            i <= plen,
            forall|j: int| 0 <= j < i ==> s@[j] == p@[j],
        decreases plen - i,
    {
        if s.get_char(i) != p.get_char(i) {
            proof {
                assert(s@.subrange(0, p@.len() as int)[i as int] == s@[i as int]);
            }
            return false;
        }
        i += 1;
    }
    proof {
        assert(s@.subrange(0, p@.len() as int) =~= p@);
    }
    true
}

/// Classifies a name, exactly as [`category_of`] does.
pub fn classify(name: &str) -> (t: ItemType)
    ensures
        t == category_of(name@),
{
    if str_eq(name, "Sulfuras, Hand of Ragnaros") {
        ItemType::Legendary
    } else if str_eq(name, "Aged Brie") {
        ItemType::Aging
    } else if str_eq(name, "Backstage passes to a TAFKAL80ETC concert") {
        ItemType::EventTicket
    } else if str_has_prefix(name, "Conjured") {
        ItemType::Conjured
    } else {
        ItemType::Normal
    }
}

} // verus!
