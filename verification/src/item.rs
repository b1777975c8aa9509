//! The item record and its mathematical model.

use vstd::prelude::*;

verus! {

/// The mathematical view of an [`Item`]: the name as a sequence of
/// characters and the two counters as unbounded integers.
pub struct ItemModel {
    pub name: Seq<char>,
    pub sell_in: int,
    pub quality: int,
}

/// A shop item: an immutable display name and two counters that the daily
/// tick updates in place. `sell_in` counts the days left before the sell-by
/// date and may go negative; `quality` is a desirability score, normally
/// kept within `[0, 50]` by the tick rules.
pub struct Item {
    pub name: String,
    pub sell_in: i32,
    pub quality: i32,
}

impl View for Item {
    type V = ItemModel;

    open spec fn view(&self) -> ItemModel {
        ItemModel {
            name: self.name@,
            sell_in: self.sell_in as int,
            quality: self.quality as int,
        }
    }
}

/// The character of one decimal digit.
pub open spec fn decimal_digit(d: int) -> char {
    if d == 0 {
        '0'
    } else if d == 1 {
        '1'
    } else if d == 2 {
        '2'
    } else if d == 3 {
        '3'
    } else if d == 4 {
        '4'
    } else if d == 5 {
        '5'
    } else if d == 6 {
        '6'
    } else if d == 7 {
        '7'
    } else if d == 8 {
        '8'
    } else {
        '9'
    }
}

/// The decimal digits of a non-negative integer, most significant first.
pub open spec fn decimal_digits(n: nat) -> Seq<char>
    decreases n,
{
    if n < 10 {
        seq![decimal_digit(n as int)]
    } else {
        decimal_digits(n / 10) + seq![decimal_digit((n % 10) as int)]
    }
}

/// The decimal rendering of an integer: its digits, behind a minus sign if
/// it is negative.
pub open spec fn decimal_str(n: int) -> Seq<char> {
    if n < 0 {
        seq!['-'] + decimal_digits((-n) as nat)
    } else {
        decimal_digits(n as nat)
    }
}

/// The one-line rendering of an item: `<name>, <sell_in>, <quality>`.
pub open spec fn rendered(m: ItemModel) -> Seq<char> {
    m.name + ", "@ + decimal_str(m.sell_in) + ", "@ + decimal_str(m.quality)
}

/// Relies on std's `format!`: an `i32` is written as its decimal digits,
/// with a leading `-` when it is negative, and the pieces are joined in
/// order around the literal separators.
#[verifier::external_body]
fn render(name: &str, sell_in: i32, quality: i32) -> (r: String)
    ensures
        r@ == name@ + ", "@ + decimal_str(sell_in as int) + ", "@ + decimal_str(quality as int),
{
    format!("{}, {}, {}", name, sell_in, quality)
}

impl Item {
    /// Builds an item with the given name and counters. Any integers and any
    /// name are accepted; nothing is clamped at construction.
    pub fn new(name: &str, sell_in: i32, quality: i32) -> (item: Item)
        ensures
            item@.name == name@,
            item@.sell_in == sell_in as int,
            item@.quality == quality as int,
    {
        Item { name: name.to_owned(), sell_in, quality }
    }

    /// The item on one line, as `<name>, <sell_in>, <quality>`.
    pub fn display(&self) -> (r: String)
        ensures
            r@ == rendered(self@),
    {
        render(self.name.as_str(), self.sell_in, self.quality)
    }
}

} // verus!
