use gildedrose::{update_item, update_normal, GildedRose, Item};

#[test]
fn normal_quality_never_increases_and_never_goes_negative() {
    let mut item = Item::new("Elixir of the Mongoose", 3, 7);
    let mut previous = item.quality;
    for _i in 0..100 {
        update_item(&mut item);
        assert!(item.quality <= previous);
        assert!(item.quality >= 0);
        previous = item.quality;
    }
    assert_eq!(item.quality, 0);
}

#[test]
fn aging_quality_never_decreases_and_never_exceeds_fifty() {
    let mut item = Item::new("Aged Brie", 3, 7);
    let mut previous = item.quality;
    for _i in 0..100 {
        update_item(&mut item);
        assert!(item.quality >= previous);
        assert!(item.quality <= 50);
        previous = item.quality;
    }
    assert_eq!(item.quality, 50);
}

#[test]
fn legendary_is_unchanged_after_120_ticks() {
    let items = vec![Item::new("Sulfuras, Hand of Ragnaros", 5, 10)];
    let mut rose = GildedRose::new(items);
    for _i in 0..120 {
        rose.update_quality();
    }
    assert_eq!(rose.items[0].sell_in, 5);
    assert_eq!(rose.items[0].quality, 10);
}

#[test]
fn event_ticket_is_worthless_on_every_tick_after_the_event() {
    let mut item = Item::new("Backstage passes to a TAFKAL80ETC concert", -1, 37);
    for _i in 0..20 {
        update_item(&mut item);
        assert_eq!(item.quality, 0);
    }
}

#[test]
fn conjured_loses_exactly_twice_what_normal_loses() {
    let mut conjured = Item::new("Conjured Mana Cake", 5, 40);
    let mut normal = Item::new("Mana Cake", 5, 40);
    for _i in 0..8 {
        let cq = conjured.quality;
        let nq = normal.quality;
        update_item(&mut conjured);
        update_item(&mut normal);
        assert_eq!(cq - conjured.quality, 2 * (nq - normal.quality));
        assert_eq!(conjured.sell_in, normal.sell_in);
    }
}

#[test]
fn quality_stays_clamped_for_all_non_legendary_categories() {
    let names = [
        "ordinary thing",
        "Aged Brie",
        "Backstage passes to a TAFKAL80ETC concert",
        "Conjured broom",
    ];
    for name in names {
        for start in [0, 1, 49, 50] {
            let mut item = Item::new(name, 3, start);
            for _i in 0..60 {
                update_item(&mut item);
                assert!(0 <= item.quality && item.quality <= 50);
            }
        }
    }
}

#[test]
fn normal_item_scenario_two_days() {
    let items = vec![Item::new("Elixir of the Mongoose", 1, 10)];
    let mut rose = GildedRose::new(items);
    rose.update_quality();
    assert_eq!(rose.items[0].sell_in, 0);
    assert_eq!(rose.items[0].quality, 9);
    rose.update_quality();
    assert_eq!(rose.items[0].sell_in, -1);
    assert_eq!(rose.items[0].quality, 7);
}

#[test]
fn aging_item_scenario_one_day() {
    let items = vec![Item::new("Aged Brie", 1, 10)];
    let mut rose = GildedRose::new(items);
    rose.update_quality();
    assert_eq!(rose.items[0].quality, 11);
}

#[test]
fn event_ticket_scenario_rises_then_collapses() {
    let items = vec![Item::new("Backstage passes to a TAFKAL80ETC concert", 6, 10)];
    let mut rose = GildedRose::new(items);
    rose.update_quality();
    assert_eq!(rose.items[0].sell_in, 5);
    assert_eq!(rose.items[0].quality, 12);
    rose.update_quality();
    assert_eq!(rose.items[0].sell_in, 4);
    assert_eq!(rose.items[0].quality, 15);
    rose.items[0].sell_in = 0;
    rose.update_quality();
    assert_eq!(rose.items[0].sell_in, -1);
    assert_eq!(rose.items[0].quality, 0);
}

#[test]
fn conjured_scenario_ten_days_through_the_engine() {
    let items = vec![Item::new("Conjured pants", 5, 40)];
    let mut rose = GildedRose::new(items);
    let mut qualities = Vec::new();
    let mut sell_in_days = Vec::new();
    for _i in 0..10 {
        rose.update_quality();
        qualities.push(rose.items[0].quality);
        sell_in_days.push(rose.items[0].sell_in);
    }
    assert_eq!(qualities, vec![38, 36, 34, 32, 30, 26, 22, 18, 14, 10]);
    assert_eq!(sell_in_days, vec![4, 3, 2, 1, 0, -1, -2, -3, -4, -5]);
}

#[test]
fn normal_item_at_zero_quality_stays_at_zero() {
    let mut item = Item::new("Elixir of the Mongoose", 2, 0);
    for _i in 0..50 {
        update_item(&mut item);
        assert_eq!(item.quality, 0);
    }
    assert_eq!(item.sell_in, -48);
}

#[test]
fn event_ticket_thresholds_read_sell_in_before_the_decrement() {
    for (start, expected) in [(11, 11), (10, 12), (6, 12), (5, 13), (1, 13), (0, 0)] {
        let mut item = Item::new("Backstage passes to a TAFKAL80ETC concert", start, 10);
        update_item(&mut item);
        assert_eq!(item.quality, expected);
        assert_eq!(item.sell_in, start - 1);
    }
}

#[test]
fn out_of_range_quality_is_reclamped_by_the_adjustment_steps() {
    let mut below = Item::new("dusty crate", 5, -7);
    update_normal(&mut below);
    assert_eq!(below.quality, 0);

    let mut above_aging = Item::new("Aged Brie", 5, 60);
    update_item(&mut above_aging);
    assert_eq!(above_aging.quality, 50);

    let mut above_normal = Item::new("dusty crate", 5, 60);
    update_item(&mut above_normal);
    assert_eq!(above_normal.quality, 59);
}
