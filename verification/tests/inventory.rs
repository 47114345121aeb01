use katas::inventory::{GildedRose, Item, ItemType};

#[test]
fn legendary_unchanged_for_many_pairs() {
    let pairs = vec![(10, 49), (0, 0), (-5, 80), (3, -7)];
    for (s, q) in pairs {
        assert_eq!(ItemType::Sulfuras.update_quality(s, q), (s, q));
    }
}

#[test]
fn appreciating_gains_one_below_cap() {
    assert_eq!(ItemType::AgedBrie.update_quality(10, 1), (9, 2));
    assert_eq!(ItemType::AgedBrie.update_quality(-3, 0), (-4, 1));
    assert_eq!(ItemType::AgedBrie.update_quality(0, 49), (-1, 50));
}

#[test]
fn appreciating_holds_at_cap() {
    assert_eq!(ItemType::AgedBrie.update_quality(10, 50), (9, 50));
    // a value already above the cap is held steady, not clamped back down
    assert_eq!(ItemType::AgedBrie.update_quality(10, 55), (9, 55));
}

#[test]
fn standard_past_due_drops_two() {
    assert_eq!(ItemType::Normal.update_quality(0, 20), (-1, 18));
    assert_eq!(ItemType::Normal.update_quality(-4, 2), (-5, 0));
}

#[test]
fn standard_zero_quality_stays_zero() {
    assert_eq!(ItemType::Normal.update_quality(5, 0), (4, 0));
    assert_eq!(ItemType::Normal.update_quality(0, 0), (-1, 0));
    assert_eq!(ItemType::Normal.update_quality(-5, 0), (-6, 0));
}

#[test]
fn event_pass_schedule() {
    assert_eq!(ItemType::Backstage.update_quality(1, 10), (0, 13));
    assert_eq!(ItemType::Backstage.update_quality(5, 10), (4, 13));
    assert_eq!(ItemType::Backstage.update_quality(6, 10), (5, 12));
    assert_eq!(ItemType::Backstage.update_quality(10, 10), (9, 12));
    assert_eq!(ItemType::Backstage.update_quality(0, 10), (-1, 0));
    assert_eq!(ItemType::Backstage.update_quality(11, 10), (10, 11));
    assert_eq!(ItemType::Backstage.update_quality(-1, 10), (-2, 11));
}

#[test]
fn event_pass_quality_is_not_capped_at_fifty() {
    assert_eq!(ItemType::Backstage.update_quality(5, 49), (4, 52));
}

#[test]
fn category_comes_from_the_exact_name() {
    assert_eq!(Item::new("Aged Brie", 0, 0).kind, ItemType::AgedBrie);
    assert_eq!(Item::new("aged brie", 0, 0).kind, ItemType::Normal);
    assert_eq!(
        Item::new("Sulfuras, Hand of Ragnaros", 0, 0).kind,
        ItemType::Sulfuras
    );
    assert_eq!(
        Item::new("Backstage passes to a TAFKAL80ETC concert", 0, 0).kind,
        ItemType::Backstage
    );
    assert_eq!(Item::new("", 0, 0).kind, ItemType::Normal);
}

#[test]
fn default_item_is_a_blank_normal_item() {
    let item = Item::default();
    assert_eq!(item.kind, ItemType::Normal);
    assert_eq!(item.name, "");
    assert_eq!((item.sell_in, item.quality), (0, 0));
    assert_eq!(ItemType::default(), ItemType::Normal);
}

#[test]
fn tick_updates_every_item_in_order() {
    let items = vec![
        Item::new("+5 Dexterity Vest", 10, 20),
        Item::new("Aged Brie", 2, 0),
        Item::new("Sulfuras, Hand of Ragnaros", 0, 80),
        Item::new("Backstage passes to a TAFKAL80ETC concert", 15, 20),
    ];
    let mut rose = GildedRose::new(items);
    rose.update_quality();
    assert_eq!(rose.items.len(), 4);
    assert_eq!((rose.items[0].sell_in, rose.items[0].quality), (9, 19));
    assert_eq!((rose.items[1].sell_in, rose.items[1].quality), (1, 1));
    assert_eq!((rose.items[2].sell_in, rose.items[2].quality), (0, 80));
    assert_eq!((rose.items[3].sell_in, rose.items[3].quality), (14, 21));
}

#[test]
fn empty_inventory_ticks() {
    let mut rose = GildedRose::new(Vec::new());
    rose.update_quality();
    assert_eq!(rose.items.len(), 0);
}

#[test]
fn item_renders_as_name_and_counters() {
    let item = Item::new("Aged Brie", -1, 0);
    assert_eq!(item.display_string(), "Aged Brie, -1, 0");
    let item = Item::new("+5 Dexterity Vest", 10, 20);
    assert_eq!(item.display_string(), "+5 Dexterity Vest, 10, 20");
}
