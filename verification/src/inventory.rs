//! The inventory aging engine: each item carries a countdown ("sell-in")
//! and a quality score, and one day tick rewrites both as a closed-form
//! function of the item's category.

use crate::display::{i32_decimal, spec_int_decimal};
use vstd::prelude::*;
use vstd::string::StringExecFns;

verus! {

/// The four aging categories an item can belong to. The category is fixed
/// at construction time by an exact match on the item's name and never
/// changes afterwards.
#[derive(Clone, Copy, Debug, PartialEq, Eq, Structural)]
pub enum ItemType {
    Normal,
    AgedBrie,
    Backstage,
    Sulfuras,
}

/// One aging step: the (sell-in, quality) pair an item of category `kind`
/// carries after one day, as a function of the pair it carried before.
/// The rules branch on the values as they stand before the tick.
pub open spec fn spec_advance(kind: ItemType, sell_in: int, quality: int) -> (int, int) {
    match kind {
        ItemType::AgedBrie => (
            sell_in - 1,
            if quality < 50 {
                quality + 1
            } else {
                quality
            },
        ),
        ItemType::Backstage => (
            sell_in - 1,
            if 1 <= sell_in && sell_in <= 5 {
                quality + 3
            } else if 6 <= sell_in && sell_in <= 10 {
                quality + 2
            } else if sell_in == 0 {
                0
            } else {
                quality + 1
            },
        ),
        ItemType::Sulfuras => (sell_in, quality),
        ItemType::Normal => (
            sell_in - 1,
            if sell_in < 1 && quality > 1 {
                quality - 2
            } else if quality > 0 {
                quality - 1
            } else {
                0
            },
        ),
    }
}

/// Both components of the advanced pair stay inside the i32 range.
/// This is the only precondition a tick has: the update itself is total.
pub open spec fn advance_fits(kind: ItemType, sell_in: int, quality: int) -> bool {
    let next = spec_advance(kind, sell_in, quality);
    i32::MIN <= next.0 <= i32::MAX && i32::MIN <= next.1 <= i32::MAX
}

impl ItemType {
    /// Advance one (sell-in, quality) pair by one day under this category's rule.
    pub fn update_quality(&self, sell_in: i32, quality: i32) -> (r: (i32, i32))
        requires
            advance_fits(*self, sell_in as int, quality as int),
        ensures
            r.0 == spec_advance(*self, sell_in as int, quality as int).0,
            r.1 == spec_advance(*self, sell_in as int, quality as int).1,
    {
        match *self {
            ItemType::AgedBrie => (
                sell_in - 1,
                if quality < 50 {
                    quality + 1
                } else {
                    quality
                },
            ),
            ItemType::Backstage => (
                sell_in - 1,
                if 1 <= sell_in && sell_in <= 5 {
                    quality + 3
                } else if 6 <= sell_in && sell_in <= 10 {
                    quality + 2
                } else if sell_in == 0 {
                    0
                } else {
                    quality + 1
                },
            ),
            ItemType::Sulfuras => (sell_in, quality),
            ItemType::Normal => (
                sell_in - 1,
                if sell_in < 1 && quality > 1 {
                    quality - 2
                } else if quality > 0 {
                    quality - 1
                } else {
                    0
                },
            ),
        }
    }
}

impl Default for ItemType {
    /// The catch-all category.
    fn default() -> (r: Self)
        ensures
            r == ItemType::Normal,
    {
        ItemType::Normal
    }
}

/// The category a name maps to: three exact labels are special, every
/// other name is a normal item. The match is case-sensitive and exact.
pub open spec fn spec_kind_of_name(name: Seq<char>) -> ItemType {
    if name == "Aged Brie"@ {
        ItemType::AgedBrie
    } else if name == "Sulfuras, Hand of Ragnaros"@ {
        ItemType::Sulfuras
    } else if name == "Backstage passes to a TAFKAL80ETC concert"@ {
        ItemType::Backstage
    } else {
        ItemType::Normal
    }
}

impl core::convert::From<String> for ItemType {
    /// Derive the category from a name, with `Normal` as the catch-all.
    fn from(kind: String) -> (r: Self) {
        if kind == "Aged Brie".to_owned() {
            ItemType::AgedBrie
        } else if kind == "Sulfuras, Hand of Ragnaros".to_owned() {
            ItemType::Sulfuras
        } else if kind == "Backstage passes to a TAFKAL80ETC concert".to_owned() {
            ItemType::Backstage
        } else {
            ItemType::Normal
        }
    }
}

impl vstd::std_specs::convert::FromSpecImpl<String> for ItemType {
    open spec fn obeys_from_spec() -> bool {
        true
    }

    open spec fn from_spec(v: String) -> ItemType {
        spec_kind_of_name(v@)
    }
}

/// One inventory item: a category fixed at construction, a free-text name,
/// and the two counters the daily tick rewrites.
pub struct Item {
    pub kind: ItemType,
    pub name: String,
    pub sell_in: i32,
    pub quality: i32,
}

impl Item {
    /// Construct an item; the category is derived from the name once, here.
    pub fn new(name: &str, sell_in: i32, quality: i32) -> (item: Item)
        ensures
            item.name@ == name@,
            item.sell_in == sell_in,
            item.quality == quality,
            item.kind == spec_kind_of_name(name@),
    {
        let name = name.to_owned();
        Item { kind: ItemType::from(name.clone()), name, sell_in, quality }
    }

    /// Advance this item by one day, in place. The name and the category
    /// are untouched; the counters follow the category's rule.
    pub fn update_quality(&mut self)
        requires
            advance_fits(
                old(self).kind,
                old(self).sell_in as int,
                old(self).quality as int,
            ),
        ensures
            final(self).kind == old(self).kind,
            final(self).name == old(self).name,
            final(self).sell_in == spec_advance(
                old(self).kind,
                old(self).sell_in as int,
                old(self).quality as int,
            ).0,
            final(self).quality == spec_advance(
                old(self).kind,
                old(self).sell_in as int,
                old(self).quality as int,
            ).1,
    {
        let kind = self.kind;
        let (sell_in, quality): (i32, i32) = kind.update_quality(self.sell_in, self.quality);
        self.sell_in = sell_in;
        self.quality = quality;
    }
}

impl Default for Item {
    /// An unnamed normal item with both counters at zero.
    fn default() -> (r: Self)
        ensures
            r.kind == ItemType::Normal,
            r.name@ == Seq::<char>::empty(),
            r.sell_in == 0,
            r.quality == 0,
    {
        Item { kind: ItemType::Normal, name: String::new(), sell_in: 0, quality: 0 }
    }
}

/// The display form of an item: its name and its two counters, separated
/// by a comma and a space, with no other decoration.
pub open spec fn spec_item_text(item: Item) -> Seq<char> {
    item.name@ + ", "@ + spec_int_decimal(item.sell_in as int) + ", "@ + spec_int_decimal(
        item.quality as int,
    )
}

impl Item {
    /// This item rendered as "<name>, <countdown>, <quality>".
    pub fn display_string(&self) -> (r: String)
        ensures
            r@ == spec_item_text(*self),
    {
        let mut r = self.name.clone();
        r.append(", ");
        let sell_in = i32_decimal(self.sell_in);
        r.append(sell_in.as_str());
        r.append(", ");
        let quality = i32_decimal(self.quality);
        r.append(quality.as_str());
        proof {
            assert(r@ =~= spec_item_text(*self));
        }
        r
    }
}

/// The advanced pair of this item's state fits in i32, so the item can tick.
pub open spec fn item_fits(item: Item) -> bool {
    advance_fits(item.kind, item.sell_in as int, item.quality as int)
}

/// `next` is `prev` one day later: same category and name, counters stepped.
pub open spec fn spec_item_advanced(prev: Item, next: Item) -> bool {
    let stepped = spec_advance(prev.kind, prev.sell_in as int, prev.quality as int);
    &&& next.kind == prev.kind
    &&& next.name == prev.name
    &&& next.sell_in == stepped.0
    &&& next.quality == stepped.1
}

/// An ordered sequence of items, ticked in place once per day.
pub struct GildedRose {
    pub items: Vec<Item>,
}

impl GildedRose {
    pub fn new(items: Vec<Item>) -> (r: GildedRose)
        ensures
            r.items == items,
    {
        GildedRose { items }
    }

    /// One day tick: advance every item once, in sequence order. No item
    /// is added, removed or reordered.
    pub fn update_quality(&mut self)
        requires
            forall|i: int|
                0 <= i < old(self).items@.len() ==> item_fits(#[trigger] old(self).items@[i]),
        ensures
            final(self).items@.len() == old(self).items@.len(),
            forall|i: int|
                0 <= i < old(self).items@.len() ==> spec_item_advanced(
                    old(self).items@[i],
                    #[trigger] final(self).items@[i],
                ),
    {
        let n: usize = self.items.len();
        let mut i: usize = 0;
        while i < n
            invariant
                i <= n,
                n == old(self).items@.len(),
                self.items@.len() == n,
                forall|j: int| 0 <= j < n ==> item_fits(#[trigger] old(self).items@[j]),
                forall|j: int|
                    0 <= j < i ==> spec_item_advanced(
                        old(self).items@[j],
                        #[trigger] self.items@[j],
                    ),
                forall|j: int| i <= j < n ==> #[trigger] self.items@[j] == old(self).items@[j],
            decreases n - i,
        {
            let item: &mut Item = &mut self.items[i];
            item.update_quality();
            i = i + 1;
        }
    }
}

/// Legendary items never age: for any countdown and quality, one tick
/// returns both unchanged.
pub proof fn lemma_legendary_unchanged(sell_in: int, quality: int)
    ensures
        spec_advance(ItemType::Sulfuras, sell_in, quality) == (sell_in, quality),
{
}

/// An appreciating item below the quality cap gains exactly one quality
/// point per tick while its countdown drops by exactly one.
pub proof fn lemma_appreciating_gains_below_cap(sell_in: int, quality: int)
    requires
        quality < 50,
    ensures
        spec_advance(ItemType::AgedBrie, sell_in, quality) == (sell_in - 1, quality + 1),
{
}

/// An appreciating item at or above the quality cap keeps its quality
/// unchanged per tick; only the countdown drops.
pub proof fn lemma_appreciating_holds_at_cap(sell_in: int, quality: int)
    requires
        quality >= 50,
    ensures
        spec_advance(ItemType::AgedBrie, sell_in, quality) == (sell_in - 1, quality),
{
}

/// A standard item past due (countdown at or below zero) with quality
/// above one loses exactly two quality points per tick, and never drops
/// below zero doing so.
pub proof fn lemma_standard_past_due_drops_two(sell_in: int, quality: int)
    requires
        sell_in <= 0,
        quality > 1,
    ensures
        spec_advance(ItemType::Normal, sell_in, quality) == (sell_in - 1, quality - 2),
        spec_advance(ItemType::Normal, sell_in, quality).1 >= 0,
{
}

/// A standard item with zero quality stays at zero quality, whatever its
/// countdown.
pub proof fn lemma_standard_zero_quality_stays(sell_in: int)
    ensures
        spec_advance(ItemType::Normal, sell_in, 0).1 == 0,
{
}

/// Inside the nominal [0, 50] quality band, a standard or appreciating
/// tick keeps quality inside the band. (Event passes can leave the band
/// upward: their increments are deliberately not capped.)
pub proof fn lemma_quality_band_preserved(kind: ItemType, sell_in: int, quality: int)
    requires
        0 <= quality <= 50,
        kind == ItemType::Normal || kind == ItemType::AgedBrie,
    ensures
        0 <= spec_advance(kind, sell_in, quality).1 <= 50,
{
}

/// An event pass gains three quality points when the pre-tick countdown
/// is in [1, 5], two when it is in [6, 10], drops to exactly zero when the
/// countdown is zero, and gains one point otherwise; the countdown always
/// drops by one.
pub proof fn lemma_event_pass_schedule(sell_in: int, quality: int)
    ensures
        spec_advance(ItemType::Backstage, sell_in, quality).0 == sell_in - 1,
        1 <= sell_in <= 5 ==> spec_advance(ItemType::Backstage, sell_in, quality).1 == quality
            + 3,
        6 <= sell_in <= 10 ==> spec_advance(ItemType::Backstage, sell_in, quality).1 == quality
            + 2,
        sell_in == 0 ==> spec_advance(ItemType::Backstage, sell_in, quality).1 == 0,
        sell_in <= -1 || sell_in >= 11 ==> spec_advance(ItemType::Backstage, sell_in, quality).1
            == quality + 1,
{
}

} // verus!
