//! The catalogue of advertisements that players can buy, and what each
//! one costs and earns.
use vstd::arithmetic::power::{lemma_pow_positive, pow};
use vstd::prelude::*;

use crate::bignum::{u32_formatted_en, BigNat};
use crate::numfmt::grouped_decimal;

verus! {

/// Identifies an item of the catalogue.
#[derive(Debug, Clone, Copy, PartialEq, Eq, Structural, Hash)]
pub struct ItemId(pub u32);

/// An advertisement that players can buy.
pub struct Item {
    pub id: ItemId,
    pub name: &'static str,
    pub description: &'static str,
    /// Price of the first one bought.
    pub base_price: u64,
    /// Members gained per second for each one owned.
    pub income_per_tick: Option<u32>,
    /// Factor applied to shilling for each one owned.
    pub shill_multiplier: Option<u32>,
    /// Whether a player may own at most one.
    pub only_one: bool,
}

/// The catalogue holds the items numbered 0 to 13.
pub open spec fn is_known_item(id: u32) -> bool {
    id <= 13
}

/// Number of items in the catalogue and in the shop.
pub const SHOP_ITEM_COUNT: usize = 14;

/// The order in which the shop lists the items.
pub open spec fn shop_order() -> Seq<u32> {
    seq![0, 1, 11, 2, 3, 4, 5, 12, 6, 7, 8, 13, 9, 10]
}

/// Name of item `id`.
pub open spec fn item_name(id: u32) -> Seq<char> {
    if id == 0 {
        "Poster"@
    } else if id == 1 {
        "Fresher"@
    } else if id == 2 {
        "JoPonting"@
    } else if id == 3 {
        "Careers Talk"@
    } else if id == 4 {
        "PizzaSoc"@
    } else if id == 5 {
        "Whiteboard Art"@
    } else if id == 6 {
        "Boardgame Night"@
    } else if id == 7 {
        "Stroopwafel"@
    } else if id == 8 {
        "STEM Social"@
    } else if id == 9 {
        "Ice Skating"@
    } else if id == 10 {
        "One-way Tescalator"@
    } else if id == 11 {
        "Glowup"@
    } else if id == 12 {
        "Departmental Endorsement"@
    } else {
        "Switch pizzeria"@
    }
}

/// Description of item `id`.
pub open spec fn item_description(id: u32) -> Seq<char> {
    if id == 0 {
        "Put a flimsy poster up in the UGSA. Hope that no-one repurposes it for their problem sheet scribbles."@
    } else if id == 1 {
        "Pay off an enthusiastic fresher to invite their friends at every opportunity. One or two might even show up."@
    } else if id == 2 {
        "Occasional mentions in the footer of Jo Ponting's emails. You are breaking in to the department's consciousness."@
    } else if id == 3 {
        "Convince an unsuspecting corporation that SompCoc can get them the exposure they need. Convince some equally unsuspecting CSers that this will be useful."@
    } else if id == 4 {
        "You don't need to be interesting if you're serving free dinner. Be prepared for pizza-supplier flame wars."@
    } else if id == 5 {
        "More compelling than a poster could ever be. Requires redrawing frequently."@
    } else if id == 6 {
        "Ensnare innocents who showed up for Uno in a board game with Turing-complete mechanics and uncertain termination. The perfect trap."@
    } else if id == 7 {
        "The pinnacle of UGSA snacking with a price point to match. It is rumoured that non-empty packets exist, but a sighting has never been confirmed."@
    } else if id == 8 {
        "Piggyback off a more respectable science for exposure. Try not to put them off too much."@
    } else if id == 9 {
        "It's the superior sport, who wouldn't show up? And one you've got them on the ice, they're helpless..."@
    } else if id == 10 {
        "What's at the bottom? Nobody knows. But those members aren't leaving any time soon."@
    } else if id == 11 {
        "People pay more attention to attractive people. Get more attractive so you can shill better."@
    } else if id == 12 {
        "Trust me, the credibility boost is worth it. Now your shilling will look a little less silly."@
    } else {
        "To the better one."@
    }
}

/// Price of the first item `id` bought.
pub open spec fn item_base_price(id: u32) -> u64 {
    if id == 0 {
        8
    } else if id == 1 {
        180
    } else if id == 2 {
        920
    } else if id == 3 {
        6600
    } else if id == 4 {
        50000
    } else if id == 5 {
        120000
    } else if id == 6 {
        530000
    } else if id == 7 {
        2110000
    } else if id == 8 {
        34000000
    } else if id == 9 {
        240000000
    } else if id == 10 {
        8000000000
    } else if id == 11 {
        3000
    } else if id == 12 {
        333333
    } else {
        123000000
    }
}

/// Members per second that one item `id` earns, if it earns any.
pub open spec fn item_income(id: u32) -> Option<u32> {
    if id == 0 {
        Some(1)
    } else if id == 1 {
        Some(9)
    } else if id == 2 {
        Some(35)
    } else if id == 3 {
        Some(105)
    } else if id == 4 {
        Some(300)
    } else if id == 5 {
        Some(1140)
    } else if id == 6 {
        Some(6183)
    } else if id == 7 {
        Some(37_000)
    } else if id == 8 {
        Some(81_467)
    } else if id == 9 {
        Some(1_000_000)
    } else if id == 10 {
        Some(10_000_000)
    } else if id == 11 {
        None
    } else if id == 12 {
        None
    } else {
        None
    }
}

/// Shilling factor of one item `id`, if it has one.
pub open spec fn item_multiplier(id: u32) -> Option<u32> {
    if id == 0 {
        None
    } else if id == 1 {
        None
    } else if id == 2 {
        None
    } else if id == 3 {
        None
    } else if id == 4 {
        None
    } else if id == 5 {
        None
    } else if id == 6 {
        None
    } else if id == 7 {
        None
    } else if id == 8 {
        None
    } else if id == 9 {
        None
    } else if id == 10 {
        None
    } else if id == 11 {
        Some(500)
    } else if id == 12 {
        Some(50)
    } else {
        Some(321)
    }
}

/// Whether a player may own at most one item `id`.
pub open spec fn item_only_one(id: u32) -> bool {
    if id == 0 {
        false
    } else if id == 1 {
        false
    } else if id == 2 {
        false
    } else if id == 3 {
        false
    } else if id == 4 {
        false
    } else if id == 5 {
        false
    } else if id == 6 {
        false
    } else if id == 7 {
        false
    } else if id == 8 {
        false
    } else if id == 9 {
        false
    } else if id == 10 {
        false
    } else if id == 11 {
        true
    } else if id == 12 {
        true
    } else {
        true
    }
}

/// The shop's price list, in shop order: for each advertisement its number,
/// base price, members per second, shilling factor, and whether only one may
/// be owned.
pub open spec fn price_list() -> Seq<(u32, u64, Option<u32>, Option<u32>, bool)> {
    seq![
        (0u32, 8u64, Some(1u32), None, false),
        (1u32, 180u64, Some(9u32), None, false),
        (11u32, 3000u64, None, Some(500u32), true),
        (2u32, 920u64, Some(35u32), None, false),
        (3u32, 6600u64, Some(105u32), None, false),
        (4u32, 50000u64, Some(300u32), None, false),
        (5u32, 120000u64, Some(1140u32), None, false),
        (12u32, 333333u64, None, Some(50u32), true),
        (6u32, 530000u64, Some(6183u32), None, false),
        (7u32, 2110000u64, Some(37000u32), None, false),
        (8u32, 34000000u64, Some(81467u32), None, false),
        (13u32, 123000000u64, None, Some(321u32), true),
        (9u32, 240000000u64, Some(1000000u32), None, false),
        (10u32, 8000000000u64, Some(10000000u32), None, false),
    ]
}

/// Whether `item` is the catalogue's entry for `id`.
pub open spec fn is_catalogue_entry(item: Item, id: u32) -> bool {
    &&& item.id == ItemId(id)
    &&& item.name@ == item_name(id)
    &&& item.description@ == item_description(id)
    &&& item.base_price == item_base_price(id)
    &&& item.income_per_tick == item_income(id)
    &&& item.shill_multiplier == item_multiplier(id)
    &&& item.only_one == item_only_one(id)
}

/// Members per second that one item `id` earns (0 for an item that earns none).
pub open spec fn income_value(id: u32) -> nat {
    match item_income(id) {
        Some(x) => x as nat,
        None => 0,
    }
}

/// Price of the `n`-th item (counting from 0) of a kind with the given base
/// price: the base price for an only-one item, else the base price times
/// `(23/20)^n`, rounded down.
pub open spec fn price_of(base: nat, only_one: bool, n: nat) -> nat {
    if only_one {
        base
    } else {
        ((base * pow(23, n)) / pow(20, n)) as nat
    }
}

/// The catalogue entry for `id`. The catalogue has no other items.
pub fn get_item(id: ItemId) -> (item: Item)
    requires
        is_known_item(id.0),
    ensures
        is_catalogue_entry(item, id.0),
        forall|p: int|
            0 <= p < 14 && (#[trigger] price_list()[p]).0 == id.0 ==> {
                &&& item.base_price == price_list()[p].1
                &&& item.income_per_tick == price_list()[p].2
                &&& item.shill_multiplier == price_list()[p].3
                &&& item.only_one == price_list()[p].4
            },
{
    proof {
        assert forall|p: int| 0 <= p < 14 && (#[trigger] price_list()[p]).0 == id.0 implies {
            &&& item_base_price(id.0) == price_list()[p].1
            &&& item_income(id.0) == price_list()[p].2
            &&& item_multiplier(id.0) == price_list()[p].3
            &&& item_only_one(id.0) == price_list()[p].4
        } by {
            crate::laws::lemma_catalogue_follows_price_list(p);
        }
    }
    let id = id.0;
    if id == 0 {
        Item {
            id: ItemId(0),
            name: "Poster",
            description: "Put a flimsy poster up in the UGSA. Hope that no-one repurposes it for their problem sheet scribbles.",
            base_price: 8,
            income_per_tick: Some(1),
            shill_multiplier: None,
            only_one: false,
        }
    } else if id == 1 {
        Item {
            id: ItemId(1),
            name: "Fresher",
            description: "Pay off an enthusiastic fresher to invite their friends at every opportunity. One or two might even show up.",
            base_price: 180,
            income_per_tick: Some(9),
            shill_multiplier: None,
            only_one: false,
        }
    } else if id == 2 {
        Item {
            id: ItemId(2),
            name: "JoPonting",
            description: "Occasional mentions in the footer of Jo Ponting's emails. You are breaking in to the department's consciousness.",
            base_price: 920,
            income_per_tick: Some(35),
            shill_multiplier: None,
            only_one: false,
        }
    } else if id == 3 {
        Item {
            id: ItemId(3),
            name: "Careers Talk",
            description: "Convince an unsuspecting corporation that SompCoc can get them the exposure they need. Convince some equally unsuspecting CSers that this will be useful.",
            base_price: 6600,
            income_per_tick: Some(105),
            shill_multiplier: None,
            only_one: false,
        }
    } else if id == 4 {
        Item {
            id: ItemId(4),
            name: "PizzaSoc",
            description: "You don't need to be interesting if you're serving free dinner. Be prepared for pizza-supplier flame wars.",
            base_price: 50000,
            income_per_tick: Some(300),
            shill_multiplier: None,
            only_one: false,
        }
    } else if id == 5 {
        Item {
            id: ItemId(5),
            name: "Whiteboard Art",
            description: "More compelling than a poster could ever be. Requires redrawing frequently.",
            base_price: 120000,
            income_per_tick: Some(1140),
            shill_multiplier: None,
            only_one: false,
        }
    } else if id == 6 {
        Item {
            id: ItemId(6),
            name: "Boardgame Night",
            description: "Ensnare innocents who showed up for Uno in a board game with Turing-complete mechanics and uncertain termination. The perfect trap.",
            base_price: 530000,
            income_per_tick: Some(6183),
            shill_multiplier: None,
            only_one: false,
        }
    } else if id == 7 {
        Item {
            id: ItemId(7),
            name: "Stroopwafel",
            description: "The pinnacle of UGSA snacking with a price point to match. It is rumoured that non-empty packets exist, but a sighting has never been confirmed.",
            base_price: 2110000,
            income_per_tick: Some(37000),
            shill_multiplier: None,
            only_one: false,
        }
    } else if id == 8 {
        Item {
            id: ItemId(8),
            name: "STEM Social",
            description: "Piggyback off a more respectable science for exposure. Try not to put them off too much.",
            base_price: 34000000,
            income_per_tick: Some(81467),
            shill_multiplier: None,
            only_one: false,
        }
    } else if id == 9 {
        Item {
            id: ItemId(9),
            name: "Ice Skating",
            description: "It's the superior sport, who wouldn't show up? And one you've got them on the ice, they're helpless...",
            base_price: 240000000,
            income_per_tick: Some(1000000),
            shill_multiplier: None,
            only_one: false,
        }
    } else if id == 10 {
        Item {
            id: ItemId(10),
            name: "One-way Tescalator",
            description: "What's at the bottom? Nobody knows. But those members aren't leaving any time soon.",
            base_price: 8000000000,
            income_per_tick: Some(10000000),
            shill_multiplier: None,
            only_one: false,
        }
    } else if id == 11 {
        Item {
            id: ItemId(11),
            name: "Glowup",
            description: "People pay more attention to attractive people. Get more attractive so you can shill better.",
            base_price: 3000,
            income_per_tick: None,
            shill_multiplier: Some(500),
            only_one: true,
        }
    } else if id == 12 {
        Item {
            id: ItemId(12),
            name: "Departmental Endorsement",
            description: "Trust me, the credibility boost is worth it. Now your shilling will look a little less silly.",
            base_price: 333333,
            income_per_tick: None,
            shill_multiplier: Some(50),
            only_one: true,
        }
    } else {
        Item {
            id: ItemId(13),
            name: "Switch pizzeria",
            description: "To the better one.",
            base_price: 123000000,
            income_per_tick: None,
            shill_multiplier: Some(321),
            only_one: true,
        }
    }
}

/// The item listed at position `i` of the shop.
pub fn shop_item(i: usize) -> (id: ItemId)
    requires
        i < SHOP_ITEM_COUNT,
    ensures
        id.0 == shop_order()[i as int],
        is_known_item(id.0),
{
    if i == 0 {
        ItemId(0)
    } else if i == 1 {
        ItemId(1)
    } else if i == 2 {
        ItemId(11)
    } else if i == 3 {
        ItemId(2)
    } else if i == 4 {
        ItemId(3)
    } else if i == 5 {
        ItemId(4)
    } else if i == 6 {
        ItemId(5)
    } else if i == 7 {
        ItemId(12)
    } else if i == 8 {
        ItemId(6)
    } else if i == 9 {
        ItemId(7)
    } else if i == 10 {
        ItemId(8)
    } else if i == 11 {
        ItemId(13)
    } else if i == 12 {
        ItemId(9)
    } else {
        ItemId(10)
    }
}

/// The items in the order the shop lists them.
pub fn shop_items() -> (ids: Vec<ItemId>)
    ensures
        ids@.len() == shop_order().len(),
        forall|i: int| 0 <= i < ids@.len() ==> ids@[i].0 == shop_order()[i],
{
    let mut ids: Vec<ItemId> = Vec::new();
    let mut i: usize = 0;
    while i < SHOP_ITEM_COUNT
        invariant
            i <= SHOP_ITEM_COUNT,
            ids@.len() == i,
            forall|j: int| 0 <= j < i ==> ids@[j].0 == shop_order()[j],
        decreases SHOP_ITEM_COUNT - i,
    {
        ids.push(shop_item(i));
        i = i + 1;
    }
    ids
}

/// How `count` items with the given name read: the bare name for an
/// only-one item, else e.g. `1,234× Poster`.
pub open spec fn count_text(name: Seq<char>, only_one: bool, count: nat) -> Seq<char> {
    if only_one {
        name
    } else {
        grouped_decimal(count) + "× "@ + name
    }
}

impl Item {
    /// How a number of these items reads: the bare name for an only-one
    /// item, else e.g. `1,234× Poster`.
    pub fn show_count(&self, count: u32) -> (s: String)
        ensures
            s@ == count_text(self.name@, self.only_one, count as nat),
    {
        if self.only_one {
            String::from_str(self.name)
        } else {
            let mut s = u32_formatted_en(count);
            s.append("× ");
            s.append(self.name);
            s
        }
    }

    /// The price of the `n`-th one of these items (counting from 0).
    pub fn price_of_nth(&self, n: u32) -> (price: BigNat)
        ensures
            price@ == price_of(self.base_price as nat, self.only_one, n as nat),
            self.only_one ==> price@ == self.base_price,
            !self.only_one ==> price@ * pow(20, n as nat) <= self.base_price * pow(23, n as nat),
            !self.only_one ==> self.base_price * pow(23, n as nat) < (price@ + 1) * pow(20, n as nat),
    {
        proof {
            crate::laws::lemma_price_is_scaled_base(self.base_price as nat, n as nat);
        }
        if self.only_one {
            BigNat::from_u64(self.base_price)
        } else {
            let numer = BigNat::from_u64(23).pow(n);
            let denom = BigNat::from_u64(20).pow(n);
            proof {
                lemma_pow_positive(20, n as nat);
                lemma_pow_positive(23, n as nat);
            }
            BigNat::from_u64(self.base_price).mul(&numer).div(&denom)
        }
    }
}

} // verus!
