//! The shop: finding items by name, buying them, and the pages that list them.
use vstd::prelude::*;

use crate::bignum::BigNat;
use crate::display::{members_text, multiplier_text, show_members, show_multiplier};
use crate::items::{
    count_text, get_item, is_catalogue_entry, is_known_item, item_base_price, item_description,
    item_income, item_multiplier, item_name, item_only_one, price_of, shop_item, shop_order, Item,
    ItemId, SHOP_ITEM_COUNT,
};
use crate::leaderboard::PageNav;
use crate::numfmt::{decimal, decimal_string};
use crate::player::Player;
use crate::text::{contains_text, lowercase, text_contains, to_lowercase};

verus! {

broadcast use vstd::std_specs::hash::group_hash_axioms;

/// The item at shop position `pos` matches `query`: its name contains the
/// query, both taken in lower case.
pub open spec fn shop_item_matches(query: Seq<char>, pos: int) -> bool {
    text_contains(lowercase(item_name(shop_order()[pos])), lowercase(query))
}

/// The items among the first `k` shop positions that match `query`, in shop order.
pub open spec fn matches_before(query: Seq<char>, k: nat) -> Seq<u32>
    decreases k,
{
    if k == 0 {
        Seq::empty()
    } else {
        let rest = matches_before(query, (k - 1) as nat);
        if shop_item_matches(query, k - 1) {
            rest.push(shop_order()[k - 1])
        } else {
            rest
        }
    }
}

/// The shop items that match `query`, in shop order.
pub open spec fn shop_matches(query: Seq<char>) -> Seq<u32> {
    matches_before(query, 14)
}

/// The numbers of the items.
pub open spec fn item_numbers(ids: Seq<ItemId>) -> Seq<u32> {
    ids.map_values(|id: ItemId| id.0)
}

/// The shop items whose names contain `query`, ignoring case, in shop order.
pub fn matching_shop_items(query: &str) -> (ids: Vec<ItemId>)
    ensures
        item_numbers(ids@) == shop_matches(query@),
        forall|k: int| 0 <= k < ids@.len() ==> is_known_item((#[trigger] ids@[k]).0),
        forall|p: int|
            0 <= p < 14 ==> (item_numbers(ids@).contains(#[trigger] shop_order()[p])
                <==> text_contains(lowercase(item_name(shop_order()[p])), lowercase(query@))),
{
    let wanted = to_lowercase(query);
    let mut ids: Vec<ItemId> = Vec::new();
    let mut i: usize = 0;
    while i < SHOP_ITEM_COUNT
        invariant
            i <= SHOP_ITEM_COUNT,
            wanted@ == lowercase(query@),
            item_numbers(ids@) == matches_before(query@, i as nat),
            forall|k: int| 0 <= k < ids@.len() ==> is_known_item((#[trigger] ids@[k]).0),
        decreases SHOP_ITEM_COUNT - i,
    {
        let id = shop_item(i);
        let item = get_item(id);
        let name = to_lowercase(item.name);
        let ghost before = ids@;
        if contains_text(name.as_str(), wanted.as_str()) {
            ids.push(id);
            assert(item_numbers(ids@) == item_numbers(before).push(id.0));
        }
        i = i + 1;
    }
    assert forall|p: int| 0 <= p < 14 implies (item_numbers(ids@).contains(
        #[trigger] shop_order()[p],
    ) <==> text_contains(lowercase(item_name(shop_order()[p])), lowercase(query@))) by {
        crate::laws::lemma_search_finds_names_containing(query@, p);
    }
    ids
}

/// What a search of the shop by name found.
pub enum ItemSearch {
    NotFound,
    Ambiguous,
    Found(ItemId),
}

/// The single shop item whose name contains `query` (ignoring case); no
/// item, or more than one, is reported as such.
pub fn find_shop_item(query: &str) -> (r: ItemSearch)
    ensures
        shop_matches(query@).len() == 0 <==> r is NotFound,
        shop_matches(query@).len() > 1 <==> r is Ambiguous,
        r matches ItemSearch::Found(id) ==> shop_matches(query@) == seq![id.0] && is_known_item(id.0),
{
    let ids = matching_shop_items(query);
    if ids.len() == 0 {
        ItemSearch::NotFound
    } else if ids.len() > 1 {
        ItemSearch::Ambiguous
    } else {
        assert(item_numbers(ids@) =~= seq![ids@[0].0]);
        ItemSearch::Found(ids[0])
    }
}

/// Suggestions for a partly typed item name: the names of the first 25 shop
/// items that match it.
pub fn autocomplete_shop_item(partial: &str) -> (names: Vec<&'static str>)
    ensures
        names@.len() == (if shop_matches(partial@).len() < 25 {
            shop_matches(partial@).len()
        } else {
            25
        }),
        forall|k: int|
            0 <= k < names@.len() ==> (#[trigger] names@[k])@ == item_name(shop_matches(partial@)[k]),
{
    let ids = matching_shop_items(partial);
    let mut names: Vec<&'static str> = Vec::new();
    let mut k: usize = 0;
    while k < ids.len() && k < 25
        invariant
            k <= ids@.len(),
            k <= 25,
            item_numbers(ids@) == shop_matches(partial@),
            forall|x: int| 0 <= x < ids@.len() ==> is_known_item((#[trigger] ids@[x]).0),
            names@.len() == k,
            forall|x: int|
                0 <= x < k ==> (#[trigger] names@[x])@ == item_name(shop_matches(partial@)[x]),
        decreases ids@.len() - k,
    {
        assert(is_known_item(ids@[k as int].0));
        let item = get_item(ids[k]);
        assert(shop_matches(partial@)[k as int] == ids@[k as int].0);
        names.push(item.name);
        k = k + 1;
    }
    names
}

/// The total price of `count` more of item `id` for a player who owns
/// `owned`: the prices of the `owned`-th to the `(owned + count - 1)`-th.
pub open spec fn price_total(id: u32, owned: nat, count: nat) -> nat
    decreases count,
{
    if count == 0 {
        0
    } else {
        price_total(id, owned, (count - 1) as nat) + price_of(
            item_base_price(id) as nat,
            item_only_one(id),
            (owned + count - 1) as nat,
        )
    }
}

/// What came of an attempt to buy.
pub enum BuyOutcome {
    /// The item is only-one and the player would end up with more than one.
    TooGreedy { owned: u32 },
    /// The player paid `price` members.
    Bought { price: BigNat },
    /// The player has fewer than the `price` members.
    TooExpensive { price: BigNat },
}

/// The number of items that a purchase asks for: 1 unless given.
pub open spec fn requested(count: Option<u32>) -> nat {
    match count {
        Some(c) => c as nat,
        None => 1,
    }
}

/// The number of items that a purchase asks for: 1 unless given.
pub fn count_to_buy(count: Option<u32>) -> (n: u32)
    ensures
        n == requested(count),
{
    match count {
        Some(c) => c,
        None => 1,
    }
}

/// Buys `count` (default 1) of `item` for `player`, if the player may own
/// that many and can pay for them. A purchase takes the total price from the
/// balance and adds the items; otherwise the player is unchanged.
pub fn buy(player: &mut Player, item: ItemId, count: Option<u32>) -> (outcome: BuyOutcome)
    requires
        old(player).wf(),
        is_known_item(item.0),
        old(player).count(item.0) + requested(count) <= u32::MAX,
    ensures
        final(player).wf(),
        ({
            let owned = old(player).count(item.0);
            let wanted = requested(count);
            if wanted + owned > 1 && item_only_one(item.0) {
                &&& outcome matches BuyOutcome::TooGreedy { owned: o } && o == owned
                &&& *final(player) == *old(player)
            } else if price_total(item.0, owned, wanted) <= old(player).balance@ {
                &&& outcome matches BuyOutcome::Bought { price } && price@ == price_total(
                    item.0,
                    owned,
                    wanted,
                )
                &&& final(player).balance@ == old(player).balance@ - price_total(
                    item.0,
                    owned,
                    wanted,
                )
                &&& final(player).item_counts@ == old(player).item_counts@.insert(
                    item.0,
                    (owned + wanted) as u32,
                )
                &&& final(player).discord_id == old(player).discord_id
                &&& final(player).name == old(player).name
                &&& final(player).balance_last_updated == old(player).balance_last_updated
                &&& final(player).last_shilled_at == old(player).last_shilled_at
            } else {
                &&& outcome matches BuyOutcome::TooExpensive { price } && price@ == price_total(
                    item.0,
                    owned,
                    wanted,
                )
                &&& *final(player) == *old(player)
            }
        }),
{
    let the_item = get_item(item);
    let count_to_buy: u32 = count_to_buy(count);
    let count_owned = player.item_count(item);
    if count_to_buy + count_owned > 1 && the_item.only_one {
        return BuyOutcome::TooGreedy { owned: count_owned };
    }
    let end = count_owned + count_to_buy;
    let mut price = BigNat::zero();
    let mut n = count_owned;
    while n < end
        invariant
            count_owned <= n <= end,
            end == count_owned + count_to_buy,
            is_catalogue_entry(the_item, item.0),
            price@ == price_total(item.0, count_owned as nat, (n - count_owned) as nat),
        decreases end - n,
    {
        price = price.add(&the_item.price_of_nth(n));
        n = n + 1;
    }
    if price.le(&player.balance) {
        player.balance = player.balance.sub(&price);
        player.item_counts.insert(item.0, end);
        BuyOutcome::Bought { price }
    } else {
        BuyOutcome::TooExpensive { price }
    }
}

/// The reply when no item matches the name asked for.
pub fn not_found_reply(query: &str) -> (reply: String)
    ensures
        reply@ == "Couldn't find item '"@ + query@
            + "'. Use `/shop browse` to see a list of valid item names."@,
{
    let mut reply = String::from_str("Couldn't find item '");
    reply.append(query);
    reply.append("'. Use `/shop browse` to see a list of valid item names.");
    reply
}

/// The reply when several items match the name asked for.
pub fn ambiguous_reply(query: &str) -> (reply: String)
    ensures
        reply@ == "Ambiguous item name '"@ + query@
            + "'. Use `/shop browse` to see a list of valid item names."@,
{
    let mut reply = String::from_str("Ambiguous item name '");
    reply.append(query);
    reply.append("'. Use `/shop browse` to see a list of valid item names.");
    reply
}

/// The reply to an attempt to buy `count` of `item`, given the outcome and
/// the player as it stands afterwards.
pub open spec fn buy_reply_text(item: Item, count: nat, outcome: BuyOutcome, player: Player) -> Seq<char> {
    match outcome {
        BuyOutcome::TooGreedy { owned } => "Don't be greedy. Only **1** "@ + item.name@
            + " is available (you already have **"@ + decimal(owned as nat) + "**)."@,
        BuyOutcome::Bought { price } => "You sacrificed **"@ + members_text(price@) + "** to purchase **"@
            + count_text(item.name@, item.only_one, count) + "**.\n-# Now you have **"@
            + members_text(player.balance@) + "** and +"@ + members_text(player.income()) + "/sec."@,
        BuyOutcome::TooExpensive { price } => "You don't have enough sacrifices for that >:[\n**"@
            + count_text(item.name@, item.only_one, count) + "** costs **"@ + members_text(price@)
            + "**, but you only have **"@ + members_text(player.balance@) + "**."@,
    }
}

/// The reply to an attempt to buy `count` of `item`.
pub fn buy_reply(item: &Item, count: u32, outcome: &BuyOutcome, player: &Player) -> (reply: String)
    requires
        player.wf(),
    ensures
        reply@ == buy_reply_text(*item, count as nat, *outcome, *player),
{
    match outcome {
        BuyOutcome::TooGreedy { owned } => {
            let mut reply = String::from_str("Don't be greedy. Only **1** ");
            reply.append(item.name);
            reply.append(" is available (you already have **");
            reply.append(decimal_string(*owned as u64).as_str());
            reply.append("**).");
            reply
        },
        BuyOutcome::Bought { price } => {
            let mut reply = String::from_str("You sacrificed **");
            reply.append(show_members(price).as_str());
            reply.append("** to purchase **");
            reply.append(item.show_count(count).as_str());
            reply.append("**.\n-# Now you have **");
            reply.append(show_members(&player.balance).as_str());
            reply.append("** and +");
            reply.append(show_members(&player.income_per_tick()).as_str());
            reply.append("/sec.");
            reply
        },
        BuyOutcome::TooExpensive { price } => {
            let mut reply = String::from_str("You don't have enough sacrifices for that >:[\n**");
            reply.append(item.show_count(count).as_str());
            reply.append("** costs **");
            reply.append(show_members(price).as_str());
            reply.append("**, but you only have **");
            reply.append(show_members(&player.balance).as_str());
            reply.append("**.");
            reply
        },
    }
}

/// Items listed on one page of the shop.
pub const ITEMS_PER_PAGE: usize = 5;

/// Number of pages of the shop.
pub fn shop_page_count() -> (n: usize)
    ensures
        n == 3,
{
    (SHOP_ITEM_COUNT + ITEMS_PER_PAGE - 1) / ITEMS_PER_PAGE
}

/// The heading of an item's entry in the shop: its name and the price of the
/// next one, e.g. `Poster [8 members]`.
pub open spec fn field_title_text(id: u32, owned: nat) -> Seq<char> {
    item_name(id) + " ["@ + members_text(price_of(item_base_price(id) as nat, item_only_one(id), owned)) + "]"@
}

/// The description of an item with what it brings, before any mark of ownership.
pub open spec fn item_blurb(id: u32) -> Seq<char> {
    item_description(id) + (if item_only_one(id) {
        " Only **1** available."@
    } else {
        Seq::empty()
    }) + (match item_income(id) {
        Some(x) => " **"@ + members_text(x as nat) + "/sec**"@,
        None => Seq::empty(),
    }) + (match item_multiplier(id) {
        Some(m) => " **"@ + multiplier_text(m as nat) + " members from shilling**"@,
        None => Seq::empty(),
    })
}

/// The body of an item's entry in the shop: its blurb, struck through when an
/// only-one item is already owned, and a line saying how many the player owns.
pub open spec fn field_body_text(id: u32, owned: nat) -> Seq<char> {
    let struck = if item_only_one(id) && owned > 0 {
        "~~"@ + item_blurb(id) + "~~"@
    } else {
        item_blurb(id)
    };
    if owned != 0 {
        if item_only_one(id) {
            struck + "\n-# You already own "@ + item_name(id)
        } else {
            struck + "\n-# You own: "@ + count_text(item_name(id), false, owned)
        }
    } else {
        struck
    }
}

/// The heading of an item's entry in the shop.
pub fn render_field_title(item: &Item, owned: u32) -> (title: String)
    requires
        is_catalogue_entry(*item, item.id.0),
    ensures
        title@ == field_title_text(item.id.0, owned as nat),
{
    let mut title = String::from_str(item.name);
    title.append(" [");
    title.append(show_members(&item.price_of_nth(owned)).as_str());
    title.append("]");
    title
}

/// The body of an item's entry in the shop.
pub fn render_field_body(item: &Item, owned: u32) -> (body: String)
    requires
        is_catalogue_entry(*item, item.id.0),
    ensures
        body@ == field_body_text(item.id.0, owned as nat),
{
    let mut body = String::from_str(item.description);
    if item.only_one {
        body.append(" Only **1** available.");
    }
    match item.income_per_tick {
        Some(income) => {
            body.append(" **");
            body.append(show_members(&BigNat::from_u64(income as u64)).as_str());
            body.append("/sec**");
        },
        None => {},
    }
    match item.shill_multiplier {
        Some(mult) => {
            body.append(" **");
            body.append(show_multiplier(&BigNat::from_u64(mult as u64)).as_str());
            body.append(" members from shilling**");
        },
        None => {},
    }
    if item.only_one && owned > 0 {
        let mut struck = String::from_str("~~");
        struck.append(body.as_str());
        struck.append("~~");
        body = struck;
    }
    if owned != 0 {
        if item.only_one {
            body.append("\n-# You already own ");
            body.append(item.name);
        } else {
            body.append("\n-# You own: ");
            body.append(item.show_count(owned).as_str());
        }
    }
    body
}

/// The state behind a shop navigation button: who may press it, and the
/// page it shows.
pub struct ShopPage {
    pub user: u64,
    pub page: usize,
}

/// The title of shop page `page` (counting from 0).
pub open spec fn shop_title_text(page: nat) -> Seq<char> {
    "Advertisement Broker (page "@ + decimal(page + 1) + " of "@ + decimal(3) + ")"@
}

/// The line above the shop's items.
pub open spec fn shop_description_text(balance: nat) -> Seq<char> {
    "Sacrifice some of your **"@ + members_text(balance) + "** to us in exchange for the promotions below..."@
}

impl ShopPage {
    /// Whether `user` may press this button: only the player who opened the
    /// shop may page through it.
    pub fn accepts(&self, user: u64) -> (ok: bool)
        ensures
            ok == (user == self.user),
    {
        user == self.user
    }

    /// The shop positions listed on this page: five per page, fewer on the
    /// last, none past the end.
    pub fn items_on_page(&self) -> (ids: Vec<ItemId>)
        requires
            self.page * ITEMS_PER_PAGE <= usize::MAX,
        ensures
            ids@.len() == (if self.page * 5 >= 14 {
                0
            } else if 14 - self.page * 5 < 5 {
                14 - self.page * 5
            } else {
                5
            }),
            forall|k: int|
                0 <= k < ids@.len() ==> (#[trigger] ids@[k]).0 == shop_order()[self.page * 5 + k],
    {
        let start = self.page * ITEMS_PER_PAGE;
        let mut ids: Vec<ItemId> = Vec::new();
        if start >= SHOP_ITEM_COUNT {
            return ids;
        }
        let mut i = start;
        while i < SHOP_ITEM_COUNT && i < start + ITEMS_PER_PAGE
            invariant
                start == self.page * 5,
                start < 14,
                start <= i,
                i <= 14,
                i <= start + 5,
                ids@.len() == i - start,
                forall|k: int| 0 <= k < ids@.len() ==> (#[trigger] ids@[k]).0 == shop_order()[start + k],
            decreases SHOP_ITEM_COUNT - i,
        {
            ids.push(shop_item(i));
            i = i + 1;
        }
        ids
    }

    /// The entries of this page: for each item its heading and body, given
    /// what `player` owns.
    pub fn render_fields(&self, player: &Player) -> (fields: Vec<(String, String)>)
        requires
            self.page * ITEMS_PER_PAGE <= usize::MAX,
        ensures
            fields@.len() == (if self.page * 5 >= 14 {
                0
            } else if 14 - self.page * 5 < 5 {
                14 - self.page * 5
            } else {
                5
            }),
            forall|k: int|
                0 <= k < fields@.len() ==> {
                    let id = shop_order()[self.page * 5 + k];
                    &&& (#[trigger] fields@[k]).0@ == field_title_text(id, player.count(id))
                    &&& fields@[k].1@ == field_body_text(id, player.count(id))
                },
    {
        let ids = self.items_on_page();
        let mut fields: Vec<(String, String)> = Vec::new();
        let mut k: usize = 0;
        while k < ids.len()
            invariant
                k <= ids@.len(),
                ids@.len() > 0 ==> self.page * 5 + ids@.len() <= 14,
                forall|x: int| 0 <= x < ids@.len() ==> (#[trigger] ids@[x]).0 == shop_order()[self.page * 5 + x],
                fields@.len() == k,
                forall|x: int|
                    0 <= x < k ==> {
                        let id = shop_order()[self.page * 5 + x];
                        &&& (#[trigger] fields@[x]).0@ == field_title_text(id, player.count(id))
                        &&& fields@[x].1@ == field_body_text(id, player.count(id))
                    },
            decreases ids@.len() - k,
        {
            let id = ids[k];
            assert(shop_order().contains(id.0) ==> is_known_item(id.0));
            assert(is_known_item(shop_order()[self.page * 5 + k]));
            let item = get_item(id);
            let owned = player.item_count(id);
            fields.push((render_field_title(&item, owned), render_field_body(&item, owned)));
            k = k + 1;
        }
        fields
    }

    /// The title of this page; pages are shown counting from 1.
    pub fn render_title(&self) -> (title: String)
        requires
            self.page < usize::MAX,
        ensures
            title@ == shop_title_text(self.page as nat),
    {
        let mut title = String::from_str("Advertisement Broker (page ");
        title.append(decimal_string((self.page + 1) as u64).as_str());
        title.append(" of ");
        title.append(decimal_string(shop_page_count() as u64).as_str());
        title.append(")");
        title
    }

    /// The previous/next buttons below the page. The previous button is
    /// greyed out on the first page, the next one once no items remain.
    pub fn render_buttons(&self) -> (nav: PageNav)
        requires
            (self.page + 1) * ITEMS_PER_PAGE <= usize::MAX,
        ensures
            nav.prev_page == (if self.page == 0 { 0 } else { self.page - 1 }),
            nav.prev_disabled == (self.page == 0),
            nav.next_page == self.page + 1,
            nav.next_disabled == (14 <= (self.page + 1) * 5),
    {
        PageNav {
            prev_page: self.page.saturating_sub(1),
            prev_disabled: self.page == 0,
            next_page: self.page + 1,
            next_disabled: SHOP_ITEM_COUNT <= (self.page + 1) * ITEMS_PER_PAGE,
        }
    }
}

/// The line above the shop's items.
pub fn render_shop_description(player: &Player) -> (text: String)
    ensures
        text@ == shop_description_text(player.balance@),
{
    let mut text = String::from_str("Sacrifice some of your **");
    text.append(show_members(&player.balance).as_str());
    text.append("** to us in exchange for the promotions below...");
    text
}

} // verus!
