use std::collections::HashMap;

use sompcoc::bignum::BigNat;
use sompcoc::items::{get_item, ItemId};
use sompcoc::player::{Player, Timestamp};
use sompcoc::shop::{
    ambiguous_reply, autocomplete_shop_item, buy, buy_reply, count_to_buy, find_shop_item,
    matching_shop_items, not_found_reply, render_field_body, render_field_title,
    render_shop_description, shop_page_count, BuyOutcome, ItemSearch, ShopPage,
};

fn value(b: &BigNat) -> u128 {
    let mut v: u128 = 0;
    for d in b.to_digits().iter().rev() {
        v = (v << 32) + (*d as u128);
    }
    v
}

fn player_with(items: &[(u32, u32)], balance: u64) -> Player {
    let mut item_counts = HashMap::new();
    for (id, count) in items {
        item_counts.insert(*id, *count);
    }
    Player {
        discord_id: 1,
        name: "Ada".to_string(),
        balance: BigNat::from_u64(balance),
        balance_last_updated: Timestamp(0),
        last_shilled_at: Timestamp(0),
        item_counts,
    }
}

#[test]
fn search_ignores_case() {
    assert!(matches!(find_shop_item("poster"), ItemSearch::Found(ItemId(0))));
    assert!(matches!(find_shop_item("POSTER"), ItemSearch::Found(ItemId(0))));
    assert!(matches!(find_shop_item("glow"), ItemSearch::Found(ItemId(11))));
    assert!(matches!(find_shop_item("Tescalator"), ItemSearch::Found(ItemId(10))));
    assert!(matches!(find_shop_item("p"), ItemSearch::Ambiguous));
    assert!(matches!(find_shop_item(""), ItemSearch::Ambiguous));
    assert!(matches!(find_shop_item("xyzzy"), ItemSearch::NotFound));
    let ids: Vec<u32> = matching_shop_items("PIZZ").iter().map(|i| i.0).collect();
    assert_eq!(ids, vec![4, 13]);
}

#[test]
fn autocomplete_lists_matching_names_in_shop_order() {
    assert_eq!(
        autocomplete_shop_item("p"),
        vec![
            "Poster",
            "Glowup",
            "JoPonting",
            "PizzaSoc",
            "Departmental Endorsement",
            "Stroopwafel",
            "Switch pizzeria"
        ]
    );
    assert_eq!(autocomplete_shop_item("").len(), 14);
    assert!(autocomplete_shop_item("qqq").is_empty());
}

#[test]
fn buying_takes_the_sum_of_prices() {
    let mut p = player_with(&[(0, 1)], 100);
    match buy(&mut p, ItemId(0), Some(2)) {
        BuyOutcome::Bought { price } => assert_eq!(value(&price), 9 + 10),
        _ => panic!("affordable"),
    }
    assert_eq!(value(&p.balance), 81);
    assert_eq!(p.item_count(ItemId(0)), 3);
    let mut rich = player_with(&[(1, 2)], 1_000);
    match buy(&mut rich, ItemId(1), Some(3)) {
        BuyOutcome::Bought { price } => assert_eq!(value(&price), 238 + 273 + 314),
        _ => panic!("affordable"),
    }
    assert_eq!(rich.item_count(ItemId(1)), 5);
    assert_eq!(value(&rich.balance), 1_000 - 825);
    // 180 > 81: refused.
    let mut poor = player_with(&[], 81);
    match buy(&mut poor, ItemId(1), None) {
        BuyOutcome::TooExpensive { price } => assert_eq!(value(&price), 180),
        _ => panic!("too expensive"),
    }
    assert_eq!(value(&poor.balance), 81);
    assert_eq!(poor.item_count(ItemId(1)), 0);
}

#[test]
fn only_one_items_stay_single() {
    let mut p = player_with(&[], 10_000);
    assert!(matches!(buy(&mut p, ItemId(11), Some(2)), BuyOutcome::TooGreedy { owned: 0 }));
    assert!(matches!(buy(&mut p, ItemId(11), None), BuyOutcome::Bought { .. }));
    assert_eq!(value(&p.balance), 7_000);
    assert!(matches!(buy(&mut p, ItemId(11), None), BuyOutcome::TooGreedy { owned: 1 }));
    assert_eq!(p.item_count(ItemId(11)), 1);
    assert_eq!(value(&p.balance), 7_000);
    assert_eq!(count_to_buy(None), 1);
    assert_eq!(count_to_buy(Some(7)), 7);
}

#[test]
fn buy_replies() {
    assert_eq!(
        not_found_reply("foo"),
        "Couldn't find item 'foo'. Use `/shop browse` to see a list of valid item names."
    );
    assert_eq!(
        ambiguous_reply("p"),
        "Ambiguous item name 'p'. Use `/shop browse` to see a list of valid item names."
    );
    let glowup = get_item(ItemId(11));
    let p = player_with(&[(11, 1)], 5);
    assert_eq!(
        buy_reply(&glowup, 1, &BuyOutcome::TooGreedy { owned: 1 }, &p),
        "Don't be greedy. Only **1** Glowup is available (you already have **1**)."
    );
    let poster = get_item(ItemId(0));
    let q = player_with(&[(0, 3)], 81);
    assert_eq!(
        buy_reply(&poster, 2, &BuyOutcome::Bought { price: BigNat::from_u64(19) }, &q),
        "You sacrificed **19 members** to purchase **2× Poster**.\n-# Now you have **81 members** and +3 members/sec."
    );
    assert_eq!(
        buy_reply(&poster, 2, &BuyOutcome::TooExpensive { price: BigNat::from_u64(1_900) }, &q),
        "You don't have enough sacrifices for that >:[\n**2× Poster** costs **1,900 members**, but you only have **81 members**."
    );
}

#[test]
fn shop_pages() {
    assert_eq!(shop_page_count(), 3);
    let pages: Vec<Vec<u32>> = (0..4)
        .map(|page| ShopPage { user: 1, page }.items_on_page().iter().map(|i| i.0).collect())
        .collect();
    assert_eq!(pages[0], vec![0, 1, 11, 2, 3]);
    assert_eq!(pages[1], vec![4, 5, 12, 6, 7]);
    assert_eq!(pages[2], vec![8, 13, 9, 10]);
    assert!(pages[3].is_empty());
    let page = ShopPage { user: 1, page: 0 };
    assert_eq!(page.render_title(), "Advertisement Broker (page 1 of 3)");
    assert!(page.accepts(1));
    assert!(!page.accepts(2));
    let nav = page.render_buttons();
    assert_eq!((nav.prev_page, nav.prev_disabled, nav.next_page, nav.next_disabled), (0, true, 1, false));
    let last = ShopPage { user: 1, page: 2 };
    let nav = last.render_buttons();
    assert_eq!((nav.prev_page, nav.prev_disabled, nav.next_page, nav.next_disabled), (1, false, 3, true));
    let p = player_with(&[(11, 1), (0, 2)], 1_234);
    assert_eq!(
        render_shop_description(&p),
        "Sacrifice some of your **1,234 members** to us in exchange for the promotions below..."
    );
    let fields = page.render_fields(&p);
    assert_eq!(fields.len(), 5);
    assert_eq!(fields[0].0, "Poster [10 members]");
    assert_eq!(
        fields[0].1,
        "Put a flimsy poster up in the UGSA. Hope that no-one repurposes it for their problem sheet scribbles. **1 member/sec**\n-# You own: 2× Poster"
    );
    assert_eq!(fields[2].0, "Glowup [3,000 members]");
    assert_eq!(
        fields[2].1,
        "~~People pay more attention to attractive people. Get more attractive so you can shill better. Only **1** available. **×500 members from shilling**~~\n-# You already own Glowup"
    );
    assert_eq!(fields[1].0, "Fresher [180 members]");
    assert_eq!(
        render_field_body(&get_item(ItemId(1)), 0),
        "Pay off an enthusiastic fresher to invite their friends at every opportunity. One or two might even show up. **9 members/sec**"
    );
    assert_eq!(render_field_title(&get_item(ItemId(13)), 0), "Switch pizzeria [123,000,000 members]");
}
