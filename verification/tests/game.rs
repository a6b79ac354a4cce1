use std::collections::HashMap;

use sompcoc::bignum::BigNat;
use sompcoc::items::{get_item, shop_items, ItemId};
use sompcoc::membership::{items_summary, membership_description, membership_title};
use sompcoc::player::{Player, Timestamp};
use sompcoc::shill::{
    bad_messages, cooldown_messages, cooldown_reply, good_messages, messages_for, mood_for,
    ok_messages, pick_message, shill, shill_with_luck, shilled_reply, Mood, ShillOutcome,
};

fn value(b: &BigNat) -> u128 {
    let mut v: u128 = 0;
    for d in b.to_digits().iter().rev() {
        v = (v << 32) + (*d as u128);
    }
    v
}

fn player_with(items: &[(u32, u32)], balance: u64, at: u64) -> Player {
    let mut item_counts = HashMap::new();
    for (id, count) in items {
        item_counts.insert(*id, *count);
    }
    Player {
        discord_id: 42,
        name: "Ada".to_string(),
        balance: BigNat::from_u64(balance),
        balance_last_updated: Timestamp(at),
        last_shilled_at: Timestamp(0),
        item_counts,
    }
}

#[test]
fn catalogue_entries_match_the_shop() {
    let poster = get_item(ItemId(0));
    assert_eq!(poster.name, "Poster");
    assert_eq!(poster.base_price, 8);
    assert_eq!(poster.income_per_tick, Some(1));
    assert_eq!(poster.shill_multiplier, None);
    assert!(!poster.only_one);
    let glowup = get_item(ItemId(11));
    assert_eq!(glowup.name, "Glowup");
    assert_eq!(glowup.shill_multiplier, Some(500));
    assert_eq!(glowup.income_per_tick, None);
    assert!(glowup.only_one);
    let escalator = get_item(ItemId(10));
    assert_eq!(escalator.base_price, 8_000_000_000);
    assert_eq!(escalator.income_per_tick, Some(10_000_000));
    for id in 0..14 {
        assert_eq!(get_item(ItemId(id)).id, ItemId(id));
    }
    let order: Vec<u32> = shop_items().iter().map(|i| i.0).collect();
    assert_eq!(order, vec![0, 1, 11, 2, 3, 4, 5, 12, 6, 7, 8, 13, 9, 10]);
}

#[test]
fn prices_grow_by_twenty_three_twentieths() {
    let poster = get_item(ItemId(0));
    let expected = [(0, 8), (1, 9), (2, 10), (3, 12), (10, 32), (20, 130)];
    for (n, price) in expected {
        assert_eq!(value(&poster.price_of_nth(n)), price);
    }
    let fresher = get_item(ItemId(1));
    assert_eq!(value(&fresher.price_of_nth(1)), 207);
    assert_eq!(value(&fresher.price_of_nth(10)), 728);
    let glowup = get_item(ItemId(11));
    assert_eq!(value(&glowup.price_of_nth(0)), 3000);
    assert_eq!(value(&glowup.price_of_nth(5)), 3000);
}

#[test]
fn show_count_names_the_items() {
    assert_eq!(get_item(ItemId(0)).show_count(3), "3× Poster");
    assert_eq!(get_item(ItemId(0)).show_count(1234), "1,234× Poster");
    assert_eq!(get_item(ItemId(11)).show_count(1), "Glowup");
}

#[test]
fn timestamps_count_ticks() {
    assert_eq!(Timestamp(100).ticks_since(Timestamp(40)), 60);
    assert_eq!(Timestamp(100).ticks_later(30), Timestamp(130));
    assert_eq!(Timestamp::long_ago(), Timestamp(0));
    let now = Timestamp::now().expect("clock after the epoch");
    assert!(now.0 > 1_600_000_000);
}

#[test]
fn income_sums_over_owned_items() {
    let p = player_with(&[(0, 3), (1, 2), (11, 1)], 0, 0);
    assert_eq!(value(&p.income_per_tick()), 3 + 18);
    assert_eq!(value(&player_with(&[], 0, 0).income_per_tick()), 0);
    let big = player_with(&[(10, 4_000_000_000)], 0, 0);
    assert_eq!(value(&big.income_per_tick()), 40_000_000_000_000_000);
}

#[test]
fn multiplier_multiplies_owned_items() {
    assert_eq!(value(&player_with(&[], 0, 0).total_shill_multiplier()), 1);
    let p = player_with(&[(11, 1), (12, 1), (0, 5)], 0, 0);
    assert_eq!(value(&p.total_shill_multiplier()), 25_000);
    let q = player_with(&[(11, 1), (12, 1), (13, 1)], 0, 0);
    assert_eq!(value(&q.total_shill_multiplier()), 500 * 50 * 321);
}

#[test]
fn item_count_defaults_to_zero() {
    let p = player_with(&[(0, 3)], 0, 0);
    assert_eq!(p.item_count(ItemId(0)), 3);
    assert_eq!(p.item_count(ItemId(1)), 0);
}

#[test]
fn update_adds_earnings_since_last_update() {
    let mut p = player_with(&[(0, 3), (1, 2)], 100, 1000);
    p.update(Timestamp(1010));
    assert_eq!(value(&p.balance), 100 + 21 * 10);
    assert_eq!(p.balance_last_updated, Timestamp(1010));
    p.update(Timestamp(1010));
    assert_eq!(value(&p.balance), 310);
}

#[test]
fn load_updates_a_stored_player_or_starts_afresh() {
    let stored = player_with(&[(0, 2)], 5, 10);
    let p = Player::load(Some(stored), Timestamp(20), 7, "Bob".to_string());
    assert_eq!(p.discord_id, 42);
    assert_eq!(p.name, "Ada");
    assert_eq!(value(&p.balance), 25);
    assert_eq!(p.balance_last_updated, Timestamp(20));
    let fresh = Player::load(None, Timestamp(20), 7, "Bob".to_string());
    assert_eq!(fresh.discord_id, 7);
    assert_eq!(fresh.name, "Bob");
    assert_eq!(value(&fresh.balance), 0);
    assert_eq!(fresh.last_shilled_at, Timestamp(0));
    assert_eq!(fresh.balance_last_updated, Timestamp(20));
    assert!(fresh.item_counts.is_empty());
}

#[test]
fn shilling_respects_the_cooldown() {
    let mut p = player_with(&[(11, 1)], 10, 0);
    p.last_shilled_at = Timestamp(100);
    match shill_with_luck(&mut p, Timestamp(129), 5) {
        ShillOutcome::OnCooldown { ends } => assert_eq!(ends, Timestamp(130)),
        ShillOutcome::Shilled { .. } => panic!("shilled during the cooldown"),
    }
    assert_eq!(value(&p.balance), 10);
    assert_eq!(p.last_shilled_at, Timestamp(100));
    match shill_with_luck(&mut p, Timestamp(130), 3) {
        ShillOutcome::Shilled { luck, gained } => {
            assert_eq!(luck, 3);
            assert_eq!(value(&gained), 1500);
        }
        ShillOutcome::OnCooldown { .. } => panic!("cooldown over"),
    }
    assert_eq!(value(&p.balance), 1510);
    assert_eq!(p.last_shilled_at, Timestamp(130));
    match shill_with_luck(&mut p, Timestamp(140), 3) {
        ShillOutcome::OnCooldown { ends } => assert_eq!(ends, Timestamp(160)),
        ShillOutcome::Shilled { .. } => panic!("shilled during the cooldown"),
    }
}

#[test]
fn random_shill_gains_luck_times_multiplier() {
    for _ in 0..30 {
        let mut p = player_with(&[(12, 1)], 0, 0);
        match shill(&mut p, Timestamp(1000)) {
            ShillOutcome::Shilled { luck, gained } => {
                assert!(luck <= 5);
                assert_eq!(value(&gained), 50 * luck as u128);
                assert_eq!(value(&p.balance), 50 * luck as u128);
            }
            ShillOutcome::OnCooldown { .. } => panic!("new players may shill"),
        }
    }
}

#[test]
fn shill_messages_by_mood() {
    assert!(matches!(mood_for(0), Mood::Bad));
    assert!(matches!(mood_for(1), Mood::Bad));
    assert!(matches!(mood_for(2), Mood::Middling));
    assert!(matches!(mood_for(3), Mood::Middling));
    assert!(matches!(mood_for(4), Mood::Good));
    assert!(matches!(mood_for(5), Mood::Good));
    assert_eq!(cooldown_messages().len(), 4);
    assert_eq!(bad_messages().len(), 4);
    assert_eq!(ok_messages().len(), 3);
    assert_eq!(good_messages().len(), 3);
    assert_eq!(messages_for(Mood::Good), good_messages());
    assert_eq!(cooldown_messages()[0], "Calm down, you're putting people off.");
    let bad = bad_messages();
    for _ in 0..20 {
        assert!(bad.contains(&pick_message(&bad)));
    }
}

#[test]
fn shill_replies() {
    assert_eq!(
        cooldown_reply("Calm down.", "<t:130:R>"),
        "Calm down.\n-# You can shill again <t:130:R>."
    );
    assert_eq!(
        shilled_reply("Nice.", &BigNat::from_u64(1500)),
        "Nice.\n-# You gained **1,500 members**."
    );
    assert_eq!(shilled_reply("Oh.", &BigNat::from_u64(1)), "Oh.\n-# You gained **1 member**.");
}

#[test]
fn membership_card() {
    let nothing = player_with(&[], 0, 0);
    assert_eq!(items_summary(&nothing), "Nothing yet `._.` Check out `/shop browse`.");
    let zero = player_with(&[(0, 0)], 0, 0);
    assert_eq!(items_summary(&zero), "Nothing yet `._.` Check out `/shop browse`.");
    let p = player_with(&[(2, 1), (0, 3), (11, 1)], 1, 0);
    assert_eq!(items_summary(&p), "3× Poster • Glowup • 1× JoPonting");
    assert_eq!(membership_title(&p), "Ada SompCoc Membership");
    assert_eq!(
        membership_description(&p),
        "**1 member** +38 members/sec; ×500 shill multiplier"
    );
}
