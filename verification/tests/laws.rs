use std::collections::HashMap;

use sompcoc::bignum::BigNat;
use sompcoc::items::{get_item, ItemId};
use sompcoc::leaderboard::rebuild_leaderboard;
use sompcoc::player::{Player, Timestamp};
use sompcoc::shop::{buy, BuyOutcome};

fn value(b: &BigNat) -> u128 {
    let mut v: u128 = 0;
    for d in b.to_digits().iter().rev() {
        v = (v << 32) + (*d as u128);
    }
    v
}

fn player_with(id: u64, items: &[(u32, u32)], balance: u64, at: u64) -> Player {
    let mut item_counts = HashMap::new();
    for (item, count) in items {
        item_counts.insert(*item, *count);
    }
    Player {
        discord_id: id,
        name: format!("p{id}"),
        balance: BigNat::from_u64(balance),
        balance_last_updated: Timestamp(at),
        last_shilled_at: Timestamp(0),
        item_counts,
    }
}

#[test]
fn updating_in_steps_equals_updating_once() {
    let items = [(0, 3), (5, 2), (9, 1)];
    let mut stepwise = player_with(1, &items, 17, 1_000);
    let mut once = player_with(1, &items, 17, 1_000);
    for t in [1_003, 1_010, 1_500, 2_000] {
        stepwise.update(Timestamp(t));
    }
    once.update(Timestamp(2_000));
    assert_eq!(value(&stepwise.balance), value(&once.balance));
    assert_eq!(value(&once.balance), 17 + (3 + 2 * 1140 + 1_000_000) * 1_000);
}

#[test]
fn prices_never_fall() {
    for id in 0..14 {
        let item = get_item(ItemId(id));
        let mut previous = value(&item.price_of_nth(0));
        assert_eq!(previous, item.base_price as u128);
        for n in 1..60 {
            let price = value(&item.price_of_nth(n));
            assert!(price >= previous);
            if item.only_one {
                assert_eq!(price, item.base_price as u128);
            }
            previous = price;
        }
    }
}

#[test]
fn leaderboard_lists_every_player_once_in_descending_order() {
    let players: Vec<Player> = (0..40)
        .map(|i| player_with(i, &[(0, (i % 4) as u32)], (i * 37 % 11) * 5, 0))
        .collect();
    let pages = rebuild_leaderboard(&players, Timestamp(3));
    let entries: Vec<_> = pages.iter().flat_map(|p| p.entries.iter()).collect();
    assert_eq!(entries.len(), 40);
    let mut seen: Vec<u64> = entries.iter().map(|e| e.discord_id).collect();
    seen.sort();
    assert_eq!(seen, (0..40).collect::<Vec<u64>>());
    for w in entries.windows(2) {
        let (a, b) = (value(&w[0].balance), value(&w[1].balance));
        assert!(a >= b);
        if a == b {
            assert!(w[0].discord_id < w[1].discord_id);
        }
        assert_eq!(w[0].position + 1, w[1].position);
    }
    // Rebuilding again gives the same ranking.
    let again = rebuild_leaderboard(&players, Timestamp(3));
    let ids: Vec<u64> = again.iter().flat_map(|p| p.entries.iter().map(|e| e.discord_id)).collect();
    assert_eq!(ids, entries.iter().map(|e| e.discord_id).collect::<Vec<u64>>());
}

#[test]
fn shilling_factor_is_at_least_one() {
    for items in [vec![], vec![(0, 5)], vec![(11, 1)], vec![(11, 1), (12, 1), (13, 1)]] {
        let p = player_with(1, &items, 0, 0);
        assert!(value(&p.total_shill_multiplier()) >= 1);
    }
}

#[test]
fn buying_raises_income_by_the_items_bought() {
    let mut p = player_with(1, &[(0, 2), (3, 1)], 1_000_000, 0);
    let before = value(&p.income_per_tick());
    match buy(&mut p, ItemId(3), Some(4)) {
        BuyOutcome::Bought { .. } => {}
        _ => panic!("affordable"),
    }
    assert_eq!(value(&p.income_per_tick()), before + 4 * 105);
}
