use std::collections::HashMap;

use sompcoc::bignum::BigNat;
use sompcoc::leaderboard::{
    leaderboard_last_updated, needs_refresh, rank_descending, rebuild_leaderboard,
    render_leaderboard_footer, render_leaderboard_title, render_page_body, LeaderboardButton,
    LeaderboardEntry, LeaderboardPage,
};
use sompcoc::player::{Player, Timestamp};

fn value(b: &BigNat) -> u128 {
    let mut v: u128 = 0;
    for d in b.to_digits().iter().rev() {
        v = (v << 32) + (*d as u128);
    }
    v
}

fn player(id: u64, balance: u64, posters: u32, at: u64) -> Player {
    let mut item_counts = HashMap::new();
    if posters > 0 {
        item_counts.insert(0u32, posters);
    }
    Player {
        discord_id: id,
        name: format!("p{id}"),
        balance: BigNat::from_u64(balance),
        balance_last_updated: Timestamp(at),
        last_shilled_at: Timestamp(0),
        item_counts,
    }
}

#[test]
fn rank_descending_is_a_stable_sort() {
    let values: Vec<BigNat> = [5u64, 9, 5, 1, 9, 0].iter().map(|v| BigNat::from_u64(*v)).collect();
    assert_eq!(rank_descending(&values), vec![1, 4, 0, 2, 3, 5]);
    assert_eq!(rank_descending(&Vec::new()), Vec::<usize>::new());
    let same: Vec<BigNat> = (0..5).map(|_| BigNat::from_u64(3)).collect();
    assert_eq!(rank_descending(&same), vec![0, 1, 2, 3, 4]);
}

#[test]
fn empty_leaderboard_has_one_empty_page() {
    let pages = rebuild_leaderboard(&Vec::new(), Timestamp(500));
    assert_eq!(pages.len(), 1);
    assert_eq!(pages[0].generated_at, Timestamp(500));
    assert!(pages[0].entries.is_empty());
}

#[test]
fn leaderboard_ranks_updated_balances() {
    // p1 earns 10 members over the 10 ticks and overtakes p2.
    let players = vec![player(1, 5, 1, 90), player(2, 12, 0, 100), player(3, 12, 0, 50)];
    let pages = rebuild_leaderboard(&players, Timestamp(100));
    assert_eq!(pages.len(), 1);
    let ids: Vec<u64> = pages[0].entries.iter().map(|e| e.discord_id).collect();
    assert_eq!(ids, vec![1, 2, 3]);
    let balances: Vec<u128> = pages[0].entries.iter().map(|e| value(&e.balance)).collect();
    assert_eq!(balances, vec![15, 12, 12]);
    let incomes: Vec<u128> = pages[0].entries.iter().map(|e| value(&e.income)).collect();
    assert_eq!(incomes, vec![1, 0, 0]);
    let positions: Vec<usize> = pages[0].entries.iter().map(|e| e.position).collect();
    assert_eq!(positions, vec![0, 1, 2]);
    assert_eq!(pages[0].entries[0].name, "p1");
}

#[test]
fn leaderboard_pages_hold_fifteen_entries() {
    let players: Vec<Player> = (0..31).map(|i| player(i, 1000 - i, 0, 0)).collect();
    let pages = rebuild_leaderboard(&players, Timestamp(10));
    assert_eq!(pages.len(), 3);
    assert_eq!(pages[0].entries.len(), 15);
    assert_eq!(pages[1].entries.len(), 15);
    assert_eq!(pages[2].entries.len(), 1);
    assert_eq!(pages[1].entries[0].position, 15);
    assert_eq!(pages[2].entries[0].position, 30);
    assert_eq!(pages[2].entries[0].discord_id, 30);
    let exactly: Vec<Player> = (0..30).map(|i| player(i, i, 0, 0)).collect();
    let pages = rebuild_leaderboard(&exactly, Timestamp(10));
    assert_eq!(pages.len(), 2);
    assert_eq!(pages[0].entries[0].discord_id, 29);
    assert_eq!(pages[1].entries[14].discord_id, 0);
}

#[test]
fn leaderboard_refreshes_after_a_minute() {
    assert!(!needs_refresh(Timestamp(160), Timestamp(100)));
    assert!(needs_refresh(Timestamp(161), Timestamp(100)));
    assert!(!needs_refresh(Timestamp(100), Timestamp(100)));
    assert!(needs_refresh(Timestamp(1_000_000), Timestamp(0)));
    assert_eq!(leaderboard_last_updated(None), Timestamp(0));
    let page = LeaderboardPage { generated_at: Timestamp(77), entries: Vec::new() };
    assert_eq!(leaderboard_last_updated(Some(&page)), Timestamp(77));
}

#[test]
fn leaderboard_text() {
    assert_eq!(
        render_page_body(&Vec::new()),
        "`o_o`\n-# There's nothing here. What are you doing?"
    );
    let entries = vec![
        LeaderboardEntry {
            position: 0,
            discord_id: 1,
            name: "Ada".to_string(),
            balance: BigNat::from_u64(1_234),
            income: BigNat::from_u64(0),
        },
        LeaderboardEntry {
            position: 1,
            discord_id: 2,
            name: "Bob".to_string(),
            balance: BigNat::from_u64(1),
            income: BigNat::from_u64(0),
        },
    ];
    assert_eq!(
        render_page_body(&entries),
        "1. **Ada**: 1,234 members\n2. **Bob**: 1 member\n"
    );
    assert_eq!(render_leaderboard_title(0, 3), "Best SompCoc Presidents (page 1 of 3)");
    assert_eq!(render_leaderboard_title(11, 12), "Best SompCoc Presidents (page 12 of 12)");
    assert_eq!(
        render_leaderboard_footer(),
        "The leaderboard updates every 60 seconds. Last update: "
    );
}

#[test]
fn leaderboard_buttons() {
    let mut b = LeaderboardButton { user: 9, page: 7 };
    b.limit_page(3);
    assert_eq!(b.page, 2);
    b.limit_page(3);
    assert_eq!(b.page, 2);
    b.limit_page(5);
    assert_eq!(b.page, 2);
    assert!(b.accepts(9));
    assert!(!b.accepts(8));
    assert!(b.render_buttons(1).is_none());
    let nav = b.render_buttons(3).unwrap();
    assert_eq!((nav.prev_page, nav.prev_disabled), (1, false));
    assert_eq!((nav.next_page, nav.next_disabled), (3, true));
    let first = LeaderboardButton { user: 9, page: 0 };
    let nav = first.render_buttons(3).unwrap();
    assert_eq!((nav.prev_page, nav.prev_disabled), (0, true));
    assert_eq!((nav.next_page, nav.next_disabled), (1, false));
}
