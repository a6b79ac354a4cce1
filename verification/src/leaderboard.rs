//! The leaderboard: every player ranked by membership, split into pages,
//! rebuilt at most once a minute.
use vstd::prelude::*;

use crate::bignum::BigNat;
use crate::display::{members_text, show_members};
use crate::numfmt::{decimal, decimal_string};
use crate::player::{accrued, Player, Timestamp};

verus! {

/// Players shown on one page of the leaderboard.
pub const ENTRIES_PER_PAGE: usize = 15;

/// Seconds between rebuilds of the leaderboard.
pub const REFRESH_FREQUENCY: u64 = 60;

/// One player's line on the leaderboard.
pub struct LeaderboardEntry {
    /// Rank, counting from 0 for the player with the most members.
    pub position: usize,
    pub discord_id: u64,
    pub name: String,
    pub balance: BigNat,
    pub income: BigNat,
}

/// One page of the leaderboard.
pub struct LeaderboardPage {
    pub generated_at: Timestamp,
    pub entries: Vec<LeaderboardEntry>,
}

/// In a ranking by descending key, index `i` comes before index `j`: its key
/// is larger, or the keys are equal and `i` came first in the input.
pub open spec fn ranks_before(keys: Seq<nat>, i: int, j: int) -> bool {
    keys[i] > keys[j] || (keys[i] == keys[j] && i < j)
}

/// `order` lists the indices of `keys` from the largest key to the smallest,
/// equal keys in their input order: the result of a stable sort by
/// descending key.
pub open spec fn is_ranking(order: Seq<usize>, keys: Seq<nat>) -> bool {
    &&& order.len() == keys.len()
    &&& forall|k: int| 0 <= k < order.len() ==> order[k] < keys.len()
    &&& forall|a: int, b: int|
        0 <= a < b < order.len() ==> ranks_before(keys, #[trigger] order[a] as int, #[trigger] order[b] as int)
}

/// The values of the numbers.
pub open spec fn values_of(v: Seq<BigNat>) -> Seq<nat> {
    v.map_values(|b: BigNat| b@)
}

/// Ranks indices by descending value; equal values keep their input order.
pub fn rank_descending(values: &Vec<BigNat>) -> (order: Vec<usize>)
    ensures
        is_ranking(order@, values_of(values@)),
{
    let ghost keys = values_of(values@);
    let n = values.len();
    let mut order: Vec<usize> = Vec::new();
    let mut i: usize = 0;
    while i < n
        invariant
            n == values.len(),
            keys == values_of(values@),
            i <= n,
            order@.len() == i,
            forall|k: int| 0 <= k < i ==> order@[k] < i,
            forall|a: int, b: int|
                0 <= a < b < i ==> ranks_before(keys, #[trigger] order@[a] as int, #[trigger] order@[b] as int),
        decreases n - i,
    {
        let mut p: usize = 0;
        while p < order.len() && values[i].le(&values[order[p]])
            invariant
                n == values.len(),
                keys == values_of(values@),
                i < n,
                order@.len() == i,
                p <= order@.len(),
                forall|k: int| 0 <= k < i ==> order@[k] < i,
                forall|k: int| 0 <= k < p ==> keys[order@[k] as int] >= keys[i as int],
            decreases order@.len() - p,
        {
            p = p + 1;
        }
        let ghost old_order = order@;
        proof {
            assert forall|k: int| p <= k < i implies keys[old_order[k] as int] < keys[i as int] by {
                if p < k {
                    assert(ranks_before(keys, old_order[p as int] as int, old_order[k] as int));
                }
            }
        }
        order.insert(p, i);
        proof {
            assert forall|a: int, b: int| 0 <= a < b < i + 1 implies ranks_before(
                keys,
                #[trigger] order@[a] as int,
                #[trigger] order@[b] as int,
            ) by {
                if b < p {
                    assert(order@[a] == old_order[a] && order@[b] == old_order[b]);
                } else if b == p {
                    assert(order@[a] == old_order[a]);
                } else if a < p {
                    assert(order@[a] == old_order[a] && order@[b] == old_order[b - 1]);
                    assert(ranks_before(keys, old_order[a] as int, old_order[b - 1] as int));
                } else if a == p {
                    assert(order@[b] == old_order[b - 1]);
                } else {
                    assert(order@[a] == old_order[a - 1] && order@[b] == old_order[b - 1]);
                    assert(ranks_before(keys, old_order[a - 1] as int, old_order[b - 1] as int));
                }
            }
            assert forall|k: int| 0 <= k < i + 1 implies order@[k] < i + 1 by {
                if k < p {
                    assert(order@[k] == old_order[k]);
                } else if k > p {
                    assert(order@[k] == old_order[k - 1]);
                }
            }
        }
        i = i + 1;
    }
    order
}

/// Whether `entry` is `player`'s line at rank `position`, with the player's
/// membership brought up to `now`.
pub open spec fn is_entry_for(entry: LeaderboardEntry, player: Player, now: u64, position: int) -> bool {
    &&& entry.position == position
    &&& entry.discord_id == player.discord_id
    &&& entry.name@ == player.name@
    &&& entry.balance@ == accrued(
        player.balance@,
        player.income(),
        player.balance_last_updated.0,
        now,
    )
    &&& entry.income@ == player.income()
}

/// Every player's membership brought up to `now`.
pub open spec fn balances_at(players: Seq<Player>, now: u64) -> Seq<nat> {
    Seq::new(
        players.len(),
        |i: int|
            accrued(
                players[i].balance@,
                players[i].income(),
                players[i].balance_last_updated.0,
                now,
            ) as nat,
    )
}

/// Number of pages for `n` players: one page per 15 players, and one empty
/// page when there are no players.
pub open spec fn page_count(n: nat) -> nat {
    if n == 0 {
        1
    } else {
        ((n + 14) / 15) as nat
    }
}

/// Number of entries on page `p` for `n` players.
pub open spec fn entries_on_page(n: nat, p: nat) -> int {
    if n - 15 * p < 15 {
        n - 15 * p
    } else {
        15
    }
}

/// Every player may be brought up to `now`.
pub open spec fn players_ready(players: Seq<Player>, now: u64) -> bool {
    forall|i: int|
        0 <= i < players.len() ==> (#[trigger] players[i]).wf()
            && players[i].balance_last_updated.0 <= now
}

/// The leaderboard pages as of `now`: every player brought up to `now`,
/// ranked by membership (most first, ties in input order), numbered from 0,
/// and split into pages of 15; one empty page when there are no players.
pub fn rebuild_leaderboard(players: &Vec<Player>, now: Timestamp) -> (pages: Vec<LeaderboardPage>)
    requires
        players_ready(players@, now.0),
    ensures
        pages@.len() == page_count(players@.len()),
        forall|p: int| 0 <= p < pages@.len() ==> (#[trigger] pages@[p]).generated_at == now,
        forall|p: int|
            0 <= p < pages@.len() ==> (#[trigger] pages@[p]).entries@.len() == entries_on_page(
                players@.len(),
                p as nat,
            ),
        exists|order: Seq<usize>|
            {
                &&& is_ranking(order, balances_at(players@, now.0))
                &&& forall|p: int, j: int|
                    0 <= p < pages@.len() && 0 <= j < pages@[p].entries@.len() ==> is_entry_for(
                        #[trigger] pages@[p].entries@[j],
                        players@[order[15 * p + j] as int],
                        now.0,
                        15 * p + j,
                    )
            },
{
    let n = players.len();
    let mut balances: Vec<BigNat> = Vec::new();
    let mut incomes: Vec<BigNat> = Vec::new();
    let mut i: usize = 0;
    while i < n
        invariant
            n == players@.len(),
            players_ready(players@, now.0),
            i <= n,
            balances@.len() == i,
            incomes@.len() == i,
            forall|k: int| 0 <= k < i ==> (#[trigger] balances@[k])@ == balances_at(players@, now.0)[k],
            forall|k: int| 0 <= k < i ==> (#[trigger] incomes@[k])@ == players@[k].income(),
        decreases n - i,
    {
        assert(players@[i as int].wf());
        balances.push(players[i].balance_at(now));
        incomes.push(players[i].income_per_tick());
        i = i + 1;
    }
    assert(values_of(balances@) =~= balances_at(players@, now.0));
    let order = rank_descending(&balances);
    let ghost keys = balances_at(players@, now.0);

    let mut pages: Vec<LeaderboardPage> = Vec::new();
    let mut current: Vec<LeaderboardEntry> = Vec::new();
    let mut k: usize = 0;
    while k < n
        invariant
            n == players@.len(),
            n == order@.len(),
            is_ranking(order@, keys),
            keys == balances_at(players@, now.0),
            players_ready(players@, now.0),
            balances@.len() == n,
            incomes@.len() == n,
            forall|x: int| 0 <= x < n ==> (#[trigger] balances@[x])@ == keys[x],
            forall|x: int| 0 <= x < n ==> (#[trigger] incomes@[x])@ == players@[x].income(),
            k <= n,
            k == 15 * pages@.len() + current@.len(),
            current@.len() < 15,
            forall|p: int| 0 <= p < pages@.len() ==> (#[trigger] pages@[p]).generated_at == now,
            forall|p: int| 0 <= p < pages@.len() ==> (#[trigger] pages@[p]).entries@.len() == 15,
            forall|p: int, j: int|
                0 <= p < pages@.len() && 0 <= j < pages@[p].entries@.len() ==> is_entry_for(
                    #[trigger] pages@[p].entries@[j],
                    players@[order@[15 * p + j] as int],
                    now.0,
                    15 * p + j,
                ),
            forall|j: int|
                0 <= j < current@.len() ==> is_entry_for(
                    #[trigger] current@[j],
                    players@[order@[15 * pages@.len() + j] as int],
                    now.0,
                    15 * pages@.len() + j,
                ),
        decreases n - k,
    {
        let idx = order[k];
        proof {
            let pl = players@[idx as int];
            assert(pl.wf() && pl.balance_last_updated.0 <= now.0);
            let d: int = now.0 - pl.balance_last_updated.0;
            assert(pl.income() * d >= 0) by (nonlinear_arith)
                requires
                    d >= 0,
            ;
        }
        let entry = LeaderboardEntry {
            position: k,
            discord_id: players[idx].discord_id,
            name: players[idx].name.clone(),
            balance: balances[idx].copy(),
            income: incomes[idx].copy(),
        };
        assert(is_entry_for(entry, players@[order@[k as int] as int], now.0, k as int));
        let ghost old_current = current@;
        current.push(entry);
        assert(forall|j: int|
            0 <= j < current@.len() ==> is_entry_for(
                #[trigger] current@[j],
                players@[order@[15 * pages@.len() + j] as int],
                now.0,
                15 * pages@.len() + j,
            )) by {
            assert forall|j: int| 0 <= j < current@.len() implies is_entry_for(
                #[trigger] current@[j],
                players@[order@[15 * pages@.len() + j] as int],
                now.0,
                15 * pages@.len() + j,
            ) by {
                if j < old_current.len() {
                    assert(current@[j] == old_current[j]);
                }
            }
        }
        if current.len() == ENTRIES_PER_PAGE {
            let entries = current;
            current = Vec::new();
            let ghost old_pages = pages@;
            pages.push(LeaderboardPage { generated_at: now, entries });
            assert forall|p: int, j: int|
                0 <= p < pages@.len() && 0 <= j < pages@[p].entries@.len() implies is_entry_for(
                #[trigger] pages@[p].entries@[j],
                players@[order@[15 * p + j] as int],
                now.0,
                15 * p + j,
            ) by {
                if p < old_pages.len() {
                    assert(pages@[p] == old_pages[p]);
                }
            }
        }
        k = k + 1;
    }
    if current.len() > 0 || n == 0 {
        pages.push(LeaderboardPage { generated_at: now, entries: current });
    }
    assert(pages@.len() == page_count(n as nat)) by (nonlinear_arith)
        requires
            n == 15 * (pages@.len() - (if current@.len() > 0 || n == 0 { 1int } else { 0 })) + current@.len(),
            current@.len() < 15,
    ;
    pages
}

/// Whether the leaderboard, last rebuilt at `last_updated`, is due for a
/// rebuild at `now`: more than `REFRESH_FREQUENCY` seconds have passed.
pub fn needs_refresh(now: Timestamp, last_updated: Timestamp) -> (stale: bool)
    requires
        last_updated.0 <= now.0,
    ensures
        stale == (now.0 - last_updated.0 > REFRESH_FREQUENCY),
{
    now.ticks_since(last_updated) > REFRESH_FREQUENCY
}

/// When the leaderboard was last rebuilt, read from its first page; the
/// epoch when there is none yet.
pub fn leaderboard_last_updated(first_page: Option<&LeaderboardPage>) -> (t: Timestamp)
    ensures
        t == (match first_page {
            Some(page) => page.generated_at,
            None => Timestamp(0),
        }),
{
    match first_page {
        Some(page) => page.generated_at,
        None => Timestamp::long_ago(),
    }
}

/// The text of an empty leaderboard page.
pub open spec fn empty_page_text() -> Seq<char> {
    "`o_o`\n-# There's nothing here. What are you doing?"@
}

/// One entry's line: e.g. `1. **Alice**: 1,234 members` and a line break;
/// ranks are shown counting from 1.
pub open spec fn entry_line(e: LeaderboardEntry) -> Seq<char> {
    decimal((e.position + 1) as nat) + ". **"@ + e.name@ + "**: "@ + members_text(e.balance@)
        + "\n"@
}

/// The lines of the entries, in order.
pub open spec fn entry_lines(entries: Seq<LeaderboardEntry>) -> Seq<char>
    decreases entries.len(),
{
    if entries.len() == 0 {
        Seq::empty()
    } else {
        entry_lines(entries.drop_last()) + entry_line(entries.last())
    }
}

/// The text of a leaderboard page.
pub open spec fn page_text(entries: Seq<LeaderboardEntry>) -> Seq<char> {
    if entries.len() == 0 {
        empty_page_text()
    } else {
        entry_lines(entries)
    }
}

/// The text of a leaderboard page: one line per entry, or a placeholder
/// when the page is empty.
pub fn render_page_body(entries: &Vec<LeaderboardEntry>) -> (body: String)
    requires
        forall|j: int| 0 <= j < entries@.len() ==> (#[trigger] entries@[j]).position < usize::MAX,
    ensures
        body@ == page_text(entries@),
{
    let mut body = String::new();
    let mut j: usize = 0;
    while j < entries.len()
        invariant
            j <= entries@.len(),
            forall|x: int| 0 <= x < entries@.len() ==> (#[trigger] entries@[x]).position < usize::MAX,
            body@ == entry_lines(entries@.subrange(0, j as int)),
        decreases entries@.len() - j,
    {
        let e = &entries[j];
        let rank = decimal_string((e.position + 1) as u64);
        body.append(rank.as_str());
        body.append(". **");
        body.append(e.name.as_str());
        body.append("**: ");
        body.append(show_members(&e.balance).as_str());
        body.append("\n");
        assert(entries@.subrange(0, j + 1).drop_last() == entries@.subrange(0, j as int));
        j = j + 1;
    }
    assert(entries@.subrange(0, entries@.len() as int) == entries@);
    if entries.len() == 0 {
        String::from_str("`o_o`\n-# There's nothing here. What are you doing?")
    } else {
        body
    }
}

/// The title of leaderboard page `page` (counting from 0) of `page_count`.
pub open spec fn leaderboard_title_text(page: nat, page_count: nat) -> Seq<char> {
    "Best SompCoc Presidents (page "@ + decimal(page + 1) + " of "@ + decimal(page_count) + ")"@
}

/// The title of a leaderboard page; pages are shown counting from 1.
pub fn render_leaderboard_title(page: usize, page_count: usize) -> (title: String)
    requires
        page < usize::MAX,
    ensures
        title@ == leaderboard_title_text(page as nat, page_count as nat),
{
    let mut title = String::from_str("Best SompCoc Presidents (page ");
    title.append(decimal_string((page + 1) as u64).as_str());
    title.append(" of ");
    title.append(decimal_string(page_count as u64).as_str());
    title.append(")");
    title
}

/// The footer of every leaderboard page.
pub fn render_leaderboard_footer() -> (footer: String)
    ensures
        footer@ == "The leaderboard updates every "@ + decimal(REFRESH_FREQUENCY as nat)
            + " seconds. Last update: "@,
{
    let mut footer = String::from_str("The leaderboard updates every ");
    footer.append(decimal_string(REFRESH_FREQUENCY).as_str());
    footer.append(" seconds. Last update: ");
    footer
}

/// The two buttons that page through a paged message: the page each one
/// leads to, and whether it is greyed out.
pub struct PageNav {
    pub prev_page: usize,
    pub prev_disabled: bool,
    pub next_page: usize,
    pub next_disabled: bool,
}

/// The state behind a leaderboard navigation button: who may press it, and
/// the page it shows.
pub struct LeaderboardButton {
    pub user: u64,
    pub page: usize,
}

impl LeaderboardButton {
    /// Whether `user` may press this button: only the player who asked for
    /// the leaderboard may page through it.
    pub fn accepts(&self, user: u64) -> (ok: bool)
        ensures
            ok == (user == self.user),
    {
        user == self.user
    }

    /// Moves a page beyond the end back to the last page.
    pub fn limit_page(&mut self, page_count: usize)
        requires
            page_count >= 1,
        ensures
            final(self).user == old(self).user,
            final(self).page == (if old(self).page >= page_count {
                (page_count - 1) as usize
            } else {
                old(self).page
            }),
            final(self).page < page_count,
    {
        if self.page >= page_count {
            self.page = page_count - 1;
        }
    }

    /// The previous/next buttons below the page, or none when there is only
    /// one page. The previous button is greyed out on the first page, the
    /// next one on the last.
    pub fn render_buttons(&self, page_count: usize) -> (nav: Option<PageNav>)
        requires
            page_count >= 1,
            page_count != 1 ==> self.page < usize::MAX,
        ensures
            page_count == 1 <==> nav is None,
            nav matches Some(b) ==> {
                &&& b.prev_page == (if self.page == 0 { 0 } else { self.page - 1 })
                &&& b.prev_disabled == (self.page == 0)
                &&& b.next_page == self.page + 1
                &&& b.next_disabled == (self.page >= page_count - 1)
            },
    {
        if page_count == 1 {
            return None;
        }
        Some(
            PageNav {
                prev_page: self.page.saturating_sub(1),
                prev_disabled: self.page == 0,
                next_page: self.page + 1,
                next_disabled: self.page >= page_count - 1,
            },
        )
    }
}

} // verus!
