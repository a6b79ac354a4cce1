//! Players, their membership counts, and the passage of game time.
use std::collections::HashMap;
use vstd::arithmetic::power::pow;
use vstd::prelude::*;

use crate::bignum::BigNat;
use crate::items::{get_item, income_value, is_known_item, item_multiplier, ItemId};

verus! {

broadcast use vstd::std_specs::hash::group_hash_axioms;

/// A moment of game time: whole seconds elapsed since the Unix epoch. One
/// second is one tick of the game.
#[derive(Debug, Clone, Copy, PartialEq, Eq, Structural)]
pub struct Timestamp(pub u64);

/// Whole seconds elapsed since the Unix epoch, read from the system clock
/// with `SystemTime::elapsed` on `UNIX_EPOCH` and `Duration::as_secs`;
/// `None` when the clock is set before the epoch. Nothing is promised of the
/// value: it is whatever the clock says.
#[verifier::external_body]
fn unix_seconds_now() -> (r: Option<u64>) {
    std::time::UNIX_EPOCH.elapsed().map(|d| d.as_secs()).ok()
}

impl Timestamp {
    /// The earliest moment: the epoch itself.
    pub fn long_ago() -> (t: Timestamp)
        ensures
            t.0 == 0,
    {
        Timestamp(0)
    }

    /// The current moment, or `None` when the system clock reads a time
    /// before the epoch.
    pub fn now() -> (t: Option<Timestamp>) {
        match unix_seconds_now() {
            Some(secs) => Some(Timestamp(secs)),
            None => None,
        }
    }

    /// Ticks from `historical` to `self`, for a `historical` no later than `self`.
    pub fn ticks_since(self, historical: Timestamp) -> (ticks: u64)
        requires
            historical.0 <= self.0,
        ensures
            ticks == self.0 - historical.0,
    {
        self.0 - historical.0
    }

    /// The moment `ticks` ticks after `self`.
    pub fn ticks_later(self, ticks: u64) -> (t: Timestamp)
        requires
            self.0 + ticks <= u64::MAX,
        ensures
            t.0 == self.0 + ticks,
    {
        Timestamp(self.0 + ticks)
    }
}

/// How many of item `id` the counts record (0 when absent).
pub open spec fn count_in(counts: Map<u32, u32>, id: u32) -> nat {
    if counts.contains_key(id) {
        counts[id] as nat
    } else {
        0
    }
}

/// Every item the counts mention is in the catalogue.
pub open spec fn counts_known(counts: Map<u32, u32>) -> bool {
    forall|k: u32| counts.contains_key(k) ==> is_known_item(k)
}

/// Income per tick from the items numbered below `k`.
pub open spec fn income_upto(counts: Map<u32, u32>, k: nat) -> nat
    decreases k,
{
    if k == 0 {
        0
    } else {
        income_upto(counts, (k - 1) as nat) + income_value((k - 1) as u32) * count_in(
            counts,
            (k - 1) as u32,
        )
    }
}

/// Members per tick that the owned items earn: for each item, its income
/// times the number owned, summed over the catalogue. Items not owned add
/// nothing, so for counts that mention only catalogue items this is the sum
/// over the counts' entries.
pub open spec fn total_income(counts: Map<u32, u32>) -> nat {
    income_upto(counts, 14)
}

/// The factor that `count` copies of item `id` give to shilling.
pub open spec fn multiplier_factor(id: u32, count: nat) -> nat {
    match item_multiplier(id) {
        Some(m) => pow(m as int, count) as nat,
        None => 1,
    }
}

/// Product of the shilling factors of the items numbered below `k`.
pub open spec fn multiplier_upto(counts: Map<u32, u32>, k: nat) -> nat
    decreases k,
{
    if k == 0 {
        1
    } else {
        multiplier_upto(counts, (k - 1) as nat) * multiplier_factor(
            (k - 1) as u32,
            count_in(counts, (k - 1) as u32),
        )
    }
}

/// Factor applied to shilling: for each item, its multiplier raised to the
/// number owned, multiplied over the catalogue. Items not owned contribute a
/// factor of 1, so for counts that mention only catalogue items this is the
/// product over the counts' entries.
pub open spec fn total_multiplier(counts: Map<u32, u32>) -> nat {
    multiplier_upto(counts, 14)
}

/// A balance after earning `income` per tick from moment `from` to moment `to`.
pub open spec fn accrued(balance: nat, income: nat, from: u64, to: u64) -> int {
    balance + income * (to - from)
}

/// A player's society.
pub struct Player {
    pub discord_id: u64,
    pub name: String,
    /// Members recruited so far, as of `balance_last_updated`.
    pub balance: BigNat,
    pub balance_last_updated: Timestamp,
    pub last_shilled_at: Timestamp,
    /// How many of each item (by number) the player owns.
    pub item_counts: HashMap<u32, u32>,
}

impl Player {
    /// Every item the player owns is in the catalogue.
    pub open spec fn wf(&self) -> bool {
        counts_known(self.item_counts@)
    }

    /// Members per tick that this player earns.
    pub open spec fn income(&self) -> nat {
        total_income(self.item_counts@)
    }

    /// This player's shilling factor.
    pub open spec fn multiplier(&self) -> nat {
        total_multiplier(self.item_counts@)
    }

    /// How many of `id` this player owns.
    pub open spec fn count(&self, id: u32) -> nat {
        count_in(self.item_counts@, id)
    }

    /// A new player who joins at `now`: no members, no items, and free to
    /// shill at once.
    pub fn new(discord_id: u64, name: String, now: Timestamp) -> (p: Player)
        ensures
            p.discord_id == discord_id,
            p.name == name,
            p.balance@ == 0,
            p.balance_last_updated == now,
            p.last_shilled_at.0 == 0,
            p.item_counts@ == Map::<u32, u32>::empty(),
            p.wf(),
    {
        Player {
            discord_id,
            name,
            balance: BigNat::zero(),
            balance_last_updated: now,
            last_shilled_at: Timestamp::long_ago(),
            item_counts: HashMap::new(),
        }
    }

    /// The player as seen at `now`: the stored player with the members earned
    /// since it was last brought up to date, or a new player when none is stored.
    pub fn load(stored: Option<Player>, now: Timestamp, discord_id: u64, name: String) -> (p: Player)
        requires
            stored matches Some(s) ==> s.wf() && s.balance_last_updated.0 <= now.0,
        ensures
            p.wf(),
            p.balance_last_updated == now,
            match stored {
                Some(s) => {
                    &&& p.discord_id == s.discord_id
                    &&& p.name == s.name
                    &&& p.balance@ == accrued(
                        s.balance@,
                        s.income(),
                        s.balance_last_updated.0,
                        now.0,
                    )
                    &&& p.last_shilled_at == s.last_shilled_at
                    &&& p.item_counts == s.item_counts
                },
                None => {
                    &&& p.discord_id == discord_id
                    &&& p.name == name
                    &&& p.balance@ == 0
                    &&& p.last_shilled_at.0 == 0
                    &&& p.item_counts@ == Map::<u32, u32>::empty()
                },
            },
    {
        match stored {
            Some(mut player) => {
                player.update(now);
                player
            },
            None => Player::new(discord_id, name, now),
        }
    }

    /// How many of `item` this player owns.
    pub fn item_count(&self, item: ItemId) -> (n: u32)
        ensures
            n == self.count(item.0),
    {
        match self.item_counts.get(&item.0) {
            Some(c) => *c,
            None => 0,
        }
    }

    /// Members per tick that this player earns.
    pub fn income_per_tick(&self) -> (income: BigNat)
        requires
            self.wf(),
        ensures
            income@ == self.income(),
    {
        let mut total = BigNat::zero();
        let mut id: u32 = 0;
        while id < 14
            invariant
                id <= 14,
                total@ == income_upto(self.item_counts@, id as nat),
            decreases 14 - id,
        {
            let item = get_item(ItemId(id));
            match item.income_per_tick {
                Some(per_item) => {
                    let owned = self.item_count(ItemId(id));
                    let earned = BigNat::from_u64(per_item as u64).mul(
                        &BigNat::from_u64(owned as u64),
                    );
                    total = total.add(&earned);
                },
                None => {
                    assert(income_value(id) * count_in(self.item_counts@, id) == 0);
                },
            }
            assert(income_upto(self.item_counts@, (id + 1) as nat) == income_upto(
                self.item_counts@,
                id as nat,
            ) + income_value(id) * count_in(self.item_counts@, id));
            id = id + 1;
        }
        total
    }

    /// This player's shilling factor.
    pub fn total_shill_multiplier(&self) -> (factor: BigNat)
        requires
            self.wf(),
        ensures
            factor@ == self.multiplier(),
    {
        let mut total = BigNat::from_u64(1);
        let mut id: u32 = 0;
        while id < 14
            invariant
                id <= 14,
                total@ == multiplier_upto(self.item_counts@, id as nat),
            decreases 14 - id,
        {
            let item = get_item(ItemId(id));
            match item.shill_multiplier {
                Some(m) => {
                    let owned = self.item_count(ItemId(id));
                    let factor = BigNat::from_u64(m as u64).pow(owned);
                    assert(factor@ == multiplier_factor(id, self.count(id)));
                    total = total.mul(&factor);
                },
                None => {
                    assert(multiplier_factor(id, self.count(id)) == 1);
                },
            }
            assert(multiplier_upto(self.item_counts@, (id + 1) as nat) == multiplier_upto(
                self.item_counts@,
                id as nat,
            ) * multiplier_factor(id, count_in(self.item_counts@, id)));
            id = id + 1;
        }
        total
    }

    /// The balance as of `current_time`: the stored balance plus the members
    /// earned since it was last brought up to date.
    pub fn balance_at(&self, current_time: Timestamp) -> (balance: BigNat)
        requires
            self.wf(),
            self.balance_last_updated.0 <= current_time.0,
        ensures
            balance@ == accrued(
                self.balance@,
                self.income(),
                self.balance_last_updated.0,
                current_time.0,
            ),
    {
        let ticks = current_time.ticks_since(self.balance_last_updated);
        let earned = self.income_per_tick().mul(&BigNat::from_u64(ticks));
        self.balance.add(&earned)
    }

    /// Brings the balance up to `current_time`, adding the members earned
    /// since it was last brought up to date.
    pub fn update(&mut self, current_time: Timestamp)
        requires
            old(self).wf(),
            old(self).balance_last_updated.0 <= current_time.0,
        ensures
            final(self).balance@ == accrued(
                old(self).balance@,
                old(self).income(),
                old(self).balance_last_updated.0,
                current_time.0,
            ),
            final(self).balance_last_updated == current_time,
            final(self).discord_id == old(self).discord_id,
            final(self).name == old(self).name,
            final(self).last_shilled_at == old(self).last_shilled_at,
            final(self).item_counts == old(self).item_counts,
    {
        self.balance = self.balance_at(current_time);
        self.balance_last_updated = current_time;
    }
}

} // verus!
