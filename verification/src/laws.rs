//! Properties that hold across the game's operations.
use vstd::arithmetic::power::{lemma_pow_positive, pow};
use vstd::prelude::*;
use vstd::set_lib::{lemma_int_range, lemma_len_subset, lemma_subset_equality, set_int_range};

use crate::items::{
    count_text, income_value, is_known_item, item_base_price, item_income, item_multiplier,
    item_name, item_only_one, price_list, price_of, shop_order,
};
use crate::leaderboard::{is_ranking, ranks_before};
use crate::membership::{joined, nothing_owned_text, owned_parts, summary_text};
use crate::numfmt::{decimal, digit_char};
use crate::player::{
    accrued, count_in, income_upto, multiplier_factor, multiplier_upto, total_income,
    total_multiplier, Player,
};
use crate::shill::on_cooldown;
use crate::shop::{matches_before, shop_item_matches, shop_matches};
use crate::text::{
    all_digits, digits_number, lowercase, occurs_at, parsed_usize, text_contains,
};

verus! {

/// Bringing a balance up to date in two steps gives what one step gives:
/// members earned from `t0` to `t1` and then to `t2` are those earned from
/// `t0` to `t2`, so it does not matter how often a player is loaded.
pub proof fn lemma_accrual_is_path_independent(balance: nat, income: nat, t0: u64, t1: u64, t2: u64)
    requires
        t0 <= t1 <= t2,
    ensures
        accrued(accrued(balance, income, t0, t1) as nat, income, t1, t2) == accrued(
            balance,
            income,
            t0,
            t2,
        ),
{
    let a: int = t1 - t0;
    let b: int = t2 - t1;
    assert(income * a >= 0) by (nonlinear_arith)
        requires
            a >= 0,
    ;
    assert(income * a + income * b == income * (a + b)) by (nonlinear_arith);
}

/// Items get more expensive the more a player has: the price of the next
/// one never falls. An only-one item always costs its base price.
pub proof fn lemma_price_never_falls(base: nat, only_one: bool, n: nat)
    ensures
        price_of(base, only_one, n) <= price_of(base, only_one, n + 1),
        only_one ==> price_of(base, only_one, n) == base,
{
    if !only_one {
        lemma_pow_positive(20, n);
        lemma_pow_positive(23, n);
        let p23 = pow(23, n);
        let p20 = pow(20, n);
        reveal(pow);
        assert(pow(23, n + 1) == 23 * p23);
        assert(pow(20, n + 1) == 20 * p20);
        let x = base * p23;
        let y = p20;
        assert(x >= 0) by (nonlinear_arith)
            requires
                p23 > 0,
                x == base * p23,
        ;
        assert(base * (23 * p23) == 23 * x) by (nonlinear_arith)
            requires
                x == base * p23,
        ;
        assert(x / y <= (23 * x) / (20 * y)) by (nonlinear_arith)
            requires
                x >= 0,
                y > 0,
        {
            let q = x / y;
            let r = (23 * x) / (20 * y);
            assert(q * y <= x);
            assert(r * (20 * y) + (23 * x) % (20 * y) == 23 * x);
            assert((23 * x) % (20 * y) < 20 * y);
            if q > r {
                assert(q * (20 * y) >= (r + 1) * (20 * y));
            }
        }
    }
}

/// The price of the `n`-th of an ordinary item is the base price times
/// `(23/20)^n`, rounded down: the largest whole number `p` with
/// `p * 20^n <= base * 23^n`.
pub proof fn lemma_price_is_scaled_base(base: nat, n: nat)
    ensures
        price_of(base, false, n) * pow(20, n) <= base * pow(23, n),
        base * pow(23, n) < (price_of(base, false, n) + 1) * pow(20, n),
{
    lemma_pow_positive(20, n);
    lemma_pow_positive(23, n);
    let x = base * pow(23, n);
    let y = pow(20, n);
    assert(x >= 0) by (nonlinear_arith)
        requires
            pow(23, n) > 0,
            x == base * pow(23, n),
    ;
    assert((x / y) * y <= x && x < (x / y + 1) * y) by (nonlinear_arith)
        requires
            x >= 0,
            y > 0,
    {
        assert(x == y * (x / y) + x % y);
        assert(0 <= x % y < y);
    }
}

/// The catalogue agrees with the shop's price list: the item at each shop
/// position has the listed base price, income, shilling factor and limit.
pub proof fn lemma_catalogue_follows_price_list(p: int)
    requires
        0 <= p < 14,
    ensures
        ({
            let (id, base, income, multiplier, only_one) = price_list()[p];
            &&& shop_order()[p] == id
            &&& is_known_item(id)
            &&& item_base_price(id) == base
            &&& item_income(id) == income
            &&& item_multiplier(id) == multiplier
            &&& item_only_one(id) == only_one
        }),
{
    let l = price_list();
    let s = shop_order();
    assert(l[0] == (0u32, 8u64, Some(1u32), None::<u32>, false) && s[0] == 0);
    assert(l[1] == (1u32, 180u64, Some(9u32), None::<u32>, false) && s[1] == 1);
    assert(l[2] == (11u32, 3000u64, None::<u32>, Some(500u32), true) && s[2] == 11);
    assert(l[3] == (2u32, 920u64, Some(35u32), None::<u32>, false) && s[3] == 2);
    assert(l[4] == (3u32, 6600u64, Some(105u32), None::<u32>, false) && s[4] == 3);
    assert(l[5] == (4u32, 50000u64, Some(300u32), None::<u32>, false) && s[5] == 4);
    assert(l[6] == (5u32, 120000u64, Some(1140u32), None::<u32>, false) && s[6] == 5);
    assert(l[7] == (12u32, 333333u64, None::<u32>, Some(50u32), true) && s[7] == 12);
    assert(l[8] == (6u32, 530000u64, Some(6183u32), None::<u32>, false) && s[8] == 6);
    assert(l[9] == (7u32, 2110000u64, Some(37000u32), None::<u32>, false) && s[9] == 7);
    assert(l[10] == (8u32, 34000000u64, Some(81467u32), None::<u32>, false) && s[10] == 8);
    assert(l[11] == (13u32, 123000000u64, None::<u32>, Some(321u32), true) && s[11] == 13);
    assert(l[12] == (9u32, 240000000u64, Some(1000000u32), None::<u32>, false) && s[12] == 9);
    assert(l[13] == (10u32, 8000000000u64, Some(10000000u32), None::<u32>, false) && s[13] == 10);
}

proof fn lemma_occurs_in_left(a: Seq<char>, b: Seq<char>, n: Seq<char>, i: int)
    requires
        occurs_at(a, n, i),
    ensures
        occurs_at(a + b, n, i),
{
    assert((a + b).subrange(i, i + n.len()) =~= a.subrange(i, i + n.len()));
}

proof fn lemma_occurs_in_right(a: Seq<char>, b: Seq<char>, n: Seq<char>, j: int)
    requires
        occurs_at(b, n, j),
    ensures
        occurs_at(a + b, n, a.len() + j),
{
    assert((a + b).subrange(a.len() + j, a.len() + j + n.len()) =~= b.subrange(j, j + n.len()));
}

proof fn lemma_joined_contains(parts: Seq<Seq<char>>, sep: Seq<char>, i: int)
    requires
        0 <= i < parts.len(),
    ensures
        text_contains(joined(parts, sep), parts[i]),
    decreases parts.len(),
{
    if parts.len() == 1 {
        assert(parts[0].subrange(0, parts[0].len() as int) =~= parts[0]);
        assert(occurs_at(parts[0], parts[0], 0));
    } else {
        let front = joined(parts.drop_last(), sep) + sep;
        let last = parts.last();
        assert(joined(parts, sep) == front + last);
        if i == parts.len() - 1 {
            assert(last.subrange(0, last.len() as int) =~= last);
            assert(occurs_at(last, last, 0));
            lemma_occurs_in_right(front, last, last, 0);
        } else {
            lemma_joined_contains(parts.drop_last(), sep, i);
            assert(parts.drop_last()[i] == parts[i]);
            let j = choose|j: int| occurs_at(joined(parts.drop_last(), sep), parts[i], j);
            lemma_occurs_in_left(joined(parts.drop_last(), sep), sep, parts[i], j);
            lemma_occurs_in_left(front, last, parts[i], j);
        }
    }
}

proof fn lemma_owned_parts_lists(player: Player, k: nat, p: int)
    requires
        k <= 14,
        0 <= p < k,
        player.count(shop_order()[p]) > 0,
    ensures
        ({
            let id = shop_order()[p];
            owned_parts(player, k).contains(count_text(item_name(id), item_only_one(id), player.count(id)))
        }),
    decreases k,
{
    let id = shop_order()[p];
    let part = count_text(item_name(id), item_only_one(id), player.count(id));
    let rest = owned_parts(player, (k - 1) as nat);
    if p == k - 1 {
        let all = rest.push(part);
        assert(all[all.len() - 1] == part);
    } else {
        lemma_owned_parts_lists(player, (k - 1) as nat, p);
        let i = choose|i: int| 0 <= i < rest.len() && rest[i] == part;
        let next = shop_order()[k - 1];
        if player.count(next) > 0 {
            let all = rest.push(count_text(item_name(next), item_only_one(next), player.count(next)));
            assert(all[i] == part);
        }
    }
}

proof fn lemma_owned_parts_empty(player: Player, k: nat)
    requires
        k <= 14,
        forall|p: int| 0 <= p < 14 ==> player.count(#[trigger] shop_order()[p]) == 0,
    ensures
        owned_parts(player, k).len() == 0,
    decreases k,
{
    if k > 0 {
        lemma_owned_parts_empty(player, (k - 1) as nat);
        assert(player.count(shop_order()[k - 1]) == 0);
    }
}

/// The membership card lists every advertisement the player owns, whichever
/// shop position it has: each owned item's count text appears in the summary.
pub proof fn lemma_summary_lists_every_owned_item(player: Player, p: int)
    requires
        0 <= p < 14,
        player.count(shop_order()[p]) > 0,
    ensures
        ({
            let id = shop_order()[p];
            text_contains(
                summary_text(player),
                count_text(item_name(id), item_only_one(id), player.count(id)),
            )
        }),
{
    let id = shop_order()[p];
    let part = count_text(item_name(id), item_only_one(id), player.count(id));
    lemma_owned_parts_lists(player, 14, p);
    let parts = owned_parts(player, 14);
    let i = choose|i: int| 0 <= i < parts.len() && parts[i] == part;
    lemma_joined_contains(parts, " • "@, i);
}

/// A player who owns none of the shop's advertisements is pointed to the shop.
pub proof fn lemma_summary_of_nothing(player: Player)
    requires
        forall|p: int| 0 <= p < 14 ==> player.count(#[trigger] shop_order()[p]) == 0,
    ensures
        summary_text(player) == nothing_owned_text(),
{
    lemma_owned_parts_empty(player, 14);
}

/// The shop lists 14 items, each once.
pub proof fn lemma_shop_order_distinct()
    ensures
        shop_order().len() == 14,
        forall|i: int, j: int|
            0 <= i < 14 && 0 <= j < 14 && i != j ==> shop_order()[i] != shop_order()[j],
{
    let s = shop_order();
    assert(s[0] == 0 && s[1] == 1 && s[2] == 11 && s[3] == 2 && s[4] == 3 && s[5] == 4 && s[6]
        == 5);
    assert(s[7] == 12 && s[8] == 6 && s[9] == 7 && s[10] == 8 && s[11] == 13 && s[12] == 9 && s[13]
        == 10);
}

proof fn lemma_matches_before_contains(q: Seq<char>, k: nat, p: int)
    requires
        k <= 14,
        0 <= p < 14,
    ensures
        matches_before(q, k).contains(shop_order()[p]) <==> (p < k && shop_item_matches(q, p)),
    decreases k,
{
    lemma_shop_order_distinct();
    if k > 0 {
        lemma_matches_before_contains(q, (k - 1) as nat, p);
        let rest = matches_before(q, (k - 1) as nat);
        if shop_item_matches(q, k - 1) {
            let all = rest.push(shop_order()[k - 1]);
            assert(all[all.len() - 1] == shop_order()[k - 1]);
            if rest.contains(shop_order()[p]) {
                let i = choose|i: int| 0 <= i < rest.len() && rest[i] == shop_order()[p];
                assert(all[i] == shop_order()[p]);
            }
            if all.contains(shop_order()[p]) {
                let i = choose|i: int| 0 <= i < all.len() && all[i] == shop_order()[p];
                if i < rest.len() {
                    assert(rest[i] == shop_order()[p]);
                }
            }
        }
    }
}

/// Searching the shop finds exactly the items whose whole name contains the
/// query, ignoring case: every item whose name contains it, and no other.
pub proof fn lemma_search_finds_names_containing(q: Seq<char>, p: int)
    requires
        0 <= p < 14,
    ensures
        shop_matches(q).contains(shop_order()[p]) <==> text_contains(
            lowercase(item_name(shop_order()[p])),
            lowercase(q),
        ),
{
    lemma_matches_before_contains(q, 14, p);
}

/// Every shop item is found by its own full name.
pub proof fn lemma_item_found_by_own_name(p: int)
    requires
        0 <= p < 14,
    ensures
        shop_matches(item_name(shop_order()[p])).contains(shop_order()[p]),
{
    let name = lowercase(item_name(shop_order()[p]));
    assert(name.subrange(0, name.len() as int) =~= name);
    assert(occurs_at(name, name, 0));
    lemma_search_finds_names_containing(item_name(shop_order()[p]), p);
}

/// Two ranks cannot each come before the other.
proof fn lemma_ranks_before_asymmetric(keys: Seq<nat>, x: int, y: int)
    requires
        0 <= x < keys.len(),
        0 <= y < keys.len(),
    ensures
        !(ranks_before(keys, x, y) && ranks_before(keys, y, x)),
{
}

/// Down a ranking, membership never increases.
pub proof fn lemma_ranking_descends(order: Seq<usize>, keys: Seq<nat>, a: int, b: int)
    requires
        is_ranking(order, keys),
        0 <= a <= b < order.len(),
    ensures
        keys[order[a] as int] >= keys[order[b] as int],
{
    if a < b {
        assert(ranks_before(keys, order[a] as int, order[b] as int));
    }
}

/// A ranking lists every index exactly once: every player is on the
/// leaderboard, and none twice.
pub proof fn lemma_ranking_lists_each_once(order: Seq<usize>, keys: Seq<nat>, i: int)
    requires
        is_ranking(order, keys),
        0 <= i < keys.len(),
    ensures
        exists|k: int| 0 <= k < order.len() && order[k] == i,
        forall|k1: int, k2: int| 0 <= k1 < k2 < order.len() ==> order[k1] != order[k2],
{
    let n = keys.len() as int;
    assert forall|k1: int, k2: int| 0 <= k1 < k2 < order.len() implies order[k1] != order[k2] by {
        assert(ranks_before(keys, order[k1] as int, order[k2] as int));
    }
    let s = order.map_values(|x: usize| x as int);
    assert(s.no_duplicates()) by {
        assert forall|k1: int, k2: int| 0 <= k1 < s.len() && 0 <= k2 < s.len() && k1 != k2 implies s[k1] != s[k2] by {
            if k1 < k2 {
                assert(ranks_before(keys, order[k1] as int, order[k2] as int));
            } else {
                assert(ranks_before(keys, order[k2] as int, order[k1] as int));
            }
        }
    }
    s.unique_seq_to_set();
    lemma_int_range(0, n);
    assert(s.to_set().subset_of(set_int_range(0, n))) by {
        assert forall|x: int| s.to_set().contains(x) implies set_int_range(0, n).contains(x) by {
            let k = choose|k: int| 0 <= k < s.len() && s[k] == x;
        }
    }
    lemma_len_subset(s.to_set(), set_int_range(0, n));
    lemma_subset_equality(s.to_set(), set_int_range(0, n));
    assert(set_int_range(0, n).contains(i));
    assert(s.to_set().contains(i));
    let k = choose|k: int| 0 <= k < s.len() && s[k] == i;
    assert(order[k] == i);
}

/// There is only one ranking of given memberships: the leaderboard's order
/// is fully determined (most members first, ties in input order).
pub proof fn lemma_ranking_is_unique(o1: Seq<usize>, o2: Seq<usize>, keys: Seq<nat>)
    requires
        is_ranking(o1, keys),
        is_ranking(o2, keys),
    ensures
        o1 == o2,
{
    lemma_rankings_agree_from(o1, o2, keys, 0);
    assert(o1 =~= o2);
}

proof fn lemma_rankings_agree_from(o1: Seq<usize>, o2: Seq<usize>, keys: Seq<nat>, j: int)
    requires
        is_ranking(o1, keys),
        is_ranking(o2, keys),
        0 <= j <= keys.len(),
        forall|k: int| 0 <= k < j ==> o1[k] == o2[k],
    ensures
        forall|k: int| 0 <= k < keys.len() ==> o1[k] == o2[k],
    decreases keys.len() - j,
{
    if j < keys.len() {
        let x = o1[j] as int;
        let y = o2[j] as int;
        if x != y {
            lemma_ranking_lists_each_once(o1, keys, y);
            lemma_ranking_lists_each_once(o2, keys, x);
            let m = choose|k: int| 0 <= k < o1.len() && o1[k] == y;
            let m2 = choose|k: int| 0 <= k < o2.len() && o2[k] == x;
            if m < j {
                assert(o2[m] == y);
                assert(false);
            }
            if m2 < j {
                assert(o1[m2] == x);
                assert(false);
            }
            assert(ranks_before(keys, o1[j] as int, o1[m] as int));
            assert(ranks_before(keys, o2[j] as int, o2[m2] as int));
            lemma_ranks_before_asymmetric(keys, x, y);
        }
        lemma_rankings_agree_from(o1, o2, keys, j + 1);
    }
}

/// Owning more items never lowers the shilling factor below one: the factor
/// is at least 1.
pub proof fn lemma_multiplier_at_least_one(counts: Map<u32, u32>)
    ensures
        total_multiplier(counts) >= 1,
{
    lemma_multiplier_upto_at_least_one(counts, 14);
}

proof fn lemma_multiplier_upto_at_least_one(counts: Map<u32, u32>, k: nat)
    ensures
        multiplier_upto(counts, k) >= 1,
    decreases k,
{
    if k > 0 {
        lemma_multiplier_upto_at_least_one(counts, (k - 1) as nat);
        let id = (k - 1) as u32;
        let c = count_in(counts, id);
        match item_multiplier(id) {
            Some(m) => {
                if m > 0 {
                    lemma_pow_positive(m as int, c);
                }
            },
            None => {},
        }
        let f = multiplier_factor(id, c);
        assert(f >= 1);
        let r = multiplier_upto(counts, (k - 1) as nat);
        assert(r * f >= 1) by (nonlinear_arith)
            requires
                r >= 1,
                f >= 1,
        ;
    }
}

/// Buying `extra` more of item `id` raises the income by exactly the item's
/// income times `extra`.
pub proof fn lemma_buying_adds_income(counts: Map<u32, u32>, id: u32, extra: nat)
    requires
        is_known_item(id),
        count_in(counts, id) + extra <= u32::MAX,
    ensures
        total_income(counts.insert(id, (count_in(counts, id) + extra) as u32)) == total_income(
            counts,
        ) + income_value(id) * extra,
{
    lemma_income_upto_after_insert(counts, id, extra, 14);
}

proof fn lemma_income_upto_after_insert(counts: Map<u32, u32>, id: u32, extra: nat, k: nat)
    requires
        count_in(counts, id) + extra <= u32::MAX,
        k <= 14,
    ensures
        income_upto(counts.insert(id, (count_in(counts, id) + extra) as u32), k) == income_upto(
            counts,
            k,
        ) + (if id < k {
            income_value(id) * extra
        } else {
            0
        }),
    decreases k,
{
    let bigger = counts.insert(id, (count_in(counts, id) + extra) as u32);
    if k > 0 {
        lemma_income_upto_after_insert(counts, id, extra, (k - 1) as nat);
        let j = (k - 1) as u32;
        if j == id {
            assert(count_in(bigger, j) == count_in(counts, j) + extra);
            let v = income_value(j);
            let c = count_in(counts, j);
            assert(v * (c + extra) == v * c + v * extra) by (nonlinear_arith);
        } else {
            assert(count_in(bigger, j) == count_in(counts, j));
        }
    }
}

/// A player never owns more than one of an only-one item: a purchase that
/// `buy` lets through (it refuses when the player would end up with more
/// than one) leaves at most one.
pub proof fn lemma_only_one_items_stay_single(counts: Map<u32, u32>, id: u32, wanted: nat)
    requires
        item_only_one(id),
        !(wanted + count_in(counts, id) > 1),
    ensures
        count_in(counts.insert(id, (count_in(counts, id) + wanted) as u32), id) <= 1,
{
}

/// Right after a shill at `t`, shilling again is refused until the cooldown
/// has passed, and allowed from then on.
pub proof fn lemma_shilling_waits_for_cooldown(t: u64, later: u64)
    requires
        t <= later,
    ensures
        on_cooldown(t, later) <==> later < t + 30,
{
}

/// Reading back a plain decimal rendering gives the number: page numbers
/// written into button identifiers parse back unchanged.
pub proof fn lemma_decimal_parses_back(n: nat)
    requires
        n <= usize::MAX,
    ensures
        parsed_usize(decimal(n)) == Some(n as usize),
{
    lemma_decimal_digits(n);
    let d = decimal(n);
    assert(d[0] != '+');
}

proof fn lemma_digit_char(d: nat)
    requires
        d < 10,
    ensures
        '0' <= digit_char(d) <= '9',
        digit_char(d) as nat - '0' as nat == d,
{
}

proof fn lemma_decimal_digits(n: nat)
    ensures
        decimal(n).len() > 0,
        all_digits(decimal(n)),
        digits_number(decimal(n)) == n,
    decreases n,
{
    if n < 10 {
        lemma_digit_char(n);
        let d = decimal(n);
        assert(d.drop_last() =~= Seq::<char>::empty());
        assert(d.last() == digit_char(n));
        assert(digits_number(d) == digits_number(d.drop_last()) * 10 + ((d.last() as nat) - ('0' as nat)) as nat);
    } else {
        lemma_decimal_digits(n / 10);
        lemma_digit_char(n % 10);
        let d = decimal(n);
        assert(d.drop_last() =~= decimal(n / 10));
        assert(all_digits(d)) by {
            assert forall|i: int| 0 <= i < d.len() implies '0' <= #[trigger] d[i] <= '9' by {
                if i < d.len() - 1 {
                    assert(d[i] == decimal(n / 10)[i]);
                }
            }
        }
    }
}

} // verus!
