//! The membership card: a player's members, income, shilling factor and
//! the advertisements they own.
use vstd::prelude::*;

use crate::display::{members_text, multiplier_text, show_members, show_multiplier};
use crate::items::{count_text, get_item, item_name, item_only_one, shop_item, shop_order, SHOP_ITEM_COUNT};
use crate::player::Player;

verus! {

/// The parts joined with `sep` between each two.
pub open spec fn joined(parts: Seq<Seq<char>>, sep: Seq<char>) -> Seq<char>
    decreases parts.len(),
{
    if parts.len() == 0 {
        Seq::empty()
    } else if parts.len() == 1 {
        parts[0]
    } else {
        joined(parts.drop_last(), sep) + sep + parts.last()
    }
}

/// How the owned items among the first `k` shop positions read, in shop order.
pub open spec fn owned_parts(player: Player, k: nat) -> Seq<Seq<char>>
    decreases k,
{
    if k == 0 {
        Seq::empty()
    } else {
        let rest = owned_parts(player, (k - 1) as nat);
        let id = shop_order()[k - 1];
        if player.count(id) > 0 {
            rest.push(count_text(item_name(id), item_only_one(id), player.count(id)))
        } else {
            rest
        }
    }
}

/// What the summary says when the player owns nothing.
pub open spec fn nothing_owned_text() -> Seq<char> {
    "Nothing yet `._.` Check out `/shop browse`."@
}

/// The summary of the advertisements a player owns.
pub open spec fn summary_text(player: Player) -> Seq<char> {
    let parts = owned_parts(player, 14);
    if parts.len() == 0 {
        nothing_owned_text()
    } else {
        joined(parts, " • "@)
    }
}

/// The advertisements a player owns, in shop order, separated by bullets;
/// a hint towards the shop when there are none.
pub fn items_summary(player: &Player) -> (summary: String)
    ensures
        summary@ == summary_text(*player),
{
    let mut summary = String::new();
    let mut any = false;
    let mut i: usize = 0;
    while i < SHOP_ITEM_COUNT
        invariant
            i <= SHOP_ITEM_COUNT,
            any == (owned_parts(*player, i as nat).len() > 0),
            summary@ == joined(owned_parts(*player, i as nat), " • "@),
        decreases SHOP_ITEM_COUNT - i,
    {
        let id = shop_item(i);
        let count = player.item_count(id);
        if count > 0 {
            let item = get_item(id);
            if any {
                summary.append(" • ");
            }
            summary.append(item.show_count(count).as_str());
            any = true;
            let ghost parts = owned_parts(*player, (i + 1) as nat);
            assert(parts.drop_last() == owned_parts(*player, i as nat));
        }
        i = i + 1;
    }
    if !any {
        summary = String::from_str("Nothing yet `._.` Check out `/shop browse`.");
    }
    summary
}

/// The title of a player's membership card.
pub fn membership_title(player: &Player) -> (title: String)
    ensures
        title@ == player.name@ + " SompCoc Membership"@,
{
    let mut title = player.name.clone();
    title.append(" SompCoc Membership");
    title
}

/// The headline of a player's membership card: members, income and shilling
/// factor, e.g. `**1,234 members** +5 members/sec; ×500 shill multiplier`.
pub fn membership_description(player: &Player) -> (text: String)
    requires
        player.wf(),
    ensures
        text@ == "**"@ + members_text(player.balance@) + "** +"@ + members_text(player.income())
            + "/sec; "@ + multiplier_text(player.multiplier()) + " shill multiplier"@,
{
    let mut text = String::from_str("**");
    text.append(show_members(&player.balance).as_str());
    text.append("** +");
    text.append(show_members(&player.income_per_tick()).as_str());
    text.append("/sec; ");
    text.append(show_multiplier(&player.total_shill_multiplier()).as_str());
    text.append(" shill multiplier");
    text
}

} // verus!
