//! Shilling: telling anyone who will listen about the society, for a random
//! haul of new members, at most once every thirty seconds.
use vstd::prelude::*;

use crate::bignum::BigNat;
use crate::chance::random_below;
use crate::display::{members_text, show_members};
use crate::player::{Player, Timestamp};

verus! {

/// Seconds a player must wait between shills.
pub const SHILLING_COOLDOWN: u64 = 30;

/// A player who last shilled at `last` is still cooling down at `now`.
pub open spec fn on_cooldown(last: u64, now: u64) -> bool {
    now - last < SHILLING_COOLDOWN
}

/// What came of a shill.
pub enum ShillOutcome {
    /// Too soon: shilling is possible again from `ends`.
    OnCooldown { ends: Timestamp },
    /// The shill went ahead: `luck` (0 to 5) times the shilling factor
    /// joined.
    Shilled { luck: u32, gained: BigNat },
}

/// The result of a shill at `now` with the given luck: on cooldown nothing
/// changes; otherwise `luck` times the shilling factor join, and the player
/// must wait again.
pub open spec fn shill_effect(old_player: Player, new_player: Player, now: Timestamp, luck: u32, outcome: ShillOutcome) -> bool {
    if on_cooldown(old_player.last_shilled_at.0, now.0) {
        &&& outcome matches ShillOutcome::OnCooldown { ends } && ends.0 == old_player.last_shilled_at.0 + SHILLING_COOLDOWN
        &&& new_player == old_player
    } else {
        &&& outcome matches ShillOutcome::Shilled { luck: l, gained } && l == luck && gained@ == luck * old_player.multiplier()
        &&& new_player.balance@ == old_player.balance@ + luck * old_player.multiplier()
        &&& new_player.last_shilled_at == now
        &&& new_player.discord_id == old_player.discord_id
        &&& new_player.name == old_player.name
        &&& new_player.balance_last_updated == old_player.balance_last_updated
        &&& new_player.item_counts == old_player.item_counts
    }
}

/// Shills at `now` with the given luck.
pub fn shill_with_luck(player: &mut Player, now: Timestamp, luck: u32) -> (outcome: ShillOutcome)
    requires
        old(player).wf(),
        old(player).last_shilled_at.0 <= now.0,
        old(player).last_shilled_at.0 + SHILLING_COOLDOWN <= u64::MAX,
    ensures
        final(player).wf(),
        shill_effect(*old(player), *final(player), now, luck, outcome),
{
    if now.ticks_since(player.last_shilled_at) < SHILLING_COOLDOWN {
        ShillOutcome::OnCooldown { ends: player.last_shilled_at.ticks_later(SHILLING_COOLDOWN) }
    } else {
        let gained = BigNat::from_u64(luck as u64).mul(&player.total_shill_multiplier());
        player.balance = player.balance.add(&gained);
        player.last_shilled_at = now;
        ShillOutcome::Shilled { luck, gained }
    }
}

/// Shills at `now`, with luck drawn at random from 0 to 5.
pub fn shill(player: &mut Player, now: Timestamp) -> (outcome: ShillOutcome)
    requires
        old(player).wf(),
        old(player).last_shilled_at.0 <= now.0,
        old(player).last_shilled_at.0 + SHILLING_COOLDOWN <= u64::MAX,
    ensures
        final(player).wf(),
        exists|luck: u32| luck <= 5 && shill_effect(*old(player), *final(player), now, luck, outcome),
{
    let luck = random_below(6) as u32;
    shill_with_luck(player, now, luck)
}

/// How a shill went, by its luck.
pub enum Mood {
    Bad,
    Middling,
    Good,
}

/// Luck 0 or 1 is bad, 2 or 3 is ok, more is good.
pub fn mood_for(luck: u32) -> (mood: Mood)
    ensures
        luck <= 1 ==> mood is Bad,
        2 <= luck <= 3 ==> mood is Middling,
        luck > 3 ==> mood is Good,
{
    if luck <= 1 {
        Mood::Bad
    } else if luck <= 3 {
        Mood::Middling
    } else {
        Mood::Good
    }
}

/// What a player hears when shilling too soon.
pub open spec fn cooldown_messages_texts() -> Seq<Seq<char>> {
    seq![
        "Calm down, you're putting people off."@,
        "You've said the word \"SompCoc\" so many times it's lost all meaning. Try talking about something else for a change."@,
        "You've sent one too many emails about SompCoc recently. Rachel Breward sends you a strongly worded email about misuse of department resources."@,
        "You try yet again to convince your friend to come to SompCoc, and she tells you to give it a break. To be fair, you have been overdoing it."@,
    ]
}

/// What a player hears when shilling too soon.
pub fn cooldown_messages() -> (messages: Vec<&'static str>)
    ensures
        messages@.len() == cooldown_messages_texts().len(),
        forall|i: int| 0 <= i < messages@.len() ==> (#[trigger] messages@[i])@ == cooldown_messages_texts()[i],
{
    let messages = vec![
        "Calm down, you're putting people off.",
        "You've said the word \"SompCoc\" so many times it's lost all meaning. Try talking about something else for a change.",
        "You've sent one too many emails about SompCoc recently. Rachel Breward sends you a strongly worded email about misuse of department resources.",
        "You try yet again to convince your friend to come to SompCoc, and she tells you to give it a break. To be fair, you have been overdoing it.",
    ];
    messages
}

/// What a player hears after an unlucky shill.
pub open spec fn bad_messages_texts() -> Seq<Seq<char>> {
    seq![
        "You burst into LTA half way through an Andrew Ker lecture to talk about SompCoc. Everyone hates you."@,
        "You announce a SompCoc picnic in Port Meadow, but you can't convince anyone to touch grass."@,
        "Someone asks if you've been involved in any new societies lately, and you mention SompCoc. They burst out laughing."@,
        "You decide you need money to attract members, so you contact a trading firm about sponsorships. They tell you you need members to get a sponsorship."@,
    ]
}

/// What a player hears after an unlucky shill.
pub fn bad_messages() -> (messages: Vec<&'static str>)
    ensures
        messages@.len() == bad_messages_texts().len(),
        forall|i: int| 0 <= i < messages@.len() ==> (#[trigger] messages@[i])@ == bad_messages_texts()[i],
{
    let messages = vec![
        "You burst into LTA half way through an Andrew Ker lecture to talk about SompCoc. Everyone hates you.",
        "You announce a SompCoc picnic in Port Meadow, but you can't convince anyone to touch grass.",
        "Someone asks if you've been involved in any new societies lately, and you mention SompCoc. They burst out laughing.",
        "You decide you need money to attract members, so you contact a trading firm about sponsorships. They tell you you need members to get a sponsorship.",
    ];
    messages
}

/// What a player hears after a middling shill.
pub open spec fn ok_messages_texts() -> Seq<Seq<char>> {
    seq![
        "Someone in the front row debates your lecturer for ten minutes on whether the proof given would still hold in a universe where cats and dogs are the other way around. You take the opportunity to tell the people around you about SompCoc, which is a welcome distraction."@,
        "You hack into Canvas and place a huge banner ad for SompCoc. Unfortunately, the department disables Canvas soon after."@,
        "Your revision class gets cancelled two minutes *after* it was due to begin. While everyone is standing around confused, you hand out leaflets for SompCoc."@,
    ]
}

/// What a player hears after a middling shill.
pub fn ok_messages() -> (messages: Vec<&'static str>)
    ensures
        messages@.len() == ok_messages_texts().len(),
        forall|i: int| 0 <= i < messages@.len() ==> (#[trigger] messages@[i])@ == ok_messages_texts()[i],
{
    let messages = vec![
        "Someone in the front row debates your lecturer for ten minutes on whether the proof given would still hold in a universe where cats and dogs are the other way around. You take the opportunity to tell the people around you about SompCoc, which is a welcome distraction.",
        "You hack into Canvas and place a huge banner ad for SompCoc. Unfortunately, the department disables Canvas soon after.",
        "Your revision class gets cancelled two minutes *after* it was due to begin. While everyone is standing around confused, you hand out leaflets for SompCoc.",
    ];
    messages
}

/// What a player hears after a lucky shill.
pub open spec fn good_messages_texts() -> Seq<Seq<char>> {
    seq![
        "Your tutor asks what everyone's been up to, and you tell them about all the pizza at SompCoc. Your tutorial partners sign up then and there."@,
        "You infiltrate CompSoc and suggest `Raphael'); DROP TABLE members;--` for their name continuation. Emancipated members come crawling to SompCoc."@,
        "You reanimate the body of William Archibald Spooner, and convince CompSoc to pay him to promote their brand. He does his thing, you get your members."@,
    ]
}

/// What a player hears after a lucky shill.
pub fn good_messages() -> (messages: Vec<&'static str>)
    ensures
        messages@.len() == good_messages_texts().len(),
        forall|i: int| 0 <= i < messages@.len() ==> (#[trigger] messages@[i])@ == good_messages_texts()[i],
{
    let messages = vec![
        "Your tutor asks what everyone's been up to, and you tell them about all the pizza at SompCoc. Your tutorial partners sign up then and there.",
        "You infiltrate CompSoc and suggest `Raphael'); DROP TABLE members;--` for their name continuation. Emancipated members come crawling to SompCoc.",
        "You reanimate the body of William Archibald Spooner, and convince CompSoc to pay him to promote their brand. He does his thing, you get your members.",
    ];
    messages
}

/// The messages for a mood.
pub fn messages_for(mood: Mood) -> (messages: Vec<&'static str>)
    ensures
        mood is Bad ==> messages@.map_values(|m: &str| m@) == bad_messages_texts(),
        mood is Middling ==> messages@.map_values(|m: &str| m@) == ok_messages_texts(),
        mood is Good ==> messages@.map_values(|m: &str| m@) == good_messages_texts(),
{
    let messages = match mood {
        Mood::Bad => bad_messages(),
        Mood::Middling => ok_messages(),
        Mood::Good => good_messages(),
    };
    proof {
        let views = messages@.map_values(|m: &str| m@);
        match mood {
            Mood::Bad => assert(views =~= bad_messages_texts()),
            Mood::Middling => assert(views =~= ok_messages_texts()),
            Mood::Good => assert(views =~= good_messages_texts()),
        }
    }
    messages
}

/// One of the messages, picked at random.
pub fn pick_message(messages: &Vec<&'static str>) -> (m: &'static str)
    requires
        messages@.len() > 0,
    ensures
        messages@.contains(m),
{
    let i = random_below(messages.len());
    let m = messages[i];
    assert(messages@[i as int] == m);
    m
}

/// The reply to a shill made too soon, given when shilling is possible again
/// as Discord renders it.
pub fn cooldown_reply(flavour: &str, cooldown_ends: &str) -> (reply: String)
    ensures
        reply@ == flavour@ + "\n-# You can shill again "@ + cooldown_ends@ + "."@,
{
    let mut reply = String::from_str(flavour);
    reply.append("\n-# You can shill again ");
    reply.append(cooldown_ends);
    reply.append(".");
    reply
}

/// The reply to a shill that went ahead.
pub fn shilled_reply(flavour: &str, gained: &BigNat) -> (reply: String)
    ensures
        reply@ == flavour@ + "\n-# You gained **"@ + members_text(gained@) + "**."@,
{
    let mut reply = String::from_str(flavour);
    reply.append("\n-# You gained **");
    reply.append(show_members(gained).as_str());
    reply.append("**.");
    reply
}

} // verus!
