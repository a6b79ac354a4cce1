//! Colours and number renderings shared by every message.
use vstd::prelude::*;

use crate::bignum::BigNat;
use crate::chance::random_below;
use crate::numfmt::grouped_decimal;

verus! {

/// The colours that messages cycle through.
pub open spec fn colours() -> Seq<u32> {
    seq![0xff4a8eu32, 0x8a6fd5u32, 0x00c5bau32]
}

/// The colour at position `i` of the palette.
fn colour(i: usize) -> (c: u32)
    requires
        i < 3,
    ensures
        c == colours()[i as int],
{
    if i == 0 {
        0xff4a8e
    } else if i == 1 {
        0x8a6fd5
    } else {
        0x00c5ba
    }
}

/// A colour drawn at random from the palette.
pub fn random_colour() -> (c: u32)
    ensures
        colours().contains(c),
{
    let i = random_below(3);
    let c = colour(i);
    assert(colours()[i as int] == c);
    c
}

/// The colour for page `idx`: the palette repeats every three pages.
pub fn indexed_colour(idx: usize) -> (c: u32)
    ensures
        c == colours()[(idx % 3) as int],
{
    colour(idx % 3)
}

/// How a number of members reads: `1 member`, else e.g. `1,234 members`.
pub open spec fn members_text(n: nat) -> Seq<char> {
    if n == 1 {
        "1 member"@
    } else {
        grouped_decimal(n) + " members"@
    }
}

/// A number of members as text.
pub fn show_members(num: &BigNat) -> (s: String)
    ensures
        s@ == members_text(num@),
{
    if num.equals(&BigNat::from_u64(1)) {
        String::from_str("1 member")
    } else {
        let mut s = num.formatted_en();
        s.append(" members");
        s
    }
}

/// How a multiplier reads, e.g. `×1,000`.
pub open spec fn multiplier_text(n: nat) -> Seq<char> {
    "×"@ + grouped_decimal(n)
}

/// A multiplier as text.
pub fn show_multiplier(num: &BigNat) -> (s: String)
    ensures
        s@ == multiplier_text(num@),
{
    let mut s = String::from_str("×");
    s.append(num.formatted_en().as_str());
    s
}

} // verus!
