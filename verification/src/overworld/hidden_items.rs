//! Hidden items and coins: invisible pickups examined by pressing A while
//! facing their tile, before sign and NPC interaction.
//!
//! An already-obtained spot shows nothing but still swallows the A press.
//! Otherwise "<PLAYER> found X!" shows; on success the obtained flag is set,
//! on a full bag the "no more room" text shows and the flag stays clear.
//! Obtained flags are bit `index % 8` of byte `index / 8`.

use vstd::prelude::*;

use crate::text::{push_decimal, spec_decimal};

verus! {

/// Bytes of the obtained-hidden-items flags (112 flags).
pub const HIDDEN_ITEMS_BYTES: usize = 14;
/// Bytes of the obtained-hidden-coins flags (16 flags).
pub const HIDDEN_COINS_BYTES: usize = 2;
/// Distinct item stacks the bag holds.
pub const BAG_ITEM_CAPACITY: usize = 20;

/// "Yes! ITEMFINDER indicates there's an item nearby."
pub const ITEMFINDER_FOUND_MESSAGE: &'static str = "Yes! ITEMFINDER\nindicates there's\nan item nearby.";
/// "Nope! ITEMFINDER isn't responding."
pub const ITEMFINDER_NOTHING_MESSAGE: &'static str = "Nope! ITEMFINDER\nisn't responding.";
/// Frames between ITEMFINDER dings.
pub const ITEMFINDER_DING_FRAMES: u8 = 30;

/// Bit `k` of byte `b`.
pub open spec fn bit_of(b: u8, k: u8) -> bool {
    b & (1u8 << k) != 0
}

/// Flag `index` of a flag byte array.
pub open spec fn spec_obtained(flags: Seq<u8>, index: int) -> bool {
    bit_of(flags[index / 8], (index % 8) as u8)
}

/// The flag bytes with flag `index` set.
pub open spec fn spec_set_obtained(flags: Seq<u8>, index: int) -> Seq<u8> {
    flags.update(index / 8, flags[index / 8] | (1u8 << ((index % 8) as u8)))
}

/// Tests flag `index` of a hidden-flag byte array.
pub fn check_obtained<const N: usize>(flags: &[u8; N], index: usize) -> (r: bool)
    requires
        index / 8 < N,
    ensures
        r == spec_obtained(flags@, index as int),
{
    flags[index / 8] & (1u8 << ((index % 8) as u8)) != 0
}

/// Sets flag `index` of a hidden-flag byte array.
pub fn set_obtained<const N: usize>(flags: &mut [u8; N], index: usize)
    requires
        index / 8 < N,
    ensures
        final(flags)@ == spec_set_obtained(old(flags)@, index as int),
{
    let i = index / 8;
    let b = flags[i] | (1u8 << ((index % 8) as u8));
    flags.set(i, b);
}

proof fn lemma_bit_set(b: u8, k1: u8, k2: u8)
    requires
        k1 < 8,
        k2 < 8,
    ensures
        bit_of(b | (1u8 << k1), k1),
        k1 != k2 ==> bit_of(b | (1u8 << k1), k2) == bit_of(b, k2),
{
    assert((b | (1u8 << k1)) & (1u8 << k1) != 0) by (bit_vector)
        requires
            k1 < 8,
    ;
    assert(k1 != k2 ==> (((b | (1u8 << k1)) & (1u8 << k2) != 0) == (b & (1u8 << k2) != 0))) by (bit_vector)
        requires
            k1 < 8,
            k2 < 8,
    ;
}

/// Setting a flag sets exactly that flag: it reads back as set, and every
/// other flag reads as before.
pub proof fn lemma_set_obtained_exact(flags: Seq<u8>, index: int, other: int)
    requires
        0 <= index,
        index / 8 < flags.len(),
        0 <= other,
        other / 8 < flags.len(),
    ensures
        spec_obtained(spec_set_obtained(flags, index), index),
        other != index ==> spec_obtained(spec_set_obtained(flags, index), other) == spec_obtained(flags, other),
{
    lemma_bit_set(flags[index / 8], (index % 8) as u8, (other % 8) as u8);
    if other / 8 == index / 8 && other != index {
        assert(other % 8 != index % 8);
    }
}

/// A hidden item spot: its index in the hidden-item table, the item, and
/// the item's constant name as the bag lists it.
#[derive(Debug, Clone, PartialEq, Eq)]
pub struct HiddenItemSpot {
    pub index: usize,
    pub item: u8,
    pub item_const_name: String,
}

/// Result of pressing A while facing a hidden-item tile.
#[derive(Debug, Clone, PartialEq, Eq, Structural)]
pub enum HiddenItemFind {
    /// Already obtained: the A press is swallowed and nothing shows.
    AlreadyObtained,
    /// "<PLAYER> found X!", with whether the bag has no room for it (the
    /// item is neither held already nor is there a free slot).
    Found { index: usize, item: u8, bag_full: bool },
}

/// The bag lists the item.
pub open spec fn bag_holds(bag_names: Seq<String>, name: Seq<char>) -> bool {
    exists|i: int| 0 <= i < bag_names.len() && (#[trigger] bag_names[i])@ == name
}

pub open spec fn spec_examine(spot: Option<HiddenItemSpot>, flags: Seq<u8>, bag_names: Seq<String>) -> Option<HiddenItemFind> {
    match spot {
        None => None,
        Some(s) => if spec_obtained(flags, s.index as int) {
            Some(HiddenItemFind::AlreadyObtained)
        } else {
            Some(
                HiddenItemFind::Found {
                    index: s.index,
                    item: s.item,
                    bag_full: !bag_holds(bag_names, s.item_const_name@) && bag_names.len() >= BAG_ITEM_CAPACITY,
                },
            )
        },
    }
}

/// Examine the tile in front of the player, given the hidden-item spot
/// found there (if any) and the bag's item constant names.
pub fn examine_facing_tile(
    spot: Option<&HiddenItemSpot>,
    flags: &[u8; HIDDEN_ITEMS_BYTES],
    bag_names: &[String],
) -> (r: Option<HiddenItemFind>)
    requires
        spot matches Some(s) ==> s.index / 8 < HIDDEN_ITEMS_BYTES,
    ensures
        r == spec_examine(
            match spot {
                Some(s) => Some(*s),
                None => None,
            },
            flags@,
            bag_names@,
        ),
{
    let s = match spot {
        Some(s) => s,
        None => {
            return None;
        },
    };
    if check_obtained(flags, s.index) {
        return Some(HiddenItemFind::AlreadyObtained);
    }
    let mut held = false;
    let mut i: usize = 0;
    while i < bag_names.len()
        invariant
            i <= bag_names@.len(),
            held == exists|k: int| 0 <= k < i && (#[trigger] bag_names@[k])@ == s.item_const_name@,
        decreases bag_names@.len() - i,
    {
        if crate::text::str_eq(bag_names[i].as_str(), s.item_const_name.as_str()) {
            held = true;
        }
        i += 1;
    }
    let bag_full = !held && bag_names.len() >= BAG_ITEM_CAPACITY;
    Some(HiddenItemFind::Found { index: s.index, item: s.item, bag_full })
}

/// "<PLAYER> found\n<ITEM>!" ("ITEM" when the item has no name).
pub open spec fn spec_found_message(player_name: Seq<char>, item_name: Option<Seq<char>>) -> Seq<char> {
    player_name + " found\n"@ + match item_name {
        Some(n) => n,
        None => "ITEM"@,
    } + "!"@
}

/// The found text: "<PLAYER> found X!".
pub fn found_message(player_name: &str, item_name: Option<&str>) -> (s: String)
    ensures
        s@ == spec_found_message(
            player_name@,
            match item_name {
                Some(n) => Some(n@),
                None => None,
            },
        ),
{
    let mut s = String::from_str(player_name);
    s.append(" found\n");
    match item_name {
        Some(n) => s.append(n),
        None => s.append("ITEM"),
    }
    s.append("!");
    s
}

/// The text shown after the found text when the bag has no room: the item
/// is not flagged obtained.
pub fn bag_full_message(player_name: &str) -> (s: String)
    ensures
        s@ == "But, "@ + player_name@ + " has\nno more room for\nother items!"@,
{
    let mut s = String::from_str("But, ");
    s.append(player_name);
    s.append(" has\nno more room for\nother items!");
    s
}

/// Result of pressing A while facing a hidden-coin tile.
#[derive(Debug, Clone, Copy, PartialEq, Eq, Structural)]
pub enum HiddenCoinFind {
    /// Spot already collected: the A press is swallowed silently.
    AlreadyObtained,
    /// Award `amount` coins.
    Found { index: usize, amount: u16 },
}

/// The coins a spot awards: its stored amount, except that the 40-coin spot
/// awards 20 (the game compares against 40 but loads 20).
pub open spec fn spec_coin_amount(stored: u8) -> u16 {
    if stored == 40 { 20 } else { stored as u16 }
}

/// Examine the tile in front of the player for a floor coin, given the
/// coin spot found there (index and stored amount), if any.
pub fn examine_facing_coin_tile(spot: Option<(usize, u8)>, flags: &[u8; HIDDEN_COINS_BYTES]) -> (r: Option<
    HiddenCoinFind,
>)
    requires
        spot matches Some((index, _)) ==> index / 8 < HIDDEN_COINS_BYTES,
    ensures
        r == match spot {
            None => None,
            Some((index, stored)) => if spec_obtained(flags@, index as int) {
                Some(HiddenCoinFind::AlreadyObtained)
            } else {
                Some(HiddenCoinFind::Found { index, amount: spec_coin_amount(stored) })
            },
        },
{
    let (index, stored) = match spot {
        Some(p) => p,
        None => {
            return None;
        },
    };
    if check_obtained(flags, index) {
        return Some(HiddenCoinFind::AlreadyObtained);
    }
    let amount: u16 = if stored == 40 { 20 } else { stored as u16 };
    Some(HiddenCoinFind::Found { index, amount })
}

/// "<PLAYER> found\n@NN coins!"
pub fn found_coins_message(player_name: &str, amount: u16) -> (s: String)
    ensures
        s@ == player_name@ + " found\n@"@ + spec_decimal(amount as nat) + " coins!"@,
{
    let mut s = String::from_str(player_name);
    s.append(" found\n@");
    push_decimal(&mut s, amount as u32);
    s.append(" coins!");
    s
}

/// Shown right after the found text when the coin total hit its cap.
pub fn dropped_coins_message() -> (s: String)
    ensures
        s@ == "Oops! Dropped\nsome coins!"@,
{
    String::from_str("Oops! Dropped\nsome coins!")
}

} // verus!
