//! Fishing with the OLD, GOOD and SUPER RODs: where a rod can be used, and
//! how the response is rolled from the game's random bytes.

use vstd::prelude::*;

use super::field_moves::{SHORE_TILE_SAFARI, SHORE_TILE_USUAL, WATER_TILE};

verus! {

/// Item ids of the three rods.
pub const ITEM_OLD_ROD: u8 = 0x4C;
pub const ITEM_GOOD_ROD: u8 = 0x4D;
pub const ITEM_SUPER_ROD: u8 = 0x4E;
/// The species (Pokédex number) and level the OLD ROD always hooks.
pub const OLD_ROD_SPECIES: u8 = 129;
pub const OLD_ROD_LEVEL: u8 = 5;

/// The three fishing rods.
#[derive(Debug, Clone, Copy, PartialEq, Eq, Structural)]
pub enum RodKind {
    Old,
    Good,
    Super,
}

impl RodKind {
    /// The rod an item is, if it is one.
    pub fn from_item(item: u8) -> (r: Option<RodKind>)
        ensures
            r == if item == ITEM_OLD_ROD {
                Some(RodKind::Old)
            } else if item == ITEM_GOOD_ROD {
                Some(RodKind::Good)
            } else if item == ITEM_SUPER_ROD {
                Some(RodKind::Super)
            } else {
                None
            },
    {
        if item == ITEM_OLD_ROD {
            Some(RodKind::Old)
        } else if item == ITEM_GOOD_ROD {
            Some(RodKind::Good)
        } else if item == ITEM_SUPER_ROD {
            Some(RodKind::Super)
        } else {
            None
        }
    }
}

/// The outcome of a rod use.
#[derive(Debug, Clone, Copy, PartialEq, Eq, Structural)]
pub enum RodResponse {
    /// "Not even a nibble!"
    NoBite,
    /// "Oh! It's a bite!": a wild battle with the hooked mon follows.
    Bite { species: u8, level: u8 },
    /// "Looks like there's nothing here.": SUPER ROD on a map without a
    /// fishing group.
    NothingHere,
}

/// A fishing table entry: species and level.
#[derive(Debug, Clone, Copy, PartialEq, Eq, Structural)]
pub struct FishingMon {
    pub species: u8,
    pub level: u8,
}

/// Fishing (and surfing) needs a water tileset and, in front of the
/// player, a water tile or an eastern shore tile; the shore tiles do not
/// count on the dock tileset.
pub open spec fn spec_is_fishing_tile(water_tileset: bool, ship_port_tileset: bool, tile_in_front: u8) -> bool {
    water_tileset && (tile_in_front == WATER_TILE || (!ship_port_tileset && (tile_in_front == SHORE_TILE_USUAL
        || tile_in_front == SHORE_TILE_SAFARI)))
}

/// Whether the rod can be cast at the tile in front of the player, given
/// whether the tileset is a water tileset and whether it is the dock's.
pub fn is_fishing_tile(water_tileset: bool, ship_port_tileset: bool, tile_in_front: u8) -> (r: bool)
    ensures
        r == spec_is_fishing_tile(water_tileset, ship_port_tileset, tile_in_front),
{
    water_tileset && (tile_in_front == WATER_TILE || (!ship_port_tileset && (tile_in_front == SHORE_TILE_USUAL
        || tile_in_front == SHORE_TILE_SAFARI)))
}

/// What one random byte decides for a rod with a table: bit 0 set is no
/// bite; otherwise bits 1-2 index the table, and an index past its end
/// asks for another byte (`None`).
pub open spec fn spec_roll_byte(mons: Seq<FishingMon>, r: u8) -> Option<RodResponse> {
    if r & 1 != 0 {
        Some(RodResponse::NoBite)
    } else if ((r >> 1) & 3) < mons.len() {
        let m = mons[((r >> 1) & 3) as int];
        Some(RodResponse::Bite { species: m.species, level: m.level })
    } else {
        None
    }
}

/// The response decided by the first byte of `randoms` that decides one,
/// and how many bytes were used; `None` if none does.
pub open spec fn spec_roll_table(mons: Seq<FishingMon>, randoms: Seq<u8>) -> Option<(RodResponse, nat)>
    decreases randoms.len(),
{
    if randoms.len() == 0 {
        None
    } else {
        match spec_roll_byte(mons, randoms[0]) {
            Some(resp) => Some((resp, 1nat)),
            None => match spec_roll_table(mons, randoms.drop_first()) {
                Some((resp, n)) => Some((resp, n + 1)),
                None => None,
            },
        }
    }
}

/// The rod's response: the OLD ROD always hooks its fixed mon and uses no
/// byte; the GOOD ROD rolls on its table; the SUPER ROD finds nothing on a
/// map without a group (no byte used), else rolls on the group.
pub open spec fn spec_roll_rod_response(rod: RodKind, table: Option<Seq<FishingMon>>, randoms: Seq<u8>) -> Option<
    (RodResponse, nat),
> {
    match rod {
        RodKind::Old => Some((RodResponse::Bite { species: OLD_ROD_SPECIES, level: OLD_ROD_LEVEL }, 0nat)),
        RodKind::Good | RodKind::Super => match table {
            None => if rod is Super {
                Some((RodResponse::NothingHere, 0nat))
            } else {
                None
            },
            Some(mons) => spec_roll_table(mons, randoms),
        },
    }
}

/// Roll the rod response from the random bytes `randoms`, consumed in
/// order. `table` is the GOOD ROD's table, or the SUPER ROD's group for the
/// map (`None` when the map has none). Returns the response and the bytes
/// used, or `None` when the bytes ran out before one decided (draw more
/// and roll again) or when the GOOD ROD is given no table.
pub fn roll_rod_response(rod: RodKind, table: Option<&[FishingMon]>, randoms: &[u8]) -> (r: Option<(RodResponse, usize)>)
    ensures
        match spec_roll_rod_response(
            rod,
            match table {
                Some(t) => Some(t@),
                None => None,
            },
            randoms@,
        ) {
            Some((resp, n)) => r == Some((resp, n as usize)),
            None => r is None,
        },
{
    match rod {
        RodKind::Old => Some((RodResponse::Bite { species: OLD_ROD_SPECIES, level: OLD_ROD_LEVEL }, 0)),
        RodKind::Good | RodKind::Super => {
            let mons = match table {
                Some(t) => t,
                None => {
                    if matches!(rod, RodKind::Super) {
                        return Some((RodResponse::NothingHere, 0));
                    }
                    return None;
                },
            };
            roll_table(mons, randoms)
        },
    }
}

fn roll_table(mons: &[FishingMon], randoms: &[u8]) -> (r: Option<(RodResponse, usize)>)
    ensures
        match spec_roll_table(mons@, randoms@) {
            Some((resp, n)) => r == Some((resp, n as usize)),
            None => r is None,
        },
{
    let mut i: usize = 0;
    while i < randoms.len()
        invariant
            i <= randoms@.len(),
            forall|k: int| 0 <= k < i ==> (#[trigger] spec_roll_byte(mons@, randoms@[k])) is None,
        decreases randoms@.len() - i,
    {
        let b = randoms[i];
        if b & 1 != 0 {
            proof {
                lemma_roll_prefix(mons@, randoms@, i as int);
            }
            return Some((RodResponse::NoBite, i + 1));
        }
        let idx = ((b >> 1) & 3) as usize;
        if idx < mons.len() {
            proof {
                lemma_roll_prefix(mons@, randoms@, i as int);
            }
            return Some((RodResponse::Bite { species: mons[idx].species, level: mons[idx].level }, i + 1));
        }
        i += 1;
    }
    proof {
        lemma_roll_none(mons@, randoms@);
    }
    None
}

proof fn lemma_roll_prefix(mons: Seq<FishingMon>, randoms: Seq<u8>, i: int)
    requires
        0 <= i < randoms.len(),
        forall|k: int| 0 <= k < i ==> (#[trigger] spec_roll_byte(mons, randoms[k])) is None,
        spec_roll_byte(mons, randoms[i]) is Some,
    ensures
        spec_roll_table(mons, randoms) == Some((spec_roll_byte(mons, randoms[i])->0, (i + 1) as nat)),
    decreases i,
{
    if i > 0 {
        assert(spec_roll_byte(mons, randoms[0]) is None);
        let rest = randoms.drop_first();
        assert forall|k: int| 0 <= k < i - 1 implies (#[trigger] spec_roll_byte(mons, rest[k])) is None by {
            assert(rest[k] == randoms[k + 1]);
        }
        assert(rest[i - 1] == randoms[i]);
        lemma_roll_prefix(mons, rest, i - 1);
    }
}

proof fn lemma_roll_none(mons: Seq<FishingMon>, randoms: Seq<u8>)
    requires
        forall|k: int| 0 <= k < randoms.len() ==> (#[trigger] spec_roll_byte(mons, randoms[k])) is None,
    ensures
        spec_roll_table(mons, randoms) is None,
    decreases randoms.len(),
{
    if randoms.len() > 0 {
        let rest = randoms.drop_first();
        assert(spec_roll_byte(mons, randoms[0]) is None);
        assert forall|k: int| 0 <= k < rest.len() implies (#[trigger] spec_roll_byte(mons, rest[k])) is None by {
            assert(rest[k] == randoms[k + 1]);
        }
        lemma_roll_none(mons, rest);
    }
}

/// The text shown when the rod animation ends.
pub fn response_text(response: RodResponse) -> (s: &'static str)
    ensures
        s@ == match response {
            RodResponse::NoBite => "Not even a nibble!"@,
            RodResponse::NothingHere => "Looks like there's\nnothing here."@,
            RodResponse::Bite { .. } => "Oh!\nIt's a bite!"@,
        },
{
    match response {
        RodResponse::NoBite => "Not even a nibble!",
        RodResponse::NothingHere => "Looks like there's\nnothing here.",
        RodResponse::Bite { .. } => "Oh!\nIt's a bite!",
    }
}

/// With a table of four entries every byte decides: the first byte always
/// settles the roll.
pub proof fn lemma_full_table_uses_one_byte(mons: Seq<FishingMon>, randoms: Seq<u8>)
    requires
        mons.len() >= 4,
        randoms.len() >= 1,
    ensures
        spec_roll_table(mons, randoms) matches Some((_, n)) && n == 1,
{
    let r = randoms[0];
    assert((r >> 1) & 3 < 4) by (bit_vector);
}

/// What a roll on the table `mons` reports, byte by byte: it stops at the
/// first byte that is odd (no bite) or whose bits 1-2 pick an entry of the
/// table, and a bite is exactly that entry's species and level; every byte
/// before it was even and picked no entry (and if none decides, all were).
pub open spec fn roll_reports_picked_entry(mons: Seq<FishingMon>, randoms: Seq<u8>, res: Option<(RodResponse, nat)>) -> bool {
    match res {
        Some((resp, n)) => {
            &&& 1 <= n <= randoms.len()
            &&& forall|k: int| 0 <= k < n - 1 ==> #[trigger] randoms[k] & 1 == 0 && ((randoms[k] >> 1) & 3) >= mons.len()
            &&& (resp is NoBite) == (randoms[n - 1] & 1 != 0)
            &&& !(resp is NothingHere)
            &&& resp matches RodResponse::Bite { species, level } ==> {
                let k = ((randoms[n - 1] >> 1) & 3) as int;
                &&& randoms[n - 1] & 1 == 0
                &&& k < mons.len()
                &&& species == mons[k].species
                &&& level == mons[k].level
            }
        },
        None => forall|k: int| 0 <= k < randoms.len() ==> #[trigger] randoms[k] & 1 == 0 && ((randoms[k] >> 1) & 3) >= mons.len(),
    }
}

/// What a rod roll on a table reports, byte by byte: the roll stops at the
/// first byte that is odd (no bite) or whose bits 1-2 pick an entry of the
/// table; a bite reports exactly that entry's species and level. Every byte
/// before it was even and picked no entry, and when no byte decides, each
/// of them was even and picked no entry.
pub proof fn lemma_bite_is_the_picked_entry(mons: Seq<FishingMon>, randoms: Seq<u8>)
    ensures
        roll_reports_picked_entry(mons, randoms, spec_roll_table(mons, randoms)),
    decreases randoms.len(),
{
    if randoms.len() > 0 && spec_roll_byte(mons, randoms[0]) is None {
        let rest = randoms.drop_first();
        lemma_bite_is_the_picked_entry(mons, rest);
        assert(randoms[0] & 1 == 0 && ((randoms[0] >> 1) & 3) >= mons.len());
        match spec_roll_table(mons, rest) {
            Some((resp, n)) => {
                assert(rest[n - 1] == randoms[n as int]);
                assert forall|k: int| 0 <= k < n implies #[trigger] randoms[k] & 1 == 0 && ((randoms[k] >> 1) & 3) >= mons.len() by {
                    if k > 0 {
                        assert(randoms[k] == rest[k - 1]);
                    }
                }
            },
            None => {
                assert forall|k: int| 0 <= k < randoms.len() implies #[trigger] randoms[k] & 1 == 0 && ((randoms[k] >> 1) & 3) >= mons.len() by {
                    if k > 0 {
                        assert(randoms[k] == rest[k - 1]);
                    }
                }
            },
        }
    }
}

/// The GOOD and SUPER RODs on a map with a fishing group report what the
/// roll on the group's table picks (see [`roll_reports_picked_entry`]); the
/// OLD ROD always hooks its fixed mon without a byte.
pub proof fn lemma_rod_bite_is_the_picked_entry(rod: RodKind, mons: Seq<FishingMon>, randoms: Seq<u8>)
    ensures
        !(rod is Old) ==> roll_reports_picked_entry(mons, randoms, spec_roll_rod_response(rod, Some(mons), randoms)),
        rod is Old ==> spec_roll_rod_response(rod, Some(mons), randoms) == Some(
            (RodResponse::Bite { species: OLD_ROD_SPECIES, level: OLD_ROD_LEVEL }, 0nat),
        ),
{
    lemma_bite_is_the_picked_entry(mons, randoms);
}

} // verus!
