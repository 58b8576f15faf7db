//! The Cycling Road forced-bike lock. On every map entry the game checks
//! whether the player stands on one of the road's end tiles and, if so,
//! locks the player onto the bike; the Seafoam Islands current tiles force
//! surfing instead. Entering either road gate releases the lock, as do FLY,
//! DIG, TELEPORT and a blackout.

use vstd::prelude::*;

use crate::text::str_eq;

verus! {

/// What a map entry did to the player's transport state.
#[derive(Debug, Clone, Copy, PartialEq, Eq, Structural)]
pub enum ForcedBikeMapEntry {
    /// Nothing to change (not a forced tile, or already on the bike).
    Keep,
    /// The player stepped onto a Cycling Road tile: mount the bike.
    Mount,
    /// The player arrived on a Seafoam Islands current tile: force surfing.
    ForceSurf,
    /// The player entered a gate (or left by FLY/DIG/TELEPORT/blackout):
    /// restore walking.
    Dismount,
}

/// The lock onto the bicycle while on the Cycling Road. While active the
/// player cannot get off the bike and cannot SURF.
#[derive(Debug, Clone, Copy, PartialEq, Eq, Structural)]
pub struct ForcedBikeState {
    /// Whether the lock is currently set.
    pub active: bool,
}

/// The Cycling Road tiles (map, x, y) that lock the player onto the bike.
pub open spec fn is_forced_bike_tile(map: Seq<char>, x: u8, y: u8) -> bool {
    ||| map == "Route16"@ && x == 17 && (y == 10 || y == 11)
    ||| map == "Route18"@ && x == 33 && (y == 8 || y == 9)
}

/// The Seafoam Islands strong-current tiles that force surfing.
pub open spec fn is_forced_surf_tile(map: Seq<char>, x: u8, y: u8) -> bool {
    ||| map == "SeafoamIslandsB3F"@ && (x == 18 || x == 19) && y == 7
    ||| map == "SeafoamIslandsB4F"@ && (x == 4 || x == 5) && y == 14
}

/// The two gates at the ends of the Cycling Road.
pub open spec fn is_road_gate(map: Seq<char>) -> bool {
    map == "Route16Gate1F"@ || map == "Route18Gate1F"@
}

/// The lock and the transport change after entering `map` at (x, y). The
/// coordinates are compared by their low byte.
pub open spec fn spec_enter_map(active: bool, map: Seq<char>, x: u16, y: u16) -> (bool, ForcedBikeMapEntry) {
    if is_road_gate(map) {
        (false, ForcedBikeMapEntry::Dismount)
    } else if active {
        (true, ForcedBikeMapEntry::Keep)
    } else if is_forced_surf_tile(map, x as u8, y as u8) {
        (false, ForcedBikeMapEntry::ForceSurf)
    } else if is_forced_bike_tile(map, x as u8, y as u8) {
        (true, ForcedBikeMapEntry::Mount)
    } else {
        (false, ForcedBikeMapEntry::Keep)
    }
}

fn is_forced_bike_tile_exec(map: &str, x: u8, y: u8) -> (r: bool)
    ensures
        r == is_forced_bike_tile(map@, x, y),
{
    (str_eq(map, "Route16") && x == 17 && (y == 10 || y == 11)) || (str_eq(map, "Route18") && x == 33 && (y == 8
        || y == 9))
}

fn is_forced_surf_tile_exec(map: &str, x: u8, y: u8) -> (r: bool)
    ensures
        r == is_forced_surf_tile(map@, x, y),
{
    (str_eq(map, "SeafoamIslandsB3F") && (x == 18 || x == 19) && y == 7) || (str_eq(map, "SeafoamIslandsB4F") && (x
        == 4 || x == 5) && y == 14)
}

fn low_byte(v: u16) -> (b: u8)
    ensures
        b == v as u8,
{
    v as u8
}

impl ForcedBikeState {
    /// On map entry: a road gate releases the lock; an active lock stays;
    /// otherwise a current tile forces surfing (without the lock) and a
    /// road tile sets the lock and mounts the bike.
    pub fn enter_map(&mut self, map: &str, x: u16, y: u16) -> (r: ForcedBikeMapEntry)
        ensures
            (final(self).active, r) == spec_enter_map(old(self).active, map@, x, y),
    {
        if str_eq(map, "Route16Gate1F") || str_eq(map, "Route18Gate1F") {
            self.active = false;
            return ForcedBikeMapEntry::Dismount;
        }
        if self.active {
            return ForcedBikeMapEntry::Keep;
        }
        let bx = low_byte(x);
        let by = low_byte(y);
        if is_forced_surf_tile_exec(map, bx, by) {
            return ForcedBikeMapEntry::ForceSurf;
        }
        if is_forced_bike_tile_exec(map, bx, by) {
            self.active = true;
            return ForcedBikeMapEntry::Mount;
        }
        ForcedBikeMapEntry::Keep
    }

    /// Release the lock and restore walking (FLY/DIG/TELEPORT warps and
    /// blackouts).
    pub fn clear(&mut self) -> (r: ForcedBikeMapEntry)
        ensures
            !final(self).active,
            r == ForcedBikeMapEntry::Dismount,
    {
        self.active = false;
        ForcedBikeMapEntry::Dismount
    }
}

impl Default for ForcedBikeState {
    fn default() -> (s: ForcedBikeState)
        ensures
            !s.active,
    {
        ForcedBikeState { active: false }
    }
}

/// Once locked, the lock survives every map entry but the two road gates:
/// the whole road keeps the player on the bike.
pub proof fn lemma_lock_survives_off_gate(map: Seq<char>, x: u16, y: u16)
    requires
        !is_road_gate(map),
    ensures
        spec_enter_map(true, map, x, y) == (true, ForcedBikeMapEntry::Keep),
{
}

/// A current tile never sets the bike lock.
pub proof fn lemma_surf_tiles_never_lock(map: Seq<char>, x: u16, y: u16)
    requires
        is_forced_surf_tile(map, x as u8, y as u8),
    ensures
        !spec_enter_map(false, map, x, y).0,
        spec_enter_map(false, map, x, y).1 == ForcedBikeMapEntry::ForceSurf,
{
    reveal_strlit("SeafoamIslandsB3F");
    reveal_strlit("SeafoamIslandsB4F");
    reveal_strlit("Route16Gate1F");
    reveal_strlit("Route18Gate1F");
    assert(map[0] == 'S');
    assert(!is_road_gate(map));
}

} // verus!
