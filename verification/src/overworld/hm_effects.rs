//! Field moves used outside battle: which moves the party menu shows, the
//! badge each one needs, and the checks each effect makes.

use vstd::prelude::*;

use crate::direction::Direction;
use crate::text::str_eq;

verus! {

pub const BIT_BOULDERBADGE: u8 = 0;
pub const BIT_CASCADEBADGE: u8 = 1;
pub const BIT_THUNDERBADGE: u8 = 2;
pub const BIT_RAINBOWBADGE: u8 = 3;
pub const BIT_SOULBADGE: u8 = 4;

/// Move ids of the field moves.
pub const MOVE_CUT: u8 = 15;
pub const MOVE_FLY: u8 = 19;
pub const MOVE_SURF: u8 = 57;
pub const MOVE_STRENGTH: u8 = 70;
pub const MOVE_DIG: u8 = 91;
pub const MOVE_TELEPORT: u8 = 100;
pub const MOVE_SOFTBOILED: u8 = 135;
pub const MOVE_FLASH: u8 = 148;

/// The tree tile of the overworld tileset, the tree tile of the gym
/// tileset, and the grass tile, that CUT acts on.
pub const CUT_TREE_TILE_OVERWORLD: u8 = 0x3D;
pub const CUT_TREE_TILE_GYM: u8 = 0x50;
pub const CUT_GRASS_TILE: u8 = 0x52;

/// Badge `bit` is among the obtained badges.
pub open spec fn spec_has_badge(obtained_badges: u8, bit: u8) -> bool {
    obtained_badges & (1u8 << bit) != 0
}

fn has_badge(obtained_badges: u8, bit: u8) -> (r: bool)
    requires
        bit < 8,
    ensures
        r == spec_has_badge(obtained_badges, bit),
{
    obtained_badges & (1u8 << bit) != 0
}

/// The field-move table: each move the party menu lists, the badge bit its
/// use needs (if any), and the leftmost tile column of its name in the
/// menu's action box. SOFTBOILED heals a party member instead of acting on
/// the map.
pub open spec fn spec_field_move_entry(m: u8) -> Option<(Option<u8>, u8)> {
    if m == MOVE_CUT {
        Some((Some(BIT_CASCADEBADGE), 0x0Cu8))
    } else if m == MOVE_FLY {
        Some((Some(BIT_THUNDERBADGE), 0x0Cu8))
    } else if m == MOVE_SURF {
        Some((Some(BIT_SOULBADGE), 0x0Cu8))
    } else if m == MOVE_STRENGTH {
        Some((Some(BIT_RAINBOWBADGE), 0x0Au8))
    } else if m == MOVE_FLASH {
        Some((Some(BIT_BOULDERBADGE), 0x0Cu8))
    } else if m == MOVE_DIG {
        Some((None, 0x0Cu8))
    } else if m == MOVE_TELEPORT {
        Some((None, 0x0Au8))
    } else if m == MOVE_SOFTBOILED {
        Some((None, 0x08u8))
    } else {
        None
    }
}

fn field_move_entry(m: u8) -> (r: Option<(Option<u8>, u8)>)
    ensures
        r == spec_field_move_entry(m),
{
    if m == MOVE_CUT {
        Some((Some(BIT_CASCADEBADGE), 0x0C))
    } else if m == MOVE_FLY {
        Some((Some(BIT_THUNDERBADGE), 0x0C))
    } else if m == MOVE_SURF {
        Some((Some(BIT_SOULBADGE), 0x0C))
    } else if m == MOVE_STRENGTH {
        Some((Some(BIT_RAINBOWBADGE), 0x0A))
    } else if m == MOVE_FLASH {
        Some((Some(BIT_BOULDERBADGE), 0x0C))
    } else if m == MOVE_DIG {
        Some((None, 0x0C))
    } else if m == MOVE_TELEPORT {
        Some((None, 0x0A))
    } else if m == MOVE_SOFTBOILED {
        Some((None, 0x08))
    } else {
        None
    }
}

pub open spec fn spec_is_field_move(m: u8) -> bool {
    spec_field_move_entry(m) is Some
}

/// `spec_is_field_move` as a predicate value.
pub open spec fn field_move_pred() -> spec_fn(u8) -> bool {
    |m: u8| spec_is_field_move(m)
}

/// The move is usable out of battle (listed in the party menu).
pub fn is_field_move(m: u8) -> (r: bool)
    ensures
        r == spec_is_field_move(m),
{
    field_move_entry(m).is_some()
}

/// The field moves a Pokémon shows in the party menu, in moveset order:
/// every known field move is listed; the badge is checked on selection.
pub fn field_moves_of(moves: &[u8; 4]) -> (r: Vec<u8>)
    ensures
        r@ == moves@.filter(field_move_pred()),
{
    let mut r: Vec<u8> = Vec::new();
    let mut i: usize = 0;
    proof {
        reveal(Seq::filter);
    }
    while i < 4
        invariant
            i <= 4,
            r@ == moves@.subrange(0, i as int).filter(field_move_pred()),
        decreases 4 - i,
    {
        proof {
            reveal(Seq::filter);
        }
        let ghost s1 = moves@.subrange(0, i + 1);
        assert(s1.drop_last() =~= moves@.subrange(0, i as int));
        assert(s1.last() == moves@[i as int]);
        if is_field_move(moves[i]) {
            r.push(moves[i]);
        }
        i += 1;
    }
    assert(moves@.subrange(0, 4) =~= moves@);
    r
}

/// The badge bit needed to use this field move, if any.
pub fn field_move_required_badge(m: u8) -> (r: Option<u8>)
    ensures
        r == match spec_field_move_entry(m) {
            Some((b, _)) => b,
            None => None,
        },
{
    match field_move_entry(m) {
        Some((b, _)) => b,
        None => None,
    }
}

/// The leftmost tile column of the move's name in the party menu's action
/// box (the box is sized from the minimum across the listed moves).
pub fn field_move_menu_leftmost(m: u8) -> (r: Option<u8>)
    ensures
        r == match spec_field_move_entry(m) {
            Some((_, x)) => Some(x),
            None => None,
        },
{
    match field_move_entry(m) {
        Some((_, x)) => Some(x),
        None => None,
    }
}

#[derive(Debug, Clone, PartialEq, Eq, Structural)]
pub enum CutResult {
    NoBadge,
    NothingToCut,
    CutTree { replacement_block: u8 },
    CutGrass,
}

#[derive(Debug, Clone, PartialEq, Eq)]
pub enum FlyResult {
    NoBadge,
    CannotFlyHere,
    ChoseDestination { destination: String },
    Cancelled,
}

#[derive(Debug, Clone, PartialEq, Eq, Structural)]
pub enum SurfResult {
    NoBadge,
    AlreadySurfing,
    NotFacingWater,
    ForcedToRideBike,
    CurrentTooFast,
    StartedSurfing,
}

#[derive(Debug, Clone, PartialEq, Eq, Structural)]
pub enum StrengthResult {
    NoBadge,
    Activated,
    AlreadyActive,
}

#[derive(Debug, Clone, PartialEq, Eq, Structural)]
pub enum FlashResult {
    NoBadge,
    AlreadyLit,
    LitUpCave,
}

/// A town's fly point: the map and the tile the player lands on.
#[derive(Debug, Clone, Copy, PartialEq, Eq)]
pub struct FlyDestination {
    pub map: &'static str,
    pub x: u8,
    pub y: u8,
}

pub const NUM_FLY_DESTINATIONS: usize = 13;

pub open spec fn fd(map: &'static str, x: u8, y: u8) -> FlyDestination {
    FlyDestination { map, x, y }
}

/// The fly points, in town-map order.
pub open spec fn spec_fly_destinations() -> Seq<FlyDestination> {
    seq![
        fd("PalletTown", 5, 6),
        fd("ViridianCity", 23, 26),
        fd("PewterCity", 13, 26),
        fd("CeruleanCity", 19, 18),
        fd("LavenderTown", 3, 6),
        fd("VermilionCity", 11, 4),
        fd("CeladonCity", 41, 10),
        fd("FuchsiaCity", 19, 28),
        fd("CinnabarIsland", 11, 12),
        fd("IndigoPlateau", 9, 6),
        fd("SaffronCity", 9, 30),
        fd("Route4", 11, 6),
        fd("Route10", 11, 20),
    ]
}

/// The fly points, in town-map order.
pub fn fly_destinations() -> (d: &'static [FlyDestination])
    ensures
        d@ == spec_fly_destinations(),
        d@.len() == NUM_FLY_DESTINATIONS,
{
    let d: &'static [FlyDestination] = &[
        FlyDestination { map: "PalletTown", x: 5, y: 6 },
        FlyDestination { map: "ViridianCity", x: 23, y: 26 },
        FlyDestination { map: "PewterCity", x: 13, y: 26 },
        FlyDestination { map: "CeruleanCity", x: 19, y: 18 },
        FlyDestination { map: "LavenderTown", x: 3, y: 6 },
        FlyDestination { map: "VermilionCity", x: 11, y: 4 },
        FlyDestination { map: "CeladonCity", x: 41, y: 10 },
        FlyDestination { map: "FuchsiaCity", x: 19, y: 28 },
        FlyDestination { map: "CinnabarIsland", x: 11, y: 12 },
        FlyDestination { map: "IndigoPlateau", x: 9, y: 6 },
        FlyDestination { map: "SaffronCity", x: 9, y: 30 },
        FlyDestination { map: "Route4", x: 11, y: 6 },
        FlyDestination { map: "Route10", x: 11, y: 20 },
    ];
    assert(d@ =~= spec_fly_destinations());
    d
}

/// The first fly point in `s` whose map is `map`.
pub open spec fn spec_find_destination(s: Seq<FlyDestination>, map: Seq<char>) -> Option<FlyDestination>
    decreases s.len(),
{
    if s.len() == 0 {
        None
    } else if s[0].map@ == map {
        Some(s[0])
    } else {
        spec_find_destination(s.drop_first(), map)
    }
}

/// The fly point of a map, if it has one.
pub fn fly_destination_for_map(map: &str) -> (r: Option<&'static FlyDestination>)
    ensures
        match spec_find_destination(spec_fly_destinations(), map@) {
            Some(d) => r matches Some(q) && *q == d,
            None => r is None,
        },
{
    let d = fly_destinations();
    let mut i: usize = 0;
    assert(d@.subrange(0, d@.len() as int) =~= d@);
    while i < d.len()
        invariant
            d@ == spec_fly_destinations(),
            i <= d@.len(),
            spec_find_destination(d@.subrange(i as int, d@.len() as int), map@) == spec_find_destination(
                spec_fly_destinations(),
                map@,
            ),
        decreases d@.len() - i,
    {
        let ghost rest = d@.subrange(i as int, d@.len() as int);
        if str_eq(d[i].map, map) {
            return Some(&d[i]);
        }
        assert(rest.drop_first() =~= d@.subrange(i + 1, d@.len() as int));
        i += 1;
    }
    None
}

/// The base tilesets where the ESCAPE ROPE item and DIG work: forest,
/// cemetery, cavern, facility and interior. Everywhere else the game says
/// "This isn't the time to use that!".
pub open spec fn spec_is_escape_rope_tileset(base_tileset: Seq<char>) -> bool {
    ||| base_tileset == "Forest"@
    ||| base_tileset == "Cemetery"@
    ||| base_tileset == "Cavern"@
    ||| base_tileset == "Facility"@
    ||| base_tileset == "Interior"@
}

/// Whether ESCAPE ROPE / DIG may be used on a tileset, given by the name of
/// its base tileset (custom tilesets resolved to their base first).
pub fn is_escape_rope_tileset(base_tileset: &str) -> (r: bool)
    ensures
        r == spec_is_escape_rope_tileset(base_tileset@),
{
    str_eq(base_tileset, "Forest") || str_eq(base_tileset, "Cemetery") || str_eq(base_tileset, "Cavern") || str_eq(
        base_tileset,
        "Facility",
    ) || str_eq(base_tileset, "Interior")
}

#[derive(Debug, Clone, PartialEq, Eq, Structural)]
pub enum BoulderPushResult {
    StrengthNotActive,
    NoBoulderInFront,
    NotABoulder,
    BoulderBlocked,
    NotPushingCorrectDirection,
    NeedPushAgain,
    Pushed { direction: Direction },
}

pub const SEAFOAM_B4F_STAIRS_X: u8 = 7;
pub const SEAFOAM_B4F_STAIRS_Y: u8 = 11;

/// The block a cut tree's block becomes, if the block holds a cuttable
/// tree.
pub open spec fn spec_cut_tree_replacement(block: u8) -> Option<u8> {
    if block == 0x32 {
        Some(0x6Du8)
    } else if block == 0x33 {
        Some(0x6Cu8)
    } else if block == 0x34 {
        Some(0x6Fu8)
    } else if block == 0x35 {
        Some(0x4Cu8)
    } else if block == 0x60 {
        Some(0x6Eu8)
    } else if block == 0x0B {
        Some(0x0Au8)
    } else if block == 0x3C {
        Some(0x35u8)
    } else if block == 0x3F {
        Some(0x35u8)
    } else if block == 0x3D {
        Some(0x36u8)
    } else {
        None
    }
}

/// The block a cut tree's block becomes.
pub fn cut_tree_replacement(block: u8) -> (r: Option<u8>)
    ensures
        r == spec_cut_tree_replacement(block),
{
    if block == 0x32 {
        Some(0x6D)
    } else if block == 0x33 {
        Some(0x6C)
    } else if block == 0x34 {
        Some(0x6F)
    } else if block == 0x35 {
        Some(0x4C)
    } else if block == 0x60 {
        Some(0x6E)
    } else if block == 0x0B {
        Some(0x0A)
    } else if block == 0x3C {
        Some(0x35)
    } else if block == 0x3F {
        Some(0x35)
    } else if block == 0x3D {
        Some(0x36)
    } else {
        None
    }
}

/// CUT: needs the Cascade badge; on the overworld tileset a tree tile whose
/// block has a replacement is cut, and a grass tile is mown; on the gym
/// tileset only trees; elsewhere nothing.
pub open spec fn spec_use_cut(obtained_badges: u8, tileset_name: Seq<char>, tile_in_front: u8, current_block: u8) -> CutResult {
    if !spec_has_badge(obtained_badges, BIT_CASCADEBADGE) {
        CutResult::NoBadge
    } else if tileset_name == "overworld"@ {
        if tile_in_front == CUT_TREE_TILE_OVERWORLD && spec_cut_tree_replacement(current_block) is Some {
            CutResult::CutTree { replacement_block: spec_cut_tree_replacement(current_block)->0 }
        } else if tile_in_front == CUT_GRASS_TILE {
            CutResult::CutGrass
        } else {
            CutResult::NothingToCut
        }
    } else if tileset_name == "gym"@ {
        if tile_in_front == CUT_TREE_TILE_GYM && spec_cut_tree_replacement(current_block) is Some {
            CutResult::CutTree { replacement_block: spec_cut_tree_replacement(current_block)->0 }
        } else {
            CutResult::NothingToCut
        }
    } else {
        CutResult::NothingToCut
    }
}

/// CUT on the tile in front of the player (`tileset_name` as the tileset
/// names itself: "overworld", "gym", ...).
pub fn use_cut(obtained_badges: u8, tileset_name: &str, tile_in_front: u8, current_block: u8) -> (r: CutResult)
    ensures
        r == spec_use_cut(obtained_badges, tileset_name@, tile_in_front, current_block),
{
    if !has_badge(obtained_badges, BIT_CASCADEBADGE) {
        return CutResult::NoBadge;
    }
    if str_eq(tileset_name, "overworld") {
        if tile_in_front == CUT_TREE_TILE_OVERWORLD {
            if let Some(replacement) = cut_tree_replacement(current_block) {
                return CutResult::CutTree { replacement_block: replacement };
            }
        }
        if tile_in_front == CUT_GRASS_TILE {
            return CutResult::CutGrass;
        }
        CutResult::NothingToCut
    } else if str_eq(tileset_name, "gym") {
        if tile_in_front == CUT_TREE_TILE_GYM {
            if let Some(replacement) = cut_tree_replacement(current_block) {
                return CutResult::CutTree { replacement_block: replacement };
            }
        }
        CutResult::NothingToCut
    } else {
        CutResult::NothingToCut
    }
}

/// FLY: needs the Thunder badge and an outdoor tileset; then the chosen
/// destination, or a cancel.
pub fn use_fly(obtained_badges: u8, tileset_is_outside: bool, chosen_destination: Option<&str>) -> (r: FlyResult)
    ensures
        !spec_has_badge(obtained_badges, BIT_THUNDERBADGE) ==> r is NoBadge,
        spec_has_badge(obtained_badges, BIT_THUNDERBADGE) && !tileset_is_outside ==> r is CannotFlyHere,
        spec_has_badge(obtained_badges, BIT_THUNDERBADGE) && tileset_is_outside ==> match chosen_destination {
            Some(d) => r matches FlyResult::ChoseDestination { destination } && destination@ == d@,
            None => r is Cancelled,
        },
{
    if !has_badge(obtained_badges, BIT_THUNDERBADGE) {
        return FlyResult::NoBadge;
    }
    if !tileset_is_outside {
        return FlyResult::CannotFlyHere;
    }
    match chosen_destination {
        Some(dest) => FlyResult::ChoseDestination { destination: String::from_str(dest) },
        None => FlyResult::Cancelled,
    }
}

/// SURF: needs the Soul badge; refused while surfing already, while locked
/// on the bike, on the Seafoam B4F stairs tile before its boulders are
/// down (the current is too fast), and when not facing water.
pub open spec fn spec_use_surf(
    obtained_badges: u8,
    is_facing_water: bool,
    already_surfing: bool,
    forced_bike: bool,
    current_map: Seq<char>,
    seafoam_b4f_boulders_done: bool,
    player_x: u8,
    player_y: u8,
) -> SurfResult {
    if !spec_has_badge(obtained_badges, BIT_SOULBADGE) {
        SurfResult::NoBadge
    } else if already_surfing {
        SurfResult::AlreadySurfing
    } else if forced_bike {
        SurfResult::ForcedToRideBike
    } else if current_map == "SeafoamIslandsB4F"@ && !seafoam_b4f_boulders_done && player_x == SEAFOAM_B4F_STAIRS_X
        && player_y == SEAFOAM_B4F_STAIRS_Y {
        SurfResult::CurrentTooFast
    } else if !is_facing_water {
        SurfResult::NotFacingWater
    } else {
        SurfResult::StartedSurfing
    }
}

pub fn use_surf(
    obtained_badges: u8,
    is_facing_water: bool,
    already_surfing: bool,
    forced_bike: bool,
    current_map: &str,
    seafoam_b4f_boulders_done: bool,
    player_x: u8,
    player_y: u8,
) -> (r: SurfResult)
    ensures
        r == spec_use_surf(
            obtained_badges,
            is_facing_water,
            already_surfing,
            forced_bike,
            current_map@,
            seafoam_b4f_boulders_done,
            player_x,
            player_y,
        ),
{
    if !has_badge(obtained_badges, BIT_SOULBADGE) {
        return SurfResult::NoBadge;
    }
    if already_surfing {
        return SurfResult::AlreadySurfing;
    }
    if forced_bike {
        return SurfResult::ForcedToRideBike;
    }
    if str_eq(current_map, "SeafoamIslandsB4F") && !seafoam_b4f_boulders_done && player_x == SEAFOAM_B4F_STAIRS_X
        && player_y == SEAFOAM_B4F_STAIRS_Y {
        return SurfResult::CurrentTooFast;
    }
    if !is_facing_water {
        return SurfResult::NotFacingWater;
    }
    SurfResult::StartedSurfing
}

/// STRENGTH: needs the Rainbow badge.
pub fn use_strength(obtained_badges: u8, strength_already_active: bool) -> (r: StrengthResult)
    ensures
        r == if !spec_has_badge(obtained_badges, BIT_RAINBOWBADGE) {
            StrengthResult::NoBadge
        } else if strength_already_active {
            StrengthResult::AlreadyActive
        } else {
            StrengthResult::Activated
        },
{
    if !has_badge(obtained_badges, BIT_RAINBOWBADGE) {
        return StrengthResult::NoBadge;
    }
    if strength_already_active {
        return StrengthResult::AlreadyActive;
    }
    StrengthResult::Activated
}

/// FLASH: needs the Boulder badge, and lights only a dark cave.
pub fn use_flash(obtained_badges: u8, cave_is_dark: bool) -> (r: FlashResult)
    ensures
        r == if !spec_has_badge(obtained_badges, BIT_BOULDERBADGE) {
            FlashResult::NoBadge
        } else if !cave_is_dark {
            FlashResult::AlreadyLit
        } else {
            FlashResult::LitUpCave
        },
{
    if !has_badge(obtained_badges, BIT_BOULDERBADGE) {
        return FlashResult::NoBadge;
    }
    if !cave_is_dark {
        return FlashResult::AlreadyLit;
    }
    FlashResult::LitUpCave
}

/// The gates of a boulder push shared by both forms, in order: STRENGTH
/// active and no dust cloud playing, a sprite in front, a boulder, and a
/// second push.
pub open spec fn spec_push_gate(
    strength_active: bool,
    boulder_dust_active: bool,
    sprite_in_front: Option<u8>,
    is_boulder: bool,
    already_tried_push: bool,
) -> Option<BoulderPushResult> {
    if !strength_active || boulder_dust_active {
        Some(BoulderPushResult::StrengthNotActive)
    } else if sprite_in_front is None {
        Some(BoulderPushResult::NoBoulderInFront)
    } else if !is_boulder {
        Some(BoulderPushResult::NotABoulder)
    } else if !already_tried_push {
        Some(BoulderPushResult::NeedPushAgain)
    } else {
        None
    }
}

/// A boulder push given whether the push is in the right direction: after
/// the shared gates, a wrong direction or a blocked boulder refuses;
/// otherwise the boulder moves (reported downwards).
pub fn try_push_boulder(
    strength_active: bool,
    boulder_dust_active: bool,
    sprite_in_front: Option<u8>,
    is_boulder: bool,
    already_tried_push: bool,
    pushing_correct_direction: bool,
    boulder_blocked: bool,
) -> (r: BoulderPushResult)
    ensures
        r == match spec_push_gate(strength_active, boulder_dust_active, sprite_in_front, is_boulder, already_tried_push) {
            Some(g) => g,
            None => if !pushing_correct_direction {
                BoulderPushResult::NotPushingCorrectDirection
            } else if boulder_blocked {
                BoulderPushResult::BoulderBlocked
            } else {
                BoulderPushResult::Pushed { direction: Direction::Down }
            },
        },
{
    if !strength_active {
        return BoulderPushResult::StrengthNotActive;
    }
    if boulder_dust_active {
        return BoulderPushResult::StrengthNotActive;
    }
    if sprite_in_front.is_none() {
        return BoulderPushResult::NoBoulderInFront;
    }
    if !is_boulder {
        return BoulderPushResult::NotABoulder;
    }
    if !already_tried_push {
        return BoulderPushResult::NeedPushAgain;
    }
    if !pushing_correct_direction {
        return BoulderPushResult::NotPushingCorrectDirection;
    }
    if boulder_blocked {
        return BoulderPushResult::BoulderBlocked;
    }
    BoulderPushResult::Pushed { direction: Direction::Down }
}

/// A boulder push from the player's facing and the held direction: after
/// the shared gates, the held direction must be the facing; a blocked
/// boulder refuses; otherwise the boulder moves the way the player faces.
pub fn try_push_boulder_with_direction(
    strength_active: bool,
    boulder_dust_active: bool,
    sprite_in_front: Option<u8>,
    is_boulder: bool,
    already_tried_push: bool,
    player_facing: Direction,
    held_direction: Option<Direction>,
    boulder_blocked: bool,
) -> (r: BoulderPushResult)
    ensures
        r == match spec_push_gate(strength_active, boulder_dust_active, sprite_in_front, is_boulder, already_tried_push) {
            Some(g) => g,
            None => if held_direction != Some(player_facing) {
                BoulderPushResult::NotPushingCorrectDirection
            } else if boulder_blocked {
                BoulderPushResult::BoulderBlocked
            } else {
                BoulderPushResult::Pushed { direction: player_facing }
            },
        },
{
    if !strength_active {
        return BoulderPushResult::StrengthNotActive;
    }
    if boulder_dust_active {
        return BoulderPushResult::StrengthNotActive;
    }
    if sprite_in_front.is_none() {
        return BoulderPushResult::NoBoulderInFront;
    }
    if !is_boulder {
        return BoulderPushResult::NotABoulder;
    }
    if !already_tried_push {
        return BoulderPushResult::NeedPushAgain;
    }
    match held_direction {
        Some(dir) => {
            if dir != player_facing {
                return BoulderPushResult::NotPushingCorrectDirection;
            }
        },
        None => {
            return BoulderPushResult::NotPushingCorrectDirection;
        },
    }
    if boulder_blocked {
        return BoulderPushResult::BoulderBlocked;
    }
    BoulderPushResult::Pushed { direction: player_facing }
}

/// Without its badge, every badge-gated field move refuses with "no
/// badge", whatever else holds.
pub proof fn lemma_badge_gates(
    obtained_badges: u8,
    tileset_name: Seq<char>,
    tile: u8,
    block: u8,
    water: bool,
    surfing: bool,
    bike: bool,
    map: Seq<char>,
    done: bool,
    x: u8,
    y: u8,
)
    ensures
        !spec_has_badge(obtained_badges, BIT_CASCADEBADGE) ==> spec_use_cut(obtained_badges, tileset_name, tile, block)
            is NoBadge,
        !spec_has_badge(obtained_badges, BIT_SOULBADGE) ==> spec_use_surf(obtained_badges, water, surfing, bike, map, done, x, y)
            is NoBadge,
        spec_has_badge(obtained_badges, BIT_CASCADEBADGE) ==> !(spec_use_cut(obtained_badges, tileset_name, tile, block)
            is NoBadge),
{
}

} // verus!
