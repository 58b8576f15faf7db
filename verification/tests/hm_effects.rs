use pokered_core::direction::Direction;
use pokered_core::overworld::field_moves::seafoam_hole_flag_for;
use pokered_core::overworld::hm_effects::{
    cut_tree_replacement, field_move_menu_leftmost, field_move_required_badge, field_moves_of,
    fly_destination_for_map, fly_destinations, is_escape_rope_tileset, is_field_move,
    try_push_boulder, try_push_boulder_with_direction, use_cut, use_flash, use_fly,
    use_strength, use_surf, BoulderPushResult, CutResult, FlashResult, FlyResult,
    StrengthResult, SurfResult, BIT_BOULDERBADGE, BIT_CASCADEBADGE, BIT_RAINBOWBADGE,
    BIT_SOULBADGE, BIT_THUNDERBADGE, CUT_GRASS_TILE, CUT_TREE_TILE_GYM, CUT_TREE_TILE_OVERWORLD,
    MOVE_CUT, MOVE_DIG, MOVE_FLASH, MOVE_FLY, MOVE_SOFTBOILED, MOVE_STRENGTH, MOVE_SURF,
    MOVE_TELEPORT, NUM_FLY_DESTINATIONS,
};

const ALL_BADGES: u8 = 0xFF;
const TACKLE: u8 = 33;

fn badge(bit: u8) -> u8 {
    1 << bit
}

#[test]
fn cut_without_badge_shows_badge_message() {
    assert_eq!(
        use_cut(0, "overworld", CUT_TREE_TILE_OVERWORLD, 0x32),
        CutResult::NoBadge
    );
    assert_eq!(
        use_cut(ALL_BADGES & !badge(BIT_CASCADEBADGE), "overworld", CUT_TREE_TILE_OVERWORLD, 0x32),
        CutResult::NoBadge
    );
}

#[test]
fn cut_tree_replaces_block() {
    let b = badge(BIT_CASCADEBADGE);
    assert_eq!(
        use_cut(b, "overworld", CUT_TREE_TILE_OVERWORLD, 0x32),
        CutResult::CutTree { replacement_block: 0x6D }
    );
    assert_eq!(
        use_cut(b, "gym", CUT_TREE_TILE_GYM, 0x3D),
        CutResult::CutTree { replacement_block: 0x36 }
    );
    assert_eq!(use_cut(b, "overworld", CUT_GRASS_TILE, 0x00), CutResult::CutGrass);
}

#[test]
fn cut_with_nothing_in_front() {
    let b = badge(BIT_CASCADEBADGE);
    assert_eq!(use_cut(b, "overworld", 0x00, 0x32), CutResult::NothingToCut);
    assert_eq!(
        use_cut(b, "overworld", CUT_TREE_TILE_OVERWORLD, 0x01),
        CutResult::NothingToCut
    );
    assert_eq!(use_cut(b, "gym", CUT_GRASS_TILE, 0x32), CutResult::NothingToCut);
    assert_eq!(
        use_cut(b, "cavern", CUT_TREE_TILE_OVERWORLD, 0x32),
        CutResult::NothingToCut
    );
}

#[test]
fn cut_tree_replacement_table() {
    assert_eq!(cut_tree_replacement(0x33), Some(0x6C));
    assert_eq!(cut_tree_replacement(0x34), Some(0x6F));
    assert_eq!(cut_tree_replacement(0x35), Some(0x4C));
    assert_eq!(cut_tree_replacement(0x60), Some(0x6E));
    assert_eq!(cut_tree_replacement(0x0B), Some(0x0A));
    assert_eq!(cut_tree_replacement(0x3C), Some(0x35));
    assert_eq!(cut_tree_replacement(0x3F), Some(0x35));
    assert_eq!(cut_tree_replacement(0x00), None);
}

#[test]
fn surf_gates_in_order() {
    let b = badge(BIT_SOULBADGE);
    assert_eq!(
        use_surf(0, true, false, false, "Route19", false, 0, 0),
        SurfResult::NoBadge
    );
    assert_eq!(
        use_surf(b, true, true, false, "Route19", false, 0, 0),
        SurfResult::AlreadySurfing
    );
    assert_eq!(
        use_surf(b, true, false, true, "Route17", false, 0, 0),
        SurfResult::ForcedToRideBike
    );
    assert_eq!(
        use_surf(b, true, false, false, "SeafoamIslandsB4F", false, 7, 11),
        SurfResult::CurrentTooFast
    );
    assert_eq!(
        use_surf(b, true, false, false, "SeafoamIslandsB4F", true, 7, 11),
        SurfResult::StartedSurfing
    );
    assert_eq!(
        use_surf(b, false, false, false, "Route19", false, 0, 0),
        SurfResult::NotFacingWater
    );
    assert_eq!(
        use_surf(b, true, false, false, "Route19", false, 0, 0),
        SurfResult::StartedSurfing
    );
}

#[test]
fn fly_needs_badge_and_outdoors() {
    let b = badge(BIT_THUNDERBADGE);
    assert_eq!(use_fly(0, true, Some("PalletTown")), FlyResult::NoBadge);
    assert_eq!(use_fly(b, false, Some("PalletTown")), FlyResult::CannotFlyHere);
    assert_eq!(
        use_fly(b, true, Some("PalletTown")),
        FlyResult::ChoseDestination {
            destination: "PalletTown".to_string()
        }
    );
    assert_eq!(use_fly(b, true, None), FlyResult::Cancelled);
}

#[test]
fn strength_and_flash() {
    assert_eq!(use_strength(0, false), StrengthResult::NoBadge);
    assert_eq!(
        use_strength(badge(BIT_RAINBOWBADGE), false),
        StrengthResult::Activated
    );
    assert_eq!(
        use_strength(badge(BIT_RAINBOWBADGE), true),
        StrengthResult::AlreadyActive
    );
    assert_eq!(use_flash(0, true), FlashResult::NoBadge);
    assert_eq!(use_flash(badge(BIT_BOULDERBADGE), true), FlashResult::LitUpCave);
    assert_eq!(use_flash(badge(BIT_BOULDERBADGE), false), FlashResult::AlreadyLit);
}

#[test]
fn field_move_table() {
    for m in [
        MOVE_CUT,
        MOVE_FLY,
        MOVE_SURF,
        MOVE_STRENGTH,
        MOVE_FLASH,
        MOVE_DIG,
        MOVE_TELEPORT,
        MOVE_SOFTBOILED,
    ] {
        assert!(is_field_move(m));
    }
    assert!(!is_field_move(TACKLE));
    assert_eq!(field_move_required_badge(MOVE_CUT), Some(BIT_CASCADEBADGE));
    assert_eq!(field_move_required_badge(MOVE_FLASH), Some(BIT_BOULDERBADGE));
    assert_eq!(field_move_required_badge(MOVE_DIG), None);
    assert_eq!(field_move_required_badge(TACKLE), None);
    assert_eq!(field_move_menu_leftmost(MOVE_STRENGTH), Some(0x0A));
    assert_eq!(field_move_menu_leftmost(MOVE_SOFTBOILED), Some(0x08));
    assert_eq!(field_move_menu_leftmost(TACKLE), None);
}

#[test]
fn field_moves_listed_in_moveset_order() {
    assert_eq!(
        field_moves_of(&[MOVE_SURF, TACKLE, MOVE_CUT, 0]),
        vec![MOVE_SURF, MOVE_CUT]
    );
    assert_eq!(field_moves_of(&[TACKLE, 0, 0, 0]), Vec::<u8>::new());
}

#[test]
fn fly_destination_table() {
    assert_eq!(fly_destinations().len(), NUM_FLY_DESTINATIONS);
    let d = fly_destination_for_map("CeladonCity").unwrap();
    assert_eq!((d.x, d.y), (41, 10));
    assert!(fly_destination_for_map("Route1").is_none());
}

#[test]
fn escape_rope_tilesets() {
    assert!(is_escape_rope_tileset("Cavern"));
    assert!(is_escape_rope_tileset("Interior"));
    assert!(!is_escape_rope_tileset("Overworld"));
    assert!(!is_escape_rope_tileset("Ship"));
}

#[test]
fn boulder_push_gates() {
    assert_eq!(
        try_push_boulder(false, false, Some(1), true, true, true, false),
        BoulderPushResult::StrengthNotActive
    );
    assert_eq!(
        try_push_boulder(true, true, Some(1), true, true, true, false),
        BoulderPushResult::StrengthNotActive
    );
    assert_eq!(
        try_push_boulder(true, false, None, true, true, true, false),
        BoulderPushResult::NoBoulderInFront
    );
    assert_eq!(
        try_push_boulder(true, false, Some(1), false, true, true, false),
        BoulderPushResult::NotABoulder
    );
    assert_eq!(
        try_push_boulder(true, false, Some(1), true, false, true, false),
        BoulderPushResult::NeedPushAgain
    );
    assert_eq!(
        try_push_boulder(true, false, Some(1), true, true, false, false),
        BoulderPushResult::NotPushingCorrectDirection
    );
    assert_eq!(
        try_push_boulder(true, false, Some(1), true, true, true, true),
        BoulderPushResult::BoulderBlocked
    );
    assert_eq!(
        try_push_boulder(true, false, Some(1), true, true, true, false),
        BoulderPushResult::Pushed {
            direction: Direction::Down
        }
    );
}

#[test]
fn boulder_push_follows_facing() {
    assert_eq!(
        try_push_boulder_with_direction(
            true,
            false,
            Some(2),
            true,
            true,
            Direction::Left,
            Some(Direction::Left),
            false
        ),
        BoulderPushResult::Pushed {
            direction: Direction::Left
        }
    );
    assert_eq!(
        try_push_boulder_with_direction(
            true,
            false,
            Some(2),
            true,
            true,
            Direction::Left,
            Some(Direction::Up),
            false
        ),
        BoulderPushResult::NotPushingCorrectDirection
    );
    assert_eq!(
        try_push_boulder_with_direction(true, false, Some(2), true, true, Direction::Left, None, false),
        BoulderPushResult::NotPushingCorrectDirection
    );
}

#[test]
fn seafoam_holes() {
    assert_eq!(
        seafoam_hole_flag_for("SeafoamIslandsB1F", 23, 6),
        Some("EVENT_SEAFOAM2_BOULDER2_DOWN_HOLE")
    );
    assert_eq!(seafoam_hole_flag_for("SeafoamIslandsB1F", 24, 6), None);
    assert_eq!(seafoam_hole_flag_for("Route20", 17, 6), None);
}
