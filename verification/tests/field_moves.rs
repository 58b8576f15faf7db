use pokered_core::direction::Direction;
use pokered_core::overworld::field_moves::{
    field_cut, field_flash, field_fly, field_softboiled, field_strength, field_surf,
    field_teleport, BoulderPushState, FieldMoveAction, SpriteInFront, SurfAction,
    SurfSurroundings, BOULDER_DUST_FRAMES, NEW_BADGE_REQUIRED_TEXT,
};

const NO_BADGES: u8 = 0;
const SOUL: u8 = 1 << 4;

fn on_land_facing(water: bool) -> SurfSurroundings {
    SurfSurroundings {
        is_facing_water: water,
        already_surfing: false,
        forced_bike: false,
        seafoam_b4f_boulders_done: false,
        player_x: 5,
        player_y: 5,
        water_pair_blocked: false,
        can_get_off: false,
    }
}

#[test]
fn surf_without_badge_shows_badge_message() {
    assert_eq!(
        field_surf(NO_BADGES, "LAPRAS", "RED", "PalletTown", Some(on_land_facing(true))),
        SurfAction::Message(NEW_BADGE_REQUIRED_TEXT.to_string())
    );
}

#[test]
fn surf_not_facing_water() {
    match field_surf(SOUL, "LAPRAS", "RED", "PalletTown", Some(on_land_facing(false))) {
        SurfAction::Message(text) => assert!(text.starts_with("No SURFing on")),
        other => panic!("expected a message, got {other:?}"),
    }
    assert_eq!(
        field_surf(SOUL, "LAPRAS", "RED", "PalletTown", None),
        SurfAction::Message("No SURFing on\nLAPRAS\nhere!".to_string())
    );
}

#[test]
fn surf_starts_on_water_with_text() {
    assert_eq!(
        field_surf(SOUL, "LAPRAS", "RED", "PalletTown", Some(on_land_facing(true))),
        SurfAction::StartSurfing("RED got on\nLAPRAS!".to_string())
    );
    let mut blocked = on_land_facing(true);
    blocked.water_pair_blocked = true;
    assert_eq!(
        field_surf(SOUL, "LAPRAS", "RED", "PalletTown", Some(blocked)),
        SurfAction::Message("No SURFing on\nLAPRAS\nhere!".to_string())
    );
}

#[test]
fn surf_stop_onto_land_and_refused_on_water() {
    let mut surfing = on_land_facing(false);
    surfing.already_surfing = true;
    surfing.can_get_off = true;
    assert_eq!(
        field_surf(SOUL, "LAPRAS", "RED", "PalletTown", Some(surfing)),
        SurfAction::StopSurfing
    );
    surfing.can_get_off = false;
    assert_eq!(
        field_surf(SOUL, "LAPRAS", "RED", "PalletTown", Some(surfing)),
        SurfAction::Message("There's no place\nto get off!".to_string())
    );
}

#[test]
fn surf_refused_while_cycling_and_in_the_current() {
    let mut bike = on_land_facing(true);
    bike.forced_bike = true;
    assert_eq!(
        field_surf(SOUL, "LAPRAS", "RED", "Route17", Some(bike)),
        SurfAction::Message("Cycling is fun!\nForget SURFing!".to_string())
    );
    let mut stairs = on_land_facing(true);
    stairs.player_x = 7;
    stairs.player_y = 11;
    assert_eq!(
        field_surf(SOUL, "LAPRAS", "RED", "SeafoamIslandsB4F", Some(stairs)),
        SurfAction::Message("The current is\nmuch too fast!".to_string())
    );
}

fn boulder_at(x: u16, y: u16, beyond_blocked: bool) -> SpriteInFront {
    SpriteInFront {
        npc_index: 3,
        is_boulder: true,
        x,
        y,
        beyond_blocked,
    }
}

#[test]
fn boulder_push_requires_two_frames_and_moves_boulder() {
    let mut s = BoulderPushState::new();
    let front = Some(boulder_at(5, 6, false));
    let t = s.tick(false, true, Direction::Down, Some(Direction::Down), front, "PalletTown");
    assert!(t.moved.is_none(), "first push only arms the flag");
    assert!(s.tried_push_boulder);
    let t = s.tick(false, true, Direction::Down, Some(Direction::Down), front, "PalletTown");
    let m = t.moved.expect("second push moves the boulder");
    assert_eq!((m.new_x, m.new_y), (5, 7));
    assert_eq!(m.direction, Direction::Down);
    assert_eq!(m.hole_flag, None);
    assert_eq!(s.boulder_dust_frames, BOULDER_DUST_FRAMES);
    let t = s.tick(false, true, Direction::Down, Some(Direction::Down), Some(boulder_at(5, 7, false)), "PalletTown");
    assert!(t.moved.is_none(), "dust lockout blocks re-push");
}

#[test]
fn boulder_push_requires_strength() {
    let mut s = BoulderPushState::new();
    let front = Some(boulder_at(5, 6, false));
    s.tick(false, false, Direction::Down, Some(Direction::Down), front, "PalletTown");
    let t = s.tick(false, false, Direction::Down, Some(Direction::Down), front, "PalletTown");
    assert!(t.moved.is_none(), "no STRENGTH, no push");
}

#[test]
fn boulder_push_wrong_direction_keeps_boulder() {
    let mut s = BoulderPushState::new();
    let front = Some(boulder_at(5, 6, false));
    s.tick(false, true, Direction::Down, Some(Direction::Down), front, "PalletTown");
    let t = s.tick(false, true, Direction::Down, Some(Direction::Left), front, "PalletTown");
    assert!(t.moved.is_none());
    assert!(s.tried_push_boulder, "a wrong direction keeps the arm");
}

#[test]
fn boulder_push_blocked_by_wall() {
    let mut s = BoulderPushState::new();
    let front = Some(boulder_at(1, 0, true));
    s.tick(false, true, Direction::Up, Some(Direction::Up), front, "PalletTown");
    let t = s.tick(false, true, Direction::Up, Some(Direction::Up), front, "PalletTown");
    assert!(t.moved.is_none(), "boulder can't leave the map");
    assert!(!s.tried_push_boulder, "a blocked push disarms");
}

#[test]
fn boulder_drops_into_seafoam_hole() {
    let mut s = BoulderPushState::new();
    let front = Some(boulder_at(17, 5, false));
    s.tick(false, true, Direction::Down, Some(Direction::Down), front, "SeafoamIslands1F");
    let t = s.tick(false, true, Direction::Down, Some(Direction::Down), front, "SeafoamIslands1F");
    assert_eq!(
        t.moved.and_then(|m| m.hole_flag),
        Some("EVENT_SEAFOAM1_BOULDER1_DOWN_HOLE")
    );
}

#[test]
fn dust_end_plays_cut_sound_once() {
    let mut s = BoulderPushState::new();
    let t = s.tick(true, false, Direction::Down, None, None, "PalletTown");
    assert!(t.play_cut_sound);
    let t = s.tick(false, false, Direction::Down, None, None, "PalletTown");
    assert!(!t.play_cut_sound);
}

#[test]
fn non_boulder_in_front_disarms() {
    let mut s = BoulderPushState::new();
    s.tick(false, true, Direction::Down, Some(Direction::Down), Some(boulder_at(5, 6, false)), "PalletTown");
    assert!(s.tried_push_boulder);
    let npc = SpriteInFront {
        is_boulder: false,
        ..boulder_at(5, 6, false)
    };
    s.tick(false, true, Direction::Down, Some(Direction::Down), Some(npc), "PalletTown");
    assert!(!s.tried_push_boulder);
}

const CASCADE: u8 = 1 << 1;
const THUNDER: u8 = 1 << 2;
const RAINBOW: u8 = 1 << 3;
const BOULDER: u8 = 1 << 0;

#[test]
fn field_cut_without_badge_shows_badge_message() {
    assert_eq!(
        field_cut(NO_BADGES, "FARFETCH'D", "overworld", Some((0x3D, 0x32))),
        FieldMoveAction::Message(NEW_BADGE_REQUIRED_TEXT.to_string())
    );
}

#[test]
fn cut_tree_replaces_block_with_text() {
    assert_eq!(
        field_cut(CASCADE, "FARFETCH'D", "overworld", Some((0x3D, 0x32))),
        FieldMoveAction::CutTree {
            replacement_block: 0x6D,
            text: "FARFETCH'D hacked\naway with CUT!".to_string()
        }
    );
    assert_eq!(
        field_cut(CASCADE, "FARFETCH'D", "overworld", Some((0x52, 0x00))),
        FieldMoveAction::CutGrass {
            text: "FARFETCH'D hacked\naway with CUT!".to_string()
        }
    );
}

#[test]
fn field_cut_with_nothing_in_front() {
    let nothing = FieldMoveAction::Message("There isn't\nanything to CUT!".to_string());
    assert_eq!(field_cut(CASCADE, "X", "overworld", Some((0x00, 0x32))), nothing);
    assert_eq!(field_cut(CASCADE, "X", "overworld", None), nothing);
}

#[test]
fn fly_indoors_is_refused() {
    assert_eq!(
        field_fly(THUNDER, "PIDGEOT", Some(false)),
        FieldMoveAction::Message("PIDGEOT can't\nFLY here.".to_string())
    );
    assert_eq!(
        field_fly(NO_BADGES, "PIDGEOT", Some(true)),
        FieldMoveAction::Message(NEW_BADGE_REQUIRED_TEXT.to_string())
    );
}

#[test]
fn fly_outside_opens_fly_map() {
    assert_eq!(field_fly(THUNDER, "PIDGEOT", Some(true)), FieldMoveAction::OpenFlyMap);
}

#[test]
fn strength_texts() {
    assert_eq!(
        field_strength(NO_BADGES, "MACHOP", false),
        FieldMoveAction::Message(NEW_BADGE_REQUIRED_TEXT.to_string())
    );
    let on = FieldMoveAction::Strength {
        text: "MACHOP used\nSTRENGTH.\nMACHOP can\nmove boulders.".to_string(),
    };
    assert_eq!(field_strength(RAINBOW, "MACHOP", false), on);
    assert_eq!(field_strength(RAINBOW, "MACHOP", true), on);
}

#[test]
fn flash_lights_dark_cave() {
    assert_eq!(
        field_flash(BOULDER, true),
        FieldMoveAction::Flash {
            white_flash: true,
            text: "A blinding FLASH\nlights the area!".to_string()
        }
    );
    assert_eq!(
        field_flash(BOULDER, false),
        FieldMoveAction::Flash {
            white_flash: false,
            text: "A blinding FLASH\nlights the area!".to_string()
        }
    );
    assert_eq!(
        field_flash(NO_BADGES, true),
        FieldMoveAction::Message(NEW_BADGE_REQUIRED_TEXT.to_string())
    );
}

#[test]
fn teleport_indoors_is_refused() {
    assert_eq!(
        field_teleport("ABRA", false, "CeruleanCity"),
        FieldMoveAction::Message("ABRA can't\nuse TELEPORT\nnow.".to_string())
    );
}

#[test]
fn teleport_outside_warps_to_last_center() {
    match field_teleport("ABRA", true, "CeruleanCity") {
        FieldMoveAction::Teleport { destination, text } => {
            assert_eq!(destination.map, "CeruleanCity");
            assert_eq!((destination.x, destination.y), (19, 18));
            assert_eq!(text, "Warp to the last\n#MON CENTER.");
        }
        other => panic!("expected a teleport, got {other:?}"),
    }
}

#[test]
fn softboiled_needs_a_fifth_of_max_hp() {
    assert_eq!(
        field_softboiled(20, 100),
        FieldMoveAction::Message("Not healthy\nenough.".to_string())
    );
    assert_eq!(field_softboiled(21, 100), FieldMoveAction::ChooseSoftboiledTarget);
    assert_eq!(field_softboiled(0, 0), FieldMoveAction::Message("Not healthy\nenough.".to_string()));
}
