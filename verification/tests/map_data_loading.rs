use pokered_core::direction::Direction;
use pokered_core::overworld::map_data_loading::{
    convert_facing, convert_movement, convert_wander_axis, parse_direction, parse_movement_type,
    parse_trainer_class, NpcMovementType, NpcWanderAxis,
};

/// The map objects' movement bytes.
const STATIONARY: u8 = 0;
const WANDER: u8 = 1;
const FIXED_PATH: u8 = 2;
const FACE_PLAYER: u8 = 3;

/// The map objects' facing bytes.
const DOWN: u8 = 0;
const UP: u8 = 1;
const LEFT: u8 = 2;
const RIGHT: u8 = 3;

#[test]
fn convert_movement_stationary() {
    assert_eq!(convert_movement(STATIONARY), NpcMovementType::Stationary);
}

#[test]
fn convert_movement_wander() {
    assert_eq!(convert_movement(WANDER), NpcMovementType::Wander);
}

#[test]
fn convert_movement_fixed_path() {
    assert_eq!(convert_movement(FIXED_PATH), NpcMovementType::FixedPath);
}

#[test]
fn convert_movement_face_player() {
    assert_eq!(convert_movement(FACE_PLAYER), NpcMovementType::FacePlayer);
}

#[test]
fn convert_facing_all_directions() {
    assert_eq!(convert_facing(DOWN), Direction::Down);
    assert_eq!(convert_facing(UP), Direction::Up);
    assert_eq!(convert_facing(LEFT), Direction::Left);
    assert_eq!(convert_facing(RIGHT), Direction::Right);
}

#[test]
fn unknown_bytes_fall_back() {
    assert_eq!(convert_movement(9), NpcMovementType::Stationary);
    assert_eq!(convert_facing(7), Direction::Down);
    assert_eq!(convert_wander_axis(1), NpcWanderAxis::Vertical);
    assert_eq!(convert_wander_axis(2), NpcWanderAxis::Horizontal);
    assert_eq!(convert_wander_axis(0), NpcWanderAxis::Any);
}

#[test]
fn movement_and_facing_names() {
    assert_eq!(parse_movement_type("Wander"), NpcMovementType::Wander);
    assert_eq!(parse_movement_type("FacePlayer"), NpcMovementType::FacePlayer);
    assert_eq!(parse_movement_type("wander"), NpcMovementType::Stationary);
    assert_eq!(parse_direction("Left"), Direction::Left);
    assert_eq!(parse_direction("Sideways"), Direction::Down);
}

#[test]
fn trainer_class_names() {
    assert_eq!(parse_trainer_class("Nobody"), 0);
    assert_eq!(parse_trainer_class("Youngster"), 1);
    assert_eq!(parse_trainer_class("BugCatcher"), 2);
    assert_eq!(parse_trainer_class("Psychic"), 19);
    assert_eq!(parse_trainer_class("PsychicTr"), 19);
    assert_eq!(parse_trainer_class("Brock"), 34);
    assert_eq!(parse_trainer_class("Lance"), 47);
    assert_eq!(parse_trainer_class("Champion"), 0);
}
