//! Reading the map files' text fields: NPC movement types, facings and
//! trainer classes, and the map objects' movement and facing bytes.

use vstd::prelude::*;

use crate::direction::Direction;
use crate::text::str_eq;

verus! {

/// How an NPC moves.
#[derive(Debug, Clone, Copy, PartialEq, Eq, Structural)]
pub enum NpcMovementType {
    Stationary,
    Wander,
    FixedPath,
    FacePlayer,
}

/// The axis a wandering NPC keeps to.
#[derive(Debug, Clone, Copy, PartialEq, Eq, Structural)]
pub enum NpcWanderAxis {
    Any,
    Vertical,
    Horizontal,
}

/// A movement type by its name in the map files (unknown names stand
/// still).
pub open spec fn spec_parse_movement_type(s: Seq<char>) -> NpcMovementType {
    if s == "Stationary"@ {
        NpcMovementType::Stationary
    } else if s == "Wander"@ {
        NpcMovementType::Wander
    } else if s == "FixedPath"@ {
        NpcMovementType::FixedPath
    } else if s == "FacePlayer"@ {
        NpcMovementType::FacePlayer
    } else {
        NpcMovementType::Stationary
    }
}

pub fn parse_movement_type(s: &str) -> (m: NpcMovementType)
    ensures
        m == spec_parse_movement_type(s@),
{
    if str_eq(s, "Stationary") {
        NpcMovementType::Stationary
    } else if str_eq(s, "Wander") {
        NpcMovementType::Wander
    } else if str_eq(s, "FixedPath") {
        NpcMovementType::FixedPath
    } else if str_eq(s, "FacePlayer") {
        NpcMovementType::FacePlayer
    } else {
        NpcMovementType::Stationary
    }
}

/// A facing by its name in the map files (unknown names face down).
pub open spec fn spec_parse_facing_name(s: Seq<char>) -> Direction {
    if s == "Down"@ {
        Direction::Down
    } else if s == "Up"@ {
        Direction::Up
    } else if s == "Left"@ {
        Direction::Left
    } else if s == "Right"@ {
        Direction::Right
    } else {
        Direction::Down
    }
}

pub fn parse_direction(s: &str) -> (d: Direction)
    ensures
        d == spec_parse_facing_name(s@),
{
    if str_eq(s, "Down") {
        Direction::Down
    } else if str_eq(s, "Up") {
        Direction::Up
    } else if str_eq(s, "Left") {
        Direction::Left
    } else if str_eq(s, "Right") {
        Direction::Right
    } else {
        Direction::Down
    }
}

/// The trainer class number of a class name in the map files (the two
/// spellings of the psychic both give 19; unknown names give 0).
pub open spec fn spec_trainer_class(name: Seq<char>) -> u8 {
    if name == "Nobody"@ {
        0u8
    } else if name == "Youngster"@ {
        1u8
    } else if name == "BugCatcher"@ {
        2u8
    } else if name == "Lass"@ {
        3u8
    } else if name == "Sailor"@ {
        4u8
    } else if name == "JrTrainerM"@ {
        5u8
    } else if name == "JrTrainerF"@ {
        6u8
    } else if name == "Pokemaniac"@ {
        7u8
    } else if name == "SuperNerd"@ {
        8u8
    } else if name == "Hiker"@ {
        9u8
    } else if name == "Biker"@ {
        10u8
    } else if name == "Burglar"@ {
        11u8
    } else if name == "Engineer"@ {
        12u8
    } else if name == "UnusedJuggler"@ {
        13u8
    } else if name == "Fisher"@ {
        14u8
    } else if name == "Swimmer"@ {
        15u8
    } else if name == "CueBall"@ {
        16u8
    } else if name == "Gambler"@ {
        17u8
    } else if name == "Beauty"@ {
        18u8
    } else if name == "Psychic"@ {
        19u8
    } else if name == "PsychicTr"@ {
        19u8
    } else if name == "Rocker"@ {
        20u8
    } else if name == "Juggler"@ {
        21u8
    } else if name == "Tamer"@ {
        22u8
    } else if name == "BirdKeeper"@ {
        23u8
    } else if name == "Blackbelt"@ {
        24u8
    } else if name == "Rival1"@ {
        25u8
    } else if name == "ProfOak"@ {
        26u8
    } else if name == "Chief"@ {
        27u8
    } else if name == "Scientist"@ {
        28u8
    } else if name == "Giovanni"@ {
        29u8
    } else if name == "Rocket"@ {
        30u8
    } else if name == "CooltrainerM"@ {
        31u8
    } else if name == "CooltrainerF"@ {
        32u8
    } else if name == "Bruno"@ {
        33u8
    } else if name == "Brock"@ {
        34u8
    } else if name == "Misty"@ {
        35u8
    } else if name == "LtSurge"@ {
        36u8
    } else if name == "Erika"@ {
        37u8
    } else if name == "Koga"@ {
        38u8
    } else if name == "Blaine"@ {
        39u8
    } else if name == "Sabrina"@ {
        40u8
    } else if name == "Gentleman"@ {
        41u8
    } else if name == "Rival2"@ {
        42u8
    } else if name == "Rival3"@ {
        43u8
    } else if name == "Lorelei"@ {
        44u8
    } else if name == "Channeler"@ {
        45u8
    } else if name == "Agatha"@ {
        46u8
    } else if name == "Lance"@ {
        47u8
    } else {
        0u8
    }
}

pub fn parse_trainer_class(name: &str) -> (c: u8)
    ensures
        c == spec_trainer_class(name@),
{
    if str_eq(name, "Nobody") {
        0
    } else if str_eq(name, "Youngster") {
        1
    } else if str_eq(name, "BugCatcher") {
        2
    } else if str_eq(name, "Lass") {
        3
    } else if str_eq(name, "Sailor") {
        4
    } else if str_eq(name, "JrTrainerM") {
        5
    } else if str_eq(name, "JrTrainerF") {
        6
    } else if str_eq(name, "Pokemaniac") {
        7
    } else if str_eq(name, "SuperNerd") {
        8
    } else if str_eq(name, "Hiker") {
        9
    } else if str_eq(name, "Biker") {
        10
    } else if str_eq(name, "Burglar") {
        11
    } else if str_eq(name, "Engineer") {
        12
    } else if str_eq(name, "UnusedJuggler") {
        13
    } else if str_eq(name, "Fisher") {
        14
    } else if str_eq(name, "Swimmer") {
        15
    } else if str_eq(name, "CueBall") {
        16
    } else if str_eq(name, "Gambler") {
        17
    } else if str_eq(name, "Beauty") {
        18
    } else if str_eq(name, "Psychic") {
        19
    } else if str_eq(name, "PsychicTr") {
        19
    } else if str_eq(name, "Rocker") {
        20
    } else if str_eq(name, "Juggler") {
        21
    } else if str_eq(name, "Tamer") {
        22
    } else if str_eq(name, "BirdKeeper") {
        23
    } else if str_eq(name, "Blackbelt") {
        24
    } else if str_eq(name, "Rival1") {
        25
    } else if str_eq(name, "ProfOak") {
        26
    } else if str_eq(name, "Chief") {
        27
    } else if str_eq(name, "Scientist") {
        28
    } else if str_eq(name, "Giovanni") {
        29
    } else if str_eq(name, "Rocket") {
        30
    } else if str_eq(name, "CooltrainerM") {
        31
    } else if str_eq(name, "CooltrainerF") {
        32
    } else if str_eq(name, "Bruno") {
        33
    } else if str_eq(name, "Brock") {
        34
    } else if str_eq(name, "Misty") {
        35
    } else if str_eq(name, "LtSurge") {
        36
    } else if str_eq(name, "Erika") {
        37
    } else if str_eq(name, "Koga") {
        38
    } else if str_eq(name, "Blaine") {
        39
    } else if str_eq(name, "Sabrina") {
        40
    } else if str_eq(name, "Gentleman") {
        41
    } else if str_eq(name, "Rival2") {
        42
    } else if str_eq(name, "Rival3") {
        43
    } else if str_eq(name, "Lorelei") {
        44
    } else if str_eq(name, "Channeler") {
        45
    } else if str_eq(name, "Agatha") {
        46
    } else if str_eq(name, "Lance") {
        47
    } else {
        0
    }
}

/// The map object's movement byte: 0 stands still, 1 wanders, 2 follows a
/// fixed path, 3 faces the player; anything else stands still.
pub fn convert_movement(m: u8) -> (t: NpcMovementType)
    ensures
        t == if m == 1 {
            NpcMovementType::Wander
        } else if m == 2 {
            NpcMovementType::FixedPath
        } else if m == 3 {
            NpcMovementType::FacePlayer
        } else {
            NpcMovementType::Stationary
        },
{
    if m == 1 {
        NpcMovementType::Wander
    } else if m == 2 {
        NpcMovementType::FixedPath
    } else if m == 3 {
        NpcMovementType::FacePlayer
    } else {
        NpcMovementType::Stationary
    }
}

/// A wandering NPC's range byte: 1 keeps to up/down, 2 to left/right,
/// anything else any direction.
pub fn convert_wander_axis(range_code: u8) -> (a: NpcWanderAxis)
    ensures
        a == if range_code == 1 {
            NpcWanderAxis::Vertical
        } else if range_code == 2 {
            NpcWanderAxis::Horizontal
        } else {
            NpcWanderAxis::Any
        },
{
    if range_code == 1 {
        NpcWanderAxis::Vertical
    } else if range_code == 2 {
        NpcWanderAxis::Horizontal
    } else {
        NpcWanderAxis::Any
    }
}

/// The map object's facing byte: 0 down, 1 up, 2 left, 3 right; anything
/// else down.
pub fn convert_facing(f: u8) -> (d: Direction)
    ensures
        d == if f == 1 {
            Direction::Up
        } else if f == 2 {
            Direction::Left
        } else if f == 3 {
            Direction::Right
        } else {
            Direction::Down
        },
{
    if f == 1 {
        Direction::Up
    } else if f == 2 {
        Direction::Left
    } else if f == 3 {
        Direction::Right
    } else {
        Direction::Down
    }
}

} // verus!
