use pokered_core::overworld::forced_bike::{ForcedBikeMapEntry, ForcedBikeState};

const FORCED_BIKE_TILES: [(&str, u8, u8); 4] = [
    ("Route16", 17, 10),
    ("Route16", 17, 11),
    ("Route18", 33, 8),
    ("Route18", 33, 9),
];

const FORCED_SURF_TILES: [(&str, u8, u8); 4] = [
    ("SeafoamIslandsB3F", 18, 7),
    ("SeafoamIslandsB3F", 19, 7),
    ("SeafoamIslandsB4F", 4, 14),
    ("SeafoamIslandsB4F", 5, 14),
];

#[test]
fn forced_tiles_mount_the_bike() {
    for (map, x, y) in FORCED_BIKE_TILES {
        let mut state = ForcedBikeState::default();
        assert_eq!(state.enter_map(map, x as u16, y as u16), ForcedBikeMapEntry::Mount);
        assert!(state.active, "{map} ({x},{y}) sets the bit");
    }
}

#[test]
fn seafoam_tiles_force_surf_state() {
    for (map, x, y) in FORCED_SURF_TILES {
        let mut state = ForcedBikeState::default();
        assert_eq!(
            state.enter_map(map, x as u16, y as u16),
            ForcedBikeMapEntry::ForceSurf,
            "{map} ({x},{y}) forces surf"
        );
        assert!(!state.active, "{map} ({x},{y}) does not set the bike bit");
    }
}

#[test]
fn off_road_tile_leaves_walking() {
    let mut state = ForcedBikeState::default();
    assert_eq!(state.enter_map("Route16", 24, 10), ForcedBikeMapEntry::Keep);
    assert!(!state.active);
    assert_eq!(state.enter_map("PalletTown", 5, 5), ForcedBikeMapEntry::Keep);
}

#[test]
fn already_forced_keeps_throughout_the_road() {
    let mut state = ForcedBikeState::default();
    state.enter_map("Route16", 17, 10);
    assert_eq!(state.enter_map("Route17", 3, 40), ForcedBikeMapEntry::Keep);
    assert!(state.active);
    assert_eq!(state.enter_map("Route18", 10, 4), ForcedBikeMapEntry::Keep);
    assert!(state.active);
}

#[test]
fn entering_a_gate_releases_the_lock() {
    let mut state = ForcedBikeState::default();
    state.enter_map("Route16", 17, 10);
    assert!(state.active);
    assert_eq!(
        state.enter_map("Route16Gate1F", 7, 8),
        ForcedBikeMapEntry::Dismount
    );
    assert!(!state.active);
    assert_eq!(
        state.enter_map("Route18Gate1F", 0, 4),
        ForcedBikeMapEntry::Dismount
    );
    assert!(!state.active);
}

#[test]
fn clear_releases_without_a_map_change() {
    let mut state = ForcedBikeState::default();
    state.enter_map("Route16", 17, 10);
    assert_eq!(state.clear(), ForcedBikeMapEntry::Dismount);
    assert!(!state.active);
    assert_eq!(state.enter_map("Route16", 17, 10), ForcedBikeMapEntry::Mount);
}

#[test]
fn coordinates_compare_by_low_byte() {
    let mut state = ForcedBikeState::default();
    assert_eq!(
        state.enter_map("Route16", 17 + 256, 10),
        ForcedBikeMapEntry::Mount
    );
}
