use pokered_core::direction::Direction;
use pokered_core::overworld::spinner_paths::{spinner_paths, SpinnerStep};
use std::collections::HashSet;

#[test]
fn three_maps_have_tables() {
    for m in ["RocketHideoutB2F", "RocketHideoutB3F", "ViridianGym"] {
        assert!(!spinner_paths(m).is_empty(), "{m} must have entries");
    }
    assert!(spinner_paths("RocketHideoutB1F").is_empty());
    assert!(spinner_paths("PalletTown").is_empty());
}

#[test]
fn b2f_entries_match_asm() {
    let t = spinner_paths("RocketHideoutB2F");
    let find = |x, y| {
        t.iter()
            .find(|e| e.0 == x && e.1 == y)
            .unwrap_or_else(|| panic!("({x},{y}) missing"))
    };
    assert_eq!(
        find(4, 9).2,
        &[SpinnerStep { dir: Direction::Left, steps: 2 }]
    );
    assert_eq!(
        find(4, 11).2,
        &[SpinnerStep { dir: Direction::Right, steps: 4 }]
    );
}

#[test]
fn entries_are_unique_coordinates() {
    for map in ["RocketHideoutB2F", "RocketHideoutB3F", "ViridianGym"] {
        let t = spinner_paths(map);
        let mut seen = HashSet::new();
        for (x, y, _) in t {
            assert!(seen.insert((*x, *y)), "duplicate ({x},{y}) in {map}");
        }
    }
}

#[test]
fn table_sizes() {
    assert_eq!(spinner_paths("RocketHideoutB2F").len(), 43);
    assert_eq!(spinner_paths("RocketHideoutB3F").len(), 16);
    assert_eq!(spinner_paths("ViridianGym").len(), 12);
}
