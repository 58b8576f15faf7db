//! Spinner-tile movement tables: standing on a spin pad at (x, y) feeds
//! `dir × steps` straight-line runs of simulated input while the sprite
//! spins. Three maps have pads that move the player: the Rocket Hideout's
//! second and third basements and the Viridian Gym.

use vstd::prelude::*;

use crate::direction::Direction;

verus! {

/// One spin-pad run: the pad input to simulate, repeated `steps` times.
#[derive(Debug, Clone, Copy, PartialEq, Eq, Structural)]
pub struct SpinnerStep {
    pub dir: Direction,
    pub steps: u8,
}

pub open spec fn st(dir: Direction, steps: u8) -> SpinnerStep {
    SpinnerStep { dir, steps }
}

/// A table with each entry's runs taken by their view.
pub open spec fn entries_view(s: Seq<(u8, u8, &'static [SpinnerStep])>) -> Seq<(u8, u8, Seq<SpinnerStep>)> {
    s.map_values(|e: (u8, u8, &'static [SpinnerStep])| (e.0, e.1, e.2@))
}

/// The spin pads of RocketHideoutB2F, in table order.
pub open spec fn spec_rocket_hideout_b2f() -> Seq<(u8, u8, Seq<SpinnerStep>)> {
    seq![
        (4u8, 9u8, seq![st(Direction::Left, 2)]),
        (4u8, 11u8, seq![st(Direction::Right, 4)]),
        (4u8, 15u8, seq![st(Direction::Up, 4), st(Direction::Right, 4)]),
        (4u8, 16u8, seq![st(Direction::Up, 4), st(Direction::Right, 4), st(Direction::Up, 1)]),
        (4u8, 19u8, seq![st(Direction::Left, 2)]),
        (4u8, 22u8, seq![st(Direction::Left, 2), st(Direction::Up, 3)]),
        (5u8, 14u8, seq![st(Direction::Down, 2), st(Direction::Right, 4)]),
        (6u8, 22u8, seq![st(Direction::Up, 2)]),
        (6u8, 24u8, seq![st(Direction::Up, 4)]),
        (8u8, 9u8, seq![st(Direction::Left, 6)]),
        (8u8, 12u8, seq![st(Direction::Up, 1)]),
        (8u8, 15u8, seq![st(Direction::Up, 4)]),
        (8u8, 19u8, seq![st(Direction::Left, 6)]),
        (8u8, 23u8, seq![st(Direction::Left, 6), st(Direction::Up, 4)]),
        (9u8, 14u8, seq![st(Direction::Down, 2)]),
        (9u8, 22u8, seq![st(Direction::Down, 2)]),
        (10u8, 9u8, seq![st(Direction::Left, 8)]),
        (10u8, 10u8, seq![st(Direction::Left, 8), st(Direction::Up, 1)]),
        (10u8, 15u8, seq![st(Direction::Left, 8), st(Direction::Up, 6)]),
        (10u8, 17u8, seq![st(Direction::Up, 2), st(Direction::Right, 4)]),
        (10u8, 19u8, seq![st(Direction::Up, 2), st(Direction::Right, 4), st(Direction::Up, 2)]),
        (10u8, 25u8, seq![st(Direction::Right, 4)]),
        (11u8, 14u8, seq![st(Direction::Down, 2), st(Direction::Right, 4), st(Direction::Down, 2)]),
        (11u8, 16u8, seq![st(Direction::Down, 2), st(Direction::Right, 4)]),
        (11u8, 18u8, seq![st(Direction::Down, 2)]),
        (12u8, 9u8, seq![st(Direction::Left, 10)]),
        (12u8, 11u8, seq![st(Direction::Left, 10), st(Direction::Up, 2)]),
        (12u8, 13u8, seq![st(Direction::Left, 10), st(Direction::Up, 4)]),
        (12u8, 17u8, seq![st(Direction::Up, 2), st(Direction::Right, 2)]),
        (13u8, 10u8, seq![st(Direction::Right, 1), st(Direction::Down, 2)]),
        (13u8, 12u8, seq![st(Direction::Right, 1)]),
        (13u8, 16u8, seq![st(Direction::Down, 2), st(Direction::Right, 2)]),
        (13u8, 18u8, seq![st(Direction::Down, 2), st(Direction::Left, 2)]),
        (13u8, 19u8, seq![st(Direction::Up, 2), st(Direction::Right, 4), st(Direction::Up, 2), st(Direction::Left, 3)]),
        (13u8, 22u8, seq![st(Direction::Down, 2), st(Direction::Left, 4)]),
        (13u8, 23u8, seq![st(Direction::Left, 6), st(Direction::Up, 4), st(Direction::Left, 5)]),
        (14u8, 17u8, seq![st(Direction::Up, 2)]),
        (15u8, 16u8, seq![st(Direction::Down, 2)]),
        (16u8, 14u8, seq![st(Direction::Up, 1)]),
        (16u8, 16u8, seq![st(Direction::Up, 3)]),
        (16u8, 18u8, seq![st(Direction::Up, 5)]),
        (17u8, 10u8, seq![st(Direction::Right, 1), st(Direction::Down, 2), st(Direction::Left, 4)]),
        (17u8, 11u8, seq![st(Direction::Left, 10), st(Direction::Up, 2), st(Direction::Left, 5)]),
    ]
}

/// The spin pads of RocketHideoutB3F, in table order.
pub open spec fn spec_rocket_hideout_b3f() -> Seq<(u8, u8, Seq<SpinnerStep>)> {
    seq![
        (10u8, 13u8, seq![st(Direction::Right, 4)]),
        (10u8, 19u8, seq![st(Direction::Right, 4), st(Direction::Up, 4), st(Direction::Right, 4)]),
        (11u8, 18u8, seq![st(Direction::Down, 4), st(Direction::Right, 4)]),
        (12u8, 11u8, seq![st(Direction::Left, 2)]),
        (12u8, 17u8, seq![st(Direction::Right, 4), st(Direction::Up, 2), st(Direction::Right, 2)]),
        (12u8, 20u8, seq![st(Direction::Right, 4), st(Direction::Up, 2), st(Direction::Right, 2), st(Direction::Up, 3)]),
        (13u8, 16u8, seq![st(Direction::Right, 4)]),
        (14u8, 11u8, seq![st(Direction::Right, 2)]),
        (14u8, 15u8, seq![st(Direction::Right, 4)]),
        (14u8, 17u8, seq![st(Direction::Right, 4), st(Direction::Up, 2)]),
        (14u8, 19u8, seq![st(Direction::Right, 4), st(Direction::Up, 4)]),
        (15u8, 16u8, seq![st(Direction::Right, 2)]),
        (15u8, 18u8, seq![st(Direction::Down, 4)]),
        (16u8, 13u8, seq![st(Direction::Up, 2)]),
        (17u8, 12u8, seq![st(Direction::Down, 4)]),
        (18u8, 16u8, seq![st(Direction::Up, 1)]),
    ]
}

/// The spin pads of ViridianGym, in table order.
pub open spec fn spec_viridian_gym() -> Seq<(u8, u8, Seq<SpinnerStep>)> {
    seq![
        (19u8, 11u8, seq![st(Direction::Up, 9)]),
        (19u8, 1u8, seq![st(Direction::Left, 8)]),
        (18u8, 2u8, seq![st(Direction::Down, 9)]),
        (11u8, 2u8, seq![st(Direction::Right, 6)]),
        (16u8, 10u8, seq![st(Direction::Down, 2)]),
        (4u8, 6u8, seq![st(Direction::Down, 7)]),
        (5u8, 13u8, seq![st(Direction::Right, 8)]),
        (4u8, 14u8, seq![st(Direction::Right, 9)]),
        (0u8, 15u8, seq![st(Direction::Up, 8)]),
        (1u8, 15u8, seq![st(Direction::Up, 6)]),
        (13u8, 16u8, seq![st(Direction::Left, 6)]),
        (13u8, 17u8, seq![st(Direction::Left, 12)]),
    ]
}

/// The spin-pad table of a map (empty for every other map). The first
/// entry at a coordinate wins.
pub open spec fn spec_spinner_paths(map: Seq<char>) -> Seq<(u8, u8, Seq<SpinnerStep>)> {
    if map == "RocketHideoutB2F"@ {
        spec_rocket_hideout_b2f()
    } else if map == "RocketHideoutB3F"@ {
        spec_rocket_hideout_b3f()
    } else if map == "ViridianGym"@ {
        spec_viridian_gym()
    } else {
        seq![]
    }
}

/// (x, y) → the runs to simulate, for the map.
pub fn spinner_paths(map: &str) -> (r: &'static [(u8, u8, &'static [SpinnerStep])])
    ensures
        entries_view(r@) == spec_spinner_paths(map@),
{
    if crate::text::str_eq(map, "RocketHideoutB2F") {
        let p: &'static [(u8, u8, &'static [SpinnerStep])] = &[
            (4, 9, &[SpinnerStep { dir: Direction::Left, steps: 2 }]),
            (4, 11, &[SpinnerStep { dir: Direction::Right, steps: 4 }]),
            (4, 15, &[SpinnerStep { dir: Direction::Up, steps: 4 }, SpinnerStep { dir: Direction::Right, steps: 4 }]),
            (4, 16, &[SpinnerStep { dir: Direction::Up, steps: 4 }, SpinnerStep { dir: Direction::Right, steps: 4 }, SpinnerStep { dir: Direction::Up, steps: 1 }]),
            (4, 19, &[SpinnerStep { dir: Direction::Left, steps: 2 }]),
            (4, 22, &[SpinnerStep { dir: Direction::Left, steps: 2 }, SpinnerStep { dir: Direction::Up, steps: 3 }]),
            (5, 14, &[SpinnerStep { dir: Direction::Down, steps: 2 }, SpinnerStep { dir: Direction::Right, steps: 4 }]),
            (6, 22, &[SpinnerStep { dir: Direction::Up, steps: 2 }]),
            (6, 24, &[SpinnerStep { dir: Direction::Up, steps: 4 }]),
            (8, 9, &[SpinnerStep { dir: Direction::Left, steps: 6 }]),
            (8, 12, &[SpinnerStep { dir: Direction::Up, steps: 1 }]),
            (8, 15, &[SpinnerStep { dir: Direction::Up, steps: 4 }]),
            (8, 19, &[SpinnerStep { dir: Direction::Left, steps: 6 }]),
            (8, 23, &[SpinnerStep { dir: Direction::Left, steps: 6 }, SpinnerStep { dir: Direction::Up, steps: 4 }]),
            (9, 14, &[SpinnerStep { dir: Direction::Down, steps: 2 }]),
            (9, 22, &[SpinnerStep { dir: Direction::Down, steps: 2 }]),
            (10, 9, &[SpinnerStep { dir: Direction::Left, steps: 8 }]),
            (10, 10, &[SpinnerStep { dir: Direction::Left, steps: 8 }, SpinnerStep { dir: Direction::Up, steps: 1 }]),
            (10, 15, &[SpinnerStep { dir: Direction::Left, steps: 8 }, SpinnerStep { dir: Direction::Up, steps: 6 }]),
            (10, 17, &[SpinnerStep { dir: Direction::Up, steps: 2 }, SpinnerStep { dir: Direction::Right, steps: 4 }]),
            (10, 19, &[SpinnerStep { dir: Direction::Up, steps: 2 }, SpinnerStep { dir: Direction::Right, steps: 4 }, SpinnerStep { dir: Direction::Up, steps: 2 }]),
            (10, 25, &[SpinnerStep { dir: Direction::Right, steps: 4 }]),
            (11, 14, &[SpinnerStep { dir: Direction::Down, steps: 2 }, SpinnerStep { dir: Direction::Right, steps: 4 }, SpinnerStep { dir: Direction::Down, steps: 2 }]),
            (11, 16, &[SpinnerStep { dir: Direction::Down, steps: 2 }, SpinnerStep { dir: Direction::Right, steps: 4 }]),
            (11, 18, &[SpinnerStep { dir: Direction::Down, steps: 2 }]),
            (12, 9, &[SpinnerStep { dir: Direction::Left, steps: 10 }]),
            (12, 11, &[SpinnerStep { dir: Direction::Left, steps: 10 }, SpinnerStep { dir: Direction::Up, steps: 2 }]),
            (12, 13, &[SpinnerStep { dir: Direction::Left, steps: 10 }, SpinnerStep { dir: Direction::Up, steps: 4 }]),
            (12, 17, &[SpinnerStep { dir: Direction::Up, steps: 2 }, SpinnerStep { dir: Direction::Right, steps: 2 }]),
            (13, 10, &[SpinnerStep { dir: Direction::Right, steps: 1 }, SpinnerStep { dir: Direction::Down, steps: 2 }]),
            (13, 12, &[SpinnerStep { dir: Direction::Right, steps: 1 }]),
            (13, 16, &[SpinnerStep { dir: Direction::Down, steps: 2 }, SpinnerStep { dir: Direction::Right, steps: 2 }]),
            (13, 18, &[SpinnerStep { dir: Direction::Down, steps: 2 }, SpinnerStep { dir: Direction::Left, steps: 2 }]),
            (13, 19, &[SpinnerStep { dir: Direction::Up, steps: 2 }, SpinnerStep { dir: Direction::Right, steps: 4 }, SpinnerStep { dir: Direction::Up, steps: 2 }, SpinnerStep { dir: Direction::Left, steps: 3 }]),
            (13, 22, &[SpinnerStep { dir: Direction::Down, steps: 2 }, SpinnerStep { dir: Direction::Left, steps: 4 }]),
            (13, 23, &[SpinnerStep { dir: Direction::Left, steps: 6 }, SpinnerStep { dir: Direction::Up, steps: 4 }, SpinnerStep { dir: Direction::Left, steps: 5 }]),
            (14, 17, &[SpinnerStep { dir: Direction::Up, steps: 2 }]),
            (15, 16, &[SpinnerStep { dir: Direction::Down, steps: 2 }]),
            (16, 14, &[SpinnerStep { dir: Direction::Up, steps: 1 }]),
            (16, 16, &[SpinnerStep { dir: Direction::Up, steps: 3 }]),
            (16, 18, &[SpinnerStep { dir: Direction::Up, steps: 5 }]),
            (17, 10, &[SpinnerStep { dir: Direction::Right, steps: 1 }, SpinnerStep { dir: Direction::Down, steps: 2 }, SpinnerStep { dir: Direction::Left, steps: 4 }]),
            (17, 11, &[SpinnerStep { dir: Direction::Left, steps: 10 }, SpinnerStep { dir: Direction::Up, steps: 2 }, SpinnerStep { dir: Direction::Left, steps: 5 }]),
        ];
        assert(entries_view(p@) =~~= spec_spinner_paths(map@));
        p
    } else if crate::text::str_eq(map, "RocketHideoutB3F") {
        let p: &'static [(u8, u8, &'static [SpinnerStep])] = &[
            (10, 13, &[SpinnerStep { dir: Direction::Right, steps: 4 }]),
            (10, 19, &[SpinnerStep { dir: Direction::Right, steps: 4 }, SpinnerStep { dir: Direction::Up, steps: 4 }, SpinnerStep { dir: Direction::Right, steps: 4 }]),
            (11, 18, &[SpinnerStep { dir: Direction::Down, steps: 4 }, SpinnerStep { dir: Direction::Right, steps: 4 }]),
            (12, 11, &[SpinnerStep { dir: Direction::Left, steps: 2 }]),
            (12, 17, &[SpinnerStep { dir: Direction::Right, steps: 4 }, SpinnerStep { dir: Direction::Up, steps: 2 }, SpinnerStep { dir: Direction::Right, steps: 2 }]),
            (12, 20, &[SpinnerStep { dir: Direction::Right, steps: 4 }, SpinnerStep { dir: Direction::Up, steps: 2 }, SpinnerStep { dir: Direction::Right, steps: 2 }, SpinnerStep { dir: Direction::Up, steps: 3 }]),
            (13, 16, &[SpinnerStep { dir: Direction::Right, steps: 4 }]),
            (14, 11, &[SpinnerStep { dir: Direction::Right, steps: 2 }]),
            (14, 15, &[SpinnerStep { dir: Direction::Right, steps: 4 }]),
            (14, 17, &[SpinnerStep { dir: Direction::Right, steps: 4 }, SpinnerStep { dir: Direction::Up, steps: 2 }]),
            (14, 19, &[SpinnerStep { dir: Direction::Right, steps: 4 }, SpinnerStep { dir: Direction::Up, steps: 4 }]),
            (15, 16, &[SpinnerStep { dir: Direction::Right, steps: 2 }]),
            (15, 18, &[SpinnerStep { dir: Direction::Down, steps: 4 }]),
            (16, 13, &[SpinnerStep { dir: Direction::Up, steps: 2 }]),
            (17, 12, &[SpinnerStep { dir: Direction::Down, steps: 4 }]),
            (18, 16, &[SpinnerStep { dir: Direction::Up, steps: 1 }]),
        ];
        assert(entries_view(p@) =~~= spec_spinner_paths(map@));
        p
    } else if crate::text::str_eq(map, "ViridianGym") {
        let p: &'static [(u8, u8, &'static [SpinnerStep])] = &[
            (19, 11, &[SpinnerStep { dir: Direction::Up, steps: 9 }]),
            (19, 1, &[SpinnerStep { dir: Direction::Left, steps: 8 }]),
            (18, 2, &[SpinnerStep { dir: Direction::Down, steps: 9 }]),
            (11, 2, &[SpinnerStep { dir: Direction::Right, steps: 6 }]),
            (16, 10, &[SpinnerStep { dir: Direction::Down, steps: 2 }]),
            (4, 6, &[SpinnerStep { dir: Direction::Down, steps: 7 }]),
            (5, 13, &[SpinnerStep { dir: Direction::Right, steps: 8 }]),
            (4, 14, &[SpinnerStep { dir: Direction::Right, steps: 9 }]),
            (0, 15, &[SpinnerStep { dir: Direction::Up, steps: 8 }]),
            (1, 15, &[SpinnerStep { dir: Direction::Up, steps: 6 }]),
            (13, 16, &[SpinnerStep { dir: Direction::Left, steps: 6 }]),
            (13, 17, &[SpinnerStep { dir: Direction::Left, steps: 12 }]),
        ];
        assert(entries_view(p@) =~~= spec_spinner_paths(map@));
        p
    } else {
        let p: &'static [(u8, u8, &'static [SpinnerStep])] = &[];
        assert(entries_view(p@) =~~= spec_spinner_paths(map@));
        p
    }
}

/// No two entries of a table share a coordinate.
pub open spec fn coords_distinct(t: Seq<(u8, u8, Seq<SpinnerStep>)>) -> bool {
    forall|i: int, j: int| 0 <= i < j < t.len() ==> !(#[trigger] t[i].0 == #[trigger] t[j].0 && t[i].1 == t[j].1)
}

/// On every map, no two spin pads share a coordinate, so the first-match
/// lookup never hides an entry.
#[verifier::rlimit(100)]
pub proof fn lemma_spinner_coordinates_unique(map: Seq<char>)
    ensures
        coords_distinct(spec_spinner_paths(map)),
{
    assert(coords_distinct(spec_rocket_hideout_b2f()));
    assert(coords_distinct(spec_rocket_hideout_b3f()));
    assert(coords_distinct(spec_viridian_gym()));
}

/// The spin pads run exactly as the game's spinner tables say
/// (RocketHideout2/3ArrowMovement, ViridianGymArrowMovement): each map's
/// pads, in the game's order, with their runs; every other map has none.
#[verifier::rlimit(100)]
pub proof fn lemma_spin_pads_match_the_game(map: Seq<char>)
    ensures
        spec_spinner_paths("RocketHideoutB2F"@) == seq![
            (4u8, 9u8, seq![SpinnerStep { dir: Direction::Left, steps: 2u8 }]),
            (4u8, 11u8, seq![SpinnerStep { dir: Direction::Right, steps: 4u8 }]),
            (4u8, 15u8, seq![SpinnerStep { dir: Direction::Up, steps: 4u8 }, SpinnerStep { dir: Direction::Right, steps: 4u8 }]),
            (4u8, 16u8, seq![SpinnerStep { dir: Direction::Up, steps: 4u8 }, SpinnerStep { dir: Direction::Right, steps: 4u8 }, SpinnerStep { dir: Direction::Up, steps: 1u8 }]),
            (4u8, 19u8, seq![SpinnerStep { dir: Direction::Left, steps: 2u8 }]),
            (4u8, 22u8, seq![SpinnerStep { dir: Direction::Left, steps: 2u8 }, SpinnerStep { dir: Direction::Up, steps: 3u8 }]),
            (5u8, 14u8, seq![SpinnerStep { dir: Direction::Down, steps: 2u8 }, SpinnerStep { dir: Direction::Right, steps: 4u8 }]),
            (6u8, 22u8, seq![SpinnerStep { dir: Direction::Up, steps: 2u8 }]),
            (6u8, 24u8, seq![SpinnerStep { dir: Direction::Up, steps: 4u8 }]),
            (8u8, 9u8, seq![SpinnerStep { dir: Direction::Left, steps: 6u8 }]),
            (8u8, 12u8, seq![SpinnerStep { dir: Direction::Up, steps: 1u8 }]),
            (8u8, 15u8, seq![SpinnerStep { dir: Direction::Up, steps: 4u8 }]),
            (8u8, 19u8, seq![SpinnerStep { dir: Direction::Left, steps: 6u8 }]),
            (8u8, 23u8, seq![SpinnerStep { dir: Direction::Left, steps: 6u8 }, SpinnerStep { dir: Direction::Up, steps: 4u8 }]),
            (9u8, 14u8, seq![SpinnerStep { dir: Direction::Down, steps: 2u8 }]),
            (9u8, 22u8, seq![SpinnerStep { dir: Direction::Down, steps: 2u8 }]),
            (10u8, 9u8, seq![SpinnerStep { dir: Direction::Left, steps: 8u8 }]),
            (10u8, 10u8, seq![SpinnerStep { dir: Direction::Left, steps: 8u8 }, SpinnerStep { dir: Direction::Up, steps: 1u8 }]),
            (10u8, 15u8, seq![SpinnerStep { dir: Direction::Left, steps: 8u8 }, SpinnerStep { dir: Direction::Up, steps: 6u8 }]),
            (10u8, 17u8, seq![SpinnerStep { dir: Direction::Up, steps: 2u8 }, SpinnerStep { dir: Direction::Right, steps: 4u8 }]),
            (10u8, 19u8, seq![SpinnerStep { dir: Direction::Up, steps: 2u8 }, SpinnerStep { dir: Direction::Right, steps: 4u8 }, SpinnerStep { dir: Direction::Up, steps: 2u8 }]),
            (10u8, 25u8, seq![SpinnerStep { dir: Direction::Right, steps: 4u8 }]),
            (11u8, 14u8, seq![SpinnerStep { dir: Direction::Down, steps: 2u8 }, SpinnerStep { dir: Direction::Right, steps: 4u8 }, SpinnerStep { dir: Direction::Down, steps: 2u8 }]),
            (11u8, 16u8, seq![SpinnerStep { dir: Direction::Down, steps: 2u8 }, SpinnerStep { dir: Direction::Right, steps: 4u8 }]),
            (11u8, 18u8, seq![SpinnerStep { dir: Direction::Down, steps: 2u8 }]),
            (12u8, 9u8, seq![SpinnerStep { dir: Direction::Left, steps: 10u8 }]),
            (12u8, 11u8, seq![SpinnerStep { dir: Direction::Left, steps: 10u8 }, SpinnerStep { dir: Direction::Up, steps: 2u8 }]),
            (12u8, 13u8, seq![SpinnerStep { dir: Direction::Left, steps: 10u8 }, SpinnerStep { dir: Direction::Up, steps: 4u8 }]),
            (12u8, 17u8, seq![SpinnerStep { dir: Direction::Up, steps: 2u8 }, SpinnerStep { dir: Direction::Right, steps: 2u8 }]),
            (13u8, 10u8, seq![SpinnerStep { dir: Direction::Right, steps: 1u8 }, SpinnerStep { dir: Direction::Down, steps: 2u8 }]),
            (13u8, 12u8, seq![SpinnerStep { dir: Direction::Right, steps: 1u8 }]),
            (13u8, 16u8, seq![SpinnerStep { dir: Direction::Down, steps: 2u8 }, SpinnerStep { dir: Direction::Right, steps: 2u8 }]),
            (13u8, 18u8, seq![SpinnerStep { dir: Direction::Down, steps: 2u8 }, SpinnerStep { dir: Direction::Left, steps: 2u8 }]),
            (13u8, 19u8, seq![SpinnerStep { dir: Direction::Up, steps: 2u8 }, SpinnerStep { dir: Direction::Right, steps: 4u8 }, SpinnerStep { dir: Direction::Up, steps: 2u8 }, SpinnerStep { dir: Direction::Left, steps: 3u8 }]),
            (13u8, 22u8, seq![SpinnerStep { dir: Direction::Down, steps: 2u8 }, SpinnerStep { dir: Direction::Left, steps: 4u8 }]),
            (13u8, 23u8, seq![SpinnerStep { dir: Direction::Left, steps: 6u8 }, SpinnerStep { dir: Direction::Up, steps: 4u8 }, SpinnerStep { dir: Direction::Left, steps: 5u8 }]),
            (14u8, 17u8, seq![SpinnerStep { dir: Direction::Up, steps: 2u8 }]),
            (15u8, 16u8, seq![SpinnerStep { dir: Direction::Down, steps: 2u8 }]),
            (16u8, 14u8, seq![SpinnerStep { dir: Direction::Up, steps: 1u8 }]),
            (16u8, 16u8, seq![SpinnerStep { dir: Direction::Up, steps: 3u8 }]),
            (16u8, 18u8, seq![SpinnerStep { dir: Direction::Up, steps: 5u8 }]),
            (17u8, 10u8, seq![SpinnerStep { dir: Direction::Right, steps: 1u8 }, SpinnerStep { dir: Direction::Down, steps: 2u8 }, SpinnerStep { dir: Direction::Left, steps: 4u8 }]),
            (17u8, 11u8, seq![SpinnerStep { dir: Direction::Left, steps: 10u8 }, SpinnerStep { dir: Direction::Up, steps: 2u8 }, SpinnerStep { dir: Direction::Left, steps: 5u8 }]),
        ],
        spec_spinner_paths("RocketHideoutB3F"@) == seq![
            (10u8, 13u8, seq![SpinnerStep { dir: Direction::Right, steps: 4u8 }]),
            (10u8, 19u8, seq![SpinnerStep { dir: Direction::Right, steps: 4u8 }, SpinnerStep { dir: Direction::Up, steps: 4u8 }, SpinnerStep { dir: Direction::Right, steps: 4u8 }]),
            (11u8, 18u8, seq![SpinnerStep { dir: Direction::Down, steps: 4u8 }, SpinnerStep { dir: Direction::Right, steps: 4u8 }]),
            (12u8, 11u8, seq![SpinnerStep { dir: Direction::Left, steps: 2u8 }]),
            (12u8, 17u8, seq![SpinnerStep { dir: Direction::Right, steps: 4u8 }, SpinnerStep { dir: Direction::Up, steps: 2u8 }, SpinnerStep { dir: Direction::Right, steps: 2u8 }]),
            (12u8, 20u8, seq![SpinnerStep { dir: Direction::Right, steps: 4u8 }, SpinnerStep { dir: Direction::Up, steps: 2u8 }, SpinnerStep { dir: Direction::Right, steps: 2u8 }, SpinnerStep { dir: Direction::Up, steps: 3u8 }]),
            (13u8, 16u8, seq![SpinnerStep { dir: Direction::Right, steps: 4u8 }]),
            (14u8, 11u8, seq![SpinnerStep { dir: Direction::Right, steps: 2u8 }]),
            (14u8, 15u8, seq![SpinnerStep { dir: Direction::Right, steps: 4u8 }]),
            (14u8, 17u8, seq![SpinnerStep { dir: Direction::Right, steps: 4u8 }, SpinnerStep { dir: Direction::Up, steps: 2u8 }]),
            (14u8, 19u8, seq![SpinnerStep { dir: Direction::Right, steps: 4u8 }, SpinnerStep { dir: Direction::Up, steps: 4u8 }]),
            (15u8, 16u8, seq![SpinnerStep { dir: Direction::Right, steps: 2u8 }]),
            (15u8, 18u8, seq![SpinnerStep { dir: Direction::Down, steps: 4u8 }]),
            (16u8, 13u8, seq![SpinnerStep { dir: Direction::Up, steps: 2u8 }]),
            (17u8, 12u8, seq![SpinnerStep { dir: Direction::Down, steps: 4u8 }]),
            (18u8, 16u8, seq![SpinnerStep { dir: Direction::Up, steps: 1u8 }]),
        ],
        spec_spinner_paths("ViridianGym"@) == seq![
            (19u8, 11u8, seq![SpinnerStep { dir: Direction::Up, steps: 9u8 }]),
            (19u8, 1u8, seq![SpinnerStep { dir: Direction::Left, steps: 8u8 }]),
            (18u8, 2u8, seq![SpinnerStep { dir: Direction::Down, steps: 9u8 }]),
            (11u8, 2u8, seq![SpinnerStep { dir: Direction::Right, steps: 6u8 }]),
            (16u8, 10u8, seq![SpinnerStep { dir: Direction::Down, steps: 2u8 }]),
            (4u8, 6u8, seq![SpinnerStep { dir: Direction::Down, steps: 7u8 }]),
            (5u8, 13u8, seq![SpinnerStep { dir: Direction::Right, steps: 8u8 }]),
            (4u8, 14u8, seq![SpinnerStep { dir: Direction::Right, steps: 9u8 }]),
            (0u8, 15u8, seq![SpinnerStep { dir: Direction::Up, steps: 8u8 }]),
            (1u8, 15u8, seq![SpinnerStep { dir: Direction::Up, steps: 6u8 }]),
            (13u8, 16u8, seq![SpinnerStep { dir: Direction::Left, steps: 6u8 }]),
            (13u8, 17u8, seq![SpinnerStep { dir: Direction::Left, steps: 12u8 }]),
        ],
        map != "RocketHideoutB2F"@ && map != "RocketHideoutB3F"@ && map != "ViridianGym"@ ==> spec_spinner_paths(map).len() == 0,
{
    reveal_strlit("RocketHideoutB2F");
    reveal_strlit("RocketHideoutB3F");
    reveal_strlit("ViridianGym");
    assert("RocketHideoutB3F"@[14] != "RocketHideoutB2F"@[14]);
    assert("ViridianGym"@.len() != "RocketHideoutB2F"@.len());
    assert("ViridianGym"@.len() != "RocketHideoutB3F"@.len());
    assert(spec_spinner_paths("RocketHideoutB2F"@) =~~= spec_rocket_hideout_b2f());
    assert(spec_spinner_paths("RocketHideoutB3F"@) =~~= spec_rocket_hideout_b3f());
    assert(spec_spinner_paths("ViridianGym"@) =~~= spec_viridian_gym());
}


} // verus!
