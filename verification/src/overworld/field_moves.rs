//! What a field move chosen in the party menu leads to: the SURF decisions
//! and their texts, the per-frame STRENGTH boulder push, and the Seafoam
//! Islands floor holes that boulders drop through.

use vstd::prelude::*;

use crate::direction::{direction_delta, spec_delta, Direction};
use crate::text::str_eq;

use super::hm_effects::{
    spec_fly_destinations, spec_find_destination, spec_has_badge, spec_use_cut, spec_use_surf,
    try_push_boulder_with_direction, use_cut, use_flash, use_fly, use_strength, use_surf, BoulderPushResult,
    CutResult, FlashResult, FlyDestination, FlyResult, StrengthResult, SurfResult, BIT_BOULDERBADGE,
    BIT_RAINBOWBADGE, BIT_THUNDERBADGE,
};
use super::poison::blackout_destination;
use super::presentation::{moved, spec_moved};

verus! {

/// The water tile, and the eastern shore tiles (usual and Safari Zone)
/// that also count as water in front of the player.
pub const WATER_TILE: u8 = 0x14;
pub const SHORE_TILE_USUAL: u8 = 0x32;
pub const SHORE_TILE_SAFARI: u8 = 0x48;

/// "No! A new BADGE is required."
pub const NEW_BADGE_REQUIRED_TEXT: &'static str = "No! A new BADGE\nis required.";

/// What happened after the player chose a field move in the party menu.
#[derive(Debug, Clone, Copy, PartialEq, Eq, Structural)]
pub enum FieldMoveOutcome {
    /// The flow completed on the spot (a message or a warp was queued).
    Done,
    /// FLY passed its checks: open the town map to pick a destination.
    OpenFlyMap,
    /// SOFTBOILED: reopen the party menu to pick who to heal.
    ChooseSoftboiledTarget,
}

/// The floor holes of the Seafoam Islands floors that a pushed boulder
/// drops through, with the event flag the drop sets.
pub open spec fn spec_seafoam_holes(map: Seq<char>) -> Seq<(u16, u16, &'static str)> {
    if map == "SeafoamIslands1F"@ {
        seq![(17u16, 6u16, "EVENT_SEAFOAM1_BOULDER1_DOWN_HOLE"), (24u16, 6u16, "EVENT_SEAFOAM1_BOULDER2_DOWN_HOLE")]
    } else if map == "SeafoamIslandsB1F"@ {
        seq![(18u16, 6u16, "EVENT_SEAFOAM2_BOULDER1_DOWN_HOLE"), (23u16, 6u16, "EVENT_SEAFOAM2_BOULDER2_DOWN_HOLE")]
    } else if map == "SeafoamIslandsB2F"@ {
        seq![(19u16, 6u16, "EVENT_SEAFOAM3_BOULDER1_DOWN_HOLE"), (22u16, 6u16, "EVENT_SEAFOAM3_BOULDER2_DOWN_HOLE")]
    } else if map == "SeafoamIslandsB3F"@ {
        seq![(3u16, 16u16, "EVENT_SEAFOAM4_BOULDER1_DOWN_HOLE"), (6u16, 16u16, "EVENT_SEAFOAM4_BOULDER2_DOWN_HOLE")]
    } else {
        seq![]
    }
}

/// The flag of the first hole of `holes` at (x, y).
pub open spec fn spec_find_hole(holes: Seq<(u16, u16, &'static str)>, x: u16, y: u16) -> Option<&'static str>
    decreases holes.len(),
{
    if holes.len() == 0 {
        None
    } else if holes[0].0 == x && holes[0].1 == y {
        Some(holes[0].2)
    } else {
        spec_find_hole(holes.drop_first(), x, y)
    }
}

/// The event flag of the Seafoam hole at (x, y) of `map`, if there is one.
pub fn seafoam_hole_flag_for(map: &str, x: u16, y: u16) -> (r: Option<&'static str>)
    ensures
        r == spec_find_hole(spec_seafoam_holes(map@), x, y),
{
    let holes: &'static [(u16, u16, &'static str)] = if str_eq(map, "SeafoamIslands1F") {
        &[(17, 6, "EVENT_SEAFOAM1_BOULDER1_DOWN_HOLE"), (24, 6, "EVENT_SEAFOAM1_BOULDER2_DOWN_HOLE")]
    } else if str_eq(map, "SeafoamIslandsB1F") {
        &[(18, 6, "EVENT_SEAFOAM2_BOULDER1_DOWN_HOLE"), (23, 6, "EVENT_SEAFOAM2_BOULDER2_DOWN_HOLE")]
    } else if str_eq(map, "SeafoamIslandsB2F") {
        &[(19, 6, "EVENT_SEAFOAM3_BOULDER1_DOWN_HOLE"), (22, 6, "EVENT_SEAFOAM3_BOULDER2_DOWN_HOLE")]
    } else if str_eq(map, "SeafoamIslandsB3F") {
        &[(3, 16, "EVENT_SEAFOAM4_BOULDER1_DOWN_HOLE"), (6, 16, "EVENT_SEAFOAM4_BOULDER2_DOWN_HOLE")]
    } else {
        &[]
    };
    assert(holes@ =~= spec_seafoam_holes(map@));
    let mut i: usize = 0;
    assert(holes@.subrange(0, holes@.len() as int) =~= holes@);
    while i < holes.len()
        invariant
            holes@ == spec_seafoam_holes(map@),
            i <= holes@.len(),
            spec_find_hole(holes@.subrange(i as int, holes@.len() as int), x, y) == spec_find_hole(
                spec_seafoam_holes(map@),
                x,
                y,
            ),
        decreases holes@.len() - i,
    {
        let ghost rest = holes@.subrange(i as int, holes@.len() as int);
        if holes[i].0 == x && holes[i].1 == y {
            return Some(holes[i].2);
        }
        assert(rest.drop_first() =~= holes@.subrange(i + 1, holes@.len() as int));
        i += 1;
    }
    None
}

// ── SURF ───────────────────────────────────────────────────────────

/// What the map shows around the player when SURF is chosen.
#[derive(Debug, Clone, Copy, PartialEq, Eq, Structural)]
pub struct SurfSurroundings {
    /// A water tileset with water (or an eastern shore) in front.
    pub is_facing_water: bool,
    pub already_surfing: bool,
    /// The Cycling Road bike lock is set.
    pub forced_bike: bool,
    /// Both Seafoam B4F boulders have dropped into their holes.
    pub seafoam_b4f_boulders_done: bool,
    pub player_x: u8,
    pub player_y: u8,
    /// The water tile pair collision vetoes stepping onto the water.
    pub water_pair_blocked: bool,
    /// While surfing: the tile in front is passable land, no tile pair
    /// collision blocks it and no sprite stands there.
    pub can_get_off: bool,
}

/// The result of choosing SURF.
#[derive(Debug, Clone, PartialEq, Eq)]
pub enum SurfAction {
    /// Show this text; nothing else changes.
    Message(String),
    /// Get off: walk onto the land tile in front, walking again, and the
    /// map's own music plays.
    StopSurfing,
    /// Get on: surfing, step onto the water tile in front, the surfing
    /// music plays, and this text shows.
    StartSurfing(String),
}

/// A mirror of [`SurfAction`] over character sequences.
pub enum SurfActionView {
    Message(Seq<char>),
    StopSurfing,
    StartSurfing(Seq<char>),
}

impl View for SurfAction {
    type V = SurfActionView;

    open spec fn view(&self) -> SurfActionView {
        match self {
            SurfAction::Message(s) => SurfActionView::Message(s@),
            SurfAction::StopSurfing => SurfActionView::StopSurfing,
            SurfAction::StartSurfing(s) => SurfActionView::StartSurfing(s@),
        }
    }
}

/// "No SURFing on <MON> here!"
pub open spec fn no_surfing_text(mon_name: Seq<char>) -> Seq<char> {
    "No SURFing on\n"@ + mon_name + "\nhere!"@
}

/// The outcome of SURF: without the tiles in front (`None`) the move is
/// refused; otherwise the gates of [`spec_use_surf`] decide, getting off
/// needs somewhere to step, and getting on can still be vetoed by the water
/// tile pair.
pub open spec fn spec_field_surf(
    obtained_badges: u8,
    mon_name: Seq<char>,
    player_name: Seq<char>,
    current_map: Seq<char>,
    around: Option<SurfSurroundings>,
) -> SurfActionView {
    match around {
        None => SurfActionView::Message(no_surfing_text(mon_name)),
        Some(a) => match spec_use_surf(
            obtained_badges,
            a.is_facing_water,
            a.already_surfing,
            a.forced_bike,
            current_map,
            a.seafoam_b4f_boulders_done,
            a.player_x,
            a.player_y,
        ) {
            SurfResult::NoBadge => SurfActionView::Message(NEW_BADGE_REQUIRED_TEXT@),
            SurfResult::AlreadySurfing => if a.can_get_off {
                SurfActionView::StopSurfing
            } else {
                SurfActionView::Message("There's no place\nto get off!"@)
            },
            SurfResult::NotFacingWater => SurfActionView::Message(no_surfing_text(mon_name)),
            SurfResult::ForcedToRideBike => SurfActionView::Message("Cycling is fun!\nForget SURFing!"@),
            SurfResult::CurrentTooFast => SurfActionView::Message("The current is\nmuch too fast!"@),
            SurfResult::StartedSurfing => if a.water_pair_blocked {
                SurfActionView::Message(no_surfing_text(mon_name))
            } else {
                SurfActionView::StartSurfing(player_name + " got on\n"@ + mon_name + "!"@)
            },
        },
    }
}

fn no_surfing_message(mon_name: &str) -> (s: String)
    ensures
        s@ == no_surfing_text(mon_name@),
{
    let mut s = String::from_str("No SURFing on\n");
    s.append(mon_name);
    s.append("\nhere!");
    s
}

/// SURF chosen from the party menu by `mon_name`, given what surrounds the
/// player (`None` when the tiles in front are unknown).
pub fn field_surf(
    obtained_badges: u8,
    mon_name: &str,
    player_name: &str,
    current_map: &str,
    around: Option<SurfSurroundings>,
) -> (r: SurfAction)
    ensures
        r@ == spec_field_surf(obtained_badges, mon_name@, player_name@, current_map@, around),
{
    let a = match around {
        None => {
            return SurfAction::Message(no_surfing_message(mon_name));
        },
        Some(a) => a,
    };
    match use_surf(
        obtained_badges,
        a.is_facing_water,
        a.already_surfing,
        a.forced_bike,
        current_map,
        a.seafoam_b4f_boulders_done,
        a.player_x,
        a.player_y,
    ) {
        SurfResult::NoBadge => SurfAction::Message(String::from_str(NEW_BADGE_REQUIRED_TEXT)),
        SurfResult::AlreadySurfing => {
            if a.can_get_off {
                SurfAction::StopSurfing
            } else {
                SurfAction::Message(String::from_str("There's no place\nto get off!"))
            }
        },
        SurfResult::NotFacingWater => SurfAction::Message(no_surfing_message(mon_name)),
        SurfResult::ForcedToRideBike => SurfAction::Message(String::from_str("Cycling is fun!\nForget SURFing!")),
        SurfResult::CurrentTooFast => SurfAction::Message(String::from_str("The current is\nmuch too fast!")),
        SurfResult::StartedSurfing => {
            if a.water_pair_blocked {
                SurfAction::Message(no_surfing_message(mon_name))
            } else {
                let mut s = String::from_str(player_name);
                s.append(" got on\n");
                s.append(mon_name);
                s.append("!");
                SurfAction::StartSurfing(s)
            }
        },
    }
}

// ── STRENGTH boulder push ──────────────────────────────────────────

/// Frames pushing stays locked after a boulder moved (the dust cloud).
pub const BOULDER_DUST_FRAMES: u8 = 16;

/// The push state kept between frames: whether the first push against the
/// boulder in front was made, and the frames left of the dust lockout.
#[derive(Debug, Clone, Copy, PartialEq, Eq, Structural)]
pub struct BoulderPushState {
    pub tried_push_boulder: bool,
    pub boulder_dust_frames: u8,
}

/// The sprite on the tile the player faces.
#[derive(Debug, Clone, Copy, PartialEq, Eq, Structural)]
pub struct SpriteInFront {
    pub npc_index: u8,
    pub is_boulder: bool,
    pub x: u16,
    pub y: u16,
    /// The tile beyond it cannot take a boulder (impassable, stairs, an
    /// elevation change, a sprite, or off the map).
    pub beyond_blocked: bool,
}

/// A boulder that moved this frame.
#[derive(Debug, Clone, Copy, PartialEq, Eq)]
pub struct BoulderMove {
    pub npc_index: u8,
    pub direction: Direction,
    pub new_x: u16,
    pub new_y: u16,
    /// The event flag of the floor hole it dropped into, if any: the
    /// boulder is hidden and the flag set.
    pub hole_flag: Option<&'static str>,
}

/// What one frame of the push check does besides updating the state.
#[derive(Debug, Clone, Copy, PartialEq, Eq)]
pub struct BoulderPushTick {
    /// The dust animation just ended: the cut sound plays once.
    pub play_cut_sound: bool,
    /// The boulder pushed this frame (the push sound plays and the dust
    /// cloud starts at the player).
    pub moved: Option<BoulderMove>,
}

impl BoulderPushState {
    pub fn new() -> (s: BoulderPushState)
        ensures
            s == (BoulderPushState { tried_push_boulder: false, boulder_dust_frames: 0 }),
    {
        BoulderPushState { tried_push_boulder: false, boulder_dust_frames: 0 }
    }
}

impl Default for BoulderPushState {
    fn default() -> (s: BoulderPushState)
        ensures
            s == (BoulderPushState { tried_push_boulder: false, boulder_dust_frames: 0 }),
    {
        BoulderPushState::new()
    }
}

/// One frame of the push check: the dust lockout counts down first; with
/// STRENGTH active and a boulder in front, the first push arms the second,
/// and the second, held the way the player faces with room beyond, moves
/// the boulder one tile (dropping it into a Seafoam hole when one is
/// there); anything but a boulder in front, a blocked boulder or a
/// completed push disarms.
pub open spec fn spec_boulder_tick(
    s: BoulderPushState,
    dust_finished: bool,
    strength_active: bool,
    facing: Direction,
    held: Option<Direction>,
    front: Option<SpriteInFront>,
    map: Seq<char>,
) -> (BoulderPushState, BoulderPushTick) {
    let idle = BoulderPushTick { play_cut_sound: dust_finished, moved: None };
    if s.boulder_dust_frames > 0 {
        (BoulderPushState { boulder_dust_frames: (s.boulder_dust_frames - 1) as u8, ..s }, idle)
    } else if !strength_active {
        (s, idle)
    } else {
        match front {
            None => (BoulderPushState { tried_push_boulder: false, ..s }, idle),
            Some(f) => if !f.is_boulder {
                (BoulderPushState { tried_push_boulder: false, ..s }, idle)
            } else if !s.tried_push_boulder {
                (BoulderPushState { tried_push_boulder: true, ..s }, idle)
            } else if held != Some(facing) {
                (s, idle)
            } else if f.beyond_blocked {
                (BoulderPushState { tried_push_boulder: false, ..s }, idle)
            } else {
                let nx = spec_moved(f.x, spec_delta(facing).0);
                let ny = spec_moved(f.y, spec_delta(facing).1);
                (
                    BoulderPushState { tried_push_boulder: false, boulder_dust_frames: BOULDER_DUST_FRAMES },
                    BoulderPushTick {
                        play_cut_sound: dust_finished,
                        moved: Some(
                            BoulderMove {
                                npc_index: f.npc_index,
                                direction: facing,
                                new_x: nx,
                                new_y: ny,
                                hole_flag: spec_find_hole(spec_seafoam_holes(map), nx, ny),
                            },
                        ),
                    },
                )
            },
        }
    }
}

impl BoulderPushState {
    /// One frame of the push check; `dust_finished` tells that the dust
    /// animation ended this frame, `held` is the direction held.
    pub fn tick(
        &mut self,
        dust_finished: bool,
        strength_active: bool,
        facing: Direction,
        held: Option<Direction>,
        front: Option<SpriteInFront>,
        map: &str,
    ) -> (t: BoulderPushTick)
        ensures
            (*final(self), t) == spec_boulder_tick(*old(self), dust_finished, strength_active, facing, held, front, map@),
    {
        let idle = BoulderPushTick { play_cut_sound: dust_finished, moved: None };
        if self.boulder_dust_frames > 0 {
            self.boulder_dust_frames = self.boulder_dust_frames - 1;
            return idle;
        }
        if !strength_active {
            return idle;
        }
        let f = match front {
            None => {
                self.tried_push_boulder = false;
                return idle;
            },
            Some(f) => f,
        };
        if !f.is_boulder {
            self.tried_push_boulder = false;
            return idle;
        }
        match try_push_boulder_with_direction(
            true,
            false,
            Some(f.npc_index),
            true,
            self.tried_push_boulder,
            facing,
            held,
            f.beyond_blocked,
        ) {
            BoulderPushResult::Pushed { direction } => {
                let (dx, dy) = direction_delta(direction);
                let nx = moved(f.x, dx as i32);
                let ny = moved(f.y, dy as i32);
                self.tried_push_boulder = false;
                self.boulder_dust_frames = BOULDER_DUST_FRAMES;
                BoulderPushTick {
                    play_cut_sound: dust_finished,
                    moved: Some(
                        BoulderMove {
                            npc_index: f.npc_index,
                            direction,
                            new_x: nx,
                            new_y: ny,
                            hole_flag: seafoam_hole_flag_for(map, nx, ny),
                        },
                    ),
                }
            },
            BoulderPushResult::NeedPushAgain => {
                self.tried_push_boulder = true;
                idle
            },
            BoulderPushResult::BoulderBlocked => {
                self.tried_push_boulder = false;
                idle
            },
            _ => idle,
        }
    }
}

/// A push takes two frames against the boulder: from a disarmed state,
/// two frames held the way the player faces, with room beyond, move the
/// boulder on the second frame and start the dust lockout.
pub proof fn lemma_boulder_needs_two_pushes(
    facing: Direction,
    front: SpriteInFront,
    map: Seq<char>,
)
    requires
        front.is_boulder,
        !front.beyond_blocked,
    ensures
        ({
            let s0 = BoulderPushState { tried_push_boulder: false, boulder_dust_frames: 0 };
            let (s1, t1) = spec_boulder_tick(s0, false, true, facing, Some(facing), Some(front), map);
            let (s2, t2) = spec_boulder_tick(s1, false, true, facing, Some(facing), Some(front), map);
            &&& t1.moved is None
            &&& s1.tried_push_boulder
            &&& t2.moved matches Some(m) && m.npc_index == front.npc_index && m.direction == facing
            &&& s2 == (BoulderPushState { tried_push_boulder: false, boulder_dust_frames: BOULDER_DUST_FRAMES })
        }),
{
}

/// While the dust lockout runs nothing can be pushed, whatever is held or
/// in front; it counts down one frame at a time.
pub proof fn lemma_dust_locks_pushing(
    s: BoulderPushState,
    dust_finished: bool,
    strength_active: bool,
    facing: Direction,
    held: Option<Direction>,
    front: Option<SpriteInFront>,
    map: Seq<char>,
)
    requires
        s.boulder_dust_frames > 0,
    ensures
        ({
            let (s2, t) = spec_boulder_tick(s, dust_finished, strength_active, facing, held, front, map);
            &&& t.moved is None
            &&& s2.boulder_dust_frames == s.boulder_dust_frames - 1
            &&& s2.tried_push_boulder == s.tried_push_boulder
        }),
{
}

// ── CUT, FLY, STRENGTH, FLASH, TELEPORT, SOFTBOILED ────────────────

/// What choosing a field move (other than SURF) does.
#[derive(Debug, Clone, PartialEq, Eq)]
pub enum FieldMoveAction {
    /// Show this text; nothing else changes.
    Message(String),
    /// The tree's block becomes `replacement_block`, the cut sound plays,
    /// and the text shows.
    CutTree { replacement_block: u8, text: String },
    /// The grass is cut (the map stays), the cut sound plays, and the text
    /// shows.
    CutGrass { text: String },
    /// Open the town map to pick where to fly.
    OpenFlyMap,
    /// STRENGTH is on: the mon's cry plays and the text shows.
    Strength { text: String },
    /// The area is lit; `white_flash` when a dark cave was lit (the screen
    /// whites out after the text).
    Flash { white_flash: bool, text: String },
    /// After the text, fly-warp to this point.
    Teleport { destination: FlyDestination, text: String },
    /// Reopen the party menu to pick who SOFTBOILED heals.
    ChooseSoftboiledTarget,
}

/// A mirror of [`FieldMoveAction`] over character sequences.
pub enum FieldMoveActionView {
    Message(Seq<char>),
    CutTree { replacement_block: u8, text: Seq<char> },
    CutGrass { text: Seq<char> },
    OpenFlyMap,
    Strength { text: Seq<char> },
    Flash { white_flash: bool, text: Seq<char> },
    Teleport { destination: FlyDestination, text: Seq<char> },
    ChooseSoftboiledTarget,
}

impl View for FieldMoveAction {
    type V = FieldMoveActionView;

    open spec fn view(&self) -> FieldMoveActionView {
        match self {
            FieldMoveAction::Message(s) => FieldMoveActionView::Message(s@),
            FieldMoveAction::CutTree { replacement_block, text } => FieldMoveActionView::CutTree {
                replacement_block: *replacement_block,
                text: text@,
            },
            FieldMoveAction::CutGrass { text } => FieldMoveActionView::CutGrass { text: text@ },
            FieldMoveAction::OpenFlyMap => FieldMoveActionView::OpenFlyMap,
            FieldMoveAction::Strength { text } => FieldMoveActionView::Strength { text: text@ },
            FieldMoveAction::Flash { white_flash, text } => FieldMoveActionView::Flash {
                white_flash: *white_flash,
                text: text@,
            },
            FieldMoveAction::Teleport { destination, text } => FieldMoveActionView::Teleport {
                destination: *destination,
                text: text@,
            },
            FieldMoveAction::ChooseSoftboiledTarget => FieldMoveActionView::ChooseSoftboiledTarget,
        }
    }
}

fn join2(a: &str, b: &str) -> (s: String)
    ensures
        s@ == a@ + b@,
{
    let mut s = String::from_str(a);
    s.append(b);
    s
}

fn join3(a: &str, b: &str, c: &str) -> (s: String)
    ensures
        s@ == a@ + b@ + c@,
{
    let mut s = String::from_str(a);
    s.append(b);
    s.append(c);
    s
}

/// CUT, given the tileset's name and, when known, the tile in front and
/// the block it belongs to.
pub open spec fn spec_field_cut(
    obtained_badges: u8,
    mon_name: Seq<char>,
    tileset_name: Seq<char>,
    front: Option<(u8, u8)>,
) -> FieldMoveActionView {
    match front {
        None => FieldMoveActionView::Message("There isn't\nanything to CUT!"@),
        Some((tile, block)) => match spec_use_cut(obtained_badges, tileset_name, tile, block) {
            CutResult::NoBadge => FieldMoveActionView::Message(NEW_BADGE_REQUIRED_TEXT@),
            CutResult::NothingToCut => FieldMoveActionView::Message("There isn't\nanything to CUT!"@),
            CutResult::CutTree { replacement_block } => FieldMoveActionView::CutTree {
                replacement_block,
                text: mon_name + " hacked\naway with CUT!"@,
            },
            CutResult::CutGrass => FieldMoveActionView::CutGrass { text: mon_name + " hacked\naway with CUT!"@ },
        },
    }
}

pub fn field_cut(obtained_badges: u8, mon_name: &str, tileset_name: &str, front: Option<(u8, u8)>) -> (r: FieldMoveAction)
    ensures
        r@ == spec_field_cut(obtained_badges, mon_name@, tileset_name@, front),
{
    let (tile, block) = match front {
        None => {
            return FieldMoveAction::Message(String::from_str("There isn't\nanything to CUT!"));
        },
        Some(p) => p,
    };
    match use_cut(obtained_badges, tileset_name, tile, block) {
        CutResult::NoBadge => FieldMoveAction::Message(String::from_str(NEW_BADGE_REQUIRED_TEXT)),
        CutResult::NothingToCut => FieldMoveAction::Message(String::from_str("There isn't\nanything to CUT!")),
        CutResult::CutTree { replacement_block } => FieldMoveAction::CutTree {
            replacement_block,
            text: join2(mon_name, " hacked\naway with CUT!"),
        },
        CutResult::CutGrass => FieldMoveAction::CutGrass { text: join2(mon_name, " hacked\naway with CUT!") },
    }
}

/// FLY from the party menu: the badge, then an outdoor map (`None` when no
/// map is loaded), then the town map opens.
pub fn field_fly(obtained_badges: u8, mon_name: &str, tileset_is_outside: Option<bool>) -> (r: FieldMoveAction)
    ensures
        r@ == match tileset_is_outside {
            None => FieldMoveActionView::Message(mon_name@ + " can't\nFLY here."@),
            Some(outside) => if !spec_has_badge(obtained_badges, BIT_THUNDERBADGE) {
                FieldMoveActionView::Message(NEW_BADGE_REQUIRED_TEXT@)
            } else if !outside {
                FieldMoveActionView::Message(mon_name@ + " can't\nFLY here."@)
            } else {
                FieldMoveActionView::OpenFlyMap
            },
        },
{
    let outside = match tileset_is_outside {
        None => {
            return FieldMoveAction::Message(join2(mon_name, " can't\nFLY here."));
        },
        Some(o) => o,
    };
    match use_fly(obtained_badges, outside, None) {
        FlyResult::NoBadge => FieldMoveAction::Message(String::from_str(NEW_BADGE_REQUIRED_TEXT)),
        FlyResult::CannotFlyHere => FieldMoveAction::Message(join2(mon_name, " can't\nFLY here.")),
        FlyResult::Cancelled | FlyResult::ChoseDestination { .. } => FieldMoveAction::OpenFlyMap,
    }
}

/// STRENGTH: with the badge it turns on (again, when on already) and both
/// texts print.
pub fn field_strength(obtained_badges: u8, mon_name: &str, strength_active: bool) -> (r: FieldMoveAction)
    ensures
        r@ == if !spec_has_badge(obtained_badges, BIT_RAINBOWBADGE) {
            FieldMoveActionView::Message(NEW_BADGE_REQUIRED_TEXT@)
        } else {
            FieldMoveActionView::Strength {
                text: mon_name@ + " used\nSTRENGTH.\n"@ + mon_name@ + " can\nmove boulders."@,
            }
        },
{
    match use_strength(obtained_badges, strength_active) {
        StrengthResult::NoBadge => FieldMoveAction::Message(String::from_str(NEW_BADGE_REQUIRED_TEXT)),
        StrengthResult::Activated | StrengthResult::AlreadyActive => {
            let mut text = join3(mon_name, " used\nSTRENGTH.\n", mon_name);
            text.append(" can\nmove boulders.");
            FieldMoveAction::Strength { text }
        },
    }
}

/// FLASH: with the badge the area lights (and a dark cave whites out).
pub fn field_flash(obtained_badges: u8, cave_is_dark: bool) -> (r: FieldMoveAction)
    ensures
        r@ == if !spec_has_badge(obtained_badges, BIT_BOULDERBADGE) {
            FieldMoveActionView::Message(NEW_BADGE_REQUIRED_TEXT@)
        } else {
            FieldMoveActionView::Flash { white_flash: cave_is_dark, text: "A blinding FLASH\nlights the area!"@ }
        },
{
    match use_flash(obtained_badges, cave_is_dark) {
        FlashResult::NoBadge => FieldMoveAction::Message(String::from_str(NEW_BADGE_REQUIRED_TEXT)),
        FlashResult::LitUpCave => FieldMoveAction::Flash {
            white_flash: true,
            text: String::from_str("A blinding FLASH\nlights the area!"),
        },
        FlashResult::AlreadyLit => FieldMoveAction::Flash {
            white_flash: false,
            text: String::from_str("A blinding FLASH\nlights the area!"),
        },
    }
}

/// TELEPORT: outside maps only; then a fly-warp to the last healing map's
/// fly point (Pallet Town's when it has none).
pub fn field_teleport(mon_name: &str, tileset_is_outside: bool, last_blackout_map: &str) -> (r: FieldMoveAction)
    ensures
        !tileset_is_outside ==> r@ == FieldMoveActionView::Message(mon_name@ + " can't\nuse TELEPORT\nnow."@),
        tileset_is_outside ==> (r@ matches FieldMoveActionView::Teleport { destination, text } && text
            == "Warp to the last\n#MON CENTER."@ && match spec_find_destination(
            spec_fly_destinations(),
            last_blackout_map@,
        ) {
            Some(f) => destination == f,
            None => Some(destination) == spec_find_destination(spec_fly_destinations(), "PalletTown"@),
        }),
{
    if !tileset_is_outside {
        return FieldMoveAction::Message(join2(mon_name, " can't\nuse TELEPORT\nnow."));
    }
    let dest = blackout_destination(last_blackout_map);
    FieldMoveAction::Teleport { destination: *dest, text: String::from_str("Warp to the last\n#MON CENTER.") }
}

/// SOFTBOILED: the user needs more than a fifth of its max HP.
pub fn field_softboiled(hp: u16, max_hp: u16) -> (r: FieldMoveAction)
    ensures
        r@ == if hp <= max_hp / 5 {
            FieldMoveActionView::Message("Not healthy\nenough."@)
        } else {
            FieldMoveActionView::ChooseSoftboiledTarget
        },
{
    if hp <= max_hp / 5 {
        FieldMoveAction::Message(String::from_str("Not healthy\nenough."))
    } else {
        FieldMoveAction::ChooseSoftboiledTarget
    }
}

} // verus!
