//! Overworld presentation timers: frame-counted state machines for the
//! ledge jump, the one-tile field-move step, the screen restore after a
//! party-menu field move, the CUT animation, and the FLY departure and
//! arrival, plus the walking-NPC pixel and animation phases.

use vstd::prelude::*;

use crate::direction::{direction_delta, spec_delta, Direction};

verus! {

/// The teleport spin's facing cycle: down, left, up, right.
pub const TELEPORT_SPIN_FACINGS: [Direction; 4] = [Direction::Down, Direction::Left, Direction::Up, Direction::Right];

/// Frames of the elevator shake (100 iterations of 2 frames).
pub const ELEVATOR_SHAKE_FRAMES: u16 = 200;

/// The animated water tile and flower tile.
pub const ANIM_WATER_TILE: u8 = 0x14;
pub const ANIM_FLOWER_TILE: u8 = 0x03;

/// The two cues of the teleport spin-out.
#[derive(Clone, Copy, Debug, PartialEq, Eq, Structural)]
pub enum TeleportSpinSfx {
    SpinLoop,
    Rise,
}

/// The two cues of the arrival spin-in.
#[derive(Clone, Copy, Debug, PartialEq, Eq, Structural)]
pub enum EnterMapSpinSfx {
    Descend,
    Land,
}

/// The two cues of the elevator shake.
#[derive(Clone, Copy, Debug, PartialEq, Eq, Structural)]
pub enum ElevatorShakeSfx {
    Rattle,
    Arrive,
}

/// The cue of the ship's departure.
#[derive(Clone, Copy, Debug, PartialEq, Eq, Structural)]
pub enum ShipDepartureSfx {
    Horn,
}

/// The audio id of a teleport spin-out cue.
pub fn teleport_spin_sfx(sfx: TeleportSpinSfx) -> (id: &'static str)
    ensures
        id@ == (match sfx {
            TeleportSpinSfx::SpinLoop => "SFX_TELEPORT_EXIT_2"@,
            TeleportSpinSfx::Rise => "SFX_TELEPORT_EXIT_1"@,
        }),
{
    match sfx {
        TeleportSpinSfx::SpinLoop => "SFX_TELEPORT_EXIT_2",
        TeleportSpinSfx::Rise => "SFX_TELEPORT_EXIT_1",
    }
}

/// The audio id of an arrival spin-in cue.
pub fn enter_map_spin_sfx(sfx: EnterMapSpinSfx) -> (id: &'static str)
    ensures
        id@ == (match sfx {
            EnterMapSpinSfx::Descend => "SFX_TELEPORT_ENTER_1"@,
            EnterMapSpinSfx::Land => "SFX_TELEPORT_ENTER_2"@,
        }),
{
    match sfx {
        EnterMapSpinSfx::Descend => "SFX_TELEPORT_ENTER_1",
        EnterMapSpinSfx::Land => "SFX_TELEPORT_ENTER_2",
    }
}

/// The audio id of an elevator shake cue.
pub fn elevator_shake_sfx(sfx: ElevatorShakeSfx) -> (id: &'static str)
    ensures
        id@ == (match sfx {
            ElevatorShakeSfx::Rattle => "SFX_COLLISION"@,
            ElevatorShakeSfx::Arrive => "SFX_SAFARI_ZONE_PA"@,
        }),
{
    match sfx {
        ElevatorShakeSfx::Rattle => "SFX_COLLISION",
        ElevatorShakeSfx::Arrive => "SFX_SAFARI_ZONE_PA",
    }
}

/// The audio id of the ship departure cue.
pub fn ship_departure_sfx(sfx: ShipDepartureSfx) -> (id: &'static str)
    ensures
        id@ == "SFX_SS_ANNE_HORN"@,
{
    match sfx {
        ShipDepartureSfx::Horn => "SFX_SS_ANNE_HORN",
    }
}

/// Frames a walking NPC takes per tile (half the player's pace).
pub const NPC_WALK_FRAMES: u8 = 16;

/// Pixel offset (0..=15) of a walking NPC along its facing: one pixel per
/// frame of its 16-frame step; 0 when idle (`walk_counter` counts the
/// frames left of the step).
pub open spec fn spec_npc_walk_pixel_offset(walk_counter: u8) -> int {
    if walk_counter == 0 || walk_counter >= NPC_WALK_FRAMES { 0 } else { NPC_WALK_FRAMES - walk_counter }
}

pub fn npc_walk_pixel_offset(walk_counter: u8) -> (r: i32)
    ensures
        r == spec_npc_walk_pixel_offset(walk_counter),
{
    if walk_counter == 0 {
        0
    } else {
        NPC_WALK_FRAMES.saturating_sub(walk_counter) as i32
    }
}

/// Walking-animation phase (0..=3) of a walking NPC: the 16-frame step in
/// 4-frame quarters of stand, step, stand, mirrored step; 0 when idle.
pub open spec fn spec_npc_walk_anim_phase(walk_counter: u8) -> u8 {
    if walk_counter == 0 {
        0
    } else if walk_counter > 12 {
        0
    } else if walk_counter > 8 {
        1
    } else if walk_counter > 4 {
        2
    } else {
        3
    }
}

pub fn npc_walk_anim_phase(walk_counter: u8) -> (r: u8)
    ensures
        r == spec_npc_walk_anim_phase(walk_counter),
{
    if walk_counter == 0 {
        0
    } else if walk_counter > NPC_WALK_FRAMES - 4 {
        0
    } else if walk_counter > NPC_WALK_FRAMES - 8 {
        1
    } else if walk_counter > NPC_WALK_FRAMES - 12 {
        2
    } else {
        3
    }
}

/// A coordinate moved by `d` (clamped at 0, taken to 16 bits).
pub open spec fn spec_moved(origin: u16, d: int) -> u16 {
    (if origin + d < 0 { 0 } else { origin + d }) as u16
}

pub(crate) fn moved(origin: u16, d: i32) -> (r: u16)
    requires
        -4 <= d <= 4,
    ensures
        r == spec_moved(origin, d as int),
{
    let v: i32 = origin as i32 + d;
    let m: i32 = if v < 0 { 0 } else { v };
    m as u16
}

/// Camera offset along a direction: `residual` pixels the way it points.
pub open spec fn spec_directed(direction: Direction, residual: int) -> (int, int) {
    match direction {
        Direction::Down => (0, residual),
        Direction::Up => (0, -residual),
        Direction::Left => (-residual, 0),
        Direction::Right => (residual, 0),
    }
}

fn directed(direction: Direction, residual: i32) -> (r: (i32, i32))
    requires
        -64 <= residual <= 64,
    ensures
        r.0 == spec_directed(direction, residual as int).0,
        r.1 == spec_directed(direction, residual as int).1,
{
    match direction {
        Direction::Down => (0, residual),
        Direction::Up => (0, -residual),
        Direction::Left => (-residual, 0),
        Direction::Right => (residual, 0),
    }
}

// ── Ledge jump ─────────────────────────────────────────────────────

/// The two simulated steps of a ledge jump: 40 visible frames from the
/// ledge flag to restored control (setup, two 16 px steps at 2 px every
/// other frame, then a three-frame landing delay).
#[derive(Debug, Clone, Copy, PartialEq, Eq, Structural)]
pub struct LedgeJumpState {
    pub origin_x: u16,
    pub origin_y: u16,
    pub direction: Direction,
    /// Visible frame index; 0 is the first frame with the ledge flag set.
    pub frame: u8,
}

pub const LEDGE_JUMP_LAST_ACTIVE_FRAME: u8 = 38;

/// Whole tiles committed by a frame of the jump: 0, then 1 at frame 18,
/// then 2 at frame 34.
pub open spec fn spec_ledge_committed(frame: u8) -> int {
    if frame >= 34 { 2 } else if frame >= 18 { 1 } else { 0 }
}

/// Camera travel from the jump origin: none during setup, then 2 px every
/// other frame up to 32 px.
pub open spec fn spec_ledge_progress(frame: u8) -> int {
    if frame < 5 {
        0
    } else {
        let p = 2 * (1 + (frame - 5) / 2);
        if p > 32 { 32 } else { p }
    }
}

/// The arc of the jump, relative to the standing baseline.
pub open spec fn spec_ledge_arc(i: int) -> int {
    if i == 0 { -4 } else if i == 1 { -6 } else if i == 2 { -8 } else if i == 3 { -10 } else if i == 4 { -11 } else if i
        == 5 { -12 } else if i == 6 { -12 } else if i == 7 { -12 } else if i == 8 { -11 } else if i == 9 { -10 } else if i
        == 10 { -9 } else if i == 11 { -8 } else if i == 12 { -6 } else if i == 13 { -4 } else { 0 }
}

/// The player's vertical offset: none for the three setup frames, the
/// arc's first entry held for three frames, then one entry per two frames,
/// ending on the last entry.
pub open spec fn spec_ledge_y_offset(frame: u8) -> int {
    if frame < 3 {
        0
    } else {
        let index: int = if frame <= 5 { 1 } else { 2 + (frame - 6) / 2 };
        let k = if index - 1 > 14 { 14 } else { index - 1 };
        spec_ledge_arc(k)
    }
}

/// The walk counter shown while the two simulated steps run.
pub open spec fn spec_ledge_walk_counter(frame: u8) -> u8 {
    if frame <= 2 {
        0
    } else if frame <= 5 {
        7
    } else if frame <= 17 {
        (6 - (frame - 6) / 2) as u8
    } else if frame <= 19 {
        0
    } else if frame <= 21 {
        7
    } else if frame <= 33 {
        (6 - (frame - 22) / 2) as u8
    } else {
        0
    }
}

impl LedgeJumpState {
    pub fn new(origin_x: u16, origin_y: u16, direction: Direction) -> (s: LedgeJumpState)
        ensures
            s == (LedgeJumpState { origin_x, origin_y, direction, frame: 0 }),
    {
        LedgeJumpState { origin_x, origin_y, direction, frame: 0 }
    }

    /// Advance one rendered frame; `true` once the landing delay has ended.
    pub fn tick(&mut self) -> (done: bool)
        ensures
            final(self).frame == (if old(self).frame == u8::MAX { u8::MAX } else { (old(self).frame + 1) as u8 }),
            final(self).origin_x == old(self).origin_x,
            final(self).origin_y == old(self).origin_y,
            final(self).direction == old(self).direction,
            done == (final(self).frame > LEDGE_JUMP_LAST_ACTIVE_FRAME),
    {
        self.frame = self.frame.saturating_add(1);
        self.frame > LEDGE_JUMP_LAST_ACTIVE_FRAME
    }

    /// Whole map tiles committed by this frame (0, then 1, then 2); each
    /// commit comes before its step's last 2 px camera move.
    pub fn committed_steps(&self) -> (n: i32)
        ensures
            n == spec_ledge_committed(self.frame),
    {
        if self.frame >= 34 {
            2
        } else if self.frame >= 18 {
            1
        } else {
            0
        }
    }

    pub fn player_position(&self) -> (p: (u16, u16))
        ensures
            p.0 == spec_moved(self.origin_x, spec_delta(self.direction).0 * spec_ledge_committed(self.frame)),
            p.1 == spec_moved(self.origin_y, spec_delta(self.direction).1 * spec_ledge_committed(self.frame)),
    {
        let (dx, dy) = direction_delta(self.direction);
        let steps = self.committed_steps();
        (moved(self.origin_x, dx as i32 * steps), moved(self.origin_y, dy as i32 * steps))
    }

    pub fn landing_position(&self) -> (p: (u16, u16))
        ensures
            p.0 == spec_moved(self.origin_x, spec_delta(self.direction).0 * 2),
            p.1 == spec_moved(self.origin_y, spec_delta(self.direction).1 * 2),
    {
        let (dx, dy) = direction_delta(self.direction);
        (moved(self.origin_x, dx as i32 * 2), moved(self.origin_y, dy as i32 * 2))
    }

    /// Total camera travel from the jump origin: motion starts after setup
    /// and advances 2 px every other frame, 16 steps in all.
    pub fn camera_progress_px(&self) -> (p: i32)
        ensures
            p == spec_ledge_progress(self.frame),
    {
        if self.frame < 5 {
            0
        } else {
            let p: i32 = 2 * (1 + (self.frame as i32 - 5) / 2);
            if p > 32 {
                32
            } else {
                p
            }
        }
    }

    /// Camera offset from the currently committed tile.
    pub fn camera_residual_px(&self) -> (r: (i32, i32))
        ensures
            r.0 == spec_directed(self.direction, spec_ledge_progress(self.frame) - spec_ledge_committed(self.frame) * 16).0,
            r.1 == spec_directed(self.direction, spec_ledge_progress(self.frame) - spec_ledge_committed(self.frame) * 16).1,
    {
        let residual = self.camera_progress_px() - self.committed_steps() * 16;
        directed(self.direction, residual)
    }

    /// The player's vertical offset along the jump arc.
    pub fn player_y_offset(&self) -> (y: i32)
        ensures
            y == spec_ledge_y_offset(self.frame),
    {
        let offsets: [i32; 15] = [-4, -6, -8, -10, -11, -12, -12, -12, -11, -10, -9, -8, -6, -4, 0];
        if self.frame < 3 {
            return 0;
        }
        let index: u8 = if self.frame <= 5 { 1 } else { 2 + (self.frame - 6) / 2 };
        let k: usize = if (index - 1) as usize > 14 { 14 } else { (index - 1) as usize };
        assert(offsets@[k as int] == spec_ledge_arc(k as int));
        offsets[k]
    }

    /// The walk counter exposed while the two simulated tile steps run.
    pub fn walk_counter(&self) -> (w: u8)
        ensures
            w == spec_ledge_walk_counter(self.frame),
    {
        let f = self.frame;
        if f <= 2 {
            0
        } else if f <= 5 {
            7
        } else if f <= 17 {
            6 - (f - 6) / 2
        } else if f <= 19 {
            0
        } else if f <= 21 {
            7
        } else if f <= 33 {
            6 - (f - 22) / 2
        } else {
            0
        }
    }
}

/// The ledge-jump camera never moves back and moves at most 2 px a frame,
/// 32 px in all once the jump is over.
pub proof fn lemma_ledge_camera_steady(frame: u8)
    requires
        frame < u8::MAX,
    ensures
        0 <= spec_ledge_progress((frame + 1) as u8) - spec_ledge_progress(frame) <= 2,
        frame >= 35 ==> spec_ledge_progress(frame) == 32,
{
}

// ── Field-move step ────────────────────────────────────────────────

/// The one-tile scripted step of a SURF mount or dismount: eight 2 px
/// camera moves on every other frame, then the frame that ends the move.
#[derive(Debug, Clone, Copy, PartialEq, Eq, Structural)]
pub struct FieldMoveStepState {
    pub origin_x: u16,
    pub origin_y: u16,
    pub direction: Direction,
    pub frame: u8,
}

pub const FIELD_MOVE_STEP_LAST_ACTIVE_FRAME: u8 = 17;

pub open spec fn spec_step_progress(frame: u8) -> int {
    if frame < 3 {
        0
    } else {
        let p = 2 * (1 + (frame - 3) / 2);
        if p > 16 { 16 } else { p }
    }
}

pub open spec fn spec_step_walk_counter(frame: u8) -> u8 {
    if frame == 0 {
        0
    } else if frame <= 3 {
        7
    } else if frame <= 15 {
        (6 - (frame - 4) / 2) as u8
    } else {
        0
    }
}

impl FieldMoveStepState {
    pub fn new(origin_x: u16, origin_y: u16, direction: Direction) -> (s: FieldMoveStepState)
        ensures
            s == (FieldMoveStepState { origin_x, origin_y, direction, frame: 0 }),
    {
        FieldMoveStepState { origin_x, origin_y, direction, frame: 0 }
    }

    /// Advance one frame; `true` once control returns.
    pub fn tick(&mut self) -> (done: bool)
        ensures
            final(self).frame == (if old(self).frame == u8::MAX { u8::MAX } else { (old(self).frame + 1) as u8 }),
            final(self).origin_x == old(self).origin_x,
            final(self).origin_y == old(self).origin_y,
            final(self).direction == old(self).direction,
            done == (final(self).frame > FIELD_MOVE_STEP_LAST_ACTIVE_FRAME),
    {
        self.frame = self.frame.saturating_add(1);
        self.frame > FIELD_MOVE_STEP_LAST_ACTIVE_FRAME
    }

    /// The tile is committed from frame 16.
    pub fn committed(&self) -> (c: bool)
        ensures
            c == (self.frame >= 16),
    {
        self.frame >= 16
    }

    pub fn player_position(&self) -> (p: (u16, u16))
        ensures
            self.frame < 16 ==> p == (self.origin_x, self.origin_y),
            self.frame >= 16 ==> p.0 == spec_moved(self.origin_x, spec_delta(self.direction).0) && p.1 == spec_moved(
                self.origin_y,
                spec_delta(self.direction).1,
            ),
    {
        if !self.committed() {
            return (self.origin_x, self.origin_y);
        }
        self.landing_position()
    }

    pub fn landing_position(&self) -> (p: (u16, u16))
        ensures
            p.0 == spec_moved(self.origin_x, spec_delta(self.direction).0),
            p.1 == spec_moved(self.origin_y, spec_delta(self.direction).1),
    {
        let (dx, dy) = direction_delta(self.direction);
        (moved(self.origin_x, dx as i32), moved(self.origin_y, dy as i32))
    }

    pub fn camera_progress_px(&self) -> (p: i32)
        ensures
            p == spec_step_progress(self.frame),
    {
        if self.frame < 3 {
            0
        } else {
            let p: i32 = 2 * (1 + (self.frame as i32 - 3) / 2);
            if p > 16 {
                16
            } else {
                p
            }
        }
    }

    pub fn camera_residual_px(&self) -> (r: (i32, i32))
        ensures
            r.0 == spec_directed(self.direction, spec_step_progress(self.frame) - if self.frame >= 16 { 16int } else { 0int }).0,
            r.1 == spec_directed(self.direction, spec_step_progress(self.frame) - if self.frame >= 16 { 16int } else { 0int }).1,
    {
        let residual = self.camera_progress_px() - if self.committed() {
            16
        } else {
            0
        };
        directed(self.direction, residual)
    }

    pub fn walk_counter(&self) -> (w: u8)
        ensures
            w == spec_step_walk_counter(self.frame),
    {
        let f = self.frame;
        if f == 0 {
            0
        } else if f <= 3 {
            7
        } else if f <= 15 {
            6 - (f - 4) / 2
        } else {
            0
        }
    }
}

// ── Screen restore after a party-menu field move ───────────────────

/// The blocking screen restore between a successful party-menu SURF and
/// its step: 60 frames, the first 37 all white, the rest map only.
#[derive(Debug, Clone, Copy, PartialEq, Eq, Structural)]
pub struct FieldMoveRestoreState {
    pub frame: u8,
}

pub const FIELD_MOVE_RESTORE_FRAMES: u8 = 60;
pub const FIELD_MOVE_RESTORE_WHITE_FRAMES: u8 = 37;

impl FieldMoveRestoreState {
    pub fn new() -> (s: FieldMoveRestoreState)
        ensures
            s.frame == 0,
    {
        FieldMoveRestoreState { frame: 0 }
    }

    /// Advance one frame; `true` once the restore is over.
    pub fn tick(&mut self) -> (done: bool)
        ensures
            final(self).frame == (if old(self).frame == u8::MAX { u8::MAX } else { (old(self).frame + 1) as u8 }),
            done == (final(self).frame >= FIELD_MOVE_RESTORE_FRAMES),
    {
        self.frame = self.frame.saturating_add(1);
        self.frame >= FIELD_MOVE_RESTORE_FRAMES
    }

    /// The screen is all white.
    pub fn force_white(&self) -> (w: bool)
        ensures
            w == (self.frame < FIELD_MOVE_RESTORE_WHITE_FRAMES),
    {
        self.frame < FIELD_MOVE_RESTORE_WHITE_FRAMES
    }
}

// ── CUT animation ──────────────────────────────────────────────────

#[derive(Debug, Clone, Copy, PartialEq, Eq, Structural)]
pub enum CutAnimKind {
    Tree,
    Grass,
}

/// CUT's four-sprite block: a cut tree holds its 2×2 shape during setup,
/// then its rows pull apart over eight updates; 18 frames in all.
#[derive(Debug, Clone, Copy, PartialEq, Eq, Structural)]
pub struct CutAnimState {
    pub facing: Direction,
    pub kind: CutAnimKind,
    pub frame: u8,
}

pub const CUT_ANIM_FRAMES: u8 = 18;

/// Horizontal separation of each row of a cut tree: 0 for 8 frames, then
/// one pixel a frame up to 8.
pub open spec fn spec_tree_spread(frame: u8) -> int {
    if frame < 8 {
        0
    } else if frame - 8 > 8 {
        8
    } else {
        frame - 8
    }
}

impl CutAnimState {
    pub fn new(facing: Direction, kind: CutAnimKind) -> (s: CutAnimState)
        ensures
            s == (CutAnimState { facing, kind, frame: 0 }),
    {
        CutAnimState { facing, kind, frame: 0 }
    }

    /// Advance one frame; `true` once the animation is over.
    pub fn tick(&mut self) -> (done: bool)
        ensures
            final(self).frame == (if old(self).frame == u8::MAX { u8::MAX } else { (old(self).frame + 1) as u8 }),
            final(self).facing == old(self).facing,
            final(self).kind == old(self).kind,
            done == (final(self).frame >= CUT_ANIM_FRAMES),
    {
        self.frame = self.frame.saturating_add(1);
        self.frame >= CUT_ANIM_FRAMES
    }

    pub fn tree_spread_px(&self) -> (s: i32)
        ensures
            s == spec_tree_spread(self.frame),
    {
        let d = self.frame.saturating_sub(8);
        (if d > 8 {
            8
        } else {
            d
        }) as i32
    }

    /// The palette flips on odd spreads.
    pub fn palette_flipped(&self) -> (f: bool)
        ensures
            f == (spec_tree_spread(self.frame) % 2 == 1),
    {
        let s = self.tree_spread_px();
        assert(s & 1 == s % 2) by (bit_vector)
            requires
                0 <= s <= 8,
        ;
        s & 1 != 0
    }

    /// Screen offset from the player's sprite to the block (screen
    /// hardware bias included).
    pub fn base_offset(&self) -> (o: (i32, i32))
        ensures
            o == match self.facing {
                Direction::Down => (0i32, 20i32),
                Direction::Up => (0i32, -12i32),
                Direction::Left => (-16i32, 4i32),
                Direction::Right => (16i32, 4i32),
            },
    {
        match self.facing {
            Direction::Down => (0, 20),
            Direction::Up => (0, -12),
            Direction::Left => (-16, 4),
            Direction::Right => (16, 4),
        }
    }
}

// ── FLY departure and arrival ──────────────────────────────────────

/// The FLY departure, from the trigger to the fade: the first frames stay
/// on the town map; the bird then flaps in place, crosses right, waits off
/// screen, and leaves through the top left before the white fade.
#[derive(Debug, Clone, PartialEq, Eq, Structural)]
pub struct LeaveMapFlyState {
    pub frame: u16,
}

pub const FLY_DEPARTURE_FRAMES: u16 = 205;
pub const FLY_DEPARTURE_TOWN_MAP_FRAMES: u8 = 8;
pub const FLY_DEPARTURE_WHITE_START: u16 = 8;
pub const FLY_DEPARTURE_WHITE_END: u16 = 57;
pub const FLY_DEPARTURE_BIRD_START: u16 = 72;
pub const FLY_DEPARTURE_FIRST_PATH_START: u16 = 98;
pub const FLY_DEPARTURE_HOLD_START: u16 = 132;
pub const FLY_DEPARTURE_SECOND_PATH_START: u16 = 174;
/// Countdown frames of the departure's final fade to white.
pub const FLY_DEPARTURE_FADE_FRAMES: u8 = 22;
/// Delay from FLY's map commit to the arrival bird's first frame, besides
/// the fade in.
pub const FLY_ARRIVAL_POST_FADE_DELAY_FRAMES: u8 = 45;

pub const FLY_DEPARTURE_COORDS_1: [(u16, u16); 12] = [
    (0x3C, 0x48),
    (0x3C, 0x50),
    (0x3B, 0x58),
    (0x3A, 0x60),
    (0x39, 0x68),
    (0x37, 0x70),
    (0x37, 0x78),
    (0x33, 0x80),
    (0x30, 0x88),
    (0x2D, 0x90),
    (0x2A, 0x98),
    (0x27, 0xA0),
];

pub const FLY_DEPARTURE_COORDS_2: [(u16, u16); 11] = [
    (0x1A, 0x90),
    (0x19, 0x80),
    (0x17, 0x70),
    (0x15, 0x60),
    (0x12, 0x50),
    (0x0F, 0x40),
    (0x0C, 0x30),
    (0x09, 0x20),
    (0x05, 0x10),
    (0x00, 0x00),
    (0xF0, 0x00),
];

/// The bird's (y, x) and wing flap at a frame of the departure, if shown:
/// in place from the bird's start, along the first path (a point per 3
/// frames), hidden during the hold, along the second path, hidden after.
pub open spec fn spec_bird_pose(frame: u16) -> Option<(u16, u16, u8)> {
    let flap = ((((frame - FLY_DEPARTURE_BIRD_START) / 3) + 1) % 2) as u8;
    if FLY_DEPARTURE_BIRD_START <= frame < FLY_DEPARTURE_FIRST_PATH_START {
        Some((0x3Cu16, 0x40u16, flap))
    } else if FLY_DEPARTURE_FIRST_PATH_START <= frame < FLY_DEPARTURE_HOLD_START {
        let i = (frame - FLY_DEPARTURE_FIRST_PATH_START) / 3;
        let k = if i > 11 { 11 } else { i };
        Some((FLY_DEPARTURE_COORDS_1@[k].0, FLY_DEPARTURE_COORDS_1@[k].1, flap))
    } else if FLY_DEPARTURE_SECOND_PATH_START <= frame < FLY_DEPARTURE_FRAMES {
        let i = (frame - FLY_DEPARTURE_SECOND_PATH_START) / 3;
        let k = if i > 10 { 10 } else { i };
        Some((FLY_DEPARTURE_COORDS_2@[k].0, FLY_DEPARTURE_COORDS_2@[k].1, flap))
    } else {
        None
    }
}

impl LeaveMapFlyState {
    pub fn new() -> (s: LeaveMapFlyState)
        ensures
            s.frame == 0,
    {
        LeaveMapFlyState { frame: 0 }
    }

    /// Advance one frame; `true` once the departure is over.
    pub fn tick(&mut self) -> (done: bool)
        ensures
            final(self).frame == (if old(self).frame == u16::MAX { u16::MAX } else { (old(self).frame + 1) as u16 }),
            done == (final(self).frame >= FLY_DEPARTURE_FRAMES),
    {
        self.frame = self.frame.saturating_add(1);
        self.frame >= FLY_DEPARTURE_FRAMES
    }

    /// The screen is white between the town map and the overworld.
    pub fn force_white(&self) -> (w: bool)
        ensures
            w == (FLY_DEPARTURE_WHITE_START <= self.frame < FLY_DEPARTURE_WHITE_END),
    {
        FLY_DEPARTURE_WHITE_START <= self.frame && self.frame < FLY_DEPARTURE_WHITE_END
    }

    /// The player shows until the bird replaces it.
    pub fn player_visible(&self) -> (v: bool)
        ensures
            v == (self.frame < FLY_DEPARTURE_BIRD_START),
    {
        self.frame < FLY_DEPARTURE_BIRD_START
    }

    pub fn bird_pose(&self) -> (p: Option<(u16, u16, u8)>)
        ensures
            p == spec_bird_pose(self.frame),
    {
        let f = self.frame;
        let (y, x) = if FLY_DEPARTURE_BIRD_START <= f && f < FLY_DEPARTURE_FIRST_PATH_START {
            (0x3Cu16, 0x40u16)
        } else if FLY_DEPARTURE_FIRST_PATH_START <= f && f < FLY_DEPARTURE_HOLD_START {
            let i = ((f - FLY_DEPARTURE_FIRST_PATH_START) / 3) as usize;
            let k = if i > 11 { 11 } else { i };
            FLY_DEPARTURE_COORDS_1[k]
        } else if FLY_DEPARTURE_SECOND_PATH_START <= f && f < FLY_DEPARTURE_FRAMES {
            let i = ((f - FLY_DEPARTURE_SECOND_PATH_START) / 3) as usize;
            let k = if i > 10 { 10 } else { i };
            FLY_DEPARTURE_COORDS_2[k]
        } else {
            return None;
        };
        let flap = (((f - FLY_DEPARTURE_BIRD_START) / 3 + 1) % 2) as u8;
        Some((y, x, flap))
    }
}

impl Default for LeaveMapFlyState {
    fn default() -> (s: LeaveMapFlyState)
        ensures
            s.frame == 0,
    {
        LeaveMapFlyState::new()
    }
}

/// The FLY arrival: the bird flies in from the top right along its
/// entry path, flapping every step (12 steps of 3 frames), then stays at
/// the landing point for the 11 frames the player's graphics take.
#[derive(Debug, Clone, PartialEq, Eq, Structural)]
pub struct EnterMapFlyState {
    /// Elapsed frames; each path step lasts `FLY_ANIM_STEP_FRAMES`.
    pub frame: u16,
}

pub const FLY_ANIM_STEPS: u16 = 12;
pub const FLY_ANIM_STEP_FRAMES: u16 = 3;
pub const FLY_ANIM_MOTION_FRAMES: u16 = FLY_ANIM_STEPS * FLY_ANIM_STEP_FRAMES;
pub const FLY_ANIM_RESTORE_FRAMES: u16 = 11;
pub const FLY_ANIM_FRAMES: u16 = FLY_ANIM_MOTION_FRAMES + FLY_ANIM_RESTORE_FRAMES;

/// The arrival path as (y, x) screen pixels: off the top right down to the
/// landing spot (0x3C, 0x40).
pub const FLY_ANIM_COORDS: [(u16, u16); 12] = [
    (0x05, 0x98),
    (0x0F, 0x90),
    (0x18, 0x88),
    (0x20, 0x80),
    (0x27, 0x78),
    (0x2D, 0x70),
    (0x32, 0x68),
    (0x36, 0x60),
    (0x39, 0x58),
    (0x3B, 0x50),
    (0x3C, 0x48),
    (0x3C, 0x40),
];

impl EnterMapFlyState {
    pub fn new() -> (s: EnterMapFlyState)
        ensures
            s.frame == 0,
    {
        EnterMapFlyState { frame: 0 }
    }

    /// Advance one frame, stopping at the end.
    pub fn tick(&mut self)
        ensures
            final(self).frame == (if old(self).frame < FLY_ANIM_FRAMES { (old(self).frame + 1) as u16 } else { old(self).frame }),
    {
        if self.frame < FLY_ANIM_FRAMES {
            self.frame = self.frame + 1;
        }
    }

    pub fn is_done(&self) -> (d: bool)
        ensures
            d == (self.frame >= FLY_ANIM_FRAMES),
    {
        self.frame >= FLY_ANIM_FRAMES
    }

    /// The bird's (y, x) screen position: the path point of the current
    /// step, the landing point once the path is done.
    pub fn bird_pos(&self) -> (p: (u16, u16))
        ensures
            p == FLY_ANIM_COORDS@[if self.frame / 3 > 11 { 11int } else { (self.frame / 3) as int }],
            p == spec_fly_bird_pos(self.frame),
    {
        let step = (self.frame / FLY_ANIM_STEP_FRAMES) as usize;
        let k = if step > 11 { 11 } else { step };
        FLY_ANIM_COORDS[k]
    }

    /// The wing flips once per step.
    pub fn flap_frame(&self) -> (f: u8)
        ensures
            f == ((if self.frame > 35 { 35 } else { self.frame }) / 3) % 2,
            f == spec_fly_flap(self.frame),
    {
        let motion = if self.frame > FLY_ANIM_MOTION_FRAMES - 1 {
            FLY_ANIM_MOTION_FRAMES - 1
        } else {
            self.frame
        };
        ((motion / FLY_ANIM_STEP_FRAMES) % 2) as u8
    }
}

impl Default for EnterMapFlyState {
    fn default() -> (s: EnterMapFlyState)
        ensures
            s.frame == 0,
    {
        EnterMapFlyState::new()
    }
}

/// The arrival's frame counter after `n` ticks from `new`.
pub open spec fn spec_fly_frame_after(n: nat) -> u16
    decreases n,
{
    if n == 0 {
        0
    } else {
        let f = spec_fly_frame_after((n - 1) as nat);
        if f < FLY_ANIM_FRAMES { (f + 1) as u16 } else { f }
    }
}

/// The bird's path point for a frame counter.
pub open spec fn spec_fly_bird_pos(frame: u16) -> (u16, u16) {
    FLY_ANIM_COORDS@[if frame / 3 > 11 { 11int } else { (frame / 3) as int }]
}

/// The wing phase for a frame counter.
pub open spec fn spec_fly_flap(frame: u16) -> int {
    (((if frame > 35 { 35 } else { frame }) / 3) % 2) as int
}

/// After `n` ticks from `new`, the arrival has run `min(n, 47)` frames: it
/// is done exactly from the 47th tick, the bird stands on path point
/// `min(n / 3, 11)` (the first point at the start, the landing point from
/// the 33rd tick on), and the wing phase is `(min(n, 35) / 3) % 2`.
pub proof fn lemma_fly_arrival_after_ticks(n: nat)
    ensures
        spec_fly_frame_after(n) == if n < FLY_ANIM_FRAMES { n } else { FLY_ANIM_FRAMES as nat },
        (spec_fly_frame_after(n) >= FLY_ANIM_FRAMES) == (n >= FLY_ANIM_FRAMES),
        spec_fly_bird_pos(spec_fly_frame_after(n)) == FLY_ANIM_COORDS@[if n / 3 > 11 { 11int } else { (n / 3) as int }],
        n == 0 ==> spec_fly_bird_pos(spec_fly_frame_after(n)) == (0x05u16, 0x98u16),
        n >= 33 ==> spec_fly_bird_pos(spec_fly_frame_after(n)) == (0x3Cu16, 0x40u16),
        spec_fly_flap(spec_fly_frame_after(n)) == ((if n > 35 { 35 } else { n }) / 3) % 2,
    decreases n,
{
    if n > 0 {
        lemma_fly_arrival_after_ticks((n - 1) as nat);
    }
}

/// The arrival always ends at the landing spot: once it is done the bird
/// is at (0x3C, 0x40).
pub proof fn lemma_fly_arrival_lands(frame: u16)
    requires
        frame >= FLY_ANIM_FRAMES,
    ensures
        FLY_ANIM_COORDS@[if frame / 3 > 11 { 11int } else { (frame / 3) as int }] == (0x3Cu16, 0x40u16),
{
}

} // verus!
