use pokered_core::direction::Direction;
use pokered_core::overworld::presentation::{
    npc_walk_anim_phase, npc_walk_pixel_offset, CutAnimKind, CutAnimState, EnterMapFlyState,
    FieldMoveRestoreState, FieldMoveStepState, LeaveMapFlyState, LedgeJumpState, CUT_ANIM_FRAMES,
    FIELD_MOVE_STEP_LAST_ACTIVE_FRAME, FLY_ANIM_COORDS, FLY_ANIM_FRAMES, FLY_ANIM_MOTION_FRAMES,
    FLY_ANIM_STEP_FRAMES, FLY_DEPARTURE_BIRD_START, FLY_DEPARTURE_FIRST_PATH_START,
    FLY_DEPARTURE_FRAMES, FLY_DEPARTURE_HOLD_START, FLY_DEPARTURE_SECOND_PATH_START,
    LEDGE_JUMP_LAST_ACTIVE_FRAME, NPC_WALK_FRAMES,
};
use pokered_core::overworld::presentation::{
    elevator_shake_sfx, enter_map_spin_sfx, ship_departure_sfx, teleport_spin_sfx, ElevatorShakeSfx,
    EnterMapSpinSfx, ShipDepartureSfx, TeleportSpinSfx,
};

#[test]
fn npc_walk_pixel_offset_covers_the_full_tile() {
    assert_eq!(npc_walk_pixel_offset(0), 0);
    assert_eq!(npc_walk_pixel_offset(NPC_WALK_FRAMES), 0);
    assert_eq!(npc_walk_pixel_offset(NPC_WALK_FRAMES - 1), 1);
    assert_eq!(npc_walk_pixel_offset(1), 15);
}

#[test]
fn npc_walk_anim_phase_cycles_evenly_over_16_frames() {
    assert_eq!(npc_walk_anim_phase(0), 0);
    for wc in 13..=16 {
        assert_eq!(npc_walk_anim_phase(wc), 0, "wc={wc}");
    }
    for wc in 9..=12 {
        assert_eq!(npc_walk_anim_phase(wc), 1, "wc={wc}");
    }
    for wc in 5..=8 {
        assert_eq!(npc_walk_anim_phase(wc), 2, "wc={wc}");
    }
    for wc in 1..=4 {
        assert_eq!(npc_walk_anim_phase(wc), 3, "wc={wc}");
    }
}

#[test]
fn ledge_jump_matches_original_camera_and_coordinate_cadence() {
    let mut jump = LedgeJumpState::new(10, 4, Direction::Down);
    let mut camera_steps = Vec::new();
    let mut positions = Vec::new();
    let mut previous_progress = 0;

    for _ in 0..=LEDGE_JUMP_LAST_ACTIVE_FRAME {
        let progress = jump.camera_progress_px();
        if progress != previous_progress {
            camera_steps.push(progress - previous_progress);
            previous_progress = progress;
        }
        if positions.last().copied() != Some(jump.player_position()) {
            positions.push(jump.player_position());
        }
        jump.tick();
    }

    assert_eq!(camera_steps, vec![2; 16]);
    assert_eq!(positions, vec![(10, 4), (10, 5), (10, 6)]);
    assert_eq!(jump.landing_position(), (10, 6));
    assert!(jump.tick(), "frame 39 restores control");
}

#[test]
fn ledge_jump_uses_original_vertical_arc() {
    let jump = |frame| {
        let mut state = LedgeJumpState::new(10, 4, Direction::Down);
        state.frame = frame;
        state.player_y_offset()
    };
    assert_eq!(jump(2), 0);
    assert_eq!(jump(3), -4);
    assert_eq!(jump(6), -6);
    assert_eq!(jump(14), -12);
    assert_eq!(jump(20), -11);
    assert_eq!(jump(32), 0);
}

#[test]
fn field_move_step_spreads_one_tile_over_eighteen_frames() {
    let mut step = FieldMoveStepState::new(5, 13, Direction::Down);
    let mut progress = Vec::new();
    let mut samples = Vec::new();
    let mut previous = 0;
    for _ in 0..=FIELD_MOVE_STEP_LAST_ACTIVE_FRAME {
        let current = step.camera_progress_px();
        samples.push((current, step.walk_counter(), step.player_position()));
        if current != previous {
            progress.push(current - previous);
            previous = current;
        }
        step.tick();
    }
    assert_eq!(progress, vec![2; 8]);
    assert_eq!(
        samples.iter().map(|sample| sample.0).collect::<Vec<_>>(),
        vec![0, 0, 0, 2, 2, 4, 4, 6, 6, 8, 8, 10, 10, 12, 12, 14, 14, 16]
    );
    assert_eq!(
        samples.iter().map(|sample| sample.1).collect::<Vec<_>>(),
        vec![0, 7, 7, 7, 6, 6, 5, 5, 4, 4, 3, 3, 2, 2, 1, 1, 0, 0]
    );
    assert_eq!(step.player_position(), (5, 14));
    assert!(step.tick(), "the eighteenth visible frame restores control");
}

#[test]
fn field_move_restore_matches_white_and_map_only_windows() {
    let mut restore = FieldMoveRestoreState::new();
    let mut white = 0;
    let mut map_only = 0;
    loop {
        if restore.force_white() {
            white += 1;
        } else {
            map_only += 1;
        }
        if restore.tick() {
            break;
        }
    }
    assert_eq!(white, 37);
    assert_eq!(map_only, 23);
}

#[test]
fn cut_tree_holds_then_separates_for_eighteen_frames() {
    let mut cut = CutAnimState::new(Direction::Down, CutAnimKind::Tree);
    let mut spreads = Vec::new();
    while !cut.tick() {
        spreads.push(cut.tree_spread_px());
    }
    assert_eq!(spreads.len(), CUT_ANIM_FRAMES as usize - 1);
    assert_eq!(&spreads[..8], &[0; 8]);
    assert_eq!(&spreads[8..], &[1, 2, 3, 4, 5, 6, 7, 8, 8]);
}

#[test]
fn fly_departure_matches_recorded_phase_boundaries() {
    let mut fly = LeaveMapFlyState::new();
    fly.frame = 7;
    assert!(!fly.force_white());
    fly.frame = 8;
    assert!(fly.force_white());
    fly.frame = 56;
    assert!(fly.force_white());
    fly.frame = 57;
    assert!(!fly.force_white());
    assert!(fly.player_visible());
    fly.frame = FLY_DEPARTURE_BIRD_START;
    assert_eq!(fly.bird_pose(), Some((0x3C, 0x40, 1)));
    assert!(!fly.player_visible());
    fly.frame = FLY_DEPARTURE_FIRST_PATH_START;
    assert_eq!(
        fly.bird_pose().map(|pose| (pose.0, pose.1)),
        Some((0x3C, 0x48))
    );
    fly.frame = FLY_DEPARTURE_HOLD_START;
    assert!(fly.bird_pose().is_none());
    fly.frame = FLY_DEPARTURE_SECOND_PATH_START;
    assert_eq!(
        fly.bird_pose().map(|pose| (pose.0, pose.1)),
        Some((0x1A, 0x90))
    );
    fly.frame = FLY_DEPARTURE_FRAMES - 1;
    assert_eq!(
        fly.bird_pose().map(|pose| (pose.0, pose.1)),
        Some((0xF0, 0x00))
    );
    assert!(fly.tick());
}

#[test]
fn fly_anim_matches_asm_frame_count_and_coords() {
    assert_eq!(FLY_ANIM_MOTION_FRAMES, 36);
    assert_eq!(FLY_ANIM_FRAMES, 47);
    let mut fly = EnterMapFlyState::new();
    assert!(!fly.is_done());
    assert_eq!(fly.bird_pos(), (0x05, 0x98));
    for _ in 0..FLY_ANIM_FRAMES {
        fly.tick();
    }
    assert!(fly.is_done());
    assert_eq!(fly.bird_pos(), (0x3C, 0x40));
}

#[test]
fn fly_anim_flap_toggles_per_step() {
    let mut fly = EnterMapFlyState::new();
    assert_eq!(fly.flap_frame(), 0);
    for _ in 0..FLY_ANIM_STEP_FRAMES {
        fly.tick();
    }
    assert_eq!(fly.flap_frame(), 1, "wing flips after each step");
    for _ in 0..FLY_ANIM_STEP_FRAMES {
        fly.tick();
    }
    assert_eq!(fly.flap_frame(), 0);
}

#[test]
fn fly_coord_list_matches_fly_animation_enter_screen_coords() {
    assert_eq!(
        FLY_ANIM_COORDS,
        [
            (0x05, 0x98),
            (0x0F, 0x90),
            (0x18, 0x88),
            (0x20, 0x80),
            (0x27, 0x78),
            (0x2D, 0x70),
            (0x32, 0x68),
            (0x36, 0x60),
            (0x39, 0x58),
            (0x3B, 0x50),
            (0x3C, 0x48),
            (0x3C, 0x40),
        ]
    );
}

#[test]
fn ledge_jump_camera_ends_two_tiles_on() {
    let mut jump = LedgeJumpState::new(3, 7, Direction::Left);
    for _ in 0..=LEDGE_JUMP_LAST_ACTIVE_FRAME {
        jump.tick();
    }
    assert_eq!(jump.landing_position(), (1, 7));
    assert_eq!(jump.camera_progress_px(), 32);
}

#[test]
fn presentation_cues_map_to_the_game_audio_ids() {
    assert_eq!(teleport_spin_sfx(TeleportSpinSfx::SpinLoop), "SFX_TELEPORT_EXIT_2");
    assert_eq!(teleport_spin_sfx(TeleportSpinSfx::Rise), "SFX_TELEPORT_EXIT_1");
    assert_eq!(enter_map_spin_sfx(EnterMapSpinSfx::Descend), "SFX_TELEPORT_ENTER_1");
    assert_eq!(enter_map_spin_sfx(EnterMapSpinSfx::Land), "SFX_TELEPORT_ENTER_2");
    assert_eq!(elevator_shake_sfx(ElevatorShakeSfx::Rattle), "SFX_COLLISION");
    assert_eq!(elevator_shake_sfx(ElevatorShakeSfx::Arrive), "SFX_SAFARI_ZONE_PA");
    assert_eq!(ship_departure_sfx(ShipDepartureSfx::Horn), "SFX_SS_ANNE_HORN");
}

#[test]
fn fly_arrival_after_n_ticks() {
    for n in 0..60u16 {
        let mut fly = EnterMapFlyState::new();
        for _ in 0..n {
            fly.tick();
        }
        let frame = n.min(FLY_ANIM_FRAMES);
        assert_eq!(fly.frame, frame);
        assert_eq!(fly.is_done(), n >= FLY_ANIM_FRAMES);
        assert_eq!(fly.bird_pos(), FLY_ANIM_COORDS[((frame / 3) as usize).min(11)]);
        assert_eq!(fly.flap_frame() as u16, (n.min(35) / 3) % 2);
        if n >= 33 {
            assert_eq!(fly.bird_pos(), (0x3C, 0x40));
        }
    }
}
