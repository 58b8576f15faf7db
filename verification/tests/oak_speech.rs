use pokered_core::naming_screen::{NamingInput, NAMING_FLASH_FRAMES};
use pokered_core::oak_speech::{
    entrance_slide_offset, slide_pic_x, OakSpeechInput, OakSpeechPhase, OakSpeechResult,
    OakSpeechState, PicSlideDirection, PicSlideSubject, INTRO_FADE_IN_FRAMES,
    INTRO_SLIDE_IN_FRAMES, SHRINK_TOTAL_FRAMES, SLIDE_PIC_LEFT_FRAMES, SLIDE_PIC_RIGHT_FRAMES,
};

fn press_a() -> OakSpeechInput {
    OakSpeechInput {
        a: true,
        ..OakSpeechInput::none()
    }
}

fn reach_phase(speech: &mut OakSpeechState, pred: fn(&OakSpeechPhase) -> bool) {
    for _ in 0..10_000 {
        if pred(&speech.phase) {
            return;
        }
        let input = if speech.is_waiting_for_input() {
            press_a()
        } else {
            OakSpeechInput::none()
        };
        speech.update_frame(input);
    }
    panic!("did not reach target phase");
}

#[test]
fn greeting_entrance_gates_typewriter() {
    let mut speech = OakSpeechState::new();
    for i in 0..INTRO_FADE_IN_FRAMES {
        let input = if i == 30 {
            press_a()
        } else {
            OakSpeechInput::none()
        };
        speech.update_frame(input);
        assert_eq!(speech.current_char_index(), 0);
        assert!(matches!(speech.phase, OakSpeechPhase::Greeting { .. }));
    }
    for _ in 0..3 {
        speech.update_frame(OakSpeechInput::none());
    }
    assert!(speech.current_char_index() > 0);
}

#[test]
fn slide_in_entrance_gates_nidorino_text() {
    let mut speech = OakSpeechState::new();
    reach_phase(&mut speech, |p| matches!(p, OakSpeechPhase::ShowNidorino { .. }));
    for _ in 0..INTRO_SLIDE_IN_FRAMES {
        speech.update_frame(OakSpeechInput::none());
        assert!(matches!(speech.phase, OakSpeechPhase::ShowNidorino { .. }));
        assert_eq!(speech.current_char_index(), 0);
    }
    for _ in 0..3 {
        speech.update_frame(OakSpeechInput::none());
    }
    assert!(speech.current_char_index() > 0);
}

#[test]
fn slide_right_runs_before_name_choice() {
    let mut speech = OakSpeechState::new();
    reach_phase(&mut speech, |p| matches!(p, OakSpeechPhase::IntroducePlayer { .. }));
    reach_phase(&mut speech, |p| matches!(p, OakSpeechPhase::SlidePic { .. }));
    match speech.phase {
        OakSpeechPhase::SlidePic {
            direction,
            subject,
            frame,
        } => {
            assert_eq!(direction, PicSlideDirection::Right);
            assert_eq!(subject, PicSlideSubject::Player);
            assert_eq!(frame, 0);
        }
        _ => unreachable!(),
    }
    for _ in 0..SLIDE_PIC_RIGHT_FRAMES {
        assert!(matches!(speech.phase, OakSpeechPhase::SlidePic { .. }));
        speech.update_frame(OakSpeechInput::none());
    }
    assert!(matches!(
        speech.phase,
        OakSpeechPhase::PlayerNameChoice { .. }
    ));
}

#[test]
fn slide_left_runs_after_default_name() {
    let mut speech = OakSpeechState::new();
    speech.phase = OakSpeechPhase::PlayerNameChoice { cursor: 0 };
    let result = speech.update_frame(press_a());
    assert!(matches!(result, OakSpeechResult::PlayerNameSet(ref n) if n == "RED"));
    assert!(matches!(
        speech.phase,
        OakSpeechPhase::SlidePic {
            direction: PicSlideDirection::Left,
            subject: PicSlideSubject::Player,
            ..
        }
    ));
    for _ in 0..SLIDE_PIC_LEFT_FRAMES {
        assert!(matches!(speech.phase, OakSpeechPhase::SlidePic { .. }));
        speech.update_frame(OakSpeechInput::none());
    }
    assert!(matches!(
        speech.phase,
        OakSpeechPhase::IntroduceRival { .. }
    ));
}

#[test]
fn rival_slide_right_runs_before_rival_name_choice() {
    let mut speech = OakSpeechState::new();
    speech.phase = OakSpeechPhase::SlidePic {
        direction: PicSlideDirection::Right,
        subject: PicSlideSubject::Rival,
        frame: 0,
    };
    for _ in 0..SLIDE_PIC_RIGHT_FRAMES {
        speech.update_frame(OakSpeechInput::none());
    }
    assert!(matches!(
        speech.phase,
        OakSpeechPhase::RivalNameChoice { .. }
    ));
}

#[test]
fn rival_slide_left_runs_after_default_name() {
    let mut speech = OakSpeechState::new();
    speech.phase = OakSpeechPhase::RivalNameChoice { cursor: 1 };
    let result = speech.update_frame(press_a());
    assert!(matches!(result, OakSpeechResult::RivalNameSet(ref n) if n == "GARY"));
    for _ in 0..SLIDE_PIC_LEFT_FRAMES {
        assert!(matches!(speech.phase, OakSpeechPhase::SlidePic { .. }));
        speech.update_frame(OakSpeechInput::none());
    }
    assert!(matches!(speech.phase, OakSpeechPhase::FinalSpeech { .. }));
}

#[test]
fn slide_pic_x_matches_asm() {
    assert_eq!(slide_pic_x(PicSlideDirection::Right, 0), 56);
    assert_eq!(slide_pic_x(PicSlideDirection::Right, 2), 56);
    assert_eq!(slide_pic_x(PicSlideDirection::Right, 3), 64);
    assert_eq!(slide_pic_x(PicSlideDirection::Right, 17), 96);
    assert_eq!(slide_pic_x(PicSlideDirection::Left, 0), 96);
    assert_eq!(slide_pic_x(PicSlideDirection::Left, 12), 96);
    assert_eq!(slide_pic_x(PicSlideDirection::Left, 13), 88);
    assert_eq!(slide_pic_x(PicSlideDirection::Left, 30), 48);
}

#[test]
fn entrance_slide_offset_matches_move_pic_left() {
    assert_eq!(entrance_slide_offset(0), 112);
    assert_eq!(entrance_slide_offset(7), 56);
    assert_eq!(entrance_slide_offset(14), 0);
    assert_eq!(entrance_slide_offset(15), 0);
}

#[test]
fn shrink_player_beat_timing() {
    let mut speech = OakSpeechState::new();
    speech.phase = OakSpeechPhase::ShrinkPlayer { frame: 0 };
    let mut frames = 0;
    while matches!(speech.phase, OakSpeechPhase::ShrinkPlayer { .. }) {
        frames += 1;
        speech.update_frame(OakSpeechInput::none());
    }
    assert_eq!(frames, SHRINK_TOTAL_FRAMES);
    assert!(matches!(speech.phase, OakSpeechPhase::Done));
}

#[test]
fn shrink_player_input_does_not_skip() {
    let mut speech = OakSpeechState::new();
    speech.phase = OakSpeechPhase::ShrinkPlayer { frame: 0 };
    for _ in 0..10 {
        speech.update_frame(press_a());
    }
    assert!(matches!(
        speech.phase,
        OakSpeechPhase::ShrinkPlayer { frame: 10 }
    ));
}

#[test]
fn naming_screen_open_flashes_white() {
    let mut speech = OakSpeechState::new();
    speech.phase = OakSpeechPhase::PlayerNameChoice { cursor: 3 };
    speech.update_frame(press_a());
    assert!(matches!(speech.phase, OakSpeechPhase::PlayerNaming));
    assert!(speech.is_flashing());
    for _ in 0..NAMING_FLASH_FRAMES {
        let result = speech.update_naming_frame(
            NamingInput {
                a: true,
                ..NamingInput::none()
            },
            false,
        );
        assert_eq!(result, OakSpeechResult::Active);
        assert_eq!(speech.naming_screen.as_ref().unwrap().name(), "");
    }
    assert!(!speech.is_flashing());
    speech.update_naming_frame(
        NamingInput {
            a: true,
            ..NamingInput::none()
        },
        false,
    );
    assert_eq!(speech.naming_screen.as_ref().unwrap().name(), "A");
}

#[test]
fn naming_screen_submit_flashes_white() {
    let mut speech = OakSpeechState::new();
    speech.phase = OakSpeechPhase::PlayerNameChoice { cursor: 3 };
    speech.update_frame(press_a());
    for _ in 0..NAMING_FLASH_FRAMES {
        speech.update_naming_frame(NamingInput::none(), false);
    }
    speech.update_naming_frame(
        NamingInput {
            a: true,
            ..NamingInput::none()
        },
        false,
    );
    let result = speech.update_naming_frame(
        NamingInput {
            start: true,
            ..NamingInput::none()
        },
        false,
    );
    assert!(matches!(result, OakSpeechResult::PlayerNameSet(ref n) if n == "A"));
    assert!(speech.is_flashing());
    for _ in 0..NAMING_FLASH_FRAMES {
        let result = speech.update_frame(press_a());
        assert_eq!(result, OakSpeechResult::Active);
    }
    assert!(!speech.is_flashing());
}

#[test]
fn empty_naming_submit_takes_default_name() {
    let mut speech = OakSpeechState::new();
    speech.phase = OakSpeechPhase::PlayerNameChoice { cursor: 3 };
    speech.update_frame(press_a());
    for _ in 0..NAMING_FLASH_FRAMES {
        speech.update_naming_frame(NamingInput::none(), false);
    }
    let result = speech.update_naming_frame(
        NamingInput {
            start: true,
            ..NamingInput::none()
        },
        false,
    );
    assert_eq!(result, OakSpeechResult::PlayerNameSet("RED".to_string()));
    assert_eq!(speech.player_name.as_deref(), Some("RED"));
    assert!(speech.naming_screen.is_none());
}

#[test]
fn default_names_by_cursor() {
    for (cursor, name) in [(0usize, "RED"), (1, "ASH"), (2, "JACK")] {
        let mut speech = OakSpeechState::new();
        speech.phase = OakSpeechPhase::PlayerNameChoice { cursor };
        let result = speech.update_frame(press_a());
        assert_eq!(result, OakSpeechResult::PlayerNameSet(name.to_string()));
        assert_eq!(speech.player_name.as_deref(), Some(name));
    }
}

#[test]
fn flash_swallows_every_key() {
    let mut speech = OakSpeechState::new();
    speech.phase = OakSpeechPhase::PlayerNameChoice { cursor: 3 };
    speech.update_frame(press_a());
    assert!(speech.is_flashing());
    let phase_before = speech.phase;
    let result = speech.update_frame(press_a());
    assert_eq!(result, OakSpeechResult::Active);
    assert_eq!(speech.phase, phase_before);
}
