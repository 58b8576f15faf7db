use pokered_core::overworld::native_script::direction_word_step;
use pokered_core::overworld::native_script::{
    badge_index, zh_or_en, ScriptRng, TrashOutcome, TrashStep, VgymTrashState, DEFAULT_RNG_SEED,
};

#[test]
fn vgym_can_index_matches_js_arithmetic() {
    // Facing up from (3,7) inspects (3,6): ((3-1)/2)*3 + ((6-7)/2) = 3 + 0 = 3.
    assert_eq!(VgymTrashState::can_index(3, 7, "up"), 3);
    // Facing down from (9,11) inspects (9,12): ((9-1)/2)*3 + ((12-7)/2) = 12 + 2 = 14.
    assert_eq!(VgymTrashState::can_index(9, 11, "down"), 14);
}

#[test]
fn vgym_first_switch_locks_and_opens() {
    let mut rng = ScriptRng::new();
    rng.state = 42;
    let mut vgym = VgymTrashState::new();
    vgym.first = 7;
    let mut flags: Vec<(&'static str, bool)> = Vec::new();
    // Facing up from (5,9) inspects can 6: not 7, only trash.
    let can = VgymTrashState::can_index(5, 9, "up");
    assert_eq!(can, 6);
    assert_eq!(vgym.start(&mut rng, false, can, false), TrashOutcome::OnlyTrash);
    let cmd = vgym.next_command(&mut flags);
    assert!(matches!(cmd, Some(TrashStep::ShowText(_))));
    assert_eq!(vgym.phase, 0);
    // Facing up from (5,11) inspects can 7: the first switch.
    let can = VgymTrashState::can_index(5, 11, "up");
    assert_eq!(can, 7);
    assert_eq!(vgym.start(&mut rng, false, can, false), TrashOutcome::FirstSwitch);
    let cmd = vgym.next_command(&mut flags);
    assert!(matches!(cmd, Some(TrashStep::PlaySound(_))));
    assert_eq!(vgym.phase, 1);
    assert!(flags.contains(&("EVENT_1ST_LOCK_OPENED", true)));
    assert!(
        vgym.second == 4 || vgym.second == 6 || vgym.second == 8 || vgym.second == 10,
        "second={}",
        vgym.second
    );
}

#[test]
fn vgym_second_switch_opens_the_door() {
    let mut rng = ScriptRng::new();
    let mut vgym = VgymTrashState::new();
    vgym.first = 7;
    let mut flags: Vec<(&'static str, bool)> = Vec::new();
    vgym.start(&mut rng, false, 7, false);
    while vgym.next_command(&mut flags).is_some() {}
    assert!(!vgym.is_active());
    let second = vgym.second;
    assert_eq!(
        vgym.start(&mut rng, false, second, false),
        TrashOutcome::SecondSwitch
    );
    let mut cmds = Vec::new();
    while let Some(c) = vgym.next_command(&mut flags) {
        cmds.push(c);
    }
    assert_eq!(cmds[0], TrashStep::ReplaceTileBlock(2, 2, 5));
    assert_eq!(cmds[1], TrashStep::PlaySound("SFX_GO_INSIDE".to_string()));
    assert!(flags.contains(&("EVENT_2ND_LOCK_OPENED", true)));
}

#[test]
fn vgym_wrong_can_relocks() {
    let mut rng = ScriptRng::new();
    let mut vgym = VgymTrashState::new();
    vgym.first = 0;
    let mut flags: Vec<(&'static str, bool)> = Vec::new();
    vgym.start(&mut rng, false, 0, false);
    while vgym.next_command(&mut flags).is_some() {}
    // Can 14 is never next to can 0.
    assert_eq!(vgym.start(&mut rng, false, 14, false), TrashOutcome::Relocked);
    assert_eq!(vgym.phase, 0);
    assert_eq!(vgym.second, -1);
    assert!((0..15).contains(&vgym.first));
    let cmd = vgym.next_command(&mut flags);
    assert_eq!(cmd, Some(TrashStep::PlaySound("SFX_DENIED".to_string())));
    assert_eq!(flags.last(), Some(&("EVENT_1ST_LOCK_OPENED", false)));
}

#[test]
fn vgym_solved_gym_shows_only_trash() {
    let mut rng = ScriptRng::new();
    let before = rng.state;
    let mut vgym = VgymTrashState::new();
    assert_eq!(vgym.start(&mut rng, true, 3, true), TrashOutcome::Solved);
    assert_eq!(rng.state, before);
    let mut flags: Vec<(&'static str, bool)> = Vec::new();
    assert_eq!(
        vgym.next_command(&mut flags),
        Some(TrashStep::ShowText("不，这里\n只有垃圾。".to_string()))
    );
    assert!(vgym.tick().is_some());
    assert_eq!(vgym.next_command(&mut flags), None);
    assert!(flags.is_empty());
}

#[test]
fn rng_is_xorshift() {
    let mut rng = ScriptRng::new();
    assert_eq!(rng.state, DEFAULT_RNG_SEED);
    rng.seed_rng(1);
    let v = rng.next_rand();
    let mut x: u64 = 1;
    x ^= x << 13;
    x ^= x >> 7;
    x ^= x << 17;
    assert_eq!(v, x);
    assert_eq!(rng.state, x);
    rng.seed_rng(0);
    assert_eq!(rng.state, DEFAULT_RNG_SEED);
}

#[test]
fn random_text_is_one_of_the_pool() {
    let mut rng = ScriptRng::new();
    let pool = vec!["a".to_string(), "b".to_string(), "c".to_string()];
    for _ in 0..10 {
        let s = rng.pick_random_text(pool.clone());
        assert!(pool.contains(&s));
    }
    assert_eq!(rng.pick_random_text(Vec::new()), "");
}

#[test]
fn badges_by_name() {
    assert_eq!(badge_index("BoulderBadge"), Some(0));
    assert_eq!(badge_index("earthbadge"), Some(7));
    assert_eq!(badge_index("MOONBADGE"), None);
}

#[test]
fn language_pick() {
    assert_eq!(zh_or_en("zh", "hi", "你好"), "你好");
    assert_eq!(zh_or_en("en", "hi", "你好"), "hi");
}

#[test]
fn direction_words_name_one_tile_steps() {
    assert_eq!(direction_word_step("up"), Some((0, -1)));
    assert_eq!(direction_word_step("North"), Some((0, -1)));
    assert_eq!(direction_word_step("DOWN"), Some((0, 1)));
    assert_eq!(direction_word_step("south"), Some((0, 1)));
    assert_eq!(direction_word_step("Left"), Some((-1, 0)));
    assert_eq!(direction_word_step("west"), Some((-1, 0)));
    assert_eq!(direction_word_step("rIGHT"), Some((1, 0)));
    assert_eq!(direction_word_step("east"), Some((1, 0)));
    assert_eq!(direction_word_step("upward"), None);
    assert_eq!(direction_word_step(""), None);
    assert_eq!(direction_word_step("nörth"), None);
}
