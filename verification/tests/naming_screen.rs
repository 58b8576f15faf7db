use pokered_core::naming_screen::{
    char_units, name_units, InputMode, NamingInput, NamingScreenResult, NamingScreenState,
    NamingScreenType, ED_TILE_ID, GRID_COLS, LOWER_ALPHABET, MON_NAME_MAX, PINYIN_GRID_ROWS,
    PLAYER_NAME_MAX, TOTAL_ROWS, UPPER_ALPHABET,
};

/// The pinyin dictionary these scenarios run against: the library asks for
/// the candidates of its buffer and the caller answers.
fn dictionary(syllable: &str) -> Vec<char> {
    match syllable {
        "a" => vec!['阿', '啊', '爱', '安', '暗', '按'],
        "n" => vec!['你', '年', '女'],
        "ni" => vec!['你', '尼', '泥', '逆', '拟', '腻'],
        "z" => vec!['在', '再', '早'],
        "zh" => vec!['这', '炸', '只', '中', '正', '找', '展', '张', '章'],
        "zho" | "zhon" => vec!['中'],
        "zhong" => vec!['中', '种', '重'],
        _ => Vec::new(),
    }
}

/// One frame of the screen, with any owed dictionary lookup answered.
fn frame(state: &mut NamingScreenState, input: NamingInput, is_zh: bool) -> NamingScreenResult {
    let result = state.update_frame(input, is_zh);
    if let Some(buf) = state.pending_pinyin_lookup() {
        let candidates = dictionary(buf);
        state.set_pinyin_candidates(candidates);
    }
    result
}

fn input_a() -> NamingInput {
    NamingInput { a: true, ..NamingInput::none() }
}

fn input_b() -> NamingInput {
    NamingInput { b: true, ..NamingInput::none() }
}

fn input_up() -> NamingInput {
    NamingInput { up: true, ..NamingInput::none() }
}

fn input_down() -> NamingInput {
    NamingInput { down: true, ..NamingInput::none() }
}

fn input_left() -> NamingInput {
    NamingInput { left: true, ..NamingInput::none() }
}

fn input_right() -> NamingInput {
    NamingInput { right: true, ..NamingInput::none() }
}

fn input_start() -> NamingInput {
    NamingInput { start: true, ..NamingInput::none() }
}

fn input_select() -> NamingInput {
    NamingInput { select: true, ..NamingInput::none() }
}

#[test]
fn initial_state_player() {
    let state = NamingScreenState::new(NamingScreenType::Player);
    assert_eq!(state.screen_type(), NamingScreenType::Player);
    assert_eq!(state.name(), "");
    assert_eq!(state.max_length(), PLAYER_NAME_MAX);
    assert!(!state.is_lowercase());
    assert_eq!(state.cursor_row(), 0);
    assert_eq!(state.cursor_col(), 0);
}

#[test]
fn initial_state_pokemon() {
    let state = NamingScreenState::new(NamingScreenType::Pokemon);
    assert_eq!(state.max_length(), MON_NAME_MAX);
}

#[test]
fn initial_state_rival() {
    let state = NamingScreenState::new(NamingScreenType::Rival);
    assert_eq!(state.max_length(), PLAYER_NAME_MAX);
}

#[test]
fn cursor_move_right_wraps() {
    let mut state = NamingScreenState::new(NamingScreenType::Player);
    for _ in 0..GRID_COLS {
        frame(&mut state, input_right(), false);
    }
    assert_eq!(state.cursor_col(), 0);
}

#[test]
fn cursor_move_left_wraps() {
    let mut state = NamingScreenState::new(NamingScreenType::Player);
    frame(&mut state, input_left(), false);
    assert_eq!(state.cursor_col(), GRID_COLS - 1);
}

#[test]
fn cursor_move_down_wraps() {
    let mut state = NamingScreenState::new(NamingScreenType::Player);
    for _ in 0..TOTAL_ROWS {
        frame(&mut state, input_down(), false);
    }
    assert_eq!(state.cursor_row(), 0);
}

#[test]
fn cursor_move_up_wraps_to_case_row() {
    let mut state = NamingScreenState::new(NamingScreenType::Player);
    frame(&mut state, input_up(), false);
    assert_eq!(state.cursor_row(), 5);
    assert_eq!(state.cursor_col(), 0);
}

#[test]
fn case_row_blocks_left_right() {
    let mut state = NamingScreenState::new(NamingScreenType::Player);
    frame(&mut state, input_up(), false);
    assert_eq!(state.cursor_row(), 5);
    let col_before = state.cursor_col();
    frame(&mut state, input_right(), false);
    assert_eq!(state.cursor_col(), col_before);
    frame(&mut state, input_left(), false);
    assert_eq!(state.cursor_col(), col_before);
}

#[test]
fn entering_case_row_via_down_forces_col_zero() {
    let mut state = NamingScreenState::new(NamingScreenType::Player);
    for _ in 0..4 {
        frame(&mut state, input_right(), false);
    }
    assert_eq!(state.cursor_col(), 4);
    for _ in 0..5 {
        frame(&mut state, input_down(), false);
    }
    assert_eq!(state.cursor_row(), 5);
    assert_eq!(state.cursor_col(), 0);
}

#[test]
fn pressing_a_adds_character() {
    let mut state = NamingScreenState::new(NamingScreenType::Player);
    let result = frame(&mut state, input_a(), false);
    assert_eq!(result, NamingScreenResult::Editing);
    assert_eq!(state.name(), "A");
}

#[test]
fn pressing_a_on_lowercase() {
    let mut state = NamingScreenState::new(NamingScreenType::Player);
    frame(&mut state, input_select(), false);
    let result = frame(&mut state, input_a(), false);
    assert_eq!(result, NamingScreenResult::Editing);
    assert_eq!(state.name(), "a");
}

#[test]
fn typing_multiple_characters() {
    let mut state = NamingScreenState::new(NamingScreenType::Player);
    frame(&mut state, input_a(), false);
    frame(&mut state, input_right(), false);
    frame(&mut state, input_a(), false);
    assert_eq!(state.name(), "AB");
}

#[test]
fn max_length_player_enforced() {
    let mut state = NamingScreenState::new(NamingScreenType::Player);
    for _ in 0..PLAYER_NAME_MAX {
        frame(&mut state, input_a(), false);
    }
    assert_eq!(state.name().len(), PLAYER_NAME_MAX);
    assert_eq!(state.cursor_row(), 4);
    assert_eq!(state.cursor_col(), 8);
    frame(&mut state, input_a(), false);
    assert_eq!(state.name().len(), PLAYER_NAME_MAX);
}

#[test]
fn max_length_pokemon_enforced() {
    let mut state = NamingScreenState::new(NamingScreenType::Pokemon);
    for _ in 0..MON_NAME_MAX {
        frame(&mut state, input_a(), false);
    }
    assert_eq!(state.name().len(), MON_NAME_MAX);
    assert_eq!(state.cursor_row(), 4);
    assert_eq!(state.cursor_col(), 8);
}

#[test]
fn pressing_b_deletes_last_char() {
    let mut state = NamingScreenState::new(NamingScreenType::Player);
    frame(&mut state, input_a(), false);
    frame(&mut state, input_right(), false);
    frame(&mut state, input_a(), false);
    assert_eq!(state.name(), "AB");
    frame(&mut state, input_b(), false);
    assert_eq!(state.name(), "A");
}

#[test]
fn pressing_b_on_empty_does_nothing() {
    let mut state = NamingScreenState::new(NamingScreenType::Player);
    let result = frame(&mut state, input_b(), false);
    assert_eq!(result, NamingScreenResult::Editing);
    assert_eq!(state.name(), "");
}

#[test]
fn select_toggles_case() {
    let mut state = NamingScreenState::new(NamingScreenType::Player);
    assert!(!state.is_lowercase());
    frame(&mut state, input_select(), false);
    assert!(state.is_lowercase());
    frame(&mut state, input_select(), false);
    assert!(!state.is_lowercase());
}

#[test]
fn pressing_a_on_case_row_toggles_case() {
    let mut state = NamingScreenState::new(NamingScreenType::Player);
    frame(&mut state, input_up(), false);
    assert_eq!(state.cursor_row(), 5);
    assert!(!state.is_lowercase());
    frame(&mut state, input_a(), false);
    assert!(state.is_lowercase());
}

#[test]
fn start_submits_name() {
    let mut state = NamingScreenState::new(NamingScreenType::Player);
    frame(&mut state, input_a(), false);
    let result = frame(&mut state, input_start(), false);
    assert_eq!(result, NamingScreenResult::Submitted("A".to_string()));
}

#[test]
fn start_on_empty_cancels() {
    let mut state = NamingScreenState::new(NamingScreenType::Player);
    let result = frame(&mut state, input_start(), false);
    assert_eq!(result, NamingScreenResult::Cancelled);
}

#[test]
fn pressing_a_on_ed_tile_submits() {
    let mut state = NamingScreenState::new(NamingScreenType::Player);
    frame(&mut state, input_a(), false);
    for _ in 0..4 {
        frame(&mut state, input_down(), false);
    }
    for _ in 0..8 {
        frame(&mut state, input_right(), false);
    }
    assert_eq!(state.cursor_row(), 4);
    assert_eq!(state.cursor_col(), 8);
    let result = frame(&mut state, input_a(), false);
    assert_eq!(result, NamingScreenResult::Submitted("A".to_string()));
}

#[test]
fn pressing_a_on_ed_tile_empty_cancels() {
    let mut state = NamingScreenState::new(NamingScreenType::Player);
    for _ in 0..4 {
        frame(&mut state, input_down(), false);
    }
    for _ in 0..8 {
        frame(&mut state, input_right(), false);
    }
    let result = frame(&mut state, input_a(), false);
    assert_eq!(result, NamingScreenResult::Cancelled);
}

#[test]
fn upper_alphabet_first_row() {
    assert_eq!(
        UPPER_ALPHABET[0],
        [0x80, 0x81, 0x82, 0x83, 0x84, 0x85, 0x86, 0x87, 0x88]
    );
}

#[test]
fn lower_alphabet_first_row() {
    assert_eq!(
        LOWER_ALPHABET[0],
        [0xA0, 0xA1, 0xA2, 0xA3, 0xA4, 0xA5, 0xA6, 0xA7, 0xA8]
    );
}

#[test]
fn ed_tile_at_correct_position() {
    assert_eq!(UPPER_ALPHABET[4][8], ED_TILE_ID);
    assert_eq!(LOWER_ALPHABET[4][8], ED_TILE_ID);
}

#[test]
fn current_alphabet_switches() {
    let mut state = NamingScreenState::new(NamingScreenType::Player);
    assert_eq!(state.current_alphabet()[0][0], 0x80);
    frame(&mut state, input_select(), false);
    assert_eq!(state.current_alphabet()[0][0], 0xA0);
}

#[test]
fn type_red_and_submit() {
    let mut state = NamingScreenState::new(NamingScreenType::Player);
    frame(&mut state, input_down(), false);
    for _ in 0..8 {
        frame(&mut state, input_right(), false);
    }
    frame(&mut state, input_a(), false);
    frame(&mut state, input_up(), false);
    for _ in 0..4 {
        frame(&mut state, input_left(), false);
    }
    frame(&mut state, input_a(), false);
    frame(&mut state, input_left(), false);
    frame(&mut state, input_a(), false);
    assert_eq!(state.name(), "RED");
    let result = frame(&mut state, input_start(), false);
    assert_eq!(result, NamingScreenResult::Submitted("RED".to_string()));
}

// --- Pinyin input ---

const A: (usize, usize) = (0, 0);
const G: (usize, usize) = (0, 6);
const H: (usize, usize) = (0, 7);
const I: (usize, usize) = (0, 8);
const N: (usize, usize) = (1, 4);
const O: (usize, usize) = (1, 5);
const Z: (usize, usize) = (2, 7);
const SPACE: (usize, usize) = (2, 8);

fn pinyin_state(screen_type: NamingScreenType) -> NamingScreenState {
    let mut state = NamingScreenState::new(screen_type);
    frame(&mut state, input_select(), true);
    assert_eq!(state.input_mode, InputMode::Pinyin);
    state
}

fn nav_to_letter(state: &mut NamingScreenState, (row, col): (usize, usize)) {
    for _ in 0..TOTAL_ROWS {
        if state.cursor_row() == row {
            break;
        }
        frame(state, input_up(), true);
    }
    assert_eq!(state.cursor_row(), row, "row navigation failed");
    for _ in 0..GRID_COLS {
        if state.cursor_col() == col {
            break;
        }
        frame(state, input_right(), true);
    }
    assert_eq!(state.cursor_col(), col, "col navigation failed");
}

fn type_letters(state: &mut NamingScreenState, letters: &[(usize, usize)]) {
    for &pos in letters {
        nav_to_letter(state, pos);
        frame(state, input_a(), true);
    }
}

fn enter_strip(state: &mut NamingScreenState) {
    for _ in 0..TOTAL_ROWS {
        if state.cursor_row() >= PINYIN_GRID_ROWS {
            return;
        }
        frame(state, input_down(), true);
    }
    panic!("cursor never reached the candidate strip");
}

#[test]
fn pinyin_type_letter_into_buffer() {
    let mut state = pinyin_state(NamingScreenType::Player);
    let result = frame(&mut state, input_a(), true);
    assert_eq!(result, NamingScreenResult::Editing);
    assert_eq!(state.pinyin_buf, "a");
    assert_eq!(state.pinyin_candidates.first(), Some(&'阿'));
    assert_eq!(state.name(), "");
    assert_eq!(
        (state.cursor_row(), state.cursor_col()),
        A,
        "typing keeps the cursor on the letter"
    );
}

#[test]
fn pinyin_multiletter_syllable() {
    let mut state = pinyin_state(NamingScreenType::Player);
    type_letters(&mut state, &[N, I]);
    assert_eq!(state.pinyin_buf, "ni");
    assert_eq!(&state.pinyin_candidates[..4], &['你', '尼', '泥', '逆']);
    assert_eq!(state.name(), "");
}

#[test]
fn pinyin_letter_does_not_auto_submit_or_touch_name() {
    let mut state = pinyin_state(NamingScreenType::Player);
    let result = frame(&mut state, input_a(), true);
    assert_eq!(result, NamingScreenResult::Editing);
    assert_eq!(state.name(), "");
}

#[test]
fn pinyin_non_letter_tile_is_ignored() {
    let mut state = pinyin_state(NamingScreenType::Player);
    type_letters(&mut state, &[Z, H, O, N, G, SPACE]);
    assert_eq!(state.pinyin_buf, "zhong", "space must not enter the buffer");
}

#[test]
fn pinyin_commit_candidate_from_strip() {
    let mut state = pinyin_state(NamingScreenType::Player);
    type_letters(&mut state, &[N, I]);
    enter_strip(&mut state);
    assert_eq!(state.cursor_row(), PINYIN_GRID_ROWS);
    assert_eq!(state.cursor_col(), 0);
    let result = frame(&mut state, input_a(), true);
    assert_eq!(result, NamingScreenResult::Editing);
    assert_eq!(state.name(), "你");
    assert!(state.pinyin_buf.is_empty());
    assert!(state.pinyin_candidates.is_empty());
    assert_eq!((state.cursor_row(), state.cursor_col()), I);
}

#[test]
fn pinyin_commit_candidate_moved_within_strip() {
    let mut state = pinyin_state(NamingScreenType::Player);
    type_letters(&mut state, &[Z, H]);
    assert_eq!(state.pinyin_candidates.len(), 9);
    enter_strip(&mut state);
    frame(&mut state, input_right(), true);
    frame(&mut state, input_a(), true);
    assert_eq!(state.name(), "炸");

    let mut state = pinyin_state(NamingScreenType::Player);
    type_letters(&mut state, &[Z, H]);
    enter_strip(&mut state);
    frame(&mut state, input_down(), true);
    assert_eq!(state.cursor_row(), PINYIN_GRID_ROWS + 1);
    frame(&mut state, input_a(), true);
    assert_eq!(state.name(), "展");
}

#[test]
fn pinyin_strip_columns_clamp_to_populated_slots() {
    let mut state = pinyin_state(NamingScreenType::Player);
    frame(&mut state, input_a(), true);
    enter_strip(&mut state);
    for _ in 0..GRID_COLS {
        frame(&mut state, input_right(), true);
    }
    assert_eq!(state.cursor_col(), 3);
}

#[test]
fn pinyin_b_pops_buffer_letter_and_clears_candidates() {
    let mut state = pinyin_state(NamingScreenType::Player);
    type_letters(&mut state, &[N]);
    assert!(!state.pinyin_candidates.is_empty());
    frame(&mut state, input_b(), true);
    assert!(state.pinyin_buf.is_empty());
    assert!(
        state.pinyin_candidates.is_empty(),
        "empty buffer must list no candidates"
    );
}

#[test]
fn pinyin_b_pops_name_when_buffer_empty() {
    let mut state = pinyin_state(NamingScreenType::Player);
    type_letters(&mut state, &[A]);
    enter_strip(&mut state);
    frame(&mut state, input_a(), true);
    assert_eq!(state.name(), "阿");
    frame(&mut state, input_b(), true);
    assert_eq!(state.name(), "");
}

#[test]
fn pinyin_buffer_caps_at_longest_syllable() {
    let mut state = pinyin_state(NamingScreenType::Player);
    for _ in 0..8 {
        frame(&mut state, input_a(), true);
    }
    assert_eq!(
        state.pinyin_buf.len(),
        6,
        "buffer must cap at the longest syllable"
    );
}

#[test]
fn pinyin_ed_tile_not_reachable() {
    let mut state = pinyin_state(NamingScreenType::Player);
    type_letters(&mut state, &[Z, H, O, N, G]);
    for _ in 0..TOTAL_ROWS + 2 {
        frame(&mut state, input_down(), true);
        assert!(state.cursor_row() <= PINYIN_GRID_ROWS + 1);
    }
    let result = frame(&mut state, input_a(), true);
    assert_eq!(result, NamingScreenResult::Editing);
}

#[test]
fn pinyin_start_submits_from_pinyin_mode() {
    let mut state = pinyin_state(NamingScreenType::Player);
    type_letters(&mut state, &[A]);
    enter_strip(&mut state);
    frame(&mut state, input_a(), true);
    let result = frame(&mut state, input_start(), true);
    assert_eq!(result, NamingScreenResult::Submitted("阿".to_string()));
}

#[test]
fn pinyin_select_returns_cursor_to_last_typed_letter() {
    let mut state = pinyin_state(NamingScreenType::Player);
    type_letters(&mut state, &[N]);
    enter_strip(&mut state);
    assert_eq!(state.cursor_row(), PINYIN_GRID_ROWS);
    frame(&mut state, input_select(), true);
    assert_eq!(state.input_mode, InputMode::Alphabet);
    assert_eq!((state.cursor_row(), state.cursor_col()), N);
}

#[test]
fn pinyin_entering_from_lower_alphabet_row_resets_cursor() {
    let mut state = NamingScreenState::new(NamingScreenType::Player);
    frame(&mut state, input_up(), true);
    assert_eq!(state.cursor_row(), TOTAL_ROWS - 1);
    frame(&mut state, input_select(), true);
    assert_eq!((state.cursor_row(), state.cursor_col()), (0, 0));
}

#[test]
fn pinyin_stale_strip_cursor_returns_to_letters() {
    let mut state = pinyin_state(NamingScreenType::Player);
    type_letters(&mut state, &[A]);
    enter_strip(&mut state);
    frame(&mut state, input_b(), true);
    assert_eq!((state.cursor_row(), state.cursor_col()), A);
}

// --- Width units ---

#[test]
fn cjk_characters_cost_two_units() {
    assert_eq!(char_units('A'), 1);
    assert_eq!(char_units('阿'), 2);
    assert_eq!(name_units("RED"), 3);
    assert_eq!(name_units("阿A阿"), 5);
}

#[test]
fn pinyin_full_cjk_name_reaches_char_limit_not_byte_limit() {
    let mut state = pinyin_state(NamingScreenType::Player);
    for _ in 0..7 {
        frame(&mut state, input_a(), true);
        enter_strip(&mut state);
        frame(&mut state, input_a(), true);
    }
    assert_eq!(state.name().chars().count(), PLAYER_NAME_MAX);
    assert_eq!(state.name().len(), 21, "7 CJK chars are 21 UTF-8 bytes");
    assert_eq!(state.input_mode, InputMode::Alphabet);
    assert_eq!((state.cursor_row(), state.cursor_col()), (4, 8));
    let result = frame(&mut state, input_a(), true);
    assert_eq!(
        result,
        NamingScreenResult::Submitted("阿阿阿阿阿阿阿".to_string())
    );
}

#[test]
fn pinyin_pokemon_limit_is_ten_chars() {
    let mut state = pinyin_state(NamingScreenType::Pokemon);
    for _ in 0..MON_NAME_MAX {
        frame(&mut state, input_a(), true);
        enter_strip(&mut state);
        frame(&mut state, input_a(), true);
    }
    assert_eq!(state.name().chars().count(), MON_NAME_MAX);
    assert_eq!(state.name().len(), 30, "10 CJK chars are 30 UTF-8 bytes");
    assert_eq!(state.input_mode, InputMode::Alphabet);
}

#[test]
fn used_units_counts_cjk_twice() {
    let mut state = pinyin_state(NamingScreenType::Player);
    for _ in 0..3 {
        frame(&mut state, input_a(), true);
        enter_strip(&mut state);
        frame(&mut state, input_a(), true);
    }
    assert_eq!(state.name(), "阿阿阿");
    assert_eq!(state.used_units(), 6);
    assert_eq!(state.input_mode, InputMode::Pinyin);
}

#[test]
fn frames_after_submit_change_nothing() {
    let mut state = NamingScreenState::new(NamingScreenType::Player);
    frame(&mut state, input_a(), false);
    assert_eq!(
        frame(&mut state, input_start(), false),
        NamingScreenResult::Submitted("A".to_string())
    );
    let (row, col) = (state.cursor_row(), state.cursor_col());
    assert_eq!(
        frame(&mut state, input_b(), false),
        NamingScreenResult::Submitted("A".to_string())
    );
    frame(&mut state, input_right(), false);
    assert_eq!(state.name(), "A");
    assert_eq!((state.cursor_row(), state.cursor_col()), (row, col));
}

#[test]
fn typing_then_b_gives_the_name_back() {
    let mut state = NamingScreenState::new(NamingScreenType::Pokemon);
    frame(&mut state, input_a(), false);
    frame(&mut state, input_right(), false);
    frame(&mut state, input_a(), false);
    assert_eq!(state.name(), "AB");
    frame(&mut state, input_down(), false);
    frame(&mut state, input_a(), false);
    assert_eq!(state.name(), "ABK");
    frame(&mut state, input_b(), false);
    assert_eq!(state.name(), "AB");
}

#[test]
fn name_units_add_up_over_concatenation() {
    assert_eq!(name_units(""), 0);
    for (a, b) in [("RED", "阿"), ("阿阿", "B"), ("", "XY阿")] {
        let joined = format!("{a}{b}");
        assert_eq!(name_units(&joined), name_units(a) + name_units(b));
        let n = joined.chars().count();
        assert!(n <= name_units(&joined) && name_units(&joined) <= 2 * n);
    }
}
