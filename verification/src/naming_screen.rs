//! Naming screen state machine (player, rival, Pokémon nickname).
//!
//! The alphabet grid is 5 rows × 9 columns with an upper/lowercase toggle;
//! the cursor covers rows 0..=5 (row 5 is the case-toggle row) and columns
//! 0..=8. Row 4, column 8 holds the ED (submit) tile. A name holds at most
//! 7 characters (player, rival) or 10 (nickname); filling it moves the
//! cursor onto ED.
//!
//! Pinyin mode (Chinese only, toggled with Select): the cursor covers the
//! three letter rows (A-Z) followed by the candidate-strip lines. A on a
//! letter appends it to the pinyin buffer; A on a candidate commits it to
//! the name and returns the cursor to the last typed letter. The candidate
//! dictionary lives outside the state machine: after the buffer changes
//! the state asks for a lookup ([`NamingScreenState::pending_pinyin_lookup`])
//! and the caller answers with [`NamingScreenState::set_pinyin_candidates`].

use vstd::prelude::*;

use crate::text::{char_count, pop_char, push_char};

verus! {

/// Input mode for the naming screen.
#[derive(Debug, Clone, Copy, PartialEq, Eq, Structural)]
pub enum InputMode {
    Alphabet,
    Pinyin,
}

/// Max name length for player/rival, in characters.
pub const PLAYER_NAME_MAX: usize = 7;

/// Max name length for a Pokémon nickname, in characters.
pub const MON_NAME_MAX: usize = 10;

/// Width units a CJK character takes on screen (two 8 px slots).
pub const CJK_UNITS: usize = 2;

/// Width units `ch` occupies on screen: 2 for CJK-block characters
/// (U+2E80 and up: ideographs, kana, Hangul), 1 for everything else.
pub open spec fn spec_char_units(ch: char) -> nat {
    if (ch as u32) >= 0x2E80 { 2 } else { 1 }
}

/// Total width units of a character sequence.
pub open spec fn spec_name_units(s: Seq<char>) -> nat
    decreases s.len(),
{
    if s.len() == 0 {
        0
    } else {
        spec_name_units(s.drop_last()) + spec_char_units(s.last())
    }
}

/// Width units add up over concatenation, the empty name takes none, and
/// a name takes between one and two units per character.
pub proof fn lemma_name_units_law(a: Seq<char>, b: Seq<char>)
    ensures
        spec_name_units(Seq::<char>::empty()) == 0,
        spec_name_units(a + b) == spec_name_units(a) + spec_name_units(b),
        a.len() <= spec_name_units(a) <= 2 * a.len(),
    decreases b.len(),
{
    lemma_name_units_bounds(a);
    if b.len() > 0 {
        lemma_name_units_law(a, b.drop_last());
        assert((a + b).drop_last() =~= a + b.drop_last());
        assert((a + b).last() == b.last());
    } else {
        assert(a + b =~= a);
    }
}

proof fn lemma_name_units_bounds(a: Seq<char>)
    ensures
        a.len() <= spec_name_units(a) <= 2 * a.len(),
    decreases a.len(),
{
    if a.len() > 0 {
        lemma_name_units_bounds(a.drop_last());
    }
}

pub fn char_units(ch: char) -> (n: usize)
    ensures
        n == spec_char_units(ch),
{
    if (ch as u32) >= 0x2E80 {
        CJK_UNITS
    } else {
        1
    }
}

/// Total width units of `name` (the renderer fills this many slots).
pub fn name_units(name: &str) -> (n: usize)
    requires
        name@.len() <= usize::MAX / 2,
    ensures
        n == spec_name_units(name@),
{
    let len = char_count(name);
    let mut total: usize = 0;
    let mut i: usize = 0;
    while i < len
        invariant
            len == name@.len(),
            i <= len,
            total == spec_name_units(name@.subrange(0, i as int)),
            total <= 2 * i,
            len <= usize::MAX / 2,
        decreases len - i,
    {
        let c = name.get_char(i);
        proof {
            assert(name@.subrange(0, i as int + 1).drop_last() =~= name@.subrange(0, i as int));
        }
        total = total + char_units(c);
        i += 1;
    }
    assert(name@.subrange(0, len as int) =~= name@);
    total
}

/// Alphabet grid dimensions.
pub const GRID_ROWS: usize = 5;
pub const GRID_COLS: usize = 9;

/// Total cursor rows in alphabet mode: 5 grid rows + the case-toggle row.
pub const TOTAL_ROWS: usize = 6;

/// Letter rows used in pinyin mode (rows 0..=2: A-Z).
pub const PINYIN_GRID_ROWS: usize = 3;

/// Candidate slots per candidate-strip line.
pub const CANDIDATES_PER_LINE: usize = 6;

/// Pinyin buffer cap: the longest syllables ("zhuang") are 6 letters.
pub const PINYIN_BUF_MAX: usize = 6;

/// Frames of the white flash when the naming screen opens and after it
/// submits.
pub const NAMING_FLASH_FRAMES: u8 = 3;

/// Tile id of the ED (submit) tile.
pub const ED_TILE_ID: u8 = 0xF0;

/// The uppercase alphabet grid (tile ids).
pub const UPPER_ALPHABET: [[u8; GRID_COLS]; GRID_ROWS] = [
    [0x80, 0x81, 0x82, 0x83, 0x84, 0x85, 0x86, 0x87, 0x88],
    [0x89, 0x8A, 0x8B, 0x8C, 0x8D, 0x8E, 0x8F, 0x90, 0x91],
    [0x92, 0x93, 0x94, 0x95, 0x96, 0x97, 0x98, 0x99, 0x7F],
    [0xF1, 0x9A, 0x9B, 0x9C, 0x9D, 0x9E, 0x9F, 0xBA, 0xBA],
    [0xE3, 0xE6, 0xE7, 0xEF, 0xF5, 0xF3, 0xE8, 0xF4, 0xF0],
];

/// The lowercase alphabet grid (tile ids).
pub const LOWER_ALPHABET: [[u8; GRID_COLS]; GRID_ROWS] = [
    [0xA0, 0xA1, 0xA2, 0xA3, 0xA4, 0xA5, 0xA6, 0xA7, 0xA8],
    [0xA9, 0xAA, 0xAB, 0xAC, 0xAD, 0xAE, 0xAF, 0xB0, 0xB1],
    [0xB2, 0xB3, 0xB4, 0xB5, 0xB6, 0xB7, 0xB8, 0xB9, 0x7F],
    [0xF1, 0x9A, 0x9B, 0x9C, 0x9D, 0x9E, 0x9F, 0xBA, 0xBA],
    [0xE3, 0xE6, 0xE7, 0xEF, 0xF5, 0xF3, 0xE8, 0xF4, 0xF0],
];

/// The tile id at a grid position.
pub open spec fn spec_grid_tile(lowercase: bool, row: int, col: int) -> u8 {
    let upper: Seq<Seq<u8>> = seq![
        seq![0x80u8, 0x81, 0x82, 0x83, 0x84, 0x85, 0x86, 0x87, 0x88],
        seq![0x89u8, 0x8A, 0x8B, 0x8C, 0x8D, 0x8E, 0x8F, 0x90, 0x91],
        seq![0x92u8, 0x93, 0x94, 0x95, 0x96, 0x97, 0x98, 0x99, 0x7F],
        seq![0xF1u8, 0x9A, 0x9B, 0x9C, 0x9D, 0x9E, 0x9F, 0xBA, 0xBA],
        seq![0xE3u8, 0xE6, 0xE7, 0xEF, 0xF5, 0xF3, 0xE8, 0xF4, 0xF0],
    ];
    let lower: Seq<Seq<u8>> = seq![
        seq![0xA0u8, 0xA1, 0xA2, 0xA3, 0xA4, 0xA5, 0xA6, 0xA7, 0xA8],
        seq![0xA9u8, 0xAA, 0xAB, 0xAC, 0xAD, 0xAE, 0xAF, 0xB0, 0xB1],
        seq![0xB2u8, 0xB3, 0xB4, 0xB5, 0xB6, 0xB7, 0xB8, 0xB9, 0x7F],
        seq![0xF1u8, 0x9A, 0x9B, 0x9C, 0x9D, 0x9E, 0x9F, 0xBA, 0xBA],
        seq![0xE3u8, 0xE6, 0xE7, 0xEF, 0xF5, 0xF3, 0xE8, 0xF4, 0xF0],
    ];
    if lowercase { lower[row][col] } else { upper[row][col] }
}

fn grid_tile(lowercase: bool, row: usize, col: usize) -> (t: u8)
    requires
        row < GRID_ROWS,
        col < GRID_COLS,
    ensures
        t == spec_grid_tile(lowercase, row as int, col as int),
{
    if lowercase {
        LOWER_ALPHABET[row][col]
    } else {
        UPPER_ALPHABET[row][col]
    }
}

/// The character a grid tile types: letters `$80-$99` (A-Z) and `$A0-$B9`
/// (a-z), space `$7F`, and the punctuation of rows 3-4. Other tiles (the ED
/// tile) type nothing.
pub open spec fn spec_tile_char(tile: u8) -> Option<char> {
    if 0x80 <= tile <= 0x99 {
        Some("ABCDEFGHIJKLMNOPQRSTUVWXYZ"@[tile - 0x80])
    } else if 0xA0 <= tile <= 0xB9 {
        Some("abcdefghijklmnopqrstuvwxyz"@[tile - 0xA0])
    } else if tile == 0x7F {
        Some(' ')
    } else if tile == 0xF1 {
        Some('×')
    } else if tile == 0x9A {
        Some('(')
    } else if tile == 0x9B {
        Some(')')
    } else if tile == 0x9C {
        Some(':')
    } else if tile == 0x9D {
        Some(';')
    } else if tile == 0x9E {
        Some('[')
    } else if tile == 0x9F {
        Some(']')
    } else if tile == 0xBA {
        Some('é')
    } else if tile == 0xE3 {
        Some('-')
    } else if tile == 0xE6 {
        Some('?')
    } else if tile == 0xE7 {
        Some('!')
    } else if tile == 0xEF {
        Some('♂')
    } else if tile == 0xF5 {
        Some('♀')
    } else if tile == 0xF3 {
        Some('/')
    } else if tile == 0xE8 {
        Some('.')
    } else if tile == 0xF4 {
        Some(',')
    } else {
        None
    }
}

/// The lowercase letter a letter tile adds to the pinyin buffer; non-letter
/// tiles add nothing.
pub open spec fn spec_pinyin_letter(tile: u8) -> Option<char> {
    if 0x80 <= tile <= 0x99 {
        Some("abcdefghijklmnopqrstuvwxyz"@[tile - 0x80])
    } else if 0xA0 <= tile <= 0xB9 {
        Some("abcdefghijklmnopqrstuvwxyz"@[tile - 0xA0])
    } else {
        None
    }
}

pub fn tile_char(tile: u8) -> (r: Option<char>)
    ensures
        r == spec_tile_char(tile),
{
    proof {
        reveal_strlit("ABCDEFGHIJKLMNOPQRSTUVWXYZ");
        reveal_strlit("abcdefghijklmnopqrstuvwxyz");
    }
    if 0x80 <= tile && tile <= 0x99 {
        Some("ABCDEFGHIJKLMNOPQRSTUVWXYZ".get_char((tile - 0x80) as usize))
    } else if 0xA0 <= tile && tile <= 0xB9 {
        Some("abcdefghijklmnopqrstuvwxyz".get_char((tile - 0xA0) as usize))
    } else if tile == 0x7F {
        Some(' ')
    } else if tile == 0xF1 {
        Some('×')
    } else if tile == 0x9A {
        Some('(')
    } else if tile == 0x9B {
        Some(')')
    } else if tile == 0x9C {
        Some(':')
    } else if tile == 0x9D {
        Some(';')
    } else if tile == 0x9E {
        Some('[')
    } else if tile == 0x9F {
        Some(']')
    } else if tile == 0xBA {
        Some('é')
    } else if tile == 0xE3 {
        Some('-')
    } else if tile == 0xE6 {
        Some('?')
    } else if tile == 0xE7 {
        Some('!')
    } else if tile == 0xEF {
        Some('♂')
    } else if tile == 0xF5 {
        Some('♀')
    } else if tile == 0xF3 {
        Some('/')
    } else if tile == 0xE8 {
        Some('.')
    } else if tile == 0xF4 {
        Some(',')
    } else {
        None
    }
}

fn pinyin_letter(tile: u8) -> (r: Option<char>)
    ensures
        r == spec_pinyin_letter(tile),
{
    proof {
        reveal_strlit("abcdefghijklmnopqrstuvwxyz");
    }
    if 0x80 <= tile && tile <= 0x99 {
        Some("abcdefghijklmnopqrstuvwxyz".get_char((tile - 0x80) as usize))
    } else if 0xA0 <= tile && tile <= 0xB9 {
        Some("abcdefghijklmnopqrstuvwxyz".get_char((tile - 0xA0) as usize))
    } else {
        None
    }
}

#[derive(Debug, Clone, Copy, PartialEq, Eq, Structural)]
pub enum NamingScreenType {
    Player,
    Rival,
    Pokemon,
}

pub open spec fn spec_max_length(t: NamingScreenType) -> usize {
    match t {
        NamingScreenType::Player | NamingScreenType::Rival => PLAYER_NAME_MAX,
        NamingScreenType::Pokemon => MON_NAME_MAX,
    }
}

impl NamingScreenType {
    pub fn max_length(&self) -> (n: usize)
        ensures
            n == spec_max_length(*self),
    {
        match self {
            NamingScreenType::Player | NamingScreenType::Rival => PLAYER_NAME_MAX,
            NamingScreenType::Pokemon => MON_NAME_MAX,
        }
    }
}

/// One frame of the eight buttons.
#[derive(Debug, Clone, Copy, PartialEq, Eq, Structural)]
pub struct NamingInput {
    pub up: bool,
    pub down: bool,
    pub left: bool,
    pub right: bool,
    pub a: bool,
    pub b: bool,
    pub start: bool,
    pub select: bool,
}

impl NamingInput {
    /// No button pressed.
    pub fn none() -> (i: NamingInput)
        ensures
            !i.up && !i.down && !i.left && !i.right && !i.a && !i.b && !i.start && !i.select,
    {
        NamingInput { up: false, down: false, left: false, right: false, a: false, b: false, start: false, select: false }
    }
}

/// Result of a naming screen frame.
#[derive(Debug, Clone, PartialEq, Eq)]
pub enum NamingScreenResult {
    /// Still editing.
    Editing,
    /// A name was submitted (Start, or A on ED).
    Submitted(String),
    /// Submitted with an empty name.
    Cancelled,
}

/// The abstract state of the naming screen.
pub struct NamingModel {
    pub screen_type: NamingScreenType,
    pub name: Seq<char>,
    pub lowercase: bool,
    pub cursor_row: usize,
    pub cursor_col: usize,
    pub submitted: bool,
    pub input_mode: InputMode,
    pub pinyin_buf: Seq<char>,
    pub pinyin_candidates: Seq<char>,
    pub pinyin_last_typed: (usize, usize),
    pub lookup_pending: bool,
}

/// What a submission yields: the name, or a cancel when it is empty.
pub open spec fn submit_matches(m: NamingModel, r: NamingScreenResult) -> bool {
    if m.name.len() == 0 {
        r is Cancelled
    } else {
        r matches NamingScreenResult::Submitted(s) && s@ == m.name
    }
}

/// The naming screen state machine.
#[derive(Debug, Clone)]
pub struct NamingScreenState {
    screen_type: NamingScreenType,
    name: String,
    lowercase: bool,
    cursor_row: usize,
    cursor_col: usize,
    submitted: bool,
    /// Read by the renderers to draw the pinyin buffer/candidate strip.
    pub input_mode: InputMode,
    /// Read by the renderers to draw the pinyin buffer/candidate strip.
    pub pinyin_buf: String,
    /// Read by the renderers to draw the pinyin buffer/candidate strip.
    pub pinyin_candidates: Vec<char>,
    /// Grid position of the last letter typed in pinyin mode; the cursor
    /// returns here when leaving the candidate strip.
    pinyin_last_row: usize,
    pinyin_last_col: usize,
    /// The buffer changed and its candidates have not been looked up yet.
    lookup_pending: bool,
}

impl View for NamingScreenState {
    type V = NamingModel;

    closed spec fn view(&self) -> NamingModel {
        NamingModel {
            screen_type: self.screen_type,
            name: self.name@,
            lowercase: self.lowercase,
            cursor_row: self.cursor_row,
            cursor_col: self.cursor_col,
            submitted: self.submitted,
            input_mode: self.input_mode,
            pinyin_buf: self.pinyin_buf@,
            pinyin_candidates: self.pinyin_candidates@,
            pinyin_last_typed: (self.pinyin_last_row, self.pinyin_last_col),
            lookup_pending: self.lookup_pending,
        }
    }
}

/// A freshly opened naming screen: empty name, upper case, cursor on `A`.
pub open spec fn spec_fresh_naming(screen_type: NamingScreenType) -> NamingModel {
    NamingModel {
        screen_type,
        name: Seq::empty(),
        lowercase: false,
        cursor_row: 0,
        cursor_col: 0,
        submitted: false,
        input_mode: InputMode::Alphabet,
        pinyin_buf: Seq::empty(),
        pinyin_candidates: Seq::empty(),
        pinyin_last_typed: (0, 0),
        lookup_pending: false,
    }
}

/// The name stays within its length limit, the cursor stays on the grid's
/// rows in alphabet mode, and the last typed letter is a letter position.
pub open spec fn naming_wf(m: NamingModel) -> bool {
    &&& m.name.len() <= spec_max_length(m.screen_type)
    &&& m.pinyin_last_typed.0 < PINYIN_GRID_ROWS
    &&& m.pinyin_last_typed.1 < GRID_COLS
    &&& m.input_mode is Alphabet ==> m.cursor_row < TOTAL_ROWS
}

pub open spec fn with_cursor(m: NamingModel, row: usize, col: usize) -> NamingModel {
    NamingModel { cursor_row: row, cursor_col: col, ..m }
}

// ── alphabet mode ──────────────────────────────────────────────────

/// Down: rows wrap 5 → 0; entering the case row forces column 0.
pub open spec fn spec_move_down(m: NamingModel) -> NamingModel {
    let row = if m.cursor_row + 1 >= TOTAL_ROWS { 0 } else { (m.cursor_row + 1) as usize };
    with_cursor(m, row, if row == 5 { 0 } else { m.cursor_col })
}

/// Up: rows wrap 0 → 5 (column forced to 0 on the case row).
pub open spec fn spec_move_up(m: NamingModel) -> NamingModel {
    if m.cursor_row == 0 {
        with_cursor(m, 5, 0)
    } else {
        with_cursor(m, (m.cursor_row - 1) as usize, m.cursor_col)
    }
}

/// Right: wraps within the row; the case row does not scroll.
pub open spec fn spec_move_right(m: NamingModel) -> NamingModel {
    if m.cursor_row == 5 {
        m
    } else {
        with_cursor(m, m.cursor_row, if m.cursor_col + 1 >= GRID_COLS { 0 } else { (m.cursor_col + 1) as usize })
    }
}

/// Left: wraps within the row; the case row does not scroll.
pub open spec fn spec_move_left(m: NamingModel) -> NamingModel {
    if m.cursor_row == 5 {
        m
    } else {
        with_cursor(m, m.cursor_row, if m.cursor_col == 0 { (GRID_COLS - 1) as usize } else { (m.cursor_col - 1) as usize })
    }
}

/// A in alphabet mode: the case row toggles the case, ED submits, any other
/// tile types its character while the name has room; filling the name moves
/// the cursor onto ED.
pub open spec fn spec_alphabet_a(m: NamingModel) -> NamingModel {
    if m.cursor_row == 5 {
        NamingModel { lowercase: !m.lowercase, ..m }
    } else if m.cursor_row == 4 && m.cursor_col == 8 {
        NamingModel { submitted: true, ..m }
    } else {
        match spec_tile_char(spec_grid_tile(m.lowercase, m.cursor_row as int, m.cursor_col as int)) {
            Some(c) => if m.name.len() < spec_max_length(m.screen_type) {
                let m2 = NamingModel { name: m.name.push(c), ..m };
                if m2.name.len() >= spec_max_length(m.screen_type) { with_cursor(m2, 4, 8) } else { m2 }
            } else {
                m
            },
            None => m,
        }
    }
}

/// A press in alphabet mode stays on the grid (the pinyin candidate strip
/// rows beyond it hold no tiles).
pub open spec fn alphabet_a_in_grid(m: NamingModel) -> bool {
    m.cursor_row == 5 || (m.cursor_row == 4 && m.cursor_col == 8) || (m.cursor_row < GRID_ROWS && m.cursor_col < GRID_COLS)
}

/// One alphabet-mode frame: Select toggles case, B deletes, A presses, then
/// the first of down/up/right/left moves.
pub open spec fn spec_update_alphabet(m: NamingModel, input: NamingInput) -> NamingModel {
    if input.select {
        NamingModel { lowercase: !m.lowercase, ..m }
    } else if input.b {
        NamingModel { name: if m.name.len() > 0 { m.name.drop_last() } else { m.name }, ..m }
    } else if input.a {
        spec_alphabet_a(m)
    } else if input.down {
        spec_move_down(m)
    } else if input.up {
        spec_move_up(m)
    } else if input.right {
        spec_move_right(m)
    } else if input.left {
        spec_move_left(m)
    } else {
        m
    }
}

// ── pinyin mode ────────────────────────────────────────────────────

pub open spec fn candidate_lines(m: NamingModel) -> int {
    (m.pinyin_candidates.len() + CANDIDATES_PER_LINE - 1) / (CANDIDATES_PER_LINE as int)
}

/// Total cursor rows in pinyin mode: the letter rows and the strip lines.
pub open spec fn pinyin_cursor_rows(m: NamingModel) -> int {
    PINYIN_GRID_ROWS + candidate_lines(m)
}

/// Valid columns on the cursor's row: 9 on a letter row, the populated
/// slots on a strip line (never 0).
pub open spec fn pinyin_row_cols(m: NamingModel) -> int {
    if m.cursor_row < PINYIN_GRID_ROWS {
        GRID_COLS as int
    } else {
        let len = m.pinyin_candidates.len() as int;
        if m.cursor_row == PINYIN_GRID_ROWS {
            if len == 0 { 1 } else if len < 6 { len } else { 6 }
        } else {
            if len - 6 < 1 { 1 } else { len - 6 }
        }
    }
}

/// Keep the column valid on the cursor's row.
pub open spec fn clamp_col(m: NamingModel) -> NamingModel {
    if m.cursor_col >= pinyin_row_cols(m) {
        with_cursor(m, m.cursor_row, (pinyin_row_cols(m) - 1) as usize)
    } else {
        m
    }
}

/// The pinyin buffer changed: its candidates are owed, except for an empty
/// buffer, which lists none.
pub open spec fn spec_buffer_changed(m: NamingModel) -> NamingModel {
    if m.pinyin_buf.len() == 0 {
        spec_apply_candidates(NamingModel { lookup_pending: false, ..m }, Seq::empty())
    } else {
        NamingModel { lookup_pending: true, ..m }
    }
}

/// New candidates arrive: a cursor on a strip line that no longer exists
/// returns to the last typed letter, otherwise its column is kept valid.
pub open spec fn spec_apply_candidates(m: NamingModel, cands: Seq<char>) -> NamingModel {
    let m2 = NamingModel { pinyin_candidates: cands, lookup_pending: false, ..m };
    if m2.cursor_row >= PINYIN_GRID_ROWS {
        if m2.cursor_row - PINYIN_GRID_ROWS >= candidate_lines(m2) {
            with_cursor(m2, m2.pinyin_last_typed.0, m2.pinyin_last_typed.1)
        } else {
            clamp_col(m2)
        }
    } else {
        m2
    }
}

/// A in pinyin mode. On a strip line: commit the highlighted candidate while
/// the name has room, clear the buffer and strip, then leave pinyin mode with
/// the cursor on ED if the name is full, else return to the last typed
/// letter. On a letter row: append the letter to the buffer (up to six).
pub open spec fn spec_pinyin_a(m: NamingModel) -> NamingModel {
    if m.cursor_row >= PINYIN_GRID_ROWS {
        let idx = (m.cursor_row - PINYIN_GRID_ROWS) * CANDIDATES_PER_LINE + m.cursor_col;
        if idx >= m.pinyin_candidates.len() {
            m
        } else {
            let ch = m.pinyin_candidates[idx];
            let name = if m.name.len() + 1 <= spec_max_length(m.screen_type) { m.name.push(ch) } else { m.name };
            let m2 = NamingModel { name, pinyin_buf: Seq::empty(), pinyin_candidates: Seq::empty(), lookup_pending: false, ..m };
            if name.len() >= spec_max_length(m.screen_type) {
                NamingModel { input_mode: InputMode::Alphabet, cursor_row: 4, cursor_col: 8, ..m2 }
            } else {
                with_cursor(m2, m.pinyin_last_typed.0, m.pinyin_last_typed.1)
            }
        }
    } else {
        match spec_pinyin_letter(spec_grid_tile(m.lowercase, m.cursor_row as int, m.cursor_col as int)) {
            Some(l) => if m.pinyin_buf.len() < PINYIN_BUF_MAX {
                spec_buffer_changed(NamingModel {
                    pinyin_buf: m.pinyin_buf.push(l),
                    pinyin_last_typed: (m.cursor_row, m.cursor_col),
                    ..m
                })
            } else {
                m
            },
            None => m,
        }
    }
}

/// One pinyin-mode frame: B deletes a buffer letter (or, with an empty
/// buffer, a name character), A presses, otherwise the first of
/// down/up/right/left moves over letters and strip lines; entering the strip
/// from the letters starts at its first slot.
pub open spec fn spec_update_pinyin(m: NamingModel, input: NamingInput) -> NamingModel {
    if input.b {
        if m.pinyin_buf.len() > 0 {
            spec_buffer_changed(NamingModel { pinyin_buf: m.pinyin_buf.drop_last(), ..m })
        } else {
            NamingModel { name: if m.name.len() > 0 { m.name.drop_last() } else { m.name }, ..m }
        }
    } else if input.a {
        spec_pinyin_a(m)
    } else {
        let moved = if input.down {
            let row: int = if m.cursor_row + 1 >= pinyin_cursor_rows(m) { 0 } else { m.cursor_row + 1 };
            let col: int = if m.cursor_row < PINYIN_GRID_ROWS && row >= PINYIN_GRID_ROWS { 0 } else { m.cursor_col as int };
            with_cursor(m, row as usize, col as usize)
        } else if input.up {
            let row: int = if m.cursor_row == 0 { pinyin_cursor_rows(m) - 1 } else { m.cursor_row - 1 };
            let col: int = if m.cursor_row < PINYIN_GRID_ROWS && row >= PINYIN_GRID_ROWS { 0 } else { m.cursor_col as int };
            with_cursor(m, row as usize, col as usize)
        } else if input.right {
            with_cursor(m, m.cursor_row, ((m.cursor_col + 1) % pinyin_row_cols(m)) as usize)
        } else if input.left {
            with_cursor(m, m.cursor_row, if m.cursor_col == 0 { (pinyin_row_cols(m) - 1) as usize } else { (m.cursor_col - 1) as usize })
        } else {
            m
        };
        clamp_col(moved)
    }
}

// ── frame ──────────────────────────────────────────────────────────

/// Select in Chinese toggles the input mode, clearing buffer and strip; a
/// cursor below the letter rows goes to (0,0) when entering pinyin, and back
/// to the last typed letter when leaving it.
pub open spec fn spec_toggle_mode(m: NamingModel) -> NamingModel {
    let entering = m.input_mode is Alphabet;
    let m2 = NamingModel {
        input_mode: if entering { InputMode::Pinyin } else { InputMode::Alphabet },
        pinyin_buf: Seq::empty(),
        pinyin_candidates: Seq::empty(),
        lookup_pending: false,
        ..m
    };
    if m.cursor_row >= PINYIN_GRID_ROWS {
        if entering { with_cursor(m2, 0, 0) } else { with_cursor(m2, m.pinyin_last_typed.0, m.pinyin_last_typed.1) }
    } else {
        m2
    }
}

/// The state after one frame of input.
pub open spec fn spec_update(m: NamingModel, input: NamingInput, is_zh: bool) -> NamingModel {
    if m.submitted {
        m
    } else if input.start {
        NamingModel { submitted: true, ..m }
    } else if input.select && is_zh {
        spec_toggle_mode(m)
    } else if m.input_mode is Pinyin && is_zh {
        spec_update_pinyin(m, input)
    } else {
        spec_update_alphabet(m, input)
    }
}

/// The cursor is on a column of the grid wherever a press reads the grid:
/// everywhere in alphabet mode, on the letter rows in pinyin mode.
pub open spec fn cursor_on_grid(m: NamingModel) -> bool {
    (m.input_mode is Alphabet || m.cursor_row < PINYIN_GRID_ROWS) ==> m.cursor_col < GRID_COLS
}

/// The frame's input reaches a pinyin-mode A press on a letter row.
pub open spec fn presses_pinyin_letter(m: NamingModel, input: NamingInput, is_zh: bool) -> bool {
    !m.submitted && !input.start && !(input.select && is_zh) && m.input_mode is Pinyin && is_zh
        && !input.b && input.a && m.cursor_row < PINYIN_GRID_ROWS
}

/// The frame's input reaches an alphabet-mode A press.
pub open spec fn presses_alphabet_a(m: NamingModel, input: NamingInput, is_zh: bool) -> bool {
    !m.submitted && !input.start && !(input.select && is_zh) && !(m.input_mode is Pinyin && is_zh)
        && !input.select && !input.b && input.a
}


proof fn lemma_ceil_div6(len: int)
    requires
        0 <= len <= usize::MAX,
    ensures
        (len + 5) / 6 == len / 6 + if len % 6 == 0 { 0int } else { 1int },
        len / 6 + 1 <= usize::MAX / 2,
{
    assert((len + 5) / 6 == len / 6 + if len % 6 == 0 { 0int } else { 1int }) by (nonlinear_arith)
        requires
            0 <= len,
    {
        vstd::arithmetic::div_mod::lemma_fundamental_div_mod(len, 6);
        vstd::arithmetic::div_mod::lemma_fundamental_div_mod(len + 5, 6);
    }
    assert(len / 6 <= usize::MAX / 6) by (nonlinear_arith)
        requires
            0 <= len <= usize::MAX,
    ;
}

impl NamingScreenState {
    pub fn new(screen_type: NamingScreenType) -> (s: NamingScreenState)
        ensures
            s@ == spec_fresh_naming(screen_type),
            naming_wf(s@),
            cursor_on_grid(s@),
    {
        NamingScreenState {
            screen_type,
            name: String::new(),
            lowercase: false,
            cursor_row: 0,
            cursor_col: 0,
            submitted: false,
            input_mode: InputMode::Alphabet,
            pinyin_buf: String::new(),
            pinyin_candidates: Vec::new(),
            pinyin_last_row: 0,
            pinyin_last_col: 0,
            lookup_pending: false,
        }
    }

    pub fn screen_type(&self) -> (t: NamingScreenType)
        ensures
            t == self@.screen_type,
    {
        self.screen_type
    }

    pub fn name(&self) -> (n: &str)
        ensures
            n@ == self@.name,
    {
        self.name.as_str()
    }

    pub fn max_length(&self) -> (n: usize)
        ensures
            n == spec_max_length(self@.screen_type),
    {
        self.screen_type.max_length()
    }

    /// Width units the name occupies on screen (ASCII 1, CJK 2): the
    /// renderer fills this many underscore slots.
    pub fn used_units(&self) -> (n: usize)
        requires
            naming_wf(self@),
        ensures
            n == spec_name_units(self@.name),
    {
        name_units(self.name.as_str())
    }

    pub fn is_lowercase(&self) -> (r: bool)
        ensures
            r == self@.lowercase,
    {
        self.lowercase
    }

    pub fn cursor_row(&self) -> (r: usize)
        ensures
            r == self@.cursor_row,
    {
        self.cursor_row
    }

    pub fn cursor_col(&self) -> (r: usize)
        ensures
            r == self@.cursor_col,
    {
        self.cursor_col
    }

    /// The alphabet grid for the current case (tile ids).
    pub fn current_alphabet(&self) -> (g: &[[u8; GRID_COLS]; GRID_ROWS])
        ensures
            forall|r: int, c: int| 0 <= r < GRID_ROWS && 0 <= c < GRID_COLS ==> g@[r]@[c] == spec_grid_tile(self@.lowercase, r, c),
    {
        if self.lowercase {
            assert(forall|r: int, c: int| 0 <= r < GRID_ROWS && 0 <= c < GRID_COLS ==> LOWER_ALPHABET@[r]@[c] == spec_grid_tile(true, r, c));
            &LOWER_ALPHABET
        } else {
            assert(forall|r: int, c: int| 0 <= r < GRID_ROWS && 0 <= c < GRID_COLS ==> UPPER_ALPHABET@[r]@[c] == spec_grid_tile(false, r, c));
            &UPPER_ALPHABET
        }
    }

    /// The pinyin buffer whose candidates are owed, if any: answer with
    /// [`Self::set_pinyin_candidates`].
    pub fn pending_pinyin_lookup(&self) -> (r: Option<&str>)
        ensures
            self@.lookup_pending ==> (r matches Some(b) && b@ == self@.pinyin_buf),
            !self@.lookup_pending ==> r is None,
    {
        if self.lookup_pending {
            Some(self.pinyin_buf.as_str())
        } else {
            None
        }
    }

    /// The dictionary's candidates for the current buffer arrive.
    pub fn set_pinyin_candidates(&mut self, candidates: Vec<char>)
        requires
            naming_wf(old(self)@),
        ensures
            final(self)@ == spec_apply_candidates(old(self)@, candidates@),
            naming_wf(final(self)@),
            cursor_on_grid(old(self)@) ==> cursor_on_grid(final(self)@),
    {
        self.pinyin_candidates = candidates;
        self.lookup_pending = false;
        if self.cursor_row >= PINYIN_GRID_ROWS {
            let line = self.cursor_row - PINYIN_GRID_ROWS;
            if line >= self.candidate_lines() {
                self.cursor_row = self.pinyin_last_row;
                self.cursor_col = self.pinyin_last_col;
            } else {
                self.clamp_pinyin_col();
            }
        }
    }

    /// Process one frame of input.
    pub fn update_frame(&mut self, input: NamingInput, is_zh: bool) -> (r: NamingScreenResult)
        requires
            naming_wf(old(self)@),
            presses_alphabet_a(old(self)@, input, is_zh) ==> alphabet_a_in_grid(old(self)@),
            presses_pinyin_letter(old(self)@, input, is_zh) ==> old(self)@.cursor_col < GRID_COLS,
        ensures
            final(self)@ == spec_update(old(self)@, input, is_zh),
            cursor_on_grid(old(self)@) && !(old(self)@.input_mode is Pinyin && !is_zh) ==> cursor_on_grid(final(self)@),
            naming_wf(final(self)@),
            final(self)@.submitted ==> submit_matches(final(self)@, r),
            !final(self)@.submitted ==> r is Editing,
    {
        if self.submitted {
            return self.submit_result();
        }
        if input.start {
            self.submitted = true;
            return self.submit_result();
        }
        if input.select && is_zh {
            let entering_pinyin = matches!(self.input_mode, InputMode::Alphabet);
            self.input_mode = if entering_pinyin { InputMode::Pinyin } else { InputMode::Alphabet };
            self.pinyin_buf = String::new();
            self.pinyin_candidates = Vec::new();
            self.lookup_pending = false;
            if self.cursor_row >= PINYIN_GRID_ROWS {
                if entering_pinyin {
                    self.cursor_row = 0;
                    self.cursor_col = 0;
                } else {
                    self.cursor_row = self.pinyin_last_row;
                    self.cursor_col = self.pinyin_last_col;
                }
            }
            return NamingScreenResult::Editing;
        }
        if matches!(self.input_mode, InputMode::Pinyin) && is_zh {
            self.update_pinyin(input)
        } else {
            self.update_alphabet(input)
        }
    }

    fn update_alphabet(&mut self, input: NamingInput) -> (r: NamingScreenResult)
        requires
            naming_wf(old(self)@),
            !old(self)@.submitted,
            !input.select && !input.b && input.a ==> alphabet_a_in_grid(old(self)@),
        ensures
            final(self)@ == spec_update_alphabet(old(self)@, input),
            naming_wf(final(self)@),
            final(self)@.submitted ==> submit_matches(final(self)@, r),
            !final(self)@.submitted ==> r is Editing,
    {
        if input.select {
            self.lowercase = !self.lowercase;
            return NamingScreenResult::Editing;
        }
        if input.b {
            let _ = pop_char(&mut self.name);
            return NamingScreenResult::Editing;
        }
        if input.a {
            return self.handle_a_press();
        }
        if input.down {
            self.move_down();
        } else if input.up {
            self.move_up();
        } else if input.right {
            self.move_right();
        } else if input.left {
            self.move_left();
        }
        NamingScreenResult::Editing
    }

    fn update_pinyin(&mut self, input: NamingInput) -> (r: NamingScreenResult)
        requires
            naming_wf(old(self)@),
            old(self)@.input_mode is Pinyin,
            !old(self)@.submitted,
            !input.b && input.a && old(self)@.cursor_row < PINYIN_GRID_ROWS ==> old(self)@.cursor_col < GRID_COLS,
        ensures
            final(self)@ == spec_update_pinyin(old(self)@, input),
            naming_wf(final(self)@),
            r is Editing,
    {
        if input.b {
            if char_count(self.pinyin_buf.as_str()) > 0 {
                let _ = pop_char(&mut self.pinyin_buf);
                self.buffer_changed();
            } else {
                let _ = pop_char(&mut self.name);
            }
            return NamingScreenResult::Editing;
        }
        if input.a {
            return self.pinyin_a_press();
        }
        if input.down {
            let old_row = self.cursor_row;
            let rows = self.pinyin_cursor_rows();
            if self.cursor_row >= rows - 1 {
                self.cursor_row = 0;
            } else {
                self.cursor_row = self.cursor_row + 1;
            }
            if old_row < PINYIN_GRID_ROWS && self.cursor_row >= PINYIN_GRID_ROWS {
                self.cursor_col = 0;
            }
        } else if input.up {
            let old_row = self.cursor_row;
            if self.cursor_row == 0 {
                self.cursor_row = self.pinyin_cursor_rows() - 1;
            } else {
                self.cursor_row = self.cursor_row - 1;
            }
            if old_row < PINYIN_GRID_ROWS && self.cursor_row >= PINYIN_GRID_ROWS {
                self.cursor_col = 0;
            }
        } else if input.right {
            let cols = self.pinyin_row_cols();
            proof {
                vstd::arithmetic::div_mod::lemma_add_mod_noop(self.cursor_col as int, 1, cols as int);
                vstd::arithmetic::div_mod::lemma_mod_bound(self.cursor_col as int, cols as int);
                vstd::arithmetic::div_mod::lemma_mod_twice(self.cursor_col as int + 1, cols as int);
                if cols > 1 {
                    vstd::arithmetic::div_mod::lemma_small_mod(1, cols as nat);
                }
            }
            self.cursor_col = ((self.cursor_col % cols) + 1) % cols;
        } else if input.left {
            let cols = self.pinyin_row_cols();
            self.cursor_col = if self.cursor_col == 0 { cols - 1 } else { self.cursor_col - 1 };
        }
        self.clamp_pinyin_col();
        NamingScreenResult::Editing
    }

    /// The buffer changed: an empty buffer lists no candidates; otherwise the
    /// lookup is owed.
    fn buffer_changed(&mut self)
        requires
            naming_wf(old(self)@),
        ensures
            final(self)@ == spec_buffer_changed(old(self)@),
            naming_wf(final(self)@),
    {
        if char_count(self.pinyin_buf.as_str()) == 0 {
            self.lookup_pending = false;
            self.set_pinyin_candidates(Vec::new());
        } else {
            self.lookup_pending = true;
        }
    }

    fn pinyin_a_press(&mut self) -> (r: NamingScreenResult)
        requires
            naming_wf(old(self)@),
            old(self)@.input_mode is Pinyin,
            old(self)@.cursor_row < PINYIN_GRID_ROWS ==> old(self)@.cursor_col < GRID_COLS,
        ensures
            final(self)@ == spec_pinyin_a(old(self)@),
            naming_wf(final(self)@),
            r is Editing,
    {
        if self.cursor_row >= PINYIN_GRID_ROWS {
            let line = self.cursor_row - PINYIN_GRID_ROWS;
            let len = self.pinyin_candidates.len();
            if line > len / CANDIDATES_PER_LINE {
                return NamingScreenResult::Editing;
            }
            let base = line * CANDIDATES_PER_LINE;
            if self.cursor_col >= len - base || base > len {
                return NamingScreenResult::Editing;
            }
            let idx = base + self.cursor_col;
            let ch = self.pinyin_candidates[idx];
            let max = self.max_length();
            if char_count(self.name.as_str()) + 1 <= max {
                push_char(&mut self.name, ch);
            }
            self.pinyin_buf = String::new();
            self.pinyin_candidates = Vec::new();
            self.lookup_pending = false;
            if char_count(self.name.as_str()) >= max {
                self.input_mode = InputMode::Alphabet;
                self.cursor_row = 4;
                self.cursor_col = 8;
            } else {
                self.cursor_row = self.pinyin_last_row;
                self.cursor_col = self.pinyin_last_col;
            }
            return NamingScreenResult::Editing;
        }
        let tile = grid_tile(self.lowercase, self.cursor_row, self.cursor_col);
        match pinyin_letter(tile) {
            Some(l) => {
                if char_count(self.pinyin_buf.as_str()) < PINYIN_BUF_MAX {
                    push_char(&mut self.pinyin_buf, l);
                    self.pinyin_last_row = self.cursor_row;
                    self.pinyin_last_col = self.cursor_col;
                    self.buffer_changed();
                }
            },
            None => {},
        }
        NamingScreenResult::Editing
    }

    fn candidate_lines(&self) -> (n: usize)
        ensures
            n == candidate_lines(self@),
            n <= usize::MAX / 2,
    {
        let len = self.pinyin_candidates.len();
        proof {
            lemma_ceil_div6(len as int);
        }
        len / CANDIDATES_PER_LINE + if len % CANDIDATES_PER_LINE == 0 { 0 } else { 1 }
    }

    fn pinyin_cursor_rows(&self) -> (n: usize)
        ensures
            n == pinyin_cursor_rows(self@),
    {
        PINYIN_GRID_ROWS + self.candidate_lines()
    }

    fn pinyin_row_cols(&self) -> (n: usize)
        ensures
            n == pinyin_row_cols(self@),
            n >= 1,
    {
        if self.cursor_row < PINYIN_GRID_ROWS {
            GRID_COLS
        } else {
            let len = self.pinyin_candidates.len();
            if self.cursor_row == PINYIN_GRID_ROWS {
                if len == 0 {
                    1
                } else if len < CANDIDATES_PER_LINE {
                    len
                } else {
                    CANDIDATES_PER_LINE
                }
            } else {
                if len <= CANDIDATES_PER_LINE {
                    1
                } else {
                    len - CANDIDATES_PER_LINE
                }
            }
        }
    }

    fn clamp_pinyin_col(&mut self)
        ensures
            final(self)@ == clamp_col(old(self)@),
    {
        let cols = self.pinyin_row_cols();
        if self.cursor_col >= cols {
            self.cursor_col = cols - 1;
        }
    }

    fn handle_a_press(&mut self) -> (r: NamingScreenResult)
        requires
            naming_wf(old(self)@),
            !old(self)@.submitted,
            alphabet_a_in_grid(old(self)@),
        ensures
            final(self)@ == spec_alphabet_a(old(self)@),
            naming_wf(final(self)@),
            final(self)@.submitted ==> submit_matches(final(self)@, r),
            !final(self)@.submitted ==> r is Editing,
    {
        if self.cursor_row == 5 {
            self.lowercase = !self.lowercase;
            return NamingScreenResult::Editing;
        }
        if self.cursor_row == 4 && self.cursor_col == 8 {
            self.submitted = true;
            return self.submit_result();
        }
        let tile = grid_tile(self.lowercase, self.cursor_row, self.cursor_col);
        match tile_char(tile) {
            Some(c) => {
                let max = self.max_length();
                if char_count(self.name.as_str()) < max {
                    push_char(&mut self.name, c);
                    if char_count(self.name.as_str()) >= max {
                        self.cursor_row = 4;
                        self.cursor_col = 8;
                    }
                }
            },
            None => {},
        }
        NamingScreenResult::Editing
    }

    fn submit_result(&self) -> (r: NamingScreenResult)
        ensures
            submit_matches(self@, r),
    {
        if char_count(self.name.as_str()) == 0 {
            NamingScreenResult::Cancelled
        } else {
            NamingScreenResult::Submitted(self.name.clone())
        }
    }

    fn move_down(&mut self)
        ensures
            final(self)@ == spec_move_down(old(self)@),
    {
        if self.cursor_row >= TOTAL_ROWS - 1 {
            self.cursor_row = 0;
        } else {
            self.cursor_row = self.cursor_row + 1;
        }
        if self.cursor_row == 5 {
            self.cursor_col = 0;
        }
    }

    fn move_up(&mut self)
        ensures
            final(self)@ == spec_move_up(old(self)@),
    {
        if self.cursor_row == 0 {
            self.cursor_row = 5;
            self.cursor_col = 0;
        } else {
            self.cursor_row = self.cursor_row - 1;
        }
    }

    fn move_right(&mut self)
        ensures
            final(self)@ == spec_move_right(old(self)@),
    {
        if self.cursor_row == 5 {
            return;
        }
        if self.cursor_col >= GRID_COLS - 1 {
            self.cursor_col = 0;
        } else {
            self.cursor_col = self.cursor_col + 1;
        }
    }

    fn move_left(&mut self)
        ensures
            final(self)@ == spec_move_left(old(self)@),
    {
        if self.cursor_row == 5 {
            return;
        }
        if self.cursor_col == 0 {
            self.cursor_col = GRID_COLS - 1;
        } else {
            self.cursor_col = self.cursor_col - 1;
        }
    }
}

/// A frame pressing only the given keys.
pub open spec fn only_keys(a: bool, b: bool, select: bool) -> NamingInput {
    NamingInput { up: false, down: false, left: false, right: false, a, b, start: false, select }
}

/// Every frame whose language agrees with the input mode (any frame in
/// alphabet mode, a Chinese frame in pinyin mode), and every arrival of
/// candidates, keeps the cursor on the grid; with the cursor on the grid,
/// no alphabet-mode A press and no pinyin letter press falls outside it.
pub proof fn lemma_cursor_stays_on_grid(m: NamingModel, input: NamingInput, is_zh: bool, cands: Seq<char>)
    requires
        naming_wf(m),
        cursor_on_grid(m),
    ensures
        !(m.input_mode is Pinyin && !is_zh) ==> cursor_on_grid(spec_update(m, input, is_zh)),
        cursor_on_grid(spec_apply_candidates(m, cands)),
        presses_alphabet_a(m, input, is_zh) && m.input_mode is Alphabet ==> alphabet_a_in_grid(m),
        presses_pinyin_letter(m, input, is_zh) ==> m.cursor_col < GRID_COLS,
{
}

/// Once the name is submitted (or the screen cancelled), frames change
/// nothing more.
pub proof fn lemma_submitted_is_final(m: NamingModel, input: NamingInput, is_zh: bool)
    requires
        m.submitted,
    ensures
        spec_update(m, input, is_zh) == m,
{
}

/// Outside the Chinese input, Select toggles the letter case: pressing it
/// twice gives the screen back unchanged.
pub proof fn lemma_select_twice_restores(m: NamingModel)
    requires
        !m.submitted,
    ensures
        spec_update(spec_update(m, only_keys(false, false, true), false), only_keys(false, false, true), false) == m,
{
}

/// B undoes a typed letter: typing a grid character into a name with room
/// and then pressing B gives the name back.
pub proof fn lemma_b_undoes_letter(m: NamingModel)
    requires
        !m.submitted,
        m.cursor_row < GRID_ROWS,
        m.cursor_col < GRID_COLS,
        !(m.cursor_row == 4 && m.cursor_col == 8),
        spec_tile_char(spec_grid_tile(m.lowercase, m.cursor_row as int, m.cursor_col as int)) is Some,
        m.name.len() < spec_max_length(m.screen_type),
    ensures
        spec_update(spec_update(m, only_keys(true, false, false), false), only_keys(false, true, false), false).name
            == m.name,
{
    let c = spec_tile_char(spec_grid_tile(m.lowercase, m.cursor_row as int, m.cursor_col as int))->0;
    assert(m.name.push(c).drop_last() =~= m.name);
}

} // verus!
