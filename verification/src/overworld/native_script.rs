//! The script bridge's random number generator, and the Vermilion Gym
//! trash-can puzzle: two hidden switches among fifteen cans; the second
//! sits next to the first; a wrong can re-locks both and moves the first.

use vstd::prelude::*;

use crate::text::str_eq;

verus! {

/// The code of a character lowered if it is an ASCII capital.
pub open spec fn spec_ascii_lower_code(n: u32) -> u32 {
    if 65 <= n && n <= 90 { (n + 32) as u32 } else { n }
}

/// `word`, ASCII-lowercased, is `w`.
pub open spec fn spec_word_is(word: Seq<char>, w: Seq<char>) -> bool {
    &&& word.len() == w.len()
    &&& forall|i: int| 0 <= i < w.len() ==> spec_ascii_lower_code(word[i] as u32) == w[i] as u32
}

/// The one-tile step a direction word of a relative path names (case
/// ignored): up/north, down/south, left/west, right/east; `None` for any
/// other word.
pub open spec fn spec_direction_word_step(word: Seq<char>) -> Option<(i16, i16)> {
    if spec_word_is(word, "up"@) || spec_word_is(word, "north"@) {
        Some((0i16, -1i16))
    } else if spec_word_is(word, "down"@) || spec_word_is(word, "south"@) {
        Some((0i16, 1i16))
    } else if spec_word_is(word, "left"@) || spec_word_is(word, "west"@) {
        Some((-1i16, 0i16))
    } else if spec_word_is(word, "right"@) || spec_word_is(word, "east"@) {
        Some((1i16, 0i16))
    } else {
        None
    }
}

fn word_is(word: &str, w: &str) -> (r: bool)
    ensures
        r == spec_word_is(word@, w@),
{
    let n = word.unicode_len();
    if n != w.unicode_len() {
        return false;
    }
    let mut i: usize = 0;
    while i < n
        invariant
            n == word@.len(),
            n == w@.len(),
            i <= n,
            forall|k: int| 0 <= k < i ==> spec_ascii_lower_code(word@[k] as u32) == w@[k] as u32,
        decreases n - i,
    {
        let c = word.get_char(i) as u32;
        let lower = if 65 <= c && c <= 90 {
            c + 32
        } else {
            c
        };
        if lower != w.get_char(i) as u32 {
            return false;
        }
        i += 1;
    }
    true
}

/// The step of a direction word in a relative path (`"Up"`, `"north"`, ...).
pub fn direction_word_step(word: &str) -> (r: Option<(i16, i16)>)
    ensures
        r == spec_direction_word_step(word@),
{
    if word_is(word, "up") || word_is(word, "north") {
        Some((0, -1))
    } else if word_is(word, "down") || word_is(word, "south") {
        Some((0, 1))
    } else if word_is(word, "left") || word_is(word, "west") {
        Some((-1, 0))
    } else if word_is(word, "right") || word_is(word, "east") {
        Some((1, 0))
    } else {
        None
    }
}

/// The generator's seed when none is given (and in place of a zero state).
pub const DEFAULT_RNG_SEED: u64 = 0x9E37_79B9_7F4A_7C15;

/// The multiplier that spreads mixed-in entropy.
pub const RNG_MIX_MULTIPLIER: u64 = 0x2545_F491_4F6C_DD1D;

/// One xorshift64 step.
pub open spec fn spec_xorshift(x: u64) -> u64 {
    let a = x ^ (x << 13u64);
    let b = a ^ (a >> 7u64);
    b ^ (b << 17u64)
}

/// The generator's next state (and value): a zero state counts as the
/// default seed.
pub open spec fn spec_next_rand(state: u64) -> u64 {
    spec_xorshift(if state == 0 { DEFAULT_RNG_SEED } else { state })
}

/// The bridge's xorshift64 generator.
#[derive(Debug, Clone, Copy, PartialEq, Eq, Structural)]
pub struct ScriptRng {
    pub state: u64,
}

impl ScriptRng {
    pub fn new() -> (r: ScriptRng)
        ensures
            r.state == DEFAULT_RNG_SEED,
    {
        ScriptRng { state: DEFAULT_RNG_SEED }
    }

    /// Advance the generator and return its next 64-bit value.
    pub fn next_rand(&mut self) -> (v: u64)
        ensures
            v == spec_next_rand(old(self).state),
            final(self).state == v,
    {
        let mut x = self.state;
        if x == 0 {
            x = DEFAULT_RNG_SEED;
        }
        x = x ^ (x << 13u64);
        x = x ^ (x >> 7u64);
        x = x ^ (x << 17u64);
        self.state = x;
        x
    }

    /// One of the options at random ("" when there are none).
    pub fn pick_random_text(&mut self, options: Vec<String>) -> (s: String)
        ensures
            options@.len() == 0 ==> s@ == Seq::<char>::empty() && final(self).state == old(self).state,
            options@.len() > 0 ==> final(self).state == spec_next_rand(old(self).state)
                && s == options@[(spec_next_rand(old(self).state) % (options@.len() as u64)) as int],
    {
        if options.len() == 0 {
            return String::new();
        }
        let v = self.next_rand();
        let idx = (v % (options.len() as u64)) as usize;
        options[idx].clone()
    }

    /// Seed the generator (zero means the default seed).
    pub fn seed_rng(&mut self, seed: u64)
        ensures
            final(self).state == if seed == 0 { DEFAULT_RNG_SEED } else { seed },
    {
        self.state = if seed == 0 {
            DEFAULT_RNG_SEED
        } else {
            seed
        };
    }

    /// Mix entropy into the state; a zero result becomes the default seed.
    pub fn mix_rng(&mut self, entropy: u64)
        ensures
            final(self).state == if old(self).state ^ entropy.wrapping_mul(RNG_MIX_MULTIPLIER) == 0 {
                DEFAULT_RNG_SEED
            } else {
                old(self).state ^ entropy.wrapping_mul(RNG_MIX_MULTIPLIER)
            },
    {
        self.state = self.state ^ entropy.wrapping_mul(RNG_MIX_MULTIPLIER);
        if self.state == 0 {
            self.state = DEFAULT_RNG_SEED;
        }
    }
}

/// The bit index of a badge by its constant name, ignoring case.
pub open spec fn spec_badge_index(name: Seq<char>) -> Option<u8> {
    let u = spec_ascii_upper(name);
    if u == "BOULDERBADGE"@ {
        Some(0u8)
    } else if u == "CASCADEBADGE"@ {
        Some(1u8)
    } else if u == "THUNDERBADGE"@ {
        Some(2u8)
    } else if u == "RAINBOWBADGE"@ {
        Some(3u8)
    } else if u == "SOULBADGE"@ {
        Some(4u8)
    } else if u == "MARSHBADGE"@ {
        Some(5u8)
    } else if u == "VOLCANOBADGE"@ {
        Some(6u8)
    } else if u == "EARTHBADGE"@ {
        Some(7u8)
    } else {
        None
    }
}

/// `s` with the letters a-z raised.
pub open spec fn spec_ascii_upper(s: Seq<char>) -> Seq<char> {
    s.map_values(|c: char| if 'a' <= c && c <= 'z' { ((c as u32) - 32) as char } else { c })
}

fn eq_upper(a: &str, b: &str) -> (r: bool)
    ensures
        r == (spec_ascii_upper(a@) == b@),
{
    let n = a.unicode_len();
    if n != b.unicode_len() {
        assert(spec_ascii_upper(a@).len() == a@.len());
        return false;
    }
    let mut i: usize = 0;
    while i < n
        invariant
            n == a@.len(),
            n == b@.len(),
            i <= n,
            forall|k: int| 0 <= k < i ==> spec_ascii_upper(a@)[k] == b@[k],
        decreases n - i,
    {
        let c = a.get_char(i);
        let uc = if 'a' <= c && c <= 'z' {
            ((c as u32) - 32) as u8 as char
        } else {
            c
        };
        assert(spec_ascii_upper(a@)[i as int] == uc);
        if uc != b.get_char(i) {
            return false;
        }
        i += 1;
    }
    assert(spec_ascii_upper(a@) =~= b@);
    true
}

/// The bit index (0..=7) of a badge given by its constant name, ignoring
/// the case of its letters.
pub fn badge_index(name: &str) -> (r: Option<u8>)
    ensures
        r == spec_badge_index(name@),
{
    if eq_upper(name, "BOULDERBADGE") {
        Some(0)
    } else if eq_upper(name, "CASCADEBADGE") {
        Some(1)
    } else if eq_upper(name, "THUNDERBADGE") {
        Some(2)
    } else if eq_upper(name, "RAINBOWBADGE") {
        Some(3)
    } else if eq_upper(name, "SOULBADGE") {
        Some(4)
    } else if eq_upper(name, "MARSHBADGE") {
        Some(5)
    } else if eq_upper(name, "VOLCANOBADGE") {
        Some(6)
    } else if eq_upper(name, "EARTHBADGE") {
        Some(7)
    } else {
        None
    }
}

/// `en`, or `zh` when the language is "zh".
pub fn zh_or_en(lang: &str, en: &str, zh: &str) -> (s: String)
    ensures
        s@ == if lang@ == "zh"@ { zh@ } else { en@ },
{
    if str_eq(lang, "zh") {
        String::from_str(zh)
    } else {
        String::from_str(en)
    }
}

/// One step of the trash-can puzzle's script.
#[derive(Debug, Clone, PartialEq, Eq)]
pub enum TrashStep {
    ShowText(String),
    PlaySound(String),
    ReplaceTileBlock(u8, u8, u8),
    SetFlag(&'static str),
    ResetFlag(&'static str),
}

/// Integer division rounding toward zero, by 2.
pub open spec fn div2_toward_zero(v: int) -> int {
    if v >= 0 { v / 2 } else { -((-v) / 2) }
}

/// The can (0..14 on the grid) the player inspects from (x, y) facing
/// `facing`: cans stand on a 5 × 3 grid at x ∈ {1,3,5,7,9}, y ∈ {7,9,11}.
pub open spec fn spec_can_index(x: u8, y: u8, facing: Seq<char>) -> int {
    let fx: int = if facing == "left"@ { x - 1 } else if facing == "right"@ { x + 1 } else { x as int };
    let fy: int = if facing == "up"@ { y - 1 } else if facing == "down"@ { y + 1 } else { y as int };
    div2_toward_zero(fx - 1) * 3 + div2_toward_zero(fy - 7)
}

fn div2_tz(v: i32) -> (r: i32)
    requires
        -1000 <= v <= 1000,
    ensures
        r == div2_toward_zero(v as int),
{
    if v >= 0 {
        v / 2
    } else {
        -((-v) / 2)
    }
}

/// The cans orthogonally next to `first` on the grid (column `first / 3`,
/// row `first % 3`), in the order: above, below, left, right.
pub open spec fn spec_adjacent_cans(first: int) -> Seq<int> {
    let col = first / 3;
    let row = first % 3;
    let a: Seq<int> = if row > 0 { seq![first - 1] } else { Seq::empty() };
    let b: Seq<int> = if row < 2 { a.push(first + 1) } else { a };
    let c: Seq<int> = if col > 0 { b.push(first - 3) } else { b };
    if col < 4 { c.push(first + 3) } else { c }
}

/// A step with its texts as character sequences.
pub enum TrashStepView {
    ShowText(Seq<char>),
    PlaySound(Seq<char>),
    ReplaceTileBlock(u8, u8, u8),
    SetFlag(Seq<char>),
    ResetFlag(Seq<char>),
}

impl View for TrashStep {
    type V = TrashStepView;

    open spec fn view(&self) -> TrashStepView {
        match self {
            TrashStep::ShowText(s) => TrashStepView::ShowText(s@),
            TrashStep::PlaySound(s) => TrashStepView::PlaySound(s@),
            TrashStep::ReplaceTileBlock(x, y, b) => TrashStepView::ReplaceTileBlock(*x, *y, *b),
            TrashStep::SetFlag(f) => TrashStepView::SetFlag(f@),
            TrashStep::ResetFlag(f) => TrashStepView::ResetFlag(f@),
        }
    }
}

pub open spec fn steps_view(s: Seq<TrashStep>) -> Seq<TrashStepView> {
    s.map_values(|t: TrashStep| t@)
}

/// The abstract state of the puzzle.
pub struct VgymModel {
    pub active: bool,
    pub first: i32,
    pub second: i32,
    pub phase: u8,
    pub steps: Seq<TrashStepView>,
    pub pending: Option<TrashStepView>,
}

/// The texts of the puzzle, by language.
pub open spec fn only_trash_text(zh: bool) -> Seq<char> {
    if zh { "不，这里\n只有垃圾。"@ } else { "Nope, there's\nonly trash here."@ }
}

pub open spec fn first_lock_text(zh: bool) -> Seq<char> {
    if zh {
        "嘿！垃圾桶\n下面有开关！\n打开它！\n\n第1道电子锁\n打开了！"@
    } else {
        "Hey! There's a\nswitch under the\ntrash!\nTurn it on!\n\nThe 1st electric\nlock opened!"@
    }
}

pub open spec fn second_lock_text(zh: bool) -> Seq<char> {
    if zh {
        "第2道电子锁\n打开了！\n\n电动门\n打开了！"@
    } else {
        "The 2nd electric\nlock opened!\n\nThe motorized door\nopened!"@
    }
}

pub open spec fn relock_text(zh: bool) -> Seq<char> {
    if zh {
        "不，这里\n只有垃圾！\n\n等等！\n\n电子锁\n又锁上了！"@
    } else {
        "Nope, there's\nonly trash here!\n\nHold on!\n\nThe electric locks\nare re-locked!"@
    }
}

/// The puzzle's answer to an inspection.
#[derive(Debug, Clone, Copy, PartialEq, Eq, Structural)]
pub enum TrashOutcome {
    /// The door is already open: only trash.
    Solved,
    /// Not the can being hunted: only trash.
    OnlyTrash,
    /// The first switch: the first lock opens and the second switch is
    /// placed next to it.
    FirstSwitch,
    /// The second switch: both locks and the door open.
    SecondSwitch,
    /// A wrong can while hunting the second switch: both locks re-lock and
    /// the first switch moves.
    Relocked,
}


/// The Vermilion Gym trash-can puzzle.
#[derive(Debug, Clone)]
pub struct VgymTrashState {
    active: bool,
    /// The can of the first switch (-1 until drawn).
    pub first: i32,
    /// The can of the second switch (-1 until placed).
    pub second: i32,
    /// 0 while hunting the first switch, 1 while hunting the second.
    pub phase: u8,
    steps: Vec<TrashStep>,
    /// The command currently handed out, repeated while the puzzle waits.
    pending: Option<TrashStep>,
}

impl View for VgymTrashState {
    type V = VgymModel;

    closed spec fn view(&self) -> VgymModel {
        VgymModel {
            active: self.active,
            first: self.first,
            second: self.second,
            phase: self.phase,
            steps: steps_view(self.steps@),
            pending: match self.pending {
                Some(t) => Some(t@),
                None => None,
            },
        }
    }
}

/// The answer, the puzzle after it (steps aside), and the generator state
/// after an inspection of can `can`. The first switch is drawn (a value
/// modulo 15) when hunting it with none drawn yet; finding it draws the
/// second among the cans next to it; a wrong can while hunting the second
/// redraws the first.
pub open spec fn spec_inspect(m: VgymModel, rng: u64, solved: bool, can: i32) -> (TrashOutcome, i32, i32, u8, u64) {
    if solved {
        (TrashOutcome::Solved, m.first, m.second, m.phase, rng)
    } else if m.phase == 0 {
        let (first, rng1) = if m.first < 0 {
            ((spec_next_rand(rng) % 15) as i32, spec_next_rand(rng))
        } else {
            (m.first, rng)
        };
        if can == first {
            let adj = spec_adjacent_cans(first as int);
            let rng2 = spec_next_rand(rng1);
            (TrashOutcome::FirstSwitch, first, adj[(rng2 % (adj.len() as u64)) as int] as i32, 1u8, rng2)
        } else {
            (TrashOutcome::OnlyTrash, first, m.second, 0u8, rng1)
        }
    } else if can == m.second {
        (TrashOutcome::SecondSwitch, m.first, m.second, m.phase, rng)
    } else {
        (TrashOutcome::Relocked, (spec_next_rand(rng) % 15) as i32, -1i32, 0u8, spec_next_rand(rng))
    }
}

/// The script steps of an answer.
pub open spec fn spec_outcome_steps(o: TrashOutcome, zh: bool) -> Seq<TrashStepView> {
    match o {
        TrashOutcome::Solved | TrashOutcome::OnlyTrash => seq![TrashStepView::ShowText(only_trash_text(zh))],
        TrashOutcome::FirstSwitch => seq![
            TrashStepView::SetFlag("EVENT_1ST_LOCK_OPENED"@),
            TrashStepView::PlaySound("SFX_SWITCH"@),
            TrashStepView::ShowText(first_lock_text(zh)),
        ],
        TrashOutcome::SecondSwitch => seq![
            TrashStepView::SetFlag("EVENT_2ND_LOCK_OPENED"@),
            TrashStepView::ReplaceTileBlock(2, 2, 5),
            TrashStepView::PlaySound("SFX_GO_INSIDE"@),
            TrashStepView::ShowText(second_lock_text(zh)),
        ],
        TrashOutcome::Relocked => seq![
            TrashStepView::ResetFlag("EVENT_1ST_LOCK_OPENED"@),
            TrashStepView::PlaySound("SFX_DENIED"@),
            TrashStepView::ShowText(relock_text(zh)),
        ],
    }
}

/// The step is a flag write (handled at once, not handed out).
pub open spec fn is_flag_step(t: TrashStepView) -> bool {
    t is SetFlag || t is ResetFlag
}

/// The flag writes of a run of steps, in order.
pub open spec fn spec_flag_writes(steps: Seq<TrashStepView>) -> Seq<(Seq<char>, bool)>
    decreases steps.len(),
{
    if steps.len() == 0 {
        Seq::empty()
    } else {
        let rest = spec_flag_writes(steps.drop_last());
        match steps.last() {
            TrashStepView::SetFlag(f) => rest.push((f, true)),
            TrashStepView::ResetFlag(f) => rest.push((f, false)),
            _ => rest,
        }
    }
}

fn copy_step(t: &TrashStep) -> (r: TrashStep)
    ensures
        r@ == t@,
{
    match t {
        TrashStep::ShowText(s) => TrashStep::ShowText(s.clone()),
        TrashStep::PlaySound(s) => TrashStep::PlaySound(s.clone()),
        TrashStep::ReplaceTileBlock(x, y, b) => TrashStep::ReplaceTileBlock(*x, *y, *b),
        TrashStep::SetFlag(f) => TrashStep::SetFlag(f),
        TrashStep::ResetFlag(f) => TrashStep::ResetFlag(f),
    }
}

fn cans_adjacent(first: i32) -> (adj: Vec<i32>)
    requires
        0 <= first < i32::MAX,
    ensures
        adj@.map_values(|c: i32| c as int) == spec_adjacent_cans(first as int),
        adj@.len() > 0,
{
    let col = first / 3;
    let row = first % 3;
    let mut adj: Vec<i32> = Vec::new();
    if row > 0 {
        adj.push(first - 1);
    }
    if row < 2 {
        adj.push(first + 1);
    }
    if col > 0 {
        adj.push(first - 3);
    }
    if col < 4 {
        adj.push(first + 3);
    }
    assert(adj@.map_values(|c: i32| c as int) =~= spec_adjacent_cans(first as int));
    adj
}

impl VgymTrashState {
    pub fn new() -> (s: VgymTrashState)
        ensures
            s@ == (VgymModel {
                active: false,
                first: -1i32,
                second: -1i32,
                phase: 0,
                steps: Seq::empty(),
                pending: None,
            }),
    {
        let s = VgymTrashState { active: false, first: -1, second: -1, phase: 0, steps: Vec::new(), pending: None };
        assert(s@.steps =~= Seq::<TrashStepView>::empty());
        s
    }

    /// The puzzle's script is running.
    pub fn is_active(&self) -> (a: bool)
        ensures
            a == self@.active,
    {
        self.active
    }

    /// The command handed out, again, while the puzzle waits on it.
    pub fn tick(&self) -> (t: Option<TrashStep>)
        ensures
            match t {
                Some(c) => self@.pending == Some(c@),
                None => self@.pending is None,
            },
    {
        match &self.pending {
            Some(c) => Some(copy_step(c)),
            None => None,
        }
    }

    /// The can inspected from (x, y) facing `facing` ("up", "down", "left",
    /// "right"; anything else inspects the player's own tile).
    pub fn can_index(player_x: u8, player_y: u8, facing: &str) -> (c: i32)
        ensures
            c == spec_can_index(player_x, player_y, facing@),
    {
        proof {
            reveal_strlit("up");
            reveal_strlit("down");
            reveal_strlit("left");
            reveal_strlit("right");
        }
        let mut fx: i32 = player_x as i32;
        let mut fy: i32 = player_y as i32;
        if str_eq(facing, "up") {
            fy = fy - 1;
        } else if str_eq(facing, "down") {
            fy = fy + 1;
        } else if str_eq(facing, "left") {
            fx = fx - 1;
        } else if str_eq(facing, "right") {
            fx = fx + 1;
        }
        assert("up"@.len() != "left"@.len() && "up"@.len() != "right"@.len());
        assert("down"@[0] != "left"@[0] && "down"@.len() != "right"@.len());
        assert(fx as int == (if facing@ == "left"@ { player_x - 1 } else if facing@ == "right"@ { player_x + 1 } else { player_x as int }));
        assert(fy as int == (if facing@ == "up"@ { player_y - 1 } else if facing@ == "down"@ { player_y + 1 } else { player_y as int }));
        div2_tz(fx - 1) * 3 + div2_tz(fy - 7)
    }

    /// Inspect can `can`: decide the answer from the puzzle's state
    /// (`solved` when the second lock is already open), draw from `rng` as
    /// the answer needs, and queue the answer's script steps.
    pub fn start(&mut self, rng: &mut ScriptRng, solved: bool, can: i32, zh: bool) -> (o: TrashOutcome)
        requires
            !solved && old(self)@.phase == 0 && old(self)@.first == i32::MAX ==> can != i32::MAX,
        ensures
            ({
                let (outcome, first, second, phase, state) = spec_inspect(old(self)@, old(rng).state, solved, can);
                &&& o == outcome
                &&& final(self)@.first == first
                &&& final(self)@.second == second
                &&& final(self)@.phase == phase
                &&& final(rng).state == state
                &&& final(self)@.steps == spec_outcome_steps(outcome, zh)
                &&& final(self)@.pending is None
                &&& final(self)@.active
            }),
    {
        proof {
            reveal_strlit("zh");
            reveal_strlit("en");
            assert("en"@[0] != "zh"@[0]);
        }
        let mut steps: Vec<TrashStep> = Vec::new();
        let outcome;
        if solved {
            outcome = TrashOutcome::Solved;
        } else if self.phase == 0 {
            if self.first < 0 {
                self.first = (rng.next_rand() % 15) as i32;
            }
            if can == self.first {
                let adj = cans_adjacent(self.first);
                let v = rng.next_rand();
                let k = (v % (adj.len() as u64)) as usize;
                proof {
                    assert(adj@.map_values(|c: i32| c as int)[k as int] == adj@[k as int] as int);
                }
                self.second = adj[k];
                self.phase = 1;
                outcome = TrashOutcome::FirstSwitch;
            } else {
                outcome = TrashOutcome::OnlyTrash;
            }
        } else if can == self.second {
            outcome = TrashOutcome::SecondSwitch;
        } else {
            self.phase = 0;
            self.first = (rng.next_rand() % 15) as i32;
            self.second = -1;
            outcome = TrashOutcome::Relocked;
        }
        match outcome {
            TrashOutcome::Solved | TrashOutcome::OnlyTrash => {
                steps.push(TrashStep::ShowText(zh_or_en(if zh { "zh" } else { "en" }, "Nope, there's\nonly trash here.", "不，这里\n只有垃圾。")));
            },
            TrashOutcome::FirstSwitch => {
                steps.push(TrashStep::SetFlag("EVENT_1ST_LOCK_OPENED"));
                steps.push(TrashStep::PlaySound(String::from_str("SFX_SWITCH")));
                steps.push(TrashStep::ShowText(zh_or_en(if zh { "zh" } else { "en" },
                    "Hey! There's a\nswitch under the\ntrash!\nTurn it on!\n\nThe 1st electric\nlock opened!",
                    "嘿！垃圾桶\n下面有开关！\n打开它！\n\n第1道电子锁\n打开了！")));
            },
            TrashOutcome::SecondSwitch => {
                steps.push(TrashStep::SetFlag("EVENT_2ND_LOCK_OPENED"));
                steps.push(TrashStep::ReplaceTileBlock(2, 2, 5));
                steps.push(TrashStep::PlaySound(String::from_str("SFX_GO_INSIDE")));
                steps.push(TrashStep::ShowText(zh_or_en(if zh { "zh" } else { "en" },
                    "The 2nd electric\nlock opened!\n\nThe motorized door\nopened!",
                    "第2道电子锁\n打开了！\n\n电动门\n打开了！")));
            },
            TrashOutcome::Relocked => {
                steps.push(TrashStep::ResetFlag("EVENT_1ST_LOCK_OPENED"));
                steps.push(TrashStep::PlaySound(String::from_str("SFX_DENIED")));
                steps.push(TrashStep::ShowText(zh_or_en(if zh { "zh" } else { "en" },
                    "Nope, there's\nonly trash here!\n\nHold on!\n\nThe electric locks\nare re-locked!",
                    "不，这里\n只有垃圾！\n\n等等！\n\n电子锁\n又锁上了！")));
            },
        }
        assert(steps_view(steps@) =~= spec_outcome_steps(outcome, zh));
        self.steps = steps;
        self.pending = None;
        self.active = true;
        outcome
    }

    /// The next command of the puzzle's script: flag steps on the way are
    /// appended to `flag_writes` (as (flag, value)) and applied at once;
    /// the command is handed out and remembered; `None` (and the puzzle
    /// idle) when the script is over.
    pub fn next_command(&mut self, flag_writes: &mut Vec<(&'static str, bool)>) -> (r: Option<TrashStep>)
        ensures
            final(self)@.first == old(self)@.first,
            final(self)@.second == old(self)@.second,
            final(self)@.phase == old(self)@.phase,
            match r {
                Some(c) => exists|k: int|
                    0 <= k < old(self)@.steps.len() && old(self)@.steps[k] == c@ && !is_flag_step(c@) && (forall|j: int|
                        0 <= j < k ==> is_flag_step(#[trigger] old(self)@.steps[j])) && final(self)@.steps
                        == old(self)@.steps.subrange(k + 1, old(self)@.steps.len() as int) && flags_view(final(flag_writes)@)
                        == flags_view(old(flag_writes)@) + spec_flag_writes(old(self)@.steps.subrange(0, k))
                        && final(self)@.pending == Some(c@) && final(self)@.active,
                None => (forall|j: int| 0 <= j < old(self)@.steps.len() ==> is_flag_step(#[trigger] old(self)@.steps[j]))
                    && final(self)@.steps == Seq::<TrashStepView>::empty() && flags_view(final(flag_writes)@)
                    == flags_view(old(flag_writes)@) + spec_flag_writes(old(self)@.steps) && final(self)@.pending is None
                    && !final(self)@.active,
            },
    {
        let ghost orig = steps_view(self.steps@);
        let ghost writes0 = flags_view(flag_writes@);
        let ghost mut k: int = 0;
        assert(orig.subrange(0, 0) =~= Seq::<TrashStepView>::empty());
        assert(steps_view(self.steps@) =~= orig.subrange(0, orig.len() as int));
        assert(writes0 + spec_flag_writes(orig.subrange(0, 0)) =~= writes0);
        while self.steps.len() > 0
            invariant
                0 <= k <= orig.len(),
                steps_view(self.steps@) == orig.subrange(k, orig.len() as int),
                forall|j: int| 0 <= j < k ==> is_flag_step(#[trigger] orig[j]),
                flags_view(flag_writes@) == writes0 + spec_flag_writes(orig.subrange(0, k)),
                self.first == old(self).first,
                self.second == old(self).second,
                self.phase == old(self).phase,
                orig == steps_view(old(self).steps@),
                writes0 == flags_view(old(flag_writes)@),
            decreases self.steps@.len(),
        {
            let ghost before = self.steps@;
            assert(steps_view(before).len() == before.len());
            assert(k < orig.len());
            assert(steps_view(before)[0] == before[0]@);
            assert(orig.subrange(k, orig.len() as int)[0] == orig[k]);
            let step = self.steps.remove(0);
            assert(orig[k] == step@);
            assert(steps_view(self.steps@) =~= steps_view(before).subrange(1, before.len() as int));
            assert(orig.subrange(0, k + 1).drop_last() =~= orig.subrange(0, k));
            match step {
                TrashStep::SetFlag(f) => {
                    let ghost prev = flag_writes@;
                    flag_writes.push((f, true));
                    proof {
                        assert(flags_view(flag_writes@) =~= flags_view(prev).push((f@, true)));
                        assert(orig.subrange(0, k + 1).last() == orig[k]);
                        assert(spec_flag_writes(orig.subrange(0, k + 1)) == spec_flag_writes(orig.subrange(0, k)).push((f@, true)));
                        assert(flags_view(flag_writes@) =~= writes0 + spec_flag_writes(orig.subrange(0, k + 1)));
                        k = k + 1;
                        assert(steps_view(self.steps@) =~= orig.subrange(k, orig.len() as int));
                    }
                },
                TrashStep::ResetFlag(f) => {
                    let ghost prev = flag_writes@;
                    flag_writes.push((f, false));
                    proof {
                        assert(flags_view(flag_writes@) =~= flags_view(prev).push((f@, false)));
                        assert(orig.subrange(0, k + 1).last() == orig[k]);
                        assert(spec_flag_writes(orig.subrange(0, k + 1)) == spec_flag_writes(orig.subrange(0, k)).push((f@, false)));
                        assert(flags_view(flag_writes@) =~= writes0 + spec_flag_writes(orig.subrange(0, k + 1)));
                        k = k + 1;
                        assert(steps_view(self.steps@) =~= orig.subrange(k, orig.len() as int));
                    }
                },
                _ => {
                    let cmd = copy_step(&step);
                    self.pending = Some(step);
                    self.active = true;
                    proof {
                        assert(steps_view(self.steps@) =~= orig.subrange(k + 1, orig.len() as int));
                        assert(0 <= k < old(self)@.steps.len() && old(self)@.steps[k] == cmd@ && !is_flag_step(cmd@));
                    }
                    return Some(cmd);
                },
            }
        }
        assert(orig.subrange(0, k) =~= orig);
        self.active = false;
        self.pending = None;
        None
    }
}

/// The flag writes, names as character sequences.
pub open spec fn flags_view(w: Seq<(&'static str, bool)>) -> Seq<(Seq<char>, bool)> {
    w.map_values(|e: (&'static str, bool)| (e.0@, e.1))
}

/// Finding the first switch always places the second one on a can next to
/// it: one step along a column or a row of the grid.
pub proof fn lemma_second_switch_adjacent(first: int, k: int)
    requires
        0 <= first < 15,
        0 <= k < spec_adjacent_cans(first).len(),
    ensures
        ({
            let second = spec_adjacent_cans(first)[k];
            &&& 0 <= second < 15
            &&& ((second / 3 == first / 3 && (second % 3 - first % 3 == 1 || first % 3 - second % 3 == 1)) || (second % 3
                == first % 3 && (second / 3 - first / 3 == 1 || first / 3 - second / 3 == 1)))
        }),
{
}

} // verus!
