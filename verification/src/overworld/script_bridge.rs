//! The bridge from script commands to overworld effects: each command the
//! script runtime yields becomes the effect the overworld plays, with the
//! `<PLAYER>`, `<RIVAL>` and `<STARTER>` placeholders of texts filled in;
//! game-defined commands are dispatched by their verb name. Also the
//! choice-box cursor, direction names, and text-to-dialogue paging.

use vstd::prelude::*;

use crate::direction::Direction;
use crate::naming_screen::NamingScreenState;
use crate::text::{parse_unsigned, replace_all, spec_parse_unsigned, spec_replace, str_eq};

use super::npc_interaction::NpcState;

verus! {

/// An open choice box: the options and the selected one.
#[derive(Debug, Clone)]
pub struct PendingChoice {
    pub options: Vec<String>,
    pub selected: u32,
}

impl PendingChoice {
    pub fn new(options: Vec<String>) -> (c: PendingChoice)
        ensures
            c.options@ == options@,
            c.selected == 0,
    {
        PendingChoice { options, selected: 0 }
    }

    /// Move the cursor up, wrapping from the first option to the last.
    pub fn move_up(&mut self)
        requires
            old(self).options.len() <= u32::MAX,
        ensures
            final(self).options@ == old(self).options@,
            final(self).selected == if old(self).options.len() == 0 {
                old(self).selected
            } else if old(self).selected == 0 {
                (old(self).options.len() - 1) as u32
            } else {
                (old(self).selected - 1) as u32
            },
    {
        if self.options.len() == 0 {
            return;
        }
        if self.selected == 0 {
            self.selected = self.options.len() as u32 - 1;
        } else {
            self.selected = self.selected - 1;
        }
    }

    /// Move the cursor down, wrapping from the last option to the first.
    pub fn move_down(&mut self)
        requires
            old(self).options.len() <= u32::MAX,
            old(self).options.len() > 0 ==> old(self).selected < u32::MAX,
        ensures
            final(self).options@ == old(self).options@,
            final(self).selected == if old(self).options.len() == 0 {
                old(self).selected as int
            } else {
                (old(self).selected + 1) % (old(self).options.len() as int)
            },
    {
        if self.options.len() == 0 {
            return;
        }
        self.selected = (self.selected + 1) % (self.options.len() as u32);
    }
}

/// On a non-empty choice box with the cursor on an option, moving down
/// and back up returns to that option, and so does moving up and back
/// down.
pub proof fn lemma_choice_moves_undo(len: int, selected: int)
    requires
        0 < len <= u32::MAX,
        0 <= selected < len,
    ensures
        ({
            let down = (selected + 1) % len;
            (if down == 0 { len - 1 } else { down - 1 }) == selected
        }),
        ({
            let up = if selected == 0 { len - 1 } else { selected - 1 };
            (up + 1) % len == selected
        }),
{
    if selected + 1 < len {
        vstd::arithmetic::div_mod::lemma_small_mod((selected + 1) as nat, len as nat);
    } else {
        vstd::arithmetic::div_mod::lemma_mod_self_0(len);
    }
    if selected == 0 {
        vstd::arithmetic::div_mod::lemma_mod_self_0(len);
    } else {
        vstd::arithmetic::div_mod::lemma_small_mod(selected as nat, len as nat);
    }
}

/// An argument of a game-defined command, as the script passed it.
#[derive(Debug, Clone, PartialEq, Eq)]
pub enum ScriptArg {
    Null,
    Bool(bool),
    /// A number, with its value when it is an unsigned integer.
    Number(Option<u64>),
    Text(String),
    /// An array, with each element's text when it is a string.
    Array(Vec<Option<String>>),
    Object,
}

/// A command yielded by the script runtime.
#[derive(Debug, Clone, PartialEq, Eq)]
pub enum ScriptCommand {
    ShowText { text: String },
    ShowChoice { options: Vec<String> },
    GiveItem { item_id: String, quantity: u8 },
    GiveMonster { species: String, level: u8 },
    TakeItem { item_id: String, quantity: u8 },
    SetFlag { flag: String },
    ResetFlag { flag: String },
    CheckFlag { flag: String },
    ShowObject { object_index: u8 },
    HideObject { object_index: u8 },
    ShowObjectByName { toggle_id: String },
    HideObjectByName { toggle_id: String },
    MoveNpc { npc_id: String, path: Vec<(u8, u8)> },
    StartNpcMove { npc_id: String, path: Vec<(u8, u8)> },
    AwaitNpcMove { npc_id: String },
    MovePlayer { path: Vec<(u8, u8)> },
    /// Relative player steps, each a (dx, dy) applied in turn.
    MovePlayerRelative { steps: Vec<(i16, i16)> },
    MoveNpcTo { npc_id: String, x: u8, y: u8 },
    StartNpcMoveTo { npc_id: String, x: u8, y: u8 },
    MovePlayerTo { x: u8, y: u8 },
    FaceNpc { npc_id: String, direction: String },
    FacePlayer { direction: String },
    PlayMusic { music_id: String },
    PlaySound { sound_id: String },
    StopMusic,
    FadeOutMusic,
    StartBattle { trainer_id: String },
    StartWildBattle { species: String, level: u8 },
    SetWeather { weather: Option<String> },
    Delay { frames: u16 },
    WarpTo { map: String, x: u8, y: u8 },
    Heal,
    FadeScreen { fade_type: String },
    SetJoyIgnore { mask: u8 },
    ClearJoyIgnore,
    FollowNpc { npc_id: String, target_x: u8, target_y: u8 },
    OpenShop { items: Vec<String> },
    ShowEmotionBubble { npc_id: String, emotion: String },
    SetNpcPosition { npc_id: String, x: u8, y: u8 },
    SetNpcFrame { npc_id: String, frame: u8 },
    ShowScene { scene_name: String, layout_json: Option<String> },
    HideScene { scene_name: String },
    UpdateUI { scene_name: String, data_json: String },
    GiveMoney { amount: u32 },
    TakeMoney { amount: u32 },
    PlayCry { species: String },
    GiveBadge { badge: u8 },
    /// A game-defined command: its verb name and arguments.
    Custom { name: String, args: Vec<ScriptArg> },
}

#[derive(Debug, Clone, PartialEq, Eq, Structural)]
pub enum FollowNpcPhase {
    StartNpc,
    Following {
        last_npc_x: u16,
        last_npc_y: u16,
        /// Set once the NPC's final tile joined the player's path.
        final_push_done: bool,
    },
    Done,
}

#[derive(Debug, Clone, PartialEq, Eq, Structural)]
pub enum HealingMachinePhase {
    FadeOutMusic,
    WaitForFadeOut,
    HealPartyMember { member_index: u8, total_members: u8 },
    PlayHealedMusic,
    FlashSprite { flashes_remaining: u8 },
    WaitForMusic,
    Done,
}

/// What the overworld plays for a command.
#[derive(Debug, Clone)]
pub enum ScriptEffect {
    ShowDialogue { text: String },
    ShowChoice { options: Vec<String>, started: bool, selected: u32 },
    GiveItem { item_id: String, quantity: u8 },
    TakeItem { item_id: String, quantity: u8 },
    GivePokemon { species: String, nickname: Option<String>, level: u8 },
    ShowObject { object_index: u8 },
    HideObject { object_index: u8 },
    ShowObjectByName { toggle_id: String },
    HideObjectByName { toggle_id: String },
    MoveNpc { npc_id: String, path: Vec<(u8, u8)>, started: bool },
    StartNpcMove { npc_id: String, path: Vec<(u8, u8)> },
    AwaitNpcMove { npc_id: String },
    MovePlayer { path: Vec<(u8, u8)>, started: bool },
    MovePlayerRelative { steps: Vec<(i16, i16)>, started: bool },
    MoveNpcTo { npc_id: String, x: u8, y: u8, started: bool },
    StartNpcMoveTo { npc_id: String, x: u8, y: u8 },
    MovePlayerTo { x: u8, y: u8, started: bool },
    FaceNpc { npc_id: String, direction: Direction },
    FacePlayer { direction: Direction },
    PlayMusic { music_id: String },
    PlaySound { sound_id: String },
    StopMusic,
    FadeOutMusic,
    StartBattle { trainer_id: String, rival_triplet_base: Option<u8> },
    StartWildBattle { species: String, level: u8 },
    /// The Viridian old man's catching demo battle.
    OldManTutorial,
    TradePokemon { offered: String, received: String, nickname: String },
    Delay { frames: u16, frames_remaining: u16 },
    WarpTo { map: String, x: u8, y: u8 },
    Heal,
    AnimateHealingMachine { phase: HealingMachinePhase, frames_remaining: u16 },
    FadeScreen { fade_type: String },
    SetJoyIgnore { mask: u8 },
    ClearJoyIgnore,
    FollowNpc { npc_id: String, target_x: u8, target_y: u8, phase: FollowNpcPhase },
    ShowPokedexEntry { species: String, started: bool },
    NamingScreen {
        species: String,
        naming_state: Option<NamingScreenState>,
        started: bool,
        result_name: Option<String>,
    },
    /// Open the party menu as a selector; `result_index` stays `None` until
    /// the selection resolves.
    ChoosePartyPokemon { started: bool, result_index: Option<i32> },
    /// Write a new nickname onto the party member at `index`.
    SetPartyNickname { index: u8, nickname: String },
    /// The command completes at once with no value.
    Immediate,
    OpenShop { items: Vec<String> },
    /// The Game Corner slot machine (`lucky` = better odds).
    OpenSlots { lucky: bool },
    /// The elevator floor menu; the script resumes with the chosen floor.
    ElevatorMenu { floors: Vec<String> },
    /// A filtered bag menu; the script resumes with the chosen item.
    FilterBag { item_ids: Vec<String> },
    /// The completed-Pokédex diploma.
    ShowDiploma,
    /// Open a PC storage screen ("center", "items" or "bills").
    OpenPc { kind: String },
    /// Start the Cable Club link flow.
    LinkStart,
    /// The Hall of Fame ceremony and credits.
    HallOfFameCeremony,
    ShowEmotionBubble { npc_id: String, emotion: String, frames_remaining: u16, started: bool },
    SetNpcPosition { npc_id: String, x: u8, y: u8 },
    SetNpcFrame { npc_id: String, frame: u8 },
    GiveMoney { amount: u32 },
    TakeMoney { amount: u32 },
    GiveCoins { amount: u16 },
    TakeCoins { amount: u16 },
    /// Deposit the party member at `index` into the Day Care.
    DepositDaycare { index: u8 },
    /// Withdraw the Day Care Pokémon back into the party.
    WithdrawDaycare,
    PlayCry { species: String },
    GiveBadge { badge: u8 },
    /// Replace a map block at runtime (block coordinates).
    ReplaceTileBlock { x: u8, y: u8, block_id: u8 },
    /// The S.S. Anne departure cutscene; the script waits for its end.
    PlayShipDeparture { started: bool },
}

/// A direction name, ignoring letter case: up/north, down/south,
/// left/west, right/east.
pub open spec fn spec_parse_direction(s: Seq<char>) -> Option<Direction> {
    let l = spec_ascii_lower(s);
    if l == "up"@ || l == "north"@ {
        Some(Direction::Up)
    } else if l == "down"@ || l == "south"@ {
        Some(Direction::Down)
    } else if l == "left"@ || l == "west"@ {
        Some(Direction::Left)
    } else if l == "right"@ || l == "east"@ {
        Some(Direction::Right)
    } else {
        None
    }
}

/// `s` with the letters A-Z lowered.
pub open spec fn spec_ascii_lower(s: Seq<char>) -> Seq<char> {
    s.map_values(|c: char| if 'A' <= c && c <= 'Z' { ((c as u32) + 32) as char } else { c })
}

/// `a` equals `b` with letter case ignored (`b` in lower case).
fn eq_ignore_case(a: &str, b: &str) -> (r: bool)
    ensures
        r == (spec_ascii_lower(a@) == b@),
{
    let n = a.unicode_len();
    if n != b.unicode_len() {
        assert(spec_ascii_lower(a@).len() == a@.len());
        return false;
    }
    let mut i: usize = 0;
    while i < n
        invariant
            n == a@.len(),
            n == b@.len(),
            i <= n,
            forall|k: int| 0 <= k < i ==> spec_ascii_lower(a@)[k] == b@[k],
        decreases n - i,
    {
        let c = a.get_char(i);
        let lc = if 'A' <= c && c <= 'Z' {
            ((c as u32) + 32) as u8 as char
        } else {
            c
        };
        assert(spec_ascii_lower(a@)[i as int] == lc);
        if lc != b.get_char(i) {
            return false;
        }
        i += 1;
    }
    assert(spec_ascii_lower(a@) =~= b@);
    true
}

/// The direction a name stands for, ignoring letter case (no character
/// but the ASCII letters lowers to a letter of these names).
pub fn parse_direction(s: &str) -> (r: Option<Direction>)
    ensures
        r == spec_parse_direction(s@),
{
    if eq_ignore_case(s, "up") || eq_ignore_case(s, "north") {
        Some(Direction::Up)
    } else if eq_ignore_case(s, "down") || eq_ignore_case(s, "south") {
        Some(Direction::Down)
    } else if eq_ignore_case(s, "left") || eq_ignore_case(s, "west") {
        Some(Direction::Left)
    } else if eq_ignore_case(s, "right") || eq_ignore_case(s, "east") {
        Some(Direction::Right)
    } else {
        None
    }
}

/// A text with `<PLAYER>`, `<RIVAL>` and `<STARTER>` filled in, in that
/// order.
pub open spec fn spec_resolve(text: Seq<char>, player: Seq<char>, rival: Seq<char>, starter: Seq<char>) -> Seq<char> {
    spec_replace(spec_replace(spec_replace(text, "<PLAYER>"@, player), "<RIVAL>"@, rival), "<STARTER>"@, starter)
}

fn resolve_placeholders(text: &str, player_name: &str, rival_name: &str, starter_name: &str) -> (s: String)
    ensures
        s@ == spec_resolve(text@, player_name@, rival_name@, starter_name@),
{
    proof {
        reveal_strlit("<PLAYER>");
        reveal_strlit("<RIVAL>");
        reveal_strlit("<STARTER>");
    }
    let a = replace_all(text, "<PLAYER>", player_name);
    let b = replace_all(a.as_str(), "<RIVAL>", rival_name);
    replace_all(b.as_str(), "<STARTER>", starter_name)
}

fn copy_vec<T: Copy>(v: &Vec<T>) -> (r: Vec<T>)
    ensures
        r@ == v@,
{
    let mut r: Vec<T> = Vec::new();
    let mut i: usize = 0;
    while i < v.len()
        invariant
            i <= v@.len(),
            r@ == v@.subrange(0, i as int),
        decreases v@.len() - i,
    {
        r.push(v[i]);
        i += 1;
        assert(r@ =~= v@.subrange(0, i as int));
    }
    assert(v@.subrange(0, v@.len() as int) =~= v@);
    r
}

fn clone_strings(v: &Vec<String>) -> (r: Vec<String>)
    ensures
        r@ == v@,
{
    let mut r: Vec<String> = Vec::new();
    let mut i: usize = 0;
    while i < v.len()
        invariant
            i <= v@.len(),
            r@ == v@.subrange(0, i as int),
        decreases v@.len() - i,
    {
        r.push(v[i].clone());
        i += 1;
        assert(r@ =~= v@.subrange(0, i as int));
    }
    assert(v@.subrange(0, v@.len() as int) =~= v@);
    r
}

/// The `i`-th argument as a string ("" when missing or not a string).
pub open spec fn spec_custom_str(args: Seq<ScriptArg>, i: int) -> Seq<char> {
    if 0 <= i < args.len() {
        match args[i] {
            ScriptArg::Text(s) => s@,
            _ => Seq::empty(),
        }
    } else {
        Seq::empty()
    }
}

/// The `i`-th argument as an unsigned integer (0 when missing or not one).
pub open spec fn spec_custom_u64(args: Seq<ScriptArg>, i: int) -> u64 {
    if 0 <= i < args.len() {
        match args[i] {
            ScriptArg::Number(Some(n)) => n,
            _ => 0,
        }
    } else {
        0
    }
}

/// The `i`-th argument as a boolean (false when missing or not one).
pub open spec fn spec_custom_bool(args: Seq<ScriptArg>, i: int) -> bool {
    if 0 <= i < args.len() {
        match args[i] {
            ScriptArg::Bool(b) => b,
            _ => false,
        }
    } else {
        false
    }
}

/// The strings among an array's elements, in order.
pub open spec fn spec_present_strings(e: Seq<Option<String>>) -> Seq<String>
    decreases e.len(),
{
    if e.len() == 0 {
        Seq::empty()
    } else {
        let rest = spec_present_strings(e.drop_last());
        match e.last() {
            Some(s) => rest.push(s),
            None => rest,
        }
    }
}

/// An array argument's strings (empty when absent or not an array).
pub open spec fn spec_string_vec(arg: Option<ScriptArg>) -> Seq<String> {
    match arg {
        Some(ScriptArg::Array(e)) => spec_present_strings(e@),
        _ => Seq::empty(),
    }
}

fn custom_str(args: &[ScriptArg], i: usize) -> (s: String)
    ensures
        s@ == spec_custom_str(args@, i as int),
{
    if i < args.len() {
        match &args[i] {
            ScriptArg::Text(s) => s.clone(),
            _ => String::new(),
        }
    } else {
        String::new()
    }
}

fn custom_u64(args: &[ScriptArg], i: usize) -> (n: u64)
    ensures
        n == spec_custom_u64(args@, i as int),
{
    if i < args.len() {
        match &args[i] {
            ScriptArg::Number(Some(n)) => *n,
            _ => 0,
        }
    } else {
        0
    }
}

fn custom_bool(args: &[ScriptArg], i: usize) -> (b: bool)
    ensures
        b == spec_custom_bool(args@, i as int),
{
    if i < args.len() {
        match &args[i] {
            ScriptArg::Bool(b) => *b,
            _ => false,
        }
    } else {
        false
    }
}

fn json_string_vec(arg: Option<&ScriptArg>) -> (r: Vec<String>)
    ensures
        r@ == spec_string_vec(
            match arg {
                Some(a) => Some(*a),
                None => None,
            },
        ),
{
    let elems = match arg {
        Some(ScriptArg::Array(e)) => e,
        _ => {
            return Vec::new();
        },
    };
    let mut r: Vec<String> = Vec::new();
    let mut i: usize = 0;
    while i < elems.len()
        invariant
            i <= elems@.len(),
            r@ == spec_present_strings(elems@.subrange(0, i as int)),
        decreases elems@.len() - i,
    {
        assert(elems@.subrange(0, i + 1).drop_last() =~= elems@.subrange(0, i as int));
        match &elems[i] {
            Some(s) => r.push(s.clone()),
            None => {},
        }
        i += 1;
    }
    assert(elems@.subrange(0, elems@.len() as int) =~= elems@);
    r
}

/// The effect of a game-defined command, by its verb name; unknown names
/// complete at once.
pub open spec fn spec_custom_ok(name: Seq<char>, args: Seq<ScriptArg>, r: ScriptEffect) -> bool {
    if name == "oldManTutorial"@ {
        r is OldManTutorial
    } else if name == "tradePokemon"@ {
        r matches ScriptEffect::TradePokemon { offered, received, nickname } && offered@ == spec_custom_str(args, 0)
            && received@ == spec_custom_str(args, 1) && nickname@ == spec_custom_str(args, 2)
    } else if name == "animateHealingMachine"@ {
        r matches ScriptEffect::AnimateHealingMachine { phase, frames_remaining } && phase is FadeOutMusic
            && frames_remaining == 0
    } else if name == "showPokedexEntry"@ {
        r matches ScriptEffect::ShowPokedexEntry { species, started } && species@ == spec_custom_str(args, 0) && !started
    } else if name == "openNamingScreen"@ {
        r matches ScriptEffect::NamingScreen { species, naming_state, started, result_name } && species@
            == spec_custom_str(args, 0) && naming_state is None && !started && result_name is None
    } else if name == "choosePartyPokemon"@ {
        r matches ScriptEffect::ChoosePartyPokemon { started, result_index } && !started && result_index is None
    } else if name == "setPartyNickname"@ {
        r matches ScriptEffect::SetPartyNickname { index, nickname } && index == spec_custom_u64(args, 0) as u8
            && nickname@ == spec_custom_str(args, 1)
    } else if name == "startBattleSet"@ {
        r matches ScriptEffect::StartBattle { trainer_id, rival_triplet_base } && trainer_id@ == spec_custom_str(args, 0)
            && rival_triplet_base == Some(spec_custom_u64(args, 1) as u8)
    } else if name == "openSlots"@ {
        r matches ScriptEffect::OpenSlots { lucky } && lucky == spec_custom_bool(args, 0)
    } else if name == "elevatorMenu"@ {
        r matches ScriptEffect::ElevatorMenu { floors } && floors@ == spec_string_vec(first_arg(args))
    } else if name == "filterBag"@ {
        r matches ScriptEffect::FilterBag { item_ids } && item_ids@ == spec_string_vec(first_arg(args))
    } else if name == "showDiploma"@ {
        r is ShowDiploma
    } else if name == "openPC"@ {
        r matches ScriptEffect::OpenPc { kind } && kind@ == "center"@
    } else if name == "openItemPC"@ {
        r matches ScriptEffect::OpenPc { kind } && kind@ == "items"@
    } else if name == "openBillsPC"@ {
        r matches ScriptEffect::OpenPc { kind } && kind@ == "bills"@
    } else if name == "linkStart"@ {
        r is LinkStart
    } else if name == "giveCoins"@ {
        r matches ScriptEffect::GiveCoins { amount } && amount == spec_custom_u64(args, 0) as u16
    } else if name == "takeCoins"@ {
        r matches ScriptEffect::TakeCoins { amount } && amount == spec_custom_u64(args, 0) as u16
    } else if name == "depositDaycare"@ {
        r matches ScriptEffect::DepositDaycare { index } && index == spec_custom_u64(args, 0) as u8
    } else if name == "withdrawDaycare"@ {
        r is WithdrawDaycare
    } else if name == "replaceTileBlock"@ {
        r matches ScriptEffect::ReplaceTileBlock { x, y, block_id } && x == spec_custom_u64(args, 0) as u8 && y
            == spec_custom_u64(args, 1) as u8 && block_id == spec_custom_u64(args, 2) as u8
    } else if name == "playShipDeparture"@ {
        r matches ScriptEffect::PlayShipDeparture { started } && !started
    } else if name == "enterHallOfFame"@ {
        r is HallOfFameCeremony
    } else {
        r is Immediate
    }
}

/// The first element of a sequence, if any.
pub open spec fn first_arg(args: Seq<ScriptArg>) -> Option<ScriptArg> {
    if args.len() > 0 { Some(args[0]) } else { None }
}

fn dispatch_custom(name: &str, args: &[ScriptArg]) -> (r: ScriptEffect)
    ensures
        spec_custom_ok(name@, args@, r),
{
    let first = if args.len() > 0 {
        Some(&args[0])
    } else {
        None
    };
    if str_eq(name, "oldManTutorial") {
        ScriptEffect::OldManTutorial
    } else if str_eq(name, "tradePokemon") {
        ScriptEffect::TradePokemon {
            offered: custom_str(args, 0),
            received: custom_str(args, 1),
            nickname: custom_str(args, 2),
        }
    } else if str_eq(name, "animateHealingMachine") {
        ScriptEffect::AnimateHealingMachine { phase: HealingMachinePhase::FadeOutMusic, frames_remaining: 0 }
    } else if str_eq(name, "showPokedexEntry") {
        ScriptEffect::ShowPokedexEntry { species: custom_str(args, 0), started: false }
    } else if str_eq(name, "openNamingScreen") {
        ScriptEffect::NamingScreen {
            species: custom_str(args, 0),
            naming_state: None,
            started: false,
            result_name: None,
        }
    } else if str_eq(name, "choosePartyPokemon") {
        ScriptEffect::ChoosePartyPokemon { started: false, result_index: None }
    } else if str_eq(name, "setPartyNickname") {
        ScriptEffect::SetPartyNickname { index: custom_u64(args, 0) as u8, nickname: custom_str(args, 1) }
    } else if str_eq(name, "startBattleSet") {
        ScriptEffect::StartBattle {
            trainer_id: custom_str(args, 0),
            rival_triplet_base: Some(custom_u64(args, 1) as u8),
        }
    } else if str_eq(name, "openSlots") {
        ScriptEffect::OpenSlots { lucky: custom_bool(args, 0) }
    } else if str_eq(name, "elevatorMenu") {
        ScriptEffect::ElevatorMenu { floors: json_string_vec(first) }
    } else if str_eq(name, "filterBag") {
        ScriptEffect::FilterBag { item_ids: json_string_vec(first) }
    } else if str_eq(name, "showDiploma") {
        ScriptEffect::ShowDiploma
    } else if str_eq(name, "openPC") {
        ScriptEffect::OpenPc { kind: String::from_str("center") }
    } else if str_eq(name, "openItemPC") {
        ScriptEffect::OpenPc { kind: String::from_str("items") }
    } else if str_eq(name, "openBillsPC") {
        ScriptEffect::OpenPc { kind: String::from_str("bills") }
    } else if str_eq(name, "linkStart") {
        ScriptEffect::LinkStart
    } else if str_eq(name, "giveCoins") {
        ScriptEffect::GiveCoins { amount: custom_u64(args, 0) as u16 }
    } else if str_eq(name, "takeCoins") {
        ScriptEffect::TakeCoins { amount: custom_u64(args, 0) as u16 }
    } else if str_eq(name, "depositDaycare") {
        ScriptEffect::DepositDaycare { index: custom_u64(args, 0) as u8 }
    } else if str_eq(name, "withdrawDaycare") {
        ScriptEffect::WithdrawDaycare
    } else if str_eq(name, "replaceTileBlock") {
        ScriptEffect::ReplaceTileBlock {
            x: custom_u64(args, 0) as u8,
            y: custom_u64(args, 1) as u8,
            block_id: custom_u64(args, 2) as u8,
        }
    } else if str_eq(name, "playShipDeparture") {
        ScriptEffect::PlayShipDeparture { started: false }
    } else if str_eq(name, "enterHallOfFame") {
        ScriptEffect::HallOfFameCeremony
    } else {
        ScriptEffect::Immediate
    }
}

/// A direction name's direction, down when it names none.
pub open spec fn spec_direction_or_down(s: Seq<char>) -> Direction {
    match spec_parse_direction(s) {
        Some(d) => d,
        None => Direction::Down,
    }
}

/// The effect a command becomes: the command's data carried over (texts
/// with their placeholders filled in, direction names read, movement and
/// waits not started yet); game-defined commands by their verb; the flag
/// commands (handled before dispatch) and the engine's scene and weather
/// commands complete at once.
pub open spec fn spec_dispatch_ok(
    cmd: ScriptCommand,
    player: Seq<char>,
    rival: Seq<char>,
    starter: Seq<char>,
    r: ScriptEffect,
) -> bool {
    match cmd {
        ScriptCommand::ShowText { text } => r matches ScriptEffect::ShowDialogue { text: t } && t@ == spec_resolve(
            text@,
            player,
            rival,
            starter,
        ),
        ScriptCommand::ShowChoice { options } => r matches ScriptEffect::ShowChoice { options: o, started, selected }
            && o@ == options@ && !started && selected == 0,
        ScriptCommand::GiveItem { item_id, quantity } => r matches ScriptEffect::GiveItem { item_id: i, quantity: q }
            && i@ == item_id@ && q == quantity,
        ScriptCommand::TakeItem { item_id, quantity } => r matches ScriptEffect::TakeItem { item_id: i, quantity: q }
            && i@ == item_id@ && q == quantity,
        ScriptCommand::GiveMonster { species, level } => r matches ScriptEffect::GivePokemon {
            species: s,
            nickname,
            level: l,
        } && s@ == species@ && nickname is None && l == level,
        ScriptCommand::ShowObject { object_index } => r matches ScriptEffect::ShowObject { object_index: o } && o
            == object_index,
        ScriptCommand::HideObject { object_index } => r matches ScriptEffect::HideObject { object_index: o } && o
            == object_index,
        ScriptCommand::ShowObjectByName { toggle_id } => r matches ScriptEffect::ShowObjectByName { toggle_id: t } && t@
            == toggle_id@,
        ScriptCommand::HideObjectByName { toggle_id } => r matches ScriptEffect::HideObjectByName { toggle_id: t } && t@
            == toggle_id@,
        ScriptCommand::MoveNpc { npc_id, path } => r matches ScriptEffect::MoveNpc { npc_id: n, path: q, started } && n@
            == npc_id@ && q@ == path@ && !started,
        ScriptCommand::StartNpcMove { npc_id, path } => r matches ScriptEffect::StartNpcMove { npc_id: n, path: q } && n@
            == npc_id@ && q@ == path@,
        ScriptCommand::AwaitNpcMove { npc_id } => r matches ScriptEffect::AwaitNpcMove { npc_id: n } && n@ == npc_id@,
        ScriptCommand::MovePlayer { path } => r matches ScriptEffect::MovePlayer { path: q, started } && q@ == path@
            && !started,
        ScriptCommand::MovePlayerRelative { steps } => r matches ScriptEffect::MovePlayerRelative { steps: q, started }
            && q@ == steps@ && !started,
        ScriptCommand::MoveNpcTo { npc_id, x, y } => r matches ScriptEffect::MoveNpcTo { npc_id: n, x: a, y: b, started }
            && n@ == npc_id@ && a == x && b == y && !started,
        ScriptCommand::StartNpcMoveTo { npc_id, x, y } => r matches ScriptEffect::StartNpcMoveTo { npc_id: n, x: a, y: b }
            && n@ == npc_id@ && a == x && b == y,
        ScriptCommand::MovePlayerTo { x, y } => r matches ScriptEffect::MovePlayerTo { x: a, y: b, started } && a == x
            && b == y && !started,
        ScriptCommand::FaceNpc { npc_id, direction } => r matches ScriptEffect::FaceNpc { npc_id: n, direction: d } && n@
            == npc_id@ && d == spec_direction_or_down(direction@),
        ScriptCommand::FacePlayer { direction } => r matches ScriptEffect::FacePlayer { direction: d } && d
            == spec_direction_or_down(direction@),
        ScriptCommand::PlayMusic { music_id } => r matches ScriptEffect::PlayMusic { music_id: m } && m@ == music_id@,
        ScriptCommand::PlaySound { sound_id } => r matches ScriptEffect::PlaySound { sound_id: m } && m@ == sound_id@,
        ScriptCommand::StopMusic => r is StopMusic,
        ScriptCommand::FadeOutMusic => r is FadeOutMusic,
        ScriptCommand::StartBattle { trainer_id } => r matches ScriptEffect::StartBattle {
            trainer_id: t,
            rival_triplet_base,
        } && t@ == trainer_id@ && rival_triplet_base is None,
        ScriptCommand::StartWildBattle { species, level } => r matches ScriptEffect::StartWildBattle {
            species: s,
            level: l,
        } && s@ == species@ && l == level,
        ScriptCommand::Custom { name, args } => spec_custom_ok(name@, args@, r),
        ScriptCommand::Delay { frames } => r matches ScriptEffect::Delay { frames: f, frames_remaining } && f == frames
            && frames_remaining == frames,
        ScriptCommand::WarpTo { map, x, y } => r matches ScriptEffect::WarpTo { map: m, x: a, y: b } && m@ == map@ && a
            == x && b == y,
        ScriptCommand::Heal => r is Heal,
        ScriptCommand::FadeScreen { fade_type } => r matches ScriptEffect::FadeScreen { fade_type: f } && f@
            == fade_type@,
        ScriptCommand::SetJoyIgnore { mask } => r matches ScriptEffect::SetJoyIgnore { mask: m } && m == mask,
        ScriptCommand::ClearJoyIgnore => r is ClearJoyIgnore,
        ScriptCommand::FollowNpc { npc_id, target_x, target_y } => r matches ScriptEffect::FollowNpc {
            npc_id: n,
            target_x: a,
            target_y: b,
            phase,
        } && n@ == npc_id@ && a == target_x && b == target_y && phase is StartNpc,
        ScriptCommand::OpenShop { items } => r matches ScriptEffect::OpenShop { items: i } && i@ == items@,
        ScriptCommand::ShowEmotionBubble { npc_id, emotion } => r matches ScriptEffect::ShowEmotionBubble {
            npc_id: n,
            emotion: e,
            frames_remaining,
            started,
        } && n@ == npc_id@ && e@ == emotion@ && frames_remaining == 60 && !started,
        ScriptCommand::SetNpcPosition { npc_id, x, y } => r matches ScriptEffect::SetNpcPosition { npc_id: n, x: a, y: b }
            && n@ == npc_id@ && a == x && b == y,
        ScriptCommand::SetNpcFrame { npc_id, frame } => r matches ScriptEffect::SetNpcFrame { npc_id: n, frame: f } && n@
            == npc_id@ && f == frame,
        ScriptCommand::GiveMoney { amount } => r matches ScriptEffect::GiveMoney { amount: a } && a == amount,
        ScriptCommand::TakeMoney { amount } => r matches ScriptEffect::TakeMoney { amount: a } && a == amount,
        ScriptCommand::PlayCry { species } => r matches ScriptEffect::PlayCry { species: s } && s@ == species@,
        ScriptCommand::GiveBadge { badge } => r matches ScriptEffect::GiveBadge { badge: b } && b == badge,
        ScriptCommand::SetFlag { .. } | ScriptCommand::ResetFlag { .. } | ScriptCommand::CheckFlag { .. }
        | ScriptCommand::ShowScene { .. } | ScriptCommand::HideScene { .. } | ScriptCommand::UpdateUI { .. }
        | ScriptCommand::SetWeather { .. } => r is Immediate,
    }
}

fn direction_or_down(s: &str) -> (d: Direction)
    ensures
        d == spec_direction_or_down(s@),
{
    match parse_direction(s) {
        Some(d) => d,
        None => Direction::Down,
    }
}

/// The effect of a command, with empty names for the placeholders.
pub fn dispatch_command(cmd: &ScriptCommand) -> (r: ScriptEffect)
    ensures
        spec_dispatch_ok(*cmd, Seq::empty(), Seq::empty(), Seq::empty(), r),
{
    proof {
        reveal_strlit("");
        assert(""@ =~= Seq::<char>::empty());
    }
    dispatch_command_with_names(cmd, "", "", "")
}

/// The effect of a command, filling `<PLAYER>`, `<RIVAL>` and `<STARTER>`
/// in texts with the given names.
pub fn dispatch_command_with_names(cmd: &ScriptCommand, player_name: &str, rival_name: &str, starter_name: &str) -> (r:
    ScriptEffect)
    ensures
        spec_dispatch_ok(*cmd, player_name@, rival_name@, starter_name@, r),
{
    match cmd {
        ScriptCommand::ShowText { text } => {
            let resolved = resolve_placeholders(text.as_str(), player_name, rival_name, starter_name);
            ScriptEffect::ShowDialogue { text: resolved }
        },
        ScriptCommand::ShowChoice { options } => ScriptEffect::ShowChoice {
            options: clone_strings(options),
            started: false,
            selected: 0,
        },
        ScriptCommand::GiveItem { item_id, quantity } => ScriptEffect::GiveItem {
            item_id: item_id.clone(),
            quantity: *quantity,
        },
        ScriptCommand::TakeItem { item_id, quantity } => ScriptEffect::TakeItem {
            item_id: item_id.clone(),
            quantity: *quantity,
        },
        ScriptCommand::GiveMonster { species, level } => ScriptEffect::GivePokemon {
            species: species.clone(),
            nickname: None,
            level: *level,
        },
        ScriptCommand::ShowObject { object_index } => ScriptEffect::ShowObject { object_index: *object_index },
        ScriptCommand::HideObject { object_index } => ScriptEffect::HideObject { object_index: *object_index },
        ScriptCommand::ShowObjectByName { toggle_id } => ScriptEffect::ShowObjectByName { toggle_id: toggle_id.clone() },
        ScriptCommand::HideObjectByName { toggle_id } => ScriptEffect::HideObjectByName { toggle_id: toggle_id.clone() },
        ScriptCommand::MoveNpc { npc_id, path } => ScriptEffect::MoveNpc {
            npc_id: npc_id.clone(),
            path: copy_vec(path),
            started: false,
        },
        ScriptCommand::StartNpcMove { npc_id, path } => ScriptEffect::StartNpcMove {
            npc_id: npc_id.clone(),
            path: copy_vec(path),
        },
        ScriptCommand::AwaitNpcMove { npc_id } => ScriptEffect::AwaitNpcMove { npc_id: npc_id.clone() },
        ScriptCommand::MovePlayer { path } => ScriptEffect::MovePlayer { path: copy_vec(path), started: false },
        ScriptCommand::MovePlayerRelative { steps } => ScriptEffect::MovePlayerRelative {
            steps: copy_vec(steps),
            started: false,
        },
        ScriptCommand::MoveNpcTo { npc_id, x, y } => ScriptEffect::MoveNpcTo {
            npc_id: npc_id.clone(),
            x: *x,
            y: *y,
            started: false,
        },
        ScriptCommand::StartNpcMoveTo { npc_id, x, y } => ScriptEffect::StartNpcMoveTo {
            npc_id: npc_id.clone(),
            x: *x,
            y: *y,
        },
        ScriptCommand::MovePlayerTo { x, y } => ScriptEffect::MovePlayerTo { x: *x, y: *y, started: false },
        ScriptCommand::FaceNpc { npc_id, direction } => ScriptEffect::FaceNpc {
            npc_id: npc_id.clone(),
            direction: direction_or_down(direction.as_str()),
        },
        ScriptCommand::FacePlayer { direction } => ScriptEffect::FacePlayer {
            direction: direction_or_down(direction.as_str()),
        },
        ScriptCommand::PlayMusic { music_id } => ScriptEffect::PlayMusic { music_id: music_id.clone() },
        ScriptCommand::PlaySound { sound_id } => ScriptEffect::PlaySound { sound_id: sound_id.clone() },
        ScriptCommand::StopMusic => ScriptEffect::StopMusic,
        ScriptCommand::FadeOutMusic => ScriptEffect::FadeOutMusic,
        ScriptCommand::StartBattle { trainer_id } => ScriptEffect::StartBattle {
            trainer_id: trainer_id.clone(),
            rival_triplet_base: None,
        },
        ScriptCommand::StartWildBattle { species, level } => ScriptEffect::StartWildBattle {
            species: species.clone(),
            level: *level,
        },
        ScriptCommand::Custom { name, args } => dispatch_custom(name.as_str(), args.as_slice()),
        ScriptCommand::Delay { frames } => ScriptEffect::Delay { frames: *frames, frames_remaining: *frames },
        ScriptCommand::WarpTo { map, x, y } => ScriptEffect::WarpTo { map: map.clone(), x: *x, y: *y },
        ScriptCommand::Heal => ScriptEffect::Heal,
        ScriptCommand::FadeScreen { fade_type } => ScriptEffect::FadeScreen { fade_type: fade_type.clone() },
        ScriptCommand::SetJoyIgnore { mask } => ScriptEffect::SetJoyIgnore { mask: *mask },
        ScriptCommand::ClearJoyIgnore => ScriptEffect::ClearJoyIgnore,
        ScriptCommand::FollowNpc { npc_id, target_x, target_y } => ScriptEffect::FollowNpc {
            npc_id: npc_id.clone(),
            target_x: *target_x,
            target_y: *target_y,
            phase: FollowNpcPhase::StartNpc,
        },
        ScriptCommand::OpenShop { items } => ScriptEffect::OpenShop { items: clone_strings(items) },
        ScriptCommand::ShowEmotionBubble { npc_id, emotion } => ScriptEffect::ShowEmotionBubble {
            npc_id: npc_id.clone(),
            emotion: emotion.clone(),
            frames_remaining: 60,
            started: false,
        },
        ScriptCommand::SetNpcPosition { npc_id, x, y } => ScriptEffect::SetNpcPosition {
            npc_id: npc_id.clone(),
            x: *x,
            y: *y,
        },
        ScriptCommand::SetNpcFrame { npc_id, frame } => ScriptEffect::SetNpcFrame {
            npc_id: npc_id.clone(),
            frame: *frame,
        },
        ScriptCommand::GiveMoney { amount } => ScriptEffect::GiveMoney { amount: *amount },
        ScriptCommand::TakeMoney { amount } => ScriptEffect::TakeMoney { amount: *amount },
        ScriptCommand::PlayCry { species } => ScriptEffect::PlayCry { species: species.clone() },
        ScriptCommand::GiveBadge { badge } => ScriptEffect::GiveBadge { badge: *badge },
        ScriptCommand::SetFlag { .. } | ScriptCommand::ResetFlag { .. } | ScriptCommand::CheckFlag { .. } => {
            ScriptEffect::Immediate
        },
        ScriptCommand::ShowScene { .. } | ScriptCommand::HideScene { .. } | ScriptCommand::UpdateUI { .. } => {
            ScriptEffect::Immediate
        },
        ScriptCommand::SetWeather { .. } => ScriptEffect::Immediate,
    }
}

/// One two-line page of a dialogue box.
#[derive(Debug, Clone, PartialEq, Eq)]
pub struct DialoguePage {
    pub line1: String,
    pub line2: String,
}

/// A line without the carriage return that ended it, if any.
pub open spec fn strip_cr(line: Seq<char>) -> Seq<char> {
    if line.len() > 0 && line.last() == '\r' { line.drop_last() } else { line }
}

/// The lines of a text as `str::lines` gives them, the current line having
/// started with `cur`: lines end at '\n' (a '\r' just before it is
/// dropped), and a last line without a '\n' counts when it is not empty.
pub open spec fn spec_lines_from(cur: Seq<char>, rest: Seq<char>) -> Seq<Seq<char>>
    decreases rest.len(),
{
    if rest.len() == 0 {
        if cur.len() == 0 { Seq::empty() } else { seq![cur] }
    } else if rest[0] == '\n' {
        seq![strip_cr(cur)] + spec_lines_from(Seq::empty(), rest.drop_first())
    } else {
        spec_lines_from(cur.push(rest[0]), rest.drop_first())
    }
}

pub open spec fn spec_lines(text: Seq<char>) -> Seq<Seq<char>> {
    spec_lines_from(Seq::empty(), text)
}

/// Lines paired two per page, the last page's second line empty when the
/// count is odd.
pub open spec fn spec_pair_lines(lines: Seq<Seq<char>>) -> Seq<(Seq<char>, Seq<char>)>
    decreases lines.len(),
{
    if lines.len() == 0 {
        Seq::empty()
    } else if lines.len() == 1 {
        seq![(lines[0], Seq::empty())]
    } else {
        seq![(lines[0], lines[1])] + spec_pair_lines(lines.subrange(2, lines.len() as int))
    }
}

/// The pages of a text: its lines two per page; a text without lines (the
/// empty text) is one page with an empty second line.
pub open spec fn spec_text_pages(text: Seq<char>) -> Seq<(Seq<char>, Seq<char>)> {
    if spec_lines(text).len() == 0 {
        seq![(text, Seq::empty())]
    } else {
        spec_pair_lines(spec_lines(text))
    }
}

pub open spec fn pages_view(p: Seq<DialoguePage>) -> Seq<(Seq<char>, Seq<char>)> {
    p.map_values(|d: DialoguePage| (d.line1@, d.line2@))
}

pub open spec fn strings_view(v: Seq<String>) -> Seq<Seq<char>> {
    v.map_values(|s: String| s@)
}

fn split_lines(text: &str) -> (out: Vec<String>)
    ensures
        strings_view(out@) == spec_lines(text@),
{
    let n = text.unicode_len();
    let mut out: Vec<String> = Vec::new();
    let mut start: usize = 0;
    let mut i: usize = 0;
    assert(strings_view(out@) =~= Seq::<Seq<char>>::empty());
    assert(text@.subrange(0, 0) =~= Seq::<char>::empty());
    assert(text@.subrange(0, n as int) =~= text@);
    while i < n
        invariant
            n == text@.len(),
            start <= i <= n,
            strings_view(out@) + spec_lines_from(text@.subrange(start as int, i as int), text@.subrange(i as int, n as int))
                == spec_lines(text@),
        decreases n - i,
    {
        let c = text.get_char(i);
        let ghost rest = text@.subrange(i as int, n as int);
        let ghost cur = text@.subrange(start as int, i as int);
        assert(rest.drop_first() =~= text@.subrange(i + 1, n as int));
        assert(rest[0] == c);
        if c == '\n' {
            let end = if i > start && text.get_char(i - 1) == '\r' {
                i - 1
            } else {
                i
            };
            let line = String::from_str(text.substring_char(start, end));
            assert(line@ =~= strip_cr(cur));
            let ghost before = strings_view(out@);
            out.push(line);
            assert(strings_view(out@) =~= before.push(line@));
            assert(text@.subrange(i + 1, i + 1) =~= Seq::<char>::empty());
            assert(strings_view(out@) + spec_lines_from(Seq::empty(), rest.drop_first()) =~= before + (seq![strip_cr(cur)]
                + spec_lines_from(Seq::empty(), rest.drop_first())));
            start = i + 1;
        } else {
            assert(cur.push(c) =~= text@.subrange(start as int, i + 1));
        }
        i += 1;
    }
    assert(text@.subrange(i as int, n as int) =~= Seq::<char>::empty());
    if start < n {
        let ghost before = strings_view(out@);
        let last = String::from_str(text.substring_char(start, n));
        out.push(last);
        assert(strings_view(out@) =~= before.push(last@));
        assert(strings_view(out@) =~= before + seq![text@.subrange(start as int, n as int)]);
    } else {
        assert(strings_view(out@) =~= strings_view(out@) + Seq::<Seq<char>>::empty());
    }
    out
}

/// Splits a text into dialogue pages of two lines each.
pub fn text_to_dialogue(text: &str) -> (pages: Vec<DialoguePage>)
    ensures
        pages_view(pages@) == spec_text_pages(text@),
{
    let lines = split_lines(text);
    let mut pages: Vec<DialoguePage> = Vec::new();
    if lines.len() == 0 {
        pages.push(DialoguePage { line1: String::from_str(text), line2: String::new() });
        assert(pages_view(pages@) =~= spec_text_pages(text@));
        return pages;
    }
    let ghost all = strings_view(lines@);
    let mut i: usize = 0;
    assert(all.subrange(0, all.len() as int) =~= all);
    assert(pages_view(pages@) =~= Seq::<(Seq<char>, Seq<char>)>::empty());
    while i < lines.len()
        invariant
            all == strings_view(lines@),
            all.len() > 0,
            i <= lines@.len(),
            pages_view(pages@) + spec_pair_lines(all.subrange(i as int, all.len() as int)) == spec_pair_lines(all),
        decreases lines@.len() - i,
    {
        let ghost rest = all.subrange(i as int, all.len() as int);
        let ghost before = pages_view(pages@);
        let line1 = lines[i].clone();
        if i + 1 < lines.len() {
            let line2 = lines[i + 1].clone();
            pages.push(DialoguePage { line1, line2 });
            assert(pages_view(pages@) =~= before.push((all[i as int], all[i + 1])));
            assert(rest.subrange(2, rest.len() as int) =~= all.subrange(i + 2, all.len() as int));
            assert(pages_view(pages@) + spec_pair_lines(all.subrange(i + 2, all.len() as int)) =~= before + (seq![
                (all[i as int], all[i + 1])] + spec_pair_lines(rest.subrange(2, rest.len() as int))));
            i += 2;
        } else {
            proof {
                reveal_strlit("");
            }
            pages.push(DialoguePage { line1, line2: String::new() });
            assert(pages_view(pages@) =~= before.push((all[i as int], Seq::<char>::empty())));
            assert(all.subrange(i + 1, all.len() as int) =~= Seq::<Seq<char>>::empty());
            assert(pages_view(pages@) + spec_pair_lines(all.subrange(i + 1, all.len() as int)) =~= before
                + seq![(all[i as int], Seq::<char>::empty())]);
            i += 1;
        }
    }
    assert(all.subrange(i as int, all.len() as int) =~= Seq::<Seq<char>>::empty());
    assert(pages_view(pages@) =~= pages_view(pages@) + Seq::<(Seq<char>, Seq<char>)>::empty());
    pages
}

/// The position of the first NPC whose index is the number `npc_id`
/// spells (as `str::parse::<u8>` reads it); `None` when it spells none or
/// no NPC has it.
pub fn find_npc_index_by_id(npcs: &[NpcState], npc_id: &str) -> (r: Option<usize>)
    ensures
        match spec_parse_unsigned(npc_id@, 255) {
            None => r is None,
            Some(v) => match r {
                Some(k) => k < npcs@.len() && npcs@[k as int].npc_index == v && forall|j: int|
                    0 <= j < k ==> (#[trigger] npcs@[j]).npc_index != v,
                None => forall|j: int| 0 <= j < npcs@.len() ==> (#[trigger] npcs@[j]).npc_index != v,
            },
        },
{
    let idx = match parse_unsigned(npc_id, 255) {
        Some(v) => v as u8,
        None => {
            return None;
        },
    };
    let mut k: usize = 0;
    while k < npcs.len() && npcs[k].npc_index != idx
        invariant
            k <= npcs@.len(),
            forall|j: int| 0 <= j < k ==> (#[trigger] npcs@[j]).npc_index != idx,
        decreases npcs@.len() - k,
    {
        k += 1;
    }
    if k < npcs.len() {
        Some(k)
    } else {
        None
    }
}

/// The `tradePokemon` verb keeps its arguments in order: the mon the player
/// offers is the first (text) argument, the one received the second, and
/// the received mon's nickname the third; a missing or non-text argument
/// gives an empty name.
pub proof fn lemma_trade_arguments_in_order(name: String, args: Vec<ScriptArg>, player: Seq<char>, rival: Seq<char>, starter: Seq<char>, r: ScriptEffect)
    requires
        name@ == "tradePokemon"@,
        spec_dispatch_ok(ScriptCommand::Custom { name, args }, player, rival, starter, r),
    ensures
        r matches ScriptEffect::TradePokemon { offered, received, nickname } && {
            &&& args@.len() > 0 ==> (args@[0] matches ScriptArg::Text(t) ==> offered@ == t@)
            &&& args@.len() > 1 ==> (args@[1] matches ScriptArg::Text(t) ==> received@ == t@)
            &&& args@.len() > 2 ==> (args@[2] matches ScriptArg::Text(t) ==> nickname@ == t@)
            &&& !(args@.len() > 0 && args@[0] is Text) ==> offered@.len() == 0
            &&& !(args@.len() > 1 && args@[1] is Text) ==> received@.len() == 0
            &&& !(args@.len() > 2 && args@[2] is Text) ==> nickname@.len() == 0
        },
{
    reveal_strlit("tradePokemon");
    reveal_strlit("oldManTutorial");
    assert("oldManTutorial"@[0] != "tradePokemon"@[0]);
}

} // verus!
