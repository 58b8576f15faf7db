//! Professor Oak's introduction: the typewriter text pages, the pic
//! entrance and slide animations, the default-name menus, the naming
//! screens for the player and the rival, and the shrinking finale.

use vstd::prelude::*;

use crate::naming_screen::{
    alphabet_a_in_grid, naming_wf, presses_alphabet_a, presses_pinyin_letter, spec_fresh_naming,
    spec_update, NamingInput, NamingModel, NamingScreenResult, NamingScreenState,
    NamingScreenType, GRID_COLS, NAMING_FLASH_FRAMES,
};
use crate::text::{char_count, replace_all, spec_replace};

verus! {

/// The game's text language.
#[derive(Debug, Clone, Copy, PartialEq, Eq, Structural)]
pub enum Lang {
    En,
    Zh,
}

pub const DEFAULT_PLAYER_NAMES: [&'static str; 4] = ["RED", "ASH", "JACK", "NEW NAME"];
pub const DEFAULT_RIVAL_NAMES: [&'static str; 4] = ["BLUE", "GARY", "JOHN", "NEW NAME"];

pub open spec fn spec_default_player_name(i: int) -> Seq<char> {
    if i == 0 { "RED"@ } else if i == 1 { "ASH"@ } else if i == 2 { "JACK"@ } else { "NEW NAME"@ }
}

pub open spec fn spec_default_rival_name(i: int) -> Seq<char> {
    if i == 0 { "BLUE"@ } else if i == 1 { "GARY"@ } else if i == 2 { "JOHN"@ } else { "NEW NAME"@ }
}

fn default_player_name(i: usize) -> (s: String)
    requires
        i < 4,
    ensures
        s@ == spec_default_player_name(i as int),
{
    if i == 0 {
        String::from_str("RED")
    } else if i == 1 {
        String::from_str("ASH")
    } else if i == 2 {
        String::from_str("JACK")
    } else {
        String::from_str("NEW NAME")
    }
}

fn default_rival_name(i: usize) -> (s: String)
    requires
        i < 4,
    ensures
        s@ == spec_default_rival_name(i as int),
{
    if i == 0 {
        String::from_str("BLUE")
    } else if i == 1 {
        String::from_str("GARY")
    } else if i == 2 {
        String::from_str("JOHN")
    } else {
        String::from_str("NEW NAME")
    }
}

const TYPEWRITER_CHARS_PER_FRAME: u16 = 1;

// ── Pic entrance animations ─────────────────────────────────────────

/// FadeInIntroPic: 6 palette steps × 10 frames (ProfOak, Rival).
pub const INTRO_FADE_IN_FRAMES: u16 = 60;
/// The 6 background-palette values of the fade-in ramp.
pub const INTRO_FADE_PALETTES: [u8; 6] = [0x54, 0xA8, 0xFC, 0xF8, 0xF4, 0xE4];
/// MovePicLeft: the window slides in from the right over 15 frames
/// (Nidorino, the player).
pub const INTRO_SLIDE_IN_FRAMES: u16 = 15;
/// The fade in from white before the last speech: 3 steps × 8 frames.
pub const FINAL_FADE_IN_FRAMES: u16 = 24;

/// Frames of entrance animation before a text phase starts typing.
pub open spec fn spec_entrance_frames(phase: OakSpeechPhase) -> u16 {
    match phase {
        OakSpeechPhase::Greeting { .. } | OakSpeechPhase::IntroduceRival { .. } => INTRO_FADE_IN_FRAMES,
        OakSpeechPhase::ShowNidorino { .. } | OakSpeechPhase::IntroducePlayer { .. } => INTRO_SLIDE_IN_FRAMES,
        OakSpeechPhase::FinalSpeech { .. } => FINAL_FADE_IN_FRAMES,
        _ => 0,
    }
}

pub fn entrance_frames(phase: &OakSpeechPhase) -> (n: u16)
    ensures
        n == spec_entrance_frames(*phase),
{
    match phase {
        OakSpeechPhase::Greeting { .. } | OakSpeechPhase::IntroduceRival { .. } => INTRO_FADE_IN_FRAMES,
        OakSpeechPhase::ShowNidorino { .. } | OakSpeechPhase::IntroducePlayer { .. } => INTRO_SLIDE_IN_FRAMES,
        OakSpeechPhase::FinalSpeech { .. } => FINAL_FADE_IN_FRAMES,
        _ => 0,
    }
}

/// Horizontal pixel offset of the incoming pic during a MovePicLeft
/// entrance: the window's left edge is rWX - 7 with rWX = 119 - 8·frame,
/// never below 0.
pub fn entrance_slide_offset(phase_frame: u16) -> (x: u32)
    ensures
        x as int == if 112 - 8 * phase_frame < 0 { 0 } else { 112 - 8 * phase_frame },
{
    if phase_frame >= 14 {
        0
    } else {
        (112 - 8 * phase_frame) as u32
    }
}

// ── Pic slide when the default-name menu opens/closes ───────────────

/// The pic slides one tile column per iteration.
pub const SLIDE_PIC_STEPS: u8 = 6;
/// Delay3 between slide iterations.
pub const SLIDE_PIC_STEP_FRAMES: u8 = 3;
/// Total frames of the slide right: 6 iterations × 3 frames.
pub const SLIDE_PIC_RIGHT_FRAMES: u8 = 18;
/// The slide left first clears the name box (10 frames) and waits 3.
pub const SLIDE_PIC_LEFT_PRE_DELAY: u8 = 13;
/// Total frames of the slide left.
pub const SLIDE_PIC_LEFT_FRAMES: u8 = 31;

/// Pic x when centered (tile column 6) and when slid right (column 12).
pub const INTRO_PIC_X: u32 = 48;
pub const INTRO_PIC_SLID_X: u32 = 96;

#[derive(Debug, Clone, Copy, PartialEq, Eq, Structural)]
pub enum PicSlideDirection {
    /// Menu opening: the pic slides right one column per iteration.
    Right,
    /// Default name chosen: the pic slides back left to centered.
    Left,
}

#[derive(Debug, Clone, Copy, PartialEq, Eq, Structural)]
pub enum PicSlideSubject {
    Player,
    Rival,
}

/// Pixel x of the pic's left edge at `frame` of a slide.
pub open spec fn spec_slide_pic_x(direction: PicSlideDirection, frame: u8) -> int {
    match direction {
        PicSlideDirection::Right => 48 + (frame / 3 + 1) * 8,
        PicSlideDirection::Left => if frame < 13 {
            96
        } else {
            let moved = ((frame - 13) / 3 + 1) * 8;
            if moved > 96 { 0 } else { 96 - moved }
        },
    }
}

pub fn slide_pic_x(direction: PicSlideDirection, frame: u8) -> (x: u32)
    ensures
        x as int == spec_slide_pic_x(direction, frame),
{
    match direction {
        PicSlideDirection::Right => {
            let step = (frame / SLIDE_PIC_STEP_FRAMES) as u32 + 1;
            INTRO_PIC_X + step * 8
        },
        PicSlideDirection::Left => {
            if frame < SLIDE_PIC_LEFT_PRE_DELAY {
                INTRO_PIC_SLID_X
            } else {
                let step = ((frame - SLIDE_PIC_LEFT_PRE_DELAY) / SLIDE_PIC_STEP_FRAMES) as u32 + 1;
                if step * 8 > INTRO_PIC_SLID_X {
                    0
                } else {
                    INTRO_PIC_SLID_X - step * 8
                }
            }
        },
    }
}

// ── ShrinkPlayer finale beats ──────────────────────────────────────

/// The shrink sound plays; the player's pic stays 4 frames.
pub const SHRINK_BEAT_RED_END: u16 = 4;
/// First shrunk pic for 4 frames.
pub const SHRINK_BEAT_PIC1_END: u16 = 8;
/// Second shrunk pic for 20 frames.
pub const SHRINK_BEAT_PIC2_END: u16 = 28;
/// The 7×7 pic area cleared, for 50 frames.
pub const SHRINK_BEAT_CLEARED_END: u16 = 78;
/// Fade out to white, 3 × 8 frames.
pub const SHRINK_FADE_OUT_FRAMES: u16 = 24;
pub const SHRINK_TOTAL_FRAMES: u16 = 102;

// ── Text pages ─────────────────────────────────────────────────────

/// One two-line text box; `<PLAYER>` stands for the player's name.
#[derive(Debug, Clone, Copy, PartialEq, Eq)]
pub struct TextPage {
    pub line1: &'static str,
    pub line2: &'static str,
}

/// A line with `<PLAYER>` replaced by the player's name ("RED" before one
/// is chosen).
pub open spec fn spec_fill_player(line: Seq<char>, player_name: Option<Seq<char>>) -> Seq<char> {
    spec_replace(
        line,
        "<PLAYER>"@,
        match player_name {
            Some(n) => n,
            None => "RED"@,
        },
    )
}

/// Characters the typewriter prints for a page.
pub open spec fn spec_total_chars(page: TextPage, player_name: Option<Seq<char>>) -> nat {
    spec_fill_player(page.line1@, player_name).len() + spec_fill_player(page.line2@, player_name).len()
}

pub open spec fn opt_view(s: Option<&str>) -> Option<Seq<char>> {
    match s {
        Some(t) => Some(t@),
        None => None,
    }
}

fn fill_player(text: &str, player_name: Option<&str>) -> (s: String)
    ensures
        s@ == spec_fill_player(text@, opt_view(player_name)),
{
    proof {
        reveal_strlit("<PLAYER>");
    }
    match player_name {
        Some(n) => replace_all(text, "<PLAYER>", n),
        None => replace_all(text, "<PLAYER>", "RED"),
    }
}

impl TextPage {
    pub fn new(line1: &'static str, line2: &'static str) -> (p: TextPage)
        ensures
            p == (TextPage { line1, line2 }),
    {
        TextPage { line1, line2 }
    }

    /// Characters the typewriter prints for this page (names substituted;
    /// a count beyond the address space saturates).
    pub fn total_chars(&self, player_name: Option<&str>) -> (n: usize)
        ensures
            n == if spec_total_chars(*self, opt_view(player_name)) <= usize::MAX {
                spec_total_chars(*self, opt_view(player_name))
            } else {
                usize::MAX as nat
            },
    {
        let l1 = fill_player(self.line1, player_name);
        let l2 = fill_player(self.line2, player_name);
        let n1 = char_count(l1.as_str());
        let n2 = char_count(l2.as_str());
        n1.saturating_add(n2)
    }

    /// The two lines as printed after `char_index` characters: the first
    /// line fills first, then the second; past the end both are complete.
    pub fn get_display_text(&self, player_name: Option<&str>, char_index: u16) -> (r: (String, String))
        ensures
            ({
                let l1 = spec_fill_player(self.line1@, opt_view(player_name));
                let l2 = spec_fill_player(self.line2@, opt_view(player_name));
                let idx = char_index as int;
                if idx >= l1.len() + l2.len() {
                    r.0@ == l1 && r.1@ == l2
                } else if idx <= l1.len() {
                    r.0@ == l1.subrange(0, idx) && r.1@ == Seq::<char>::empty()
                } else {
                    r.0@ == l1 && r.1@ == l2.subrange(0, idx - l1.len())
                }
            }),
    {
        let l1 = fill_player(self.line1, player_name);
        let l2 = fill_player(self.line2, player_name);
        let n1 = char_count(l1.as_str());
        let n2 = char_count(l2.as_str());
        let idx = char_index as usize;
        if idx >= n1 && idx - n1 >= n2 {
            (l1, l2)
        } else if idx <= n1 {
            (String::from_str(l1.as_str().substring_char(0, idx)), String::new())
        } else {
            let part = String::from_str(l2.as_str().substring_char(0, idx - n1));
            (l1, part)
        }
    }
}


// ── The scenes that type text ──────────────────────────────────────

/// The six scenes of the speech that print text pages.
#[derive(Debug, Clone, Copy, PartialEq, Eq, Structural)]
pub enum TextScene {
    Greeting,
    ShowNidorino,
    Explanation,
    IntroducePlayer,
    IntroduceRival,
    FinalSpeech,
}

pub open spec fn tp(line1: &'static str, line2: &'static str) -> TextPage {
    TextPage { line1, line2 }
}

/// The text pages of each scene, in each language.
pub open spec fn spec_scene_pages(scene: TextScene, lang: Lang) -> Seq<TextPage> {
    match (scene, lang) {
        (TextScene::Greeting, Lang::En) => seq![
            tp("Hello there!", "Welcome to the"),
            tp("world of #MON!", ""),
            tp("My name is OAK!", "People call me"),
            tp("the #MON PROF!", ""),
        ],
        (TextScene::ShowNidorino, Lang::En) => seq![
            tp("This world is", "inhabited by"),
            tp("creatures called", "#MON!"),
        ],
        (TextScene::Explanation, Lang::En) => seq![
            tp("For some people,", "#MON are"),
            tp("pets. Others use", "them for fights."),
            tp("Myself...", ""),
            tp("I study #MON", "as a profession."),
        ],
        (TextScene::IntroducePlayer, Lang::En) => seq![tp("First, what is", "your name?")],
        (TextScene::IntroduceRival, Lang::En) => seq![
            tp("This is my grand-", "son. He's been"),
            tp("your rival since", "you were a baby."),
            tp("...Erm, what is", "his name again?"),
        ],
        (TextScene::FinalSpeech, Lang::En) => seq![
            tp("<PLAYER>!", ""),
            tp("Your very own", "#MON legend is"),
            tp("about to unfold!", ""),
            tp("A world of dreams", "and adventures"),
            tp("with #MON", "awaits! Let's go!"),
        ],
        (TextScene::Greeting, Lang::Zh) => seq![
            tp("你好！欢迎来到", "宝可梦的世界！"),
            tp("我是大木博士！", "大家都叫我"),
            tp("宝可梦博士！", ""),
        ],
        (TextScene::ShowNidorino, Lang::Zh) => seq![
            tp("这个世界生活着", "一种叫做宝可梦的"),
            tp("神奇生物！", ""),
        ],
        (TextScene::Explanation, Lang::Zh) => seq![
            tp("对一些人来说，", "宝可梦是宠物。"),
            tp("另一些人会用", "它们来对战。"),
            tp("而我……", ""),
            tp("则以研究宝可梦", "为职业。"),
        ],
        (TextScene::IntroducePlayer, Lang::Zh) => seq![tp("首先，请问你", "叫什么名字？")],
        (TextScene::IntroduceRival, Lang::Zh) => seq![
            tp("这是我的孙子。", "从你还是婴儿时"),
            tp("他就是你的", "竞争对手了。"),
            tp("……呃，他叫", "什么名字来着？"),
        ],
        (TextScene::FinalSpeech, Lang::Zh) => seq![
            tp("<PLAYER>！", ""),
            tp("属于你的宝可梦", "传说就要开始了！"),
            tp("一个充满梦想", "与冒险的世界"),
            tp("正等着你！", "出发吧！"),
        ],
    }
}

/// The pages of a scene in a language.
pub fn scene_pages(scene: TextScene, lang: Lang) -> (pages: &'static [TextPage])
    ensures
        pages@ == spec_scene_pages(scene, lang),
{
    match (scene, lang) {
        (TextScene::Greeting, Lang::En) => {
            let p: &'static [TextPage] = &[
                TextPage { line1: "Hello there!", line2: "Welcome to the" },
                TextPage { line1: "world of #MON!", line2: "" },
                TextPage { line1: "My name is OAK!", line2: "People call me" },
                TextPage { line1: "the #MON PROF!", line2: "" },
            ];
            assert(p@ =~= spec_scene_pages(scene, lang));
            p
        },
        (TextScene::ShowNidorino, Lang::En) => {
            let p: &'static [TextPage] = &[
                TextPage { line1: "This world is", line2: "inhabited by" },
                TextPage { line1: "creatures called", line2: "#MON!" },
            ];
            assert(p@ =~= spec_scene_pages(scene, lang));
            p
        },
        (TextScene::Explanation, Lang::En) => {
            let p: &'static [TextPage] = &[
                TextPage { line1: "For some people,", line2: "#MON are" },
                TextPage { line1: "pets. Others use", line2: "them for fights." },
                TextPage { line1: "Myself...", line2: "" },
                TextPage { line1: "I study #MON", line2: "as a profession." },
            ];
            assert(p@ =~= spec_scene_pages(scene, lang));
            p
        },
        (TextScene::IntroducePlayer, Lang::En) => {
            let p: &'static [TextPage] = &[TextPage { line1: "First, what is", line2: "your name?" }];
            assert(p@ =~= spec_scene_pages(scene, lang));
            p
        },
        (TextScene::IntroduceRival, Lang::En) => {
            let p: &'static [TextPage] = &[
                TextPage { line1: "This is my grand-", line2: "son. He's been" },
                TextPage { line1: "your rival since", line2: "you were a baby." },
                TextPage { line1: "...Erm, what is", line2: "his name again?" },
            ];
            assert(p@ =~= spec_scene_pages(scene, lang));
            p
        },
        (TextScene::FinalSpeech, Lang::En) => {
            let p: &'static [TextPage] = &[
                TextPage { line1: "<PLAYER>!", line2: "" },
                TextPage { line1: "Your very own", line2: "#MON legend is" },
                TextPage { line1: "about to unfold!", line2: "" },
                TextPage { line1: "A world of dreams", line2: "and adventures" },
                TextPage { line1: "with #MON", line2: "awaits! Let's go!" },
            ];
            assert(p@ =~= spec_scene_pages(scene, lang));
            p
        },
        (TextScene::Greeting, Lang::Zh) => {
            let p: &'static [TextPage] = &[
                TextPage { line1: "你好！欢迎来到", line2: "宝可梦的世界！" },
                TextPage { line1: "我是大木博士！", line2: "大家都叫我" },
                TextPage { line1: "宝可梦博士！", line2: "" },
            ];
            assert(p@ =~= spec_scene_pages(scene, lang));
            p
        },
        (TextScene::ShowNidorino, Lang::Zh) => {
            let p: &'static [TextPage] = &[
                TextPage { line1: "这个世界生活着", line2: "一种叫做宝可梦的" },
                TextPage { line1: "神奇生物！", line2: "" },
            ];
            assert(p@ =~= spec_scene_pages(scene, lang));
            p
        },
        (TextScene::Explanation, Lang::Zh) => {
            let p: &'static [TextPage] = &[
                TextPage { line1: "对一些人来说，", line2: "宝可梦是宠物。" },
                TextPage { line1: "另一些人会用", line2: "它们来对战。" },
                TextPage { line1: "而我……", line2: "" },
                TextPage { line1: "则以研究宝可梦", line2: "为职业。" },
            ];
            assert(p@ =~= spec_scene_pages(scene, lang));
            p
        },
        (TextScene::IntroducePlayer, Lang::Zh) => {
            let p: &'static [TextPage] = &[TextPage { line1: "首先，请问你", line2: "叫什么名字？" }];
            assert(p@ =~= spec_scene_pages(scene, lang));
            p
        },
        (TextScene::IntroduceRival, Lang::Zh) => {
            let p: &'static [TextPage] = &[
                TextPage { line1: "这是我的孙子。", line2: "从你还是婴儿时" },
                TextPage { line1: "他就是你的", line2: "竞争对手了。" },
                TextPage { line1: "……呃，他叫", line2: "什么名字来着？" },
            ];
            assert(p@ =~= spec_scene_pages(scene, lang));
            p
        },
        (TextScene::FinalSpeech, Lang::Zh) => {
            let p: &'static [TextPage] = &[
                TextPage { line1: "<PLAYER>！", line2: "" },
                TextPage { line1: "属于你的宝可梦", line2: "传说就要开始了！" },
                TextPage { line1: "一个充满梦想", line2: "与冒险的世界" },
                TextPage { line1: "正等着你！", line2: "出发吧！" },
            ];
            assert(p@ =~= spec_scene_pages(scene, lang));
            p
        },
    }
}

// ── Phases ─────────────────────────────────────────────────────────

#[derive(Debug, Clone, Copy, PartialEq, Eq, Structural)]
pub enum OakSpeechPhase {
    Greeting { page_index: usize, char_index: u16, waiting_for_input: bool },
    ShowNidorino { page_index: usize, char_index: u16, waiting_for_input: bool },
    Explanation { page_index: usize, char_index: u16, waiting_for_input: bool },
    IntroducePlayer { page_index: usize, char_index: u16, waiting_for_input: bool },
    PlayerNameChoice { cursor: usize },
    PlayerNaming,
    IntroduceRival { page_index: usize, char_index: u16, waiting_for_input: bool },
    RivalNameChoice { cursor: usize },
    RivalNaming,
    FinalSpeech { page_index: usize, char_index: u16, waiting_for_input: bool },
    /// The timed pic slide played when the default-name menu opens (right)
    /// or closes after a default name is picked (left).
    SlidePic { direction: PicSlideDirection, subject: PicSlideSubject, frame: u8 },
    /// Frames since the shrink sequence started; see the SHRINK_BEAT_*
    /// constants.
    ShrinkPlayer { frame: u16 },
    Done,
}

/// The text scene a phase belongs to, with its page, character and wait
/// state.
pub open spec fn spec_text_view(p: OakSpeechPhase) -> Option<(TextScene, usize, u16, bool)> {
    match p {
        OakSpeechPhase::Greeting { page_index, char_index, waiting_for_input } => Some(
            (TextScene::Greeting, page_index, char_index, waiting_for_input),
        ),
        OakSpeechPhase::ShowNidorino { page_index, char_index, waiting_for_input } => Some(
            (TextScene::ShowNidorino, page_index, char_index, waiting_for_input),
        ),
        OakSpeechPhase::Explanation { page_index, char_index, waiting_for_input } => Some(
            (TextScene::Explanation, page_index, char_index, waiting_for_input),
        ),
        OakSpeechPhase::IntroducePlayer { page_index, char_index, waiting_for_input } => Some(
            (TextScene::IntroducePlayer, page_index, char_index, waiting_for_input),
        ),
        OakSpeechPhase::IntroduceRival { page_index, char_index, waiting_for_input } => Some(
            (TextScene::IntroduceRival, page_index, char_index, waiting_for_input),
        ),
        OakSpeechPhase::FinalSpeech { page_index, char_index, waiting_for_input } => Some(
            (TextScene::FinalSpeech, page_index, char_index, waiting_for_input),
        ),
        _ => None,
    }
}

/// The phase of a text scene at a page, character and wait state.
pub open spec fn spec_text_phase(scene: TextScene, pi: usize, ci: u16, w: bool) -> OakSpeechPhase {
    match scene {
        TextScene::Greeting => OakSpeechPhase::Greeting { page_index: pi, char_index: ci, waiting_for_input: w },
        TextScene::ShowNidorino => OakSpeechPhase::ShowNidorino { page_index: pi, char_index: ci, waiting_for_input: w },
        TextScene::Explanation => OakSpeechPhase::Explanation { page_index: pi, char_index: ci, waiting_for_input: w },
        TextScene::IntroducePlayer => OakSpeechPhase::IntroducePlayer { page_index: pi, char_index: ci, waiting_for_input: w },
        TextScene::IntroduceRival => OakSpeechPhase::IntroduceRival { page_index: pi, char_index: ci, waiting_for_input: w },
        TextScene::FinalSpeech => OakSpeechPhase::FinalSpeech { page_index: pi, char_index: ci, waiting_for_input: w },
    }
}

fn text_phase(scene: TextScene, pi: usize, ci: u16, w: bool) -> (p: OakSpeechPhase)
    ensures
        p == spec_text_phase(scene, pi, ci, w),
{
    match scene {
        TextScene::Greeting => OakSpeechPhase::Greeting { page_index: pi, char_index: ci, waiting_for_input: w },
        TextScene::ShowNidorino => OakSpeechPhase::ShowNidorino { page_index: pi, char_index: ci, waiting_for_input: w },
        TextScene::Explanation => OakSpeechPhase::Explanation { page_index: pi, char_index: ci, waiting_for_input: w },
        TextScene::IntroducePlayer => OakSpeechPhase::IntroducePlayer { page_index: pi, char_index: ci, waiting_for_input: w },
        TextScene::IntroduceRival => OakSpeechPhase::IntroduceRival { page_index: pi, char_index: ci, waiting_for_input: w },
        TextScene::FinalSpeech => OakSpeechPhase::FinalSpeech { page_index: pi, char_index: ci, waiting_for_input: w },
    }
}

/// The phase that follows the last page of a scene.
pub open spec fn spec_scene_after(scene: TextScene) -> OakSpeechPhase {
    match scene {
        TextScene::Greeting => spec_text_phase(TextScene::ShowNidorino, 0, 0, false),
        TextScene::ShowNidorino => spec_text_phase(TextScene::Explanation, 0, 0, false),
        TextScene::Explanation => spec_text_phase(TextScene::IntroducePlayer, 0, 0, false),
        TextScene::IntroducePlayer => OakSpeechPhase::SlidePic {
            direction: PicSlideDirection::Right,
            subject: PicSlideSubject::Player,
            frame: 0,
        },
        TextScene::IntroduceRival => OakSpeechPhase::SlidePic {
            direction: PicSlideDirection::Right,
            subject: PicSlideSubject::Rival,
            frame: 0,
        },
        TextScene::FinalSpeech => OakSpeechPhase::ShrinkPlayer { frame: 0 },
    }
}

fn scene_after(scene: TextScene) -> (p: OakSpeechPhase)
    ensures
        p == spec_scene_after(scene),
{
    match scene {
        TextScene::Greeting => text_phase(TextScene::ShowNidorino, 0, 0, false),
        TextScene::ShowNidorino => text_phase(TextScene::Explanation, 0, 0, false),
        TextScene::Explanation => text_phase(TextScene::IntroducePlayer, 0, 0, false),
        TextScene::IntroducePlayer => OakSpeechPhase::SlidePic {
            direction: PicSlideDirection::Right,
            subject: PicSlideSubject::Player,
            frame: 0,
        },
        TextScene::IntroduceRival => OakSpeechPhase::SlidePic {
            direction: PicSlideDirection::Right,
            subject: PicSlideSubject::Rival,
            frame: 0,
        },
        TextScene::FinalSpeech => OakSpeechPhase::ShrinkPlayer { frame: 0 },
    }
}

/// Frames of pic entrance before a scene's typewriter starts.
pub open spec fn spec_scene_entrance(scene: TextScene) -> u16 {
    spec_entrance_frames(spec_text_phase(scene, 0, 0, false))
}

/// A number that identifies a phase's variant, whatever its fields.
pub open spec fn spec_phase_kind(p: OakSpeechPhase) -> u8 {
    match p {
        OakSpeechPhase::Greeting { .. } => 0,
        OakSpeechPhase::ShowNidorino { .. } => 1,
        OakSpeechPhase::Explanation { .. } => 2,
        OakSpeechPhase::IntroducePlayer { .. } => 3,
        OakSpeechPhase::PlayerNameChoice { .. } => 4,
        OakSpeechPhase::PlayerNaming => 5,
        OakSpeechPhase::IntroduceRival { .. } => 6,
        OakSpeechPhase::RivalNameChoice { .. } => 7,
        OakSpeechPhase::RivalNaming => 8,
        OakSpeechPhase::FinalSpeech { .. } => 9,
        OakSpeechPhase::SlidePic { .. } => 10,
        OakSpeechPhase::ShrinkPlayer { .. } => 11,
        OakSpeechPhase::Done => 12,
    }
}

fn phase_kind(p: &OakSpeechPhase) -> (k: u8)
    ensures
        k == spec_phase_kind(*p),
{
    match p {
        OakSpeechPhase::Greeting { .. } => 0,
        OakSpeechPhase::ShowNidorino { .. } => 1,
        OakSpeechPhase::Explanation { .. } => 2,
        OakSpeechPhase::IntroducePlayer { .. } => 3,
        OakSpeechPhase::PlayerNameChoice { .. } => 4,
        OakSpeechPhase::PlayerNaming => 5,
        OakSpeechPhase::IntroduceRival { .. } => 6,
        OakSpeechPhase::RivalNameChoice { .. } => 7,
        OakSpeechPhase::RivalNaming => 8,
        OakSpeechPhase::FinalSpeech { .. } => 9,
        OakSpeechPhase::SlidePic { .. } => 10,
        OakSpeechPhase::ShrinkPlayer { .. } => 11,
        OakSpeechPhase::Done => 12,
    }
}

/// The page a phase shows in a language: its scene's page at its index,
/// if there is one.
pub open spec fn spec_page_for(phase: OakSpeechPhase, lang: Lang) -> Option<TextPage> {
    match spec_text_view(phase) {
        Some((scene, pi, _, _)) => if pi < spec_scene_pages(scene, lang).len() {
            Some(spec_scene_pages(scene, lang)[pi as int])
        } else {
            None
        },
        None => None,
    }
}

/// The page that `phase` shows in `lang`, if it is a text phase whose page
/// exists.
pub fn text_pages_for_lang(phase: &OakSpeechPhase, lang: Lang) -> (r: Option<&'static TextPage>)
    ensures
        match spec_page_for(*phase, lang) {
            Some(p) => r matches Some(q) && *q == p,
            None => r is None,
        },
{
    let (scene, pi) = match phase {
        OakSpeechPhase::Greeting { page_index, .. } => (TextScene::Greeting, *page_index),
        OakSpeechPhase::ShowNidorino { page_index, .. } => (TextScene::ShowNidorino, *page_index),
        OakSpeechPhase::Explanation { page_index, .. } => (TextScene::Explanation, *page_index),
        OakSpeechPhase::IntroducePlayer { page_index, .. } => (TextScene::IntroducePlayer, *page_index),
        OakSpeechPhase::IntroduceRival { page_index, .. } => (TextScene::IntroduceRival, *page_index),
        OakSpeechPhase::FinalSpeech { page_index, .. } => (TextScene::FinalSpeech, *page_index),
        _ => {
            return None;
        },
    };
    let pages = scene_pages(scene, lang);
    if pi < pages.len() {
        Some(&pages[pi])
    } else {
        None
    }
}

// ── Input and results ──────────────────────────────────────────────

#[derive(Debug, Clone, Copy, PartialEq, Eq, Structural)]
pub struct OakSpeechInput {
    pub up: bool,
    pub down: bool,
    pub a: bool,
    pub b: bool,
}

impl OakSpeechInput {
    pub fn none() -> (i: OakSpeechInput)
        ensures
            !i.up && !i.down && !i.a && !i.b,
    {
        OakSpeechInput { up: false, down: false, a: false, b: false }
    }
}

#[derive(Debug, Clone, PartialEq, Eq)]
pub enum OakSpeechResult {
    Active,
    PlayerNameSet(String),
    RivalNameSet(String),
    Finished,
}

/// What a frame reports, with names as character sequences.
pub enum OakResultView {
    Active,
    PlayerNameSet(Seq<char>),
    RivalNameSet(Seq<char>),
    Finished,
}

impl View for OakSpeechResult {
    type V = OakResultView;

    open spec fn view(&self) -> OakResultView {
        match self {
            OakSpeechResult::Active => OakResultView::Active,
            OakSpeechResult::PlayerNameSet(s) => OakResultView::PlayerNameSet(s@),
            OakSpeechResult::RivalNameSet(s) => OakResultView::RivalNameSet(s@),
            OakSpeechResult::Finished => OakResultView::Finished,
        }
    }
}

// ── The speech state ───────────────────────────────────────────────

/// The abstract state of the speech.
pub struct OakModel {
    pub phase: OakSpeechPhase,
    pub player_name: Option<Seq<char>>,
    pub rival_name: Option<Seq<char>>,
    pub naming: Option<NamingModel>,
    pub phase_frame: u16,
    /// Frames of white flash left around the naming screen.
    pub flash_frames: u8,
    /// A name chosen from the default list, reported by the frame.
    pub pending: Option<OakResultView>,
}

#[derive(Debug, Clone)]
pub struct OakSpeechState {
    pub phase: OakSpeechPhase,
    pub player_name: Option<String>,
    pub rival_name: Option<String>,
    pub naming_screen: Option<NamingScreenState>,
    /// Frames elapsed in the current phase (0 on the frame it was entered);
    /// drives the pic entrance animations.
    pub phase_frame: u16,
    /// Remaining frames of the naming screen's white flash on open and
    /// submit.
    flash_frames: u8,
    /// A name picked from the default list during this frame, reported by
    /// `update_frame`.
    pending_result: Option<OakSpeechResult>,
}

pub open spec fn opt_string_view(s: Option<String>) -> Option<Seq<char>> {
    match s {
        Some(t) => Some(t@),
        None => None,
    }
}

pub open spec fn opt_naming_view(s: Option<NamingScreenState>) -> Option<NamingModel> {
    match s {
        Some(n) => Some(n@),
        None => None,
    }
}

pub open spec fn opt_result_view(r: Option<OakSpeechResult>) -> Option<OakResultView> {
    match r {
        Some(x) => Some(x@),
        None => None,
    }
}

impl View for OakSpeechState {
    type V = OakModel;

    closed spec fn view(&self) -> OakModel {
        OakModel {
            phase: self.phase,
            player_name: opt_string_view(self.player_name),
            rival_name: opt_string_view(self.rival_name),
            naming: opt_naming_view(self.naming_screen),
            phase_frame: self.phase_frame,
            flash_frames: self.flash_frames,
            pending: opt_result_view(self.pending_result),
        }
    }
}

/// The speech at its start: the greeting, nothing named.
pub open spec fn spec_initial() -> OakModel {
    OakModel {
        phase: spec_text_phase(TextScene::Greeting, 0, 0, false),
        player_name: None,
        rival_name: None,
        naming: None,
        phase_frame: 0,
        flash_frames: 0,
        pending: None,
    }
}

/// Characters typed on a page once it is complete, as the frame counter
/// holds it (16 bits).
pub open spec fn spec_page_chars(page: TextPage, name: Option<Seq<char>>) -> u16 {
    (if spec_total_chars(page, name) <= usize::MAX {
        spec_total_chars(page, name)
    } else {
        usize::MAX as nat
    }) as u16
}

/// One frame of a text scene.
pub enum TextStep {
    /// Nothing changes (entrance playing, or a full page waiting).
    Stay,
    /// The scene continues at this page, character and wait state.
    Current(usize, u16, bool),
    /// The last page was dismissed.
    Advance,
}

/// One frame of a text scene: input is ignored while the entrance plays;
/// a full page waits for A or B; A or B completes a page at once;
/// otherwise one more character appears.
pub open spec fn spec_text_step(
    phase_frame: u16,
    input: OakSpeechInput,
    scene: TextScene,
    pi: usize,
    ci: u16,
    w: bool,
    name: Option<Seq<char>>,
) -> TextStep {
    if phase_frame < spec_scene_entrance(scene) {
        TextStep::Stay
    } else if w {
        if input.a || input.b {
            if pi + 1 >= spec_scene_pages(scene, Lang::En).len() {
                TextStep::Advance
            } else {
                TextStep::Current((pi + 1) as usize, 0, false)
            }
        } else {
            TextStep::Stay
        }
    } else {
        let total = spec_page_chars(spec_scene_pages(scene, Lang::En)[pi as int], name);
        if input.a || input.b {
            TextStep::Current(pi, total, true)
        } else if ci + 1 >= total {
            TextStep::Current(pi, total, true)
        } else {
            TextStep::Current(pi, (ci + 1) as u16, false)
        }
    }
}

/// The cursor of a default-name menu after up/down (four entries).
pub open spec fn spec_choice_cursor(cursor: usize, input: OakSpeechInput) -> usize {
    if input.up && cursor > 0 {
        (cursor - 1) as usize
    } else if input.down && cursor < 3 {
        (cursor + 1) as usize
    } else {
        cursor
    }
}

/// One frame of a default-name menu: A on the last entry opens the naming
/// screen with a white flash; A on another entry takes that name and
/// slides the pic back; otherwise the cursor moves.
pub open spec fn spec_name_choice(m: OakModel, input: OakSpeechInput, cursor: usize, subject: PicSlideSubject) -> OakModel {
    let c = spec_choice_cursor(cursor, input);
    if input.a {
        if c == 3 {
            match subject {
                PicSlideSubject::Player => OakModel {
                    naming: Some(spec_fresh_naming(NamingScreenType::Player)),
                    flash_frames: NAMING_FLASH_FRAMES,
                    phase: OakSpeechPhase::PlayerNaming,
                    ..m
                },
                PicSlideSubject::Rival => OakModel {
                    naming: Some(spec_fresh_naming(NamingScreenType::Rival)),
                    flash_frames: NAMING_FLASH_FRAMES,
                    phase: OakSpeechPhase::RivalNaming,
                    ..m
                },
            }
        } else {
            match subject {
                PicSlideSubject::Player => OakModel {
                    player_name: Some(spec_default_player_name(c as int)),
                    pending: Some(OakResultView::PlayerNameSet(spec_default_player_name(c as int))),
                    phase: OakSpeechPhase::SlidePic {
                        direction: PicSlideDirection::Left,
                        subject: PicSlideSubject::Player,
                        frame: 0,
                    },
                    ..m
                },
                PicSlideSubject::Rival => OakModel {
                    rival_name: Some(spec_default_rival_name(c as int)),
                    pending: Some(OakResultView::RivalNameSet(spec_default_rival_name(c as int))),
                    phase: OakSpeechPhase::SlidePic {
                        direction: PicSlideDirection::Left,
                        subject: PicSlideSubject::Rival,
                        frame: 0,
                    },
                    ..m
                },
            }
        }
    } else {
        match subject {
            PicSlideSubject::Player => OakModel { phase: OakSpeechPhase::PlayerNameChoice { cursor: c }, ..m },
            PicSlideSubject::Rival => OakModel { phase: OakSpeechPhase::RivalNameChoice { cursor: c }, ..m },
        }
    }
}

/// Frames a pic slide lasts.
pub open spec fn spec_slide_total(direction: PicSlideDirection) -> u8 {
    match direction {
        PicSlideDirection::Right => SLIDE_PIC_RIGHT_FRAMES,
        PicSlideDirection::Left => SLIDE_PIC_LEFT_FRAMES,
    }
}

/// The phase after one frame of a pic slide: the slide goes on until its
/// last frame, then the menu opens (right) or the next scene starts (left).
pub open spec fn spec_slide_next(direction: PicSlideDirection, subject: PicSlideSubject, frame: u8) -> OakSpeechPhase {
    if frame + 1 < spec_slide_total(direction) {
        OakSpeechPhase::SlidePic { direction, subject, frame: (frame + 1) as u8 }
    } else {
        match (direction, subject) {
            (PicSlideDirection::Right, PicSlideSubject::Player) => OakSpeechPhase::PlayerNameChoice { cursor: 0 },
            (PicSlideDirection::Right, PicSlideSubject::Rival) => OakSpeechPhase::RivalNameChoice { cursor: 0 },
            (PicSlideDirection::Left, PicSlideSubject::Player) => spec_text_phase(TextScene::IntroduceRival, 0, 0, false),
            (PicSlideDirection::Left, PicSlideSubject::Rival) => spec_text_phase(TextScene::FinalSpeech, 0, 0, false),
        }
    }
}

/// The phase after one frame of the shrink finale.
pub open spec fn spec_shrink_next(frame: u16) -> OakSpeechPhase {
    if frame + 1 >= SHRINK_TOTAL_FRAMES {
        OakSpeechPhase::Done
    } else {
        OakSpeechPhase::ShrinkPlayer { frame: (frame + 1) as u16 }
    }
}

/// What one frame of the current phase does to the speech.
pub open spec fn spec_process_phase(m: OakModel, input: OakSpeechInput) -> OakModel {
    match spec_text_view(m.phase) {
        Some((scene, pi, ci, w)) => match spec_text_step(m.phase_frame, input, scene, pi, ci, w, m.player_name) {
            TextStep::Stay => m,
            TextStep::Current(a, b, c) => OakModel { phase: spec_text_phase(scene, a, b, c), ..m },
            TextStep::Advance => OakModel { phase: spec_scene_after(scene), ..m },
        },
        None => match m.phase {
            OakSpeechPhase::PlayerNameChoice { cursor } => spec_name_choice(m, input, cursor, PicSlideSubject::Player),
            OakSpeechPhase::RivalNameChoice { cursor } => spec_name_choice(m, input, cursor, PicSlideSubject::Rival),
            OakSpeechPhase::SlidePic { direction, subject, frame } => OakModel {
                phase: spec_slide_next(direction, subject, frame),
                ..m
            },
            OakSpeechPhase::ShrinkPlayer { frame } => OakModel { phase: spec_shrink_next(frame), ..m },
            _ => m,
        },
    }
}

/// The inputs on which a frame of the current phase is defined: the page
/// exists, and no counter is at its limit.
pub open spec fn process_ok(m: OakModel, input: OakSpeechInput) -> bool {
    match spec_text_view(m.phase) {
        Some((scene, pi, ci, w)) => m.phase_frame >= spec_scene_entrance(scene) ==> if w {
            (input.a || input.b) ==> pi < usize::MAX
        } else {
            &&& pi < spec_scene_pages(scene, Lang::En).len()
            &&& !(input.a || input.b) ==> ci < u16::MAX
        },
        None => match m.phase {
            OakSpeechPhase::PlayerNameChoice { cursor } => input.a ==> spec_choice_cursor(cursor, input) < 4,
            OakSpeechPhase::RivalNameChoice { cursor } => input.a ==> spec_choice_cursor(cursor, input) < 4,
            OakSpeechPhase::SlidePic { frame, .. } => frame < u8::MAX,
            OakSpeechPhase::ShrinkPlayer { frame } => frame < u16::MAX,
            _ => true,
        },
    }
}

/// One call of `update_frame`: a white flash swallows the frame; otherwise
/// the phase advances, the frame counter restarts on a new phase, and a
/// name picked this frame is reported, else `Finished` once done.
pub open spec fn spec_update_frame(m: OakModel, input: OakSpeechInput) -> (OakModel, OakResultView) {
    if m.flash_frames > 0 {
        (OakModel { flash_frames: (m.flash_frames - 1) as u8, ..m }, OakResultView::Active)
    } else {
        let m1 = spec_process_phase(m, input);
        let frame: u16 = if spec_phase_kind(m1.phase) == spec_phase_kind(m.phase) {
            (m.phase_frame + 1) as u16
        } else {
            0
        };
        let r = match m1.pending {
            Some(r) => r,
            None => if m1.phase is Done {
                OakResultView::Finished
            } else {
                OakResultView::Active
            },
        };
        (OakModel { phase_frame: frame, pending: None, ..m1 }, r)
    }
}

/// The inputs on which `update_frame` is defined.
pub open spec fn frame_ok(m: OakModel, input: OakSpeechInput) -> bool {
    m.flash_frames == 0 ==> {
        &&& process_ok(m, input)
        &&& spec_phase_kind(spec_process_phase(m, input).phase) == spec_phase_kind(m.phase) ==> m.phase_frame < u16::MAX
    }
}

/// The name a naming screen yields: what was typed, or the first default
/// when nothing was.
pub open spec fn spec_submitted_name(n: NamingModel, default: Seq<char>) -> Seq<char> {
    if n.name.len() == 0 { default } else { n.name }
}

/// One call of `update_naming_frame`: a white flash swallows the frame;
/// otherwise the naming screen takes the input, and a submission stores
/// the name, closes the screen with a flash, and moves on.
pub open spec fn spec_update_naming(m: OakModel, input: NamingInput, is_zh: bool) -> (OakModel, OakResultView) {
    if m.flash_frames > 0 {
        (OakModel { flash_frames: (m.flash_frames - 1) as u8, ..m }, OakResultView::Active)
    } else {
        match m.naming {
            None => (m, OakResultView::Active),
            Some(n) => {
                let n2 = spec_update(n, input, is_zh);
                if !n2.submitted {
                    (OakModel { naming: Some(n2), ..m }, OakResultView::Active)
                } else {
                    match m.phase {
                        OakSpeechPhase::PlayerNaming => {
                            let name = spec_submitted_name(n2, spec_default_player_name(0));
                            (
                                OakModel {
                                    player_name: Some(name),
                                    naming: None,
                                    flash_frames: NAMING_FLASH_FRAMES,
                                    phase: OakSpeechPhase::RivalNameChoice { cursor: 0 },
                                    ..m
                                },
                                OakResultView::PlayerNameSet(name),
                            )
                        },
                        OakSpeechPhase::RivalNaming => {
                            let name = spec_submitted_name(n2, spec_default_rival_name(0));
                            (
                                OakModel {
                                    rival_name: Some(name),
                                    naming: None,
                                    flash_frames: NAMING_FLASH_FRAMES,
                                    phase: OakSpeechPhase::ShrinkPlayer { frame: 0 },
                                    ..m
                                },
                                OakResultView::RivalNameSet(name),
                            )
                        },
                        _ => (OakModel { naming: Some(n2), ..m }, OakResultView::Active),
                    }
                }
            },
        }
    }
}

/// The inputs on which `update_naming_frame` is defined: those the naming
/// screen itself takes.
pub open spec fn naming_frame_ok(m: OakModel, input: NamingInput, is_zh: bool) -> bool {
    m.flash_frames == 0 ==> match m.naming {
        Some(n) => {
            &&& naming_wf(n)
            &&& presses_alphabet_a(n, input, is_zh) ==> alphabet_a_in_grid(n)
            &&& presses_pinyin_letter(n, input, is_zh) ==> n.cursor_col < GRID_COLS
        },
        None => true,
    }
}

/// The phase's page, character and wait state, if it is a text phase.
pub open spec fn spec_current_char_index(p: OakSpeechPhase) -> u16 {
    match spec_text_view(p) {
        Some((_, _, ci, _)) => ci,
        None => 0,
    }
}

pub open spec fn spec_waiting(p: OakSpeechPhase) -> bool {
    match spec_text_view(p) {
        Some((_, _, _, w)) => w,
        None => false,
    }
}

/// The text a phase shows as one line: both lines of its (English) page
/// with the name filled in, joined by a space unless the second is empty.
pub open spec fn spec_intro_text(phase: OakSpeechPhase, name: Option<Seq<char>>) -> Option<Seq<char>> {
    match spec_page_for(phase, Lang::En) {
        Some(p) => {
            let l1 = spec_fill_player(p.line1@, name);
            let l2 = spec_fill_player(p.line2@, name);
            if l2.len() == 0 {
                Some(l1)
            } else {
                Some(l1 + seq![' '] + l2)
            }
        },
        None => None,
    }
}

fn opt_str(s: &Option<String>) -> (r: Option<&str>)
    ensures
        opt_view(r) == opt_string_view(*s),
{
    match s {
        Some(t) => Some(t.as_str()),
        None => None,
    }
}

impl OakSpeechState {
    pub fn new() -> (s: OakSpeechState)
        ensures
            s@ == spec_initial(),
            s@.pending is None,
    {
        OakSpeechState {
            phase: OakSpeechPhase::Greeting { page_index: 0, char_index: 0, waiting_for_input: false },
            player_name: None,
            rival_name: None,
            naming_screen: None,
            phase_frame: 0,
            flash_frames: 0,
            pending_result: None,
        }
    }

    /// The naming screen's white flash is showing.
    pub fn is_flashing(&self) -> (r: bool)
        ensures
            r == (self@.flash_frames > 0),
    {
        self.flash_frames > 0
    }

    /// One frame of the speech outside the naming screen.
    pub fn update_frame(&mut self, input: OakSpeechInput) -> (r: OakSpeechResult)
        requires
            frame_ok(old(self)@, input),
        ensures
            (final(self)@, r@) == spec_update_frame(old(self)@, input),
            old(self)@.pending is None ==> final(self)@.pending is None,
    {
        if self.flash_frames > 0 {
            self.flash_frames = self.flash_frames - 1;
            return OakSpeechResult::Active;
        }
        let prev = phase_kind(&self.phase);
        self.process_phase(input);
        if phase_kind(&self.phase) == prev {
            self.phase_frame = self.phase_frame + 1;
        } else {
            self.phase_frame = 0;
        }
        let pending = self.pending_result.take();
        match pending {
            Some(result) => result,
            None => if matches!(self.phase, OakSpeechPhase::Done) {
                OakSpeechResult::Finished
            } else {
                OakSpeechResult::Active
            },
        }
    }

    fn process_phase(&mut self, input: OakSpeechInput)
        requires
            process_ok(old(self)@, input),
        ensures
            final(self)@ == spec_process_phase(old(self)@, input),
    {
        let phase = self.phase;
        match phase {
            OakSpeechPhase::Greeting { page_index, char_index, waiting_for_input } => {
                self.text_frame(input, TextScene::Greeting, page_index, char_index, waiting_for_input)
            },
            OakSpeechPhase::ShowNidorino { page_index, char_index, waiting_for_input } => {
                self.text_frame(input, TextScene::ShowNidorino, page_index, char_index, waiting_for_input)
            },
            OakSpeechPhase::Explanation { page_index, char_index, waiting_for_input } => {
                self.text_frame(input, TextScene::Explanation, page_index, char_index, waiting_for_input)
            },
            OakSpeechPhase::IntroducePlayer { page_index, char_index, waiting_for_input } => {
                self.text_frame(input, TextScene::IntroducePlayer, page_index, char_index, waiting_for_input)
            },
            OakSpeechPhase::IntroduceRival { page_index, char_index, waiting_for_input } => {
                self.text_frame(input, TextScene::IntroduceRival, page_index, char_index, waiting_for_input)
            },
            OakSpeechPhase::FinalSpeech { page_index, char_index, waiting_for_input } => {
                self.text_frame(input, TextScene::FinalSpeech, page_index, char_index, waiting_for_input)
            },
            OakSpeechPhase::PlayerNameChoice { cursor } => {
                self.name_choice(input, cursor, PicSlideSubject::Player)
            },
            OakSpeechPhase::RivalNameChoice { cursor } => {
                self.name_choice(input, cursor, PicSlideSubject::Rival)
            },
            OakSpeechPhase::SlidePic { direction, subject, frame } => {
                let total = match direction {
                    PicSlideDirection::Right => SLIDE_PIC_RIGHT_FRAMES,
                    PicSlideDirection::Left => SLIDE_PIC_LEFT_FRAMES,
                };
                let next = frame + 1;
                if next < total {
                    self.phase = OakSpeechPhase::SlidePic { direction, subject, frame: next };
                } else {
                    self.phase = match (direction, subject) {
                        (PicSlideDirection::Right, PicSlideSubject::Player) => OakSpeechPhase::PlayerNameChoice { cursor: 0 },
                        (PicSlideDirection::Right, PicSlideSubject::Rival) => OakSpeechPhase::RivalNameChoice { cursor: 0 },
                        (PicSlideDirection::Left, PicSlideSubject::Player) => text_phase(TextScene::IntroduceRival, 0, 0, false),
                        (PicSlideDirection::Left, PicSlideSubject::Rival) => text_phase(TextScene::FinalSpeech, 0, 0, false),
                    };
                }
            },
            OakSpeechPhase::ShrinkPlayer { frame } => {
                let next = frame + 1;
                if next >= SHRINK_TOTAL_FRAMES {
                    self.phase = OakSpeechPhase::Done;
                } else {
                    self.phase = OakSpeechPhase::ShrinkPlayer { frame: next };
                }
            },
            OakSpeechPhase::PlayerNaming | OakSpeechPhase::RivalNaming | OakSpeechPhase::Done => {},
        }
    }

    /// One frame of a text scene.
    fn text_frame(&mut self, input: OakSpeechInput, scene: TextScene, pi: usize, ci: u16, w: bool)
        requires
            old(self).phase == spec_text_phase(scene, pi, ci, w),
            process_ok(old(self)@, input),
        ensures
            final(self)@ == spec_process_phase(old(self)@, input),
    {
        let step = self.text_step(input, scene, pi, ci, w);
        match step {
            TextStep::Stay => {},
            TextStep::Current(a, b, c) => {
                self.phase = text_phase(scene, a, b, c);
            },
            TextStep::Advance => {
                self.phase = scene_after(scene);
            },
        }
    }

    fn text_step(&self, input: OakSpeechInput, scene: TextScene, pi: usize, ci: u16, w: bool) -> (s: TextStep)
        requires
            self.phase == spec_text_phase(scene, pi, ci, w),
            process_ok(self@, input),
        ensures
            s == spec_text_step(self.phase_frame, input, scene, pi, ci, w, self@.player_name),
    {
        if self.phase_frame < entrance_frames(&text_phase(scene, 0, 0, false)) {
            return TextStep::Stay;
        }
        let pages = scene_pages(scene, Lang::En);
        if w {
            if input.a || input.b {
                if pi + 1 >= pages.len() {
                    return TextStep::Advance;
                } else {
                    return TextStep::Current(pi + 1, 0, false);
                }
            }
            return TextStep::Stay;
        }
        let page = &pages[pi];
        let name = opt_str(&self.player_name);
        let total = page.total_chars(name) as u16;
        if input.a || input.b {
            return TextStep::Current(pi, total, true);
        }
        let next = ci + TYPEWRITER_CHARS_PER_FRAME;
        if next >= total {
            TextStep::Current(pi, total, true)
        } else {
            TextStep::Current(pi, next, false)
        }
    }

    /// One frame of a default-name menu.
    fn name_choice(&mut self, input: OakSpeechInput, cursor: usize, subject: PicSlideSubject)
        requires
            old(self).phase == (match subject {
                PicSlideSubject::Player => OakSpeechPhase::PlayerNameChoice { cursor },
                PicSlideSubject::Rival => OakSpeechPhase::RivalNameChoice { cursor },
            }),
            input.a ==> spec_choice_cursor(cursor, input) < 4,
        ensures
            final(self)@ == spec_name_choice(old(self)@, input, cursor, subject),
    {
        let mut c = cursor;
        if input.up && c > 0 {
            c = c - 1;
        } else if input.down && c < 3 {
            c = c + 1;
        }
        if input.a {
            if c == 3 {
                match subject {
                    PicSlideSubject::Player => {
                        self.naming_screen = Some(NamingScreenState::new(NamingScreenType::Player));
                        self.flash_frames = NAMING_FLASH_FRAMES;
                        self.phase = OakSpeechPhase::PlayerNaming;
                    },
                    PicSlideSubject::Rival => {
                        self.naming_screen = Some(NamingScreenState::new(NamingScreenType::Rival));
                        self.flash_frames = NAMING_FLASH_FRAMES;
                        self.phase = OakSpeechPhase::RivalNaming;
                    },
                }
            } else {
                match subject {
                    PicSlideSubject::Player => {
                        let name = default_player_name(c);
                        self.player_name = Some(name.clone());
                        self.pending_result = Some(OakSpeechResult::PlayerNameSet(name));
                        self.phase = OakSpeechPhase::SlidePic {
                            direction: PicSlideDirection::Left,
                            subject: PicSlideSubject::Player,
                            frame: 0,
                        };
                    },
                    PicSlideSubject::Rival => {
                        let name = default_rival_name(c);
                        self.rival_name = Some(name.clone());
                        self.pending_result = Some(OakSpeechResult::RivalNameSet(name));
                        self.phase = OakSpeechPhase::SlidePic {
                            direction: PicSlideDirection::Left,
                            subject: PicSlideSubject::Rival,
                            frame: 0,
                        };
                    },
                }
            }
        } else {
            match subject {
                PicSlideSubject::Player => {
                    self.phase = OakSpeechPhase::PlayerNameChoice { cursor: c };
                },
                PicSlideSubject::Rival => {
                    self.phase = OakSpeechPhase::RivalNameChoice { cursor: c };
                },
            }
        }
    }

    /// One frame of the naming screen during the speech.
    pub fn update_naming_frame(&mut self, input: NamingInput, is_zh: bool) -> (r: OakSpeechResult)
        requires
            naming_frame_ok(old(self)@, input, is_zh),
        ensures
            (final(self)@, r@) == spec_update_naming(old(self)@, input, is_zh),
            old(self)@.pending is None ==> final(self)@.pending is None,
    {
        if self.flash_frames > 0 {
            self.flash_frames = self.flash_frames - 1;
            return OakSpeechResult::Active;
        }
        let mut naming = match self.naming_screen.take() {
            Some(n) => n,
            None => {
                return OakSpeechResult::Active;
            },
        };
        let result = naming.update_frame(input, is_zh);
        match result {
            NamingScreenResult::Editing => {
                self.naming_screen = Some(naming);
                OakSpeechResult::Active
            },
            NamingScreenResult::Submitted(name) => {
                if matches!(self.phase, OakSpeechPhase::PlayerNaming) {
                    self.player_name = Some(name.clone());
                    self.flash_frames = NAMING_FLASH_FRAMES;
                    self.phase = OakSpeechPhase::RivalNameChoice { cursor: 0 };
                    OakSpeechResult::PlayerNameSet(name)
                } else if matches!(self.phase, OakSpeechPhase::RivalNaming) {
                    self.rival_name = Some(name.clone());
                    self.flash_frames = NAMING_FLASH_FRAMES;
                    self.phase = OakSpeechPhase::ShrinkPlayer { frame: 0 };
                    OakSpeechResult::RivalNameSet(name)
                } else {
                    self.naming_screen = Some(naming);
                    OakSpeechResult::Active
                }
            },
            NamingScreenResult::Cancelled => {
                if matches!(self.phase, OakSpeechPhase::PlayerNaming) {
                    let name = default_player_name(0);
                    self.player_name = Some(name.clone());
                    self.flash_frames = NAMING_FLASH_FRAMES;
                    self.phase = OakSpeechPhase::RivalNameChoice { cursor: 0 };
                    OakSpeechResult::PlayerNameSet(name)
                } else if matches!(self.phase, OakSpeechPhase::RivalNaming) {
                    let name = default_rival_name(0);
                    self.rival_name = Some(name.clone());
                    self.flash_frames = NAMING_FLASH_FRAMES;
                    self.phase = OakSpeechPhase::ShrinkPlayer { frame: 0 };
                    OakSpeechResult::RivalNameSet(name)
                } else {
                    self.naming_screen = Some(naming);
                    OakSpeechResult::Active
                }
            },
        }
    }

    pub fn is_naming_active(&self) -> (r: bool)
        ensures
            r == (self@.phase is PlayerNaming || self@.phase is RivalNaming),
    {
        matches!(self.phase, OakSpeechPhase::PlayerNaming | OakSpeechPhase::RivalNaming)
    }

    /// The English page the current phase shows, if any.
    pub fn current_text_page(&self) -> (r: Option<TextPage>)
        ensures
            r == spec_page_for(self@.phase, Lang::En),
    {
        match text_pages_for_lang(&self.phase, Lang::En) {
            Some(p) => Some(*p),
            None => None,
        }
    }

    pub fn current_char_index(&self) -> (r: u16)
        ensures
            r == spec_current_char_index(self@.phase),
    {
        match self.phase {
            OakSpeechPhase::Greeting { char_index, .. } => char_index,
            OakSpeechPhase::ShowNidorino { char_index, .. } => char_index,
            OakSpeechPhase::Explanation { char_index, .. } => char_index,
            OakSpeechPhase::IntroducePlayer { char_index, .. } => char_index,
            OakSpeechPhase::IntroduceRival { char_index, .. } => char_index,
            OakSpeechPhase::FinalSpeech { char_index, .. } => char_index,
            _ => 0,
        }
    }

    pub fn is_waiting_for_input(&self) -> (r: bool)
        ensures
            r == spec_waiting(self@.phase),
    {
        match self.phase {
            OakSpeechPhase::Greeting { waiting_for_input, .. } => waiting_for_input,
            OakSpeechPhase::ShowNidorino { waiting_for_input, .. } => waiting_for_input,
            OakSpeechPhase::Explanation { waiting_for_input, .. } => waiting_for_input,
            OakSpeechPhase::IntroducePlayer { waiting_for_input, .. } => waiting_for_input,
            OakSpeechPhase::IntroduceRival { waiting_for_input, .. } => waiting_for_input,
            OakSpeechPhase::FinalSpeech { waiting_for_input, .. } => waiting_for_input,
            _ => false,
        }
    }

    /// The current page as one line of text.
    pub fn current_intro_text(&self) -> (r: Option<String>)
        ensures
            opt_string_view(r) == spec_intro_text(self@.phase, self@.player_name),
    {
        let page = match self.current_text_page() {
            Some(p) => p,
            None => {
                return None;
            },
        };
        let name = opt_str(&self.player_name);
        let mut l1 = fill_player(page.line1, name);
        let l2 = fill_player(page.line2, name);
        if char_count(l2.as_str()) == 0 {
            Some(l1)
        } else {
            proof {
                reveal_strlit(" ");
            }
            l1.append(" ");
            l1.append(l2.as_str());
            Some(l1)
        }
    }

    /// `text` with `<PLAYER>` replaced by the player's name ("RED" before
    /// one is chosen).
    pub fn get_display_text(&self, text: &str) -> (r: String)
        ensures
            r@ == spec_fill_player(text@, self@.player_name),
    {
        fill_player(text, opt_str(&self.player_name))
    }
}

impl Default for OakSpeechState {
    fn default() -> (s: OakSpeechState)
        ensures
            s@ == spec_initial(),
    {
        OakSpeechState::new()
    }
}


// ── Laws ───────────────────────────────────────────────────────────

/// The speech after one frame for each of `inputs`, in order.
pub open spec fn spec_run(m: OakModel, inputs: Seq<OakSpeechInput>) -> OakModel
    decreases inputs.len(),
{
    if inputs.len() == 0 {
        m
    } else {
        spec_update_frame(spec_run(m, inputs.drop_last()), inputs.last()).0
    }
}

/// While the naming screen's white flash shows, a frame changes nothing
/// but the flash counter and reports `Active`.
pub proof fn lemma_flash_swallows_frame(m: OakModel, input: OakSpeechInput)
    requires
        m.flash_frames > 0,
    ensures
        spec_update_frame(m, input).0 == (OakModel { flash_frames: (m.flash_frames - 1) as u8, ..m }),
        spec_update_frame(m, input).1 is Active,
{
}

/// While a scene's pic entrance plays, input is ignored: the page, the
/// character and the wait state stay, and only the frame counter moves.
pub proof fn lemma_entrance_ignores_input(m: OakModel, input: OakSpeechInput)
    requires
        m.flash_frames == 0,
        m.pending is None,
        spec_text_view(m.phase) matches Some((scene, _, _, _)) && m.phase_frame < spec_scene_entrance(scene),
    ensures
        spec_update_frame(m, input).0.phase == m.phase,
        spec_update_frame(m, input).0.phase_frame == m.phase_frame + 1,
        spec_update_frame(m, input).1 is Active,
{
}

/// The greeting waits out its fade-in: over the first
/// `INTRO_FADE_IN_FRAMES` (60) frames from the start, whatever is pressed,
/// the greeting stays on its first page with no character shown, and only
/// the frame counter moves.
pub proof fn lemma_greeting_waits_for_fade_in(inputs: Seq<OakSpeechInput>)
    requires
        inputs.len() <= INTRO_FADE_IN_FRAMES,
    ensures
        spec_run(spec_initial(), inputs) == (OakModel { phase_frame: inputs.len() as u16, ..spec_initial() }),
    decreases inputs.len(),
{
    if inputs.len() > 0 {
        lemma_greeting_waits_for_fade_in(inputs.drop_last());
    }
}

/// The shrink finale lasts exactly `SHRINK_TOTAL_FRAMES` (102) frames,
/// whatever is pressed on each: after `k` frames it is at beat `k`, and
/// then the speech is done.
pub proof fn lemma_shrink_lasts_total_frames(m: OakModel, inputs: Seq<OakSpeechInput>)
    requires
        m.flash_frames == 0,
        m.phase == (OakSpeechPhase::ShrinkPlayer { frame: 0 }),
        m.pending is None,
        inputs.len() <= SHRINK_TOTAL_FRAMES,
    ensures
        spec_run(m, inputs).flash_frames == 0,
        spec_run(m, inputs).pending is None,
        inputs.len() < SHRINK_TOTAL_FRAMES ==> spec_run(m, inputs).phase == (OakSpeechPhase::ShrinkPlayer {
            frame: inputs.len() as u16,
        }),
        inputs.len() == SHRINK_TOTAL_FRAMES ==> spec_run(m, inputs).phase is Done,
    decreases inputs.len(),
{
    if inputs.len() > 0 {
        lemma_shrink_lasts_total_frames(m, inputs.drop_last());
    }
}

/// A pic slide lasts exactly its frame count (18 to the right, 31 to the
/// left), whatever is pressed on each: after `k` frames it is at frame `k`,
/// and then the menu opens (right) or the next scene starts (left).
pub proof fn lemma_slide_lasts_total_frames(
    m: OakModel,
    inputs: Seq<OakSpeechInput>,
    direction: PicSlideDirection,
    subject: PicSlideSubject,
)
    requires
        m.flash_frames == 0,
        m.phase == (OakSpeechPhase::SlidePic { direction, subject, frame: 0 }),
        m.pending is None,
        inputs.len() <= spec_slide_total(direction),
    ensures
        spec_run(m, inputs).flash_frames == 0,
        spec_run(m, inputs).pending is None,
        inputs.len() < spec_slide_total(direction) ==> spec_run(m, inputs).phase == (OakSpeechPhase::SlidePic {
            direction,
            subject,
            frame: inputs.len() as u8,
        }),
        inputs.len() == spec_slide_total(direction) ==> spec_run(m, inputs).phase == spec_slide_next(
            direction,
            subject,
            (spec_slide_total(direction) - 1) as u8,
        ),
        inputs.len() == spec_slide_total(direction) && direction == PicSlideDirection::Right && subject
            == PicSlideSubject::Player ==> spec_run(m, inputs).phase == (OakSpeechPhase::PlayerNameChoice { cursor: 0 }),
        inputs.len() == spec_slide_total(direction) && direction == PicSlideDirection::Left && subject
            == PicSlideSubject::Player ==> spec_run(m, inputs).phase == spec_text_phase(TextScene::IntroduceRival, 0, 0, false),
    decreases inputs.len(),
{
    if inputs.len() > 0 {
        lemma_slide_lasts_total_frames(m, inputs.drop_last(), direction, subject);
    }
}

/// Picking a default name (A on one of the first three entries, no other
/// key) stores it, reports it, and slides the pic back.
pub proof fn lemma_default_player_name_chosen(m: OakModel, cursor: usize)
    requires
        m.flash_frames == 0,
        m.phase == (OakSpeechPhase::PlayerNameChoice { cursor }),
        cursor < 3,
    ensures
        ({
            let input = OakSpeechInput { up: false, down: false, a: true, b: false };
            let (m2, r) = spec_update_frame(m, input);
            &&& m2.player_name == Some(spec_default_player_name(cursor as int))
            &&& r == OakResultView::PlayerNameSet(spec_default_player_name(cursor as int))
            &&& m2.phase == (OakSpeechPhase::SlidePic {
                direction: PicSlideDirection::Left,
                subject: PicSlideSubject::Player,
                frame: 0,
            })
            &&& m2.pending is None
        }),
{
}

/// Finishing the naming screen with nothing typed takes the first default
/// name.
pub proof fn lemma_empty_name_takes_default(m: OakModel, input: NamingInput, is_zh: bool)
    requires
        m.flash_frames == 0,
        m.phase is PlayerNaming,
        m.naming matches Some(n) && spec_update(n, input, is_zh).submitted && spec_update(n, input, is_zh).name.len() == 0,
    ensures
        spec_update_naming(m, input, is_zh).0.player_name == Some(spec_default_player_name(0)),
        spec_update_naming(m, input, is_zh).1 == OakResultView::PlayerNameSet(spec_default_player_name(0)),
        spec_update_naming(m, input, is_zh).0.naming is None,
        spec_update_naming(m, input, is_zh).0.flash_frames == NAMING_FLASH_FRAMES,
{
}

/// In a default-name menu (with no flash showing), a frame with only Down
/// pressed moves the cursor one entry down unless it is on the last of the
/// four entries, and a frame with only Up pressed moves it one entry up
/// unless it is on the first; either way the menu stays open and the frame
/// reports nothing. Down never moves the cursor up, nor Up down.
pub proof fn lemma_menu_cursor_follows_the_pad(m: OakModel, cursor: usize, rival: bool)
    requires
        m.flash_frames == 0,
        m.pending is None,
        m.phase == if rival {
            OakSpeechPhase::RivalNameChoice { cursor }
        } else {
            OakSpeechPhase::PlayerNameChoice { cursor }
        },
    ensures
        ({
            let down = OakSpeechInput { up: false, down: true, a: false, b: false };
            let next: usize = if cursor < 3 { (cursor + 1) as usize } else { cursor };
            &&& spec_update_frame(m, down).0.phase == if rival {
                OakSpeechPhase::RivalNameChoice { cursor: next }
            } else {
                OakSpeechPhase::PlayerNameChoice { cursor: next }
            }
            &&& spec_update_frame(m, down).1 is Active
        }),
        ({
            let up = OakSpeechInput { up: true, down: false, a: false, b: false };
            let next: usize = if cursor > 0 { (cursor - 1) as usize } else { cursor };
            &&& spec_update_frame(m, up).0.phase == if rival {
                OakSpeechPhase::RivalNameChoice { cursor: next }
            } else {
                OakSpeechPhase::PlayerNameChoice { cursor: next }
            }
            &&& spec_update_frame(m, up).1 is Active
        }),
{
}

} // verus!
