//! Bookshelf and wall-object text: when the player presses A facing up at a
//! building tile, the faced tile is matched against a per-tileset table; a
//! hit prints the associated text (bookshelves, the wall town map,
//! elevators, merchandise shelves and the Indigo Plateau statues, whose text
//! varies with the player's x parity). This runs before sign and NPC
//! interaction.

use vstd::prelude::*;

use crate::text::str_eq;

verus! {

/// What the matched shelf or wall object shows.
#[derive(Debug, Clone, Copy, PartialEq, Eq, Structural)]
pub enum BookshelfText {
    /// "INDIGO PLATEAU" and a text that varies with the player's x parity.
    IndigoPlateauStatues,
    /// "A TOWN MAP.", then the town map opens.
    TownMap,
    /// "Crammed full of #MON books!"
    PokemonBooks,
    /// "It's a sculpture of DIGLETT."
    DiglettSculpture,
    /// "This is an elevator."
    Elevator,
    /// "Wow! Tons of #MON stuff!"
    PokemonStuff,
}

/// The (tile, text) entries of a tileset, by the tileset's name in the map
/// headers; empty for a tileset without shelves.
pub open spec fn spec_shelf_entries(tileset: Seq<char>) -> Seq<(u8, BookshelfText)> {
    if tileset == "Plateau"@ {
        seq![(0x30u8, BookshelfText::IndigoPlateauStatues)]
    } else if tileset == "House"@ {
        seq![(0x3Du8, BookshelfText::TownMap), (0x1Eu8, BookshelfText::PokemonBooks)]
    } else if tileset == "Mansion"@ {
        seq![(0x32u8, BookshelfText::PokemonBooks)]
    } else if tileset == "RedsHouse1"@ {
        seq![(0x32u8, BookshelfText::PokemonBooks)]
    } else if tileset == "Lab"@ {
        seq![(0x28u8, BookshelfText::PokemonBooks)]
    } else if tileset == "Lobby"@ {
        seq![
            (0x16u8, BookshelfText::Elevator),
            (0x50u8, BookshelfText::PokemonStuff),
            (0x52u8, BookshelfText::PokemonStuff),
        ]
    } else if tileset == "Gym"@ {
        seq![(0x1Du8, BookshelfText::PokemonBooks)]
    } else if tileset == "Dojo"@ {
        seq![(0x1Du8, BookshelfText::PokemonBooks)]
    } else if tileset == "Gate"@ {
        seq![(0x22u8, BookshelfText::PokemonBooks)]
    } else if tileset == "Mart"@ {
        seq![(0x54u8, BookshelfText::PokemonStuff), (0x55u8, BookshelfText::PokemonStuff)]
    } else if tileset == "Pokecenter"@ {
        seq![(0x54u8, BookshelfText::PokemonStuff), (0x55u8, BookshelfText::PokemonStuff)]
    } else if tileset == "Ship"@ {
        seq![(0x36u8, BookshelfText::PokemonBooks)]
    } else {
        seq![]
    }
}

/// The text of the first entry whose tile matches.
pub open spec fn spec_find_tile(entries: Seq<(u8, BookshelfText)>, tile: u8) -> Option<BookshelfText>
    decreases entries.len(),
{
    if entries.len() == 0 {
        None
    } else if entries[0].0 == tile {
        Some(entries[0].1)
    } else {
        spec_find_tile(entries.drop_first(), tile)
    }
}

pub open spec fn spec_lookup(tileset: Seq<char>, tile: u8) -> Option<BookshelfText> {
    spec_find_tile(spec_shelf_entries(tileset), tile)
}

fn shelf_entries(tileset: &str) -> (e: &'static [(u8, BookshelfText)])
    ensures
        e@ == spec_shelf_entries(tileset@),
{
    let e: &'static [(u8, BookshelfText)] = if str_eq(tileset, "Plateau") {
        &[(0x30, BookshelfText::IndigoPlateauStatues)]
    } else if str_eq(tileset, "House") {
        &[(0x3D, BookshelfText::TownMap), (0x1E, BookshelfText::PokemonBooks)]
    } else if str_eq(tileset, "Mansion") {
        &[(0x32, BookshelfText::PokemonBooks)]
    } else if str_eq(tileset, "RedsHouse1") {
        &[(0x32, BookshelfText::PokemonBooks)]
    } else if str_eq(tileset, "Lab") {
        &[(0x28, BookshelfText::PokemonBooks)]
    } else if str_eq(tileset, "Lobby") {
        &[(0x16, BookshelfText::Elevator), (0x50, BookshelfText::PokemonStuff), (0x52, BookshelfText::PokemonStuff)]
    } else if str_eq(tileset, "Gym") {
        &[(0x1D, BookshelfText::PokemonBooks)]
    } else if str_eq(tileset, "Dojo") {
        &[(0x1D, BookshelfText::PokemonBooks)]
    } else if str_eq(tileset, "Gate") {
        &[(0x22, BookshelfText::PokemonBooks)]
    } else if str_eq(tileset, "Mart") {
        &[(0x54, BookshelfText::PokemonStuff), (0x55, BookshelfText::PokemonStuff)]
    } else if str_eq(tileset, "Pokecenter") {
        &[(0x54, BookshelfText::PokemonStuff), (0x55, BookshelfText::PokemonStuff)]
    } else if str_eq(tileset, "Ship") {
        &[(0x36, BookshelfText::PokemonBooks)]
    } else {
        &[]
    };
    assert(e@ =~= spec_shelf_entries(tileset@));
    e
}

/// Match a faced tile against the table of the map's tileset (named as in
/// the map headers, e.g. "Gym", "House").
pub fn lookup(tileset_name: &str, tile: u8) -> (r: Option<BookshelfText>)
    ensures
        r == spec_lookup(tileset_name@, tile),
{
    let entries = shelf_entries(tileset_name);
    let mut i: usize = 0;
    assert(entries@.subrange(0, entries@.len() as int) =~= entries@);
    while i < entries.len()
        invariant
            entries@ == spec_shelf_entries(tileset_name@),
            i <= entries@.len(),
            spec_find_tile(entries@.subrange(i as int, entries@.len() as int), tile) == spec_lookup(tileset_name@, tile),
        decreases entries@.len() - i,
    {
        let ghost rest = entries@.subrange(i as int, entries@.len() as int);
        if entries[i].0 == tile {
            return Some(entries[i].1);
        }
        assert(rest.drop_first() =~= entries@.subrange(i + 1, entries@.len() as int));
        i += 1;
    }
    None
}

/// The tile at (x, y) of a map made of 2×2-tile blocks, `width` blocks
/// wide: the block's lower-left quarter of its 4×4 tile grid at the
/// position's quadrant. `blockset` holds each block's 16 tiles. 0 when the
/// position or block is outside the map or the blockset.
pub open spec fn spec_faced_tile_id(blocks: Seq<u8>, width: u8, blockset: Seq<[u8; 16]>, x: u8, y: u8) -> u8 {
    let block_x = x / 2;
    let block_y = y / 2;
    let sub_x = x % 2;
    let sub_y = y % 2;
    if block_x < width {
        let idx = block_y * width + block_x;
        if idx < blocks.len() {
            let block_id = blocks[idx];
            if block_id < blockset.len() {
                blockset[block_id as int]@[(sub_y * 2 + 1) * 4 + sub_x * 2]
            } else {
                0
            }
        } else {
            0
        }
    } else {
        0
    }
}

/// The tile id at the position the player faces: the same block-to-tile
/// derivation as the step lookup. `blockset` is the tileset's block data
/// (16 tile ids per block).
pub fn faced_tile_id(blocks: &[u8], width: u8, blockset: &[[u8; 16]], x: u8, y: u8) -> (t: u8)
    ensures
        t == spec_faced_tile_id(blocks@, width, blockset@, x, y),
{
    let block_x = (x / 2) as usize;
    let block_y = (y / 2) as usize;
    let sub_x = (x % 2) as usize;
    let sub_y = (y % 2) as usize;
    if block_x < width as usize {
        assert(block_y * (width as usize) <= 127 * 255) by (nonlinear_arith)
            requires
                block_y <= 127,
                width <= 255,
        ;
        let block_idx = block_y * (width as usize) + block_x;
        if block_idx < blocks.len() {
            let block_id = blocks[block_idx];
            if (block_id as usize) < blockset.len() {
                let tiles = &blockset[block_id as usize];
                return tiles[(sub_y * 2 + 1) * 4 + sub_x * 2];
            }
        }
    }
    0
}

/// The flavour text of the Indigo Plateau statues: odd x gives the
/// trainers' goal, even x the highest authority.
pub open spec fn spec_statue_flavor(player_x: u8) -> Seq<char> {
    if player_x % 2 == 1 {
        "The ultimate goal\nof trainers!\n#MON LEAGUE HQ"@
    } else {
        "The highest\n#MON authority\n#MON LEAGUE HQ"@
    }
}

/// The full English text of a matched shelf.
pub open spec fn spec_text_for(kind: BookshelfText, player_x: u8) -> Seq<char> {
    match kind {
        BookshelfText::IndigoPlateauStatues => "INDIGO PLATEAU\n\n"@ + spec_statue_flavor(player_x),
        BookshelfText::TownMap => "A TOWN MAP."@,
        BookshelfText::PokemonBooks => "Crammed full of\n#MON books!"@,
        BookshelfText::DiglettSculpture => "It's a sculpture\nof DIGLETT."@,
        BookshelfText::Elevator => "This is an\nelevator."@,
        BookshelfText::PokemonStuff => "Wow! Tons of\n#MON stuff!"@,
    }
}

/// The full text body for a matched shelf (English).
pub fn text_for(kind: BookshelfText, player_x: u8) -> (s: String)
    ensures
        s@ == spec_text_for(kind, player_x),
{
    match kind {
        BookshelfText::IndigoPlateauStatues => {
            let flavor = if player_x % 2 == 1 {
                "The ultimate goal\nof trainers!\n#MON LEAGUE HQ"
            } else {
                "The highest\n#MON authority\n#MON LEAGUE HQ"
            };
            let mut s = String::from_str("INDIGO PLATEAU\n\n");
            s.append(flavor);
            s
        },
        BookshelfText::TownMap => String::from_str("A TOWN MAP."),
        BookshelfText::PokemonBooks => String::from_str("Crammed full of\n#MON books!"),
        BookshelfText::DiglettSculpture => String::from_str("It's a sculpture\nof DIGLETT."),
        BookshelfText::Elevator => String::from_str("This is an\nelevator."),
        BookshelfText::PokemonStuff => String::from_str("Wow! Tons of\n#MON stuff!"),
    }
}

/// The statue text differs between odd and even x.
pub proof fn lemma_statue_text_varies_with_parity(odd_x: u8, even_x: u8)
    requires
        odd_x % 2 == 1,
        even_x % 2 == 0,
    ensures
        spec_text_for(BookshelfText::IndigoPlateauStatues, odd_x) != spec_text_for(
            BookshelfText::IndigoPlateauStatues,
            even_x,
        ),
{
    reveal_strlit("The ultimate goal\nof trainers!\n#MON LEAGUE HQ");
    reveal_strlit("The highest\n#MON authority\n#MON LEAGUE HQ");
    reveal_strlit("INDIGO PLATEAU\n\n");
    let a = spec_text_for(BookshelfText::IndigoPlateauStatues, odd_x);
    let b = spec_text_for(BookshelfText::IndigoPlateauStatues, even_x);
    assert(a[20] != b[20]);
}

/// `t` occurs in `s`.
pub open spec fn spec_contains(s: Seq<char>, t: Seq<char>) -> bool {
    exists|i: int| 0 <= i && i + t.len() <= s.len() && #[trigger] s.subrange(i, i + t.len()) == t
}

/// The statue text always opens with "INDIGO PLATEAU"; it speaks of the
/// "ultimate goal" exactly on odd x and of the "highest" authority exactly
/// on even x, so it repeats with period two; every other shelf text ignores
/// the player's x.
pub proof fn lemma_statue_text_law(x: u8, y: u8, kind: BookshelfText)
    ensures
        spec_text_for(BookshelfText::IndigoPlateauStatues, x).subrange(0, 14) == "INDIGO PLATEAU"@,
        spec_contains(spec_text_for(BookshelfText::IndigoPlateauStatues, x), "ultimate goal"@) == (x % 2 == 1),
        spec_contains(spec_text_for(BookshelfText::IndigoPlateauStatues, x), "highest"@) == (x % 2 == 0),
        x % 2 == y % 2 ==> spec_text_for(BookshelfText::IndigoPlateauStatues, x) == spec_text_for(
            BookshelfText::IndigoPlateauStatues,
            y,
        ),
        kind != BookshelfText::IndigoPlateauStatues ==> spec_text_for(kind, x) == spec_text_for(kind, y),
{
    reveal_strlit("The ultimate goal\nof trainers!\n#MON LEAGUE HQ");
    reveal_strlit("The highest\n#MON authority\n#MON LEAGUE HQ");
    reveal_strlit("INDIGO PLATEAU\n\n");
    reveal_strlit("INDIGO PLATEAU");
    reveal_strlit("ultimate goal");
    reveal_strlit("highest");
    let t = spec_text_for(BookshelfText::IndigoPlateauStatues, x);
    assert(t.subrange(0, 14) =~= "INDIGO PLATEAU"@);
    let goal = "ultimate goal"@;
    let high = "highest"@;
    if x % 2 == 1 {
        assert(t.subrange(20int, 20int + goal.len()) =~= goal);
        assert(spec_contains(t, goal));
        assert forall|i: int| 0 <= i && i + high.len() <= t.len() implies #[trigger] t.subrange(i, i + high.len()) != high by {
            if t.subrange(i, i + high.len()) == high {
                assert(t[i] == t.subrange(i, i + high.len())[0]);
                assert(t[i + 1] == t.subrange(i, i + high.len())[1]);
            }
        }
        assert(!spec_contains(t, high));
    } else {
        assert(t.subrange(20int, 20int + high.len()) =~= high);
        assert(spec_contains(t, high));
        assert forall|i: int| 0 <= i && i + goal.len() <= t.len() implies #[trigger] t.subrange(i, i + goal.len()) != goal by {
            if t.subrange(i, i + goal.len()) == goal {
                assert(t[i] == t.subrange(i, i + goal.len())[0]);
                assert(t[i + 1] == t.subrange(i, i + goal.len())[1]);
            }
        }
        assert(!spec_contains(t, goal));
    }
}

/// Within one block the faced tile moves two tiles along the block's row
/// per step in x and two rows (eight tiles) per step in y: the four
/// positions of a block face its tiles 4, 6, 12 and 14 (second and fourth
/// rows, first and third columns of its 4x4 grid).
pub proof fn lemma_faced_tile_within_block(blocks: Seq<u8>, width: u8, blockset: Seq<[u8; 16]>, x: u8, y: u8)
    requires
        x % 2 == 0,
        y % 2 == 0,
        x / 2 < width,
        (y / 2) * width + x / 2 < blocks.len(),
        blocks[(y / 2) * width + x / 2] < blockset.len(),
    ensures
        ({
            let tiles = blockset[blocks[(y / 2) * width + x / 2] as int]@;
            &&& spec_faced_tile_id(blocks, width, blockset, x, y) == tiles[4]
            &&& spec_faced_tile_id(blocks, width, blockset, (x + 1) as u8, y) == tiles[6]
            &&& spec_faced_tile_id(blocks, width, blockset, x, (y + 1) as u8) == tiles[12]
            &&& spec_faced_tile_id(blocks, width, blockset, (x + 1) as u8, (y + 1) as u8) == tiles[14]
        }),
{
}

} // verus!
