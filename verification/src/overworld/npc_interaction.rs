//! Pressing A at an NPC: trainers start a battle, item balls are picked
//! up, others talk; and signs read from the tile in front of the player.

use vstd::prelude::*;

use crate::direction::{direction_delta, spec_delta, Direction};

verus! {

/// What interaction reads of an NPC on the map.
#[derive(Debug, Clone, Copy, PartialEq, Eq, Structural)]
pub struct NpcState {
    pub npc_index: u8,
    pub text_id: u8,
    /// Beaten (a trainer) or collected (an item ball).
    pub defeated: bool,
    pub visible: bool,
}

/// The Pokémon-specific data of an NPC, at the NPC's index.
#[derive(Debug, Clone, PartialEq, Eq)]
pub struct PokemonNpcData {
    pub is_trainer: bool,
    pub trainer_class: u8,
    pub trainer_set: u8,
    /// The item of an item ball (0 for none).
    pub item_id: u8,
    pub end_battle_text: Option<String>,
}

/// Result of pressing A near an NPC.
#[derive(Debug, Clone, PartialEq, Eq, Structural)]
pub enum InteractionResult {
    /// No NPC in front of the player.
    NoTarget,
    /// Regular NPC dialog.
    Talk { npc_index: u8, text_id: u8 },
    /// Trainer battle.
    TrainerBattle { npc_index: u8, trainer_class: u8, trainer_set: u8 },
    /// Item ball pickup.
    ItemPickup { npc_index: u8, item_id: u8 },
    /// NPC already beaten or collected.
    AlreadyDefeated { npc_index: u8, text_id: u8 },
}

/// A trainer that has seen the player.
#[derive(Debug, Clone, PartialEq, Eq, Structural)]
pub struct TrainerSighting {
    pub npc_index: u8,
    pub trainer_class: u8,
    pub trainer_set: u8,
    pub distance: u8,
}

pub open spec fn spec_try_interact(npc: Option<NpcState>, data: Seq<PokemonNpcData>) -> InteractionResult {
    match npc {
        None => InteractionResult::NoTarget,
        Some(n) => if n.defeated {
            InteractionResult::AlreadyDefeated { npc_index: n.npc_index, text_id: n.text_id }
        } else if n.npc_index < data.len() && data[n.npc_index as int].is_trainer {
            InteractionResult::TrainerBattle {
                npc_index: n.npc_index,
                trainer_class: data[n.npc_index as int].trainer_class,
                trainer_set: data[n.npc_index as int].trainer_set,
            }
        } else if n.npc_index < data.len() && data[n.npc_index as int].item_id != 0 {
            InteractionResult::ItemPickup { npc_index: n.npc_index, item_id: data[n.npc_index as int].item_id }
        } else {
            InteractionResult::Talk { npc_index: n.npc_index, text_id: n.text_id }
        },
    }
}

/// Interact with the NPC in front of the player (`None` when there is
/// none): a defeated NPC gives its post-defeat text; a trainer starts a
/// battle; an item ball is picked up; any other NPC talks.
pub fn try_interact(npc_in_front: Option<&NpcState>, pokemon_data: &[PokemonNpcData]) -> (r: InteractionResult)
    ensures
        r == spec_try_interact(
            match npc_in_front {
                Some(n) => Some(*n),
                None => None,
            },
            pokemon_data@,
        ),
{
    let npc = match npc_in_front {
        Some(n) => n,
        None => {
            return InteractionResult::NoTarget;
        },
    };
    if npc.defeated {
        return InteractionResult::AlreadyDefeated { npc_index: npc.npc_index, text_id: npc.text_id };
    }
    let i = npc.npc_index as usize;
    if i < pokemon_data.len() && pokemon_data[i].is_trainer {
        return InteractionResult::TrainerBattle {
            npc_index: npc.npc_index,
            trainer_class: pokemon_data[i].trainer_class,
            trainer_set: pokemon_data[i].trainer_set,
        };
    }
    if i < pokemon_data.len() && pokemon_data[i].item_id != 0 {
        return InteractionResult::ItemPickup { npc_index: npc.npc_index, item_id: pokemon_data[i].item_id };
    }
    InteractionResult::Talk { npc_index: npc.npc_index, text_id: npc.text_id }
}

/// The first NPC with index `npc_index` is at position `k`.
pub open spec fn first_npc_at(npcs: Seq<NpcState>, npc_index: u8, k: int) -> bool {
    &&& 0 <= k < npcs.len()
    &&& npcs[k].npc_index == npc_index
    &&& forall|j: int| 0 <= j < k ==> (#[trigger] npcs[j]).npc_index != npc_index
}

/// Pick up an item ball: the first NPC with the index, not yet collected,
/// whose data names an item, is marked collected and hidden, and its item
/// is returned; otherwise nothing changes.
pub fn collect_item(npcs: &mut Vec<NpcState>, pokemon_data: &[PokemonNpcData], npc_index: u8) -> (r: Option<u8>)
    ensures
        match r {
            Some(item) => exists|k: int|
                first_npc_at(old(npcs)@, npc_index, k) && !old(npcs)@[k].defeated && npc_index < pokemon_data@.len()
                    && pokemon_data@[npc_index as int].item_id == item && item != 0 && final(npcs)@ == old(npcs)@.update(
                    k,
                    NpcState { defeated: true, visible: false, ..old(npcs)@[k] },
                ),
            None => final(npcs)@ == old(npcs)@ && forall|k: int|
                first_npc_at(old(npcs)@, npc_index, k) ==> (old(npcs)@[k].defeated || npc_index >= pokemon_data@.len()
                    || pokemon_data@[npc_index as int].item_id == 0),
        },
{
    let mut k: usize = 0;
    while k < npcs.len() && npcs[k].npc_index != npc_index
        invariant
            k <= npcs@.len(),
            npcs@ == old(npcs)@,
            forall|j: int| 0 <= j < k ==> (#[trigger] npcs@[j]).npc_index != npc_index,
        decreases npcs@.len() - k,
    {
        k += 1;
    }
    if k == npcs.len() {
        return None;
    }
    assert(first_npc_at(old(npcs)@, npc_index, k as int));
    if npcs[k].defeated {
        return None;
    }
    let i = npc_index as usize;
    if i >= pokemon_data.len() {
        return None;
    }
    let item = pokemon_data[i].item_id;
    if item == 0 {
        return None;
    }
    let mut n = npcs[k];
    n.defeated = true;
    n.visible = false;
    npcs.set(k, n);
    Some(item)
}

/// The text of the first sign at the tile the player faces (coordinates
/// taken to a byte).
pub open spec fn spec_sign_target(player_x: u16, player_y: u16, facing: Direction) -> (u8, u8) {
    (((player_x + spec_delta(facing).0) % 256) as u8, ((player_y + spec_delta(facing).1) % 256) as u8)
}

/// A coordinate moved by `d` (-1, 0 or 1), taken to its low byte.
fn wrap_coord(p: u16, d: i8) -> (r: u8)
    requires
        -1 <= d <= 1,
    ensures
        r == ((p + d) % 256) as u8,
{
    let v: u32 = p as u32 + 256;
    let w: u32 = if d < 0 {
        v - 1
    } else {
        v + d as u32
    };
    (w % 256) as u8
}

pub open spec fn spec_find_sign(signs: Seq<(u8, u8, u8)>, x: u8, y: u8) -> Option<u8>
    decreases signs.len(),
{
    if signs.len() == 0 {
        None
    } else if signs[0].0 == x && signs[0].1 == y {
        Some(signs[0].2)
    } else {
        spec_find_sign(signs.drop_first(), x, y)
    }
}

/// The text id of a sign at the tile the player faces, if there is one.
/// `signs` holds (x, y, text id).
pub fn check_sign_interaction(signs: &[(u8, u8, u8)], player_x: u16, player_y: u16, facing: Direction) -> (r: Option<u8>)
    ensures
        r == spec_find_sign(
            signs@,
            spec_sign_target(player_x, player_y, facing).0,
            spec_sign_target(player_x, player_y, facing).1,
        ),
{
    let (dx, dy) = direction_delta(facing);
    let tx = wrap_coord(player_x, dx);
    let ty = wrap_coord(player_y, dy);
    let mut i: usize = 0;
    assert(signs@.subrange(0, signs@.len() as int) =~= signs@);
    while i < signs.len()
        invariant
            i <= signs@.len(),
            tx == spec_sign_target(player_x, player_y, facing).0,
            ty == spec_sign_target(player_x, player_y, facing).1,
            spec_find_sign(signs@.subrange(i as int, signs@.len() as int), tx, ty) == spec_find_sign(signs@, tx, ty),
        decreases signs@.len() - i,
    {
        let ghost rest = signs@.subrange(i as int, signs@.len() as int);
        if signs[i].0 == tx && signs[i].1 == ty {
            return Some(signs[i].2);
        }
        assert(rest.drop_first() =~= signs@.subrange(i + 1, signs@.len() as int));
        i += 1;
    }
    None
}

} // verus!
