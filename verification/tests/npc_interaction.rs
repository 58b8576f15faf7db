use pokered_core::direction::Direction;
use pokered_core::overworld::npc_interaction::{
    check_sign_interaction, collect_item, try_interact, InteractionResult, NpcState,
    PokemonNpcData,
};

fn make_test_npc() -> NpcState {
    NpcState {
        npc_index: 0,
        text_id: 1,
        defeated: false,
        visible: true,
    }
}

fn make_trainer_extra() -> PokemonNpcData {
    PokemonNpcData {
        is_trainer: true,
        trainer_class: 9,
        trainer_set: 1,
        item_id: 0,
        end_battle_text: None,
    }
}

fn make_item_extra(item_id: u8) -> PokemonNpcData {
    PokemonNpcData {
        is_trainer: false,
        trainer_class: 0,
        trainer_set: 0,
        item_id,
        end_battle_text: None,
    }
}

fn no_extra() -> PokemonNpcData {
    PokemonNpcData {
        is_trainer: false,
        trainer_class: 0,
        trainer_set: 0,
        item_id: 0,
        end_battle_text: None,
    }
}

#[test]
fn sign_interaction_found() {
    let signs = vec![(5u8, 4u8, 3u8)];
    assert_eq!(check_sign_interaction(&signs, 5, 5, Direction::Up), Some(3));
}

#[test]
fn sign_interaction_wrong_direction() {
    let signs = vec![(5u8, 4u8, 3u8)];
    assert_eq!(check_sign_interaction(&signs, 5, 5, Direction::Down), None);
}

#[test]
fn sign_interaction_no_sign() {
    let signs: Vec<(u8, u8, u8)> = vec![];
    assert_eq!(check_sign_interaction(&signs, 5, 5, Direction::Up), None);
}

#[test]
fn sign_interaction_first_match_wins() {
    let signs = vec![(6u8, 5u8, 7u8), (6u8, 5u8, 8u8)];
    assert_eq!(check_sign_interaction(&signs, 5, 5, Direction::Right), Some(7));
    assert_eq!(check_sign_interaction(&signs, 7, 5, Direction::Left), Some(7));
}

#[test]
fn interact_no_target() {
    let data: Vec<PokemonNpcData> = vec![];
    assert_eq!(try_interact(None, &data), InteractionResult::NoTarget);
}

#[test]
fn interact_talk_regular_npc() {
    let npcs = vec![make_test_npc()];
    let data = vec![no_extra()];
    match try_interact(npcs.first(), &data) {
        InteractionResult::Talk { text_id, .. } => assert_eq!(text_id, 1),
        other => panic!("Expected Talk, got {:?}", other),
    }
}

#[test]
fn interact_trainer_battle() {
    let npcs = vec![make_test_npc()];
    let data = vec![make_trainer_extra()];
    match try_interact(npcs.first(), &data) {
        InteractionResult::TrainerBattle {
            trainer_class,
            trainer_set,
            ..
        } => {
            assert_eq!(trainer_class, 9);
            assert_eq!(trainer_set, 1);
        }
        other => panic!("Expected TrainerBattle, got {:?}", other),
    }
}

#[test]
fn interact_item_pickup() {
    let npcs = vec![make_test_npc()];
    let data = vec![make_item_extra(0x14)];
    match try_interact(npcs.first(), &data) {
        InteractionResult::ItemPickup { item_id, .. } => assert_eq!(item_id, 0x14),
        other => panic!("Expected ItemPickup, got {:?}", other),
    }
}

#[test]
fn interact_defeated_trainer() {
    let mut npcs = vec![make_test_npc()];
    npcs[0].defeated = true;
    let data = vec![make_trainer_extra()];
    match try_interact(npcs.first(), &data) {
        InteractionResult::AlreadyDefeated { text_id, .. } => assert_eq!(text_id, 1),
        other => panic!("Expected AlreadyDefeated, got {:?}", other),
    }
}

#[test]
fn collect_item_marks_defeated_and_invisible() {
    let mut npcs = vec![make_test_npc()];
    let data = vec![make_item_extra(0x20)];
    let item = collect_item(&mut npcs, &data, 0);
    assert_eq!(item, Some(0x20));
    assert!(npcs[0].defeated);
    assert!(!npcs[0].visible);
}

#[test]
fn collect_item_already_taken() {
    let mut npcs = vec![make_test_npc()];
    npcs[0].defeated = true;
    let data = vec![make_item_extra(0x20)];
    assert_eq!(collect_item(&mut npcs, &data, 0), None);
}

#[test]
fn collect_item_not_an_item_ball() {
    let mut npcs = vec![make_test_npc()];
    let data = vec![no_extra()];
    assert_eq!(collect_item(&mut npcs, &data, 0), None);
    assert!(!npcs[0].defeated);
    assert!(npcs[0].visible);
}
