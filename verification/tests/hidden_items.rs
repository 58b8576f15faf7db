use pokered_core::overworld::hidden_items::{
    bag_full_message, check_obtained, dropped_coins_message, examine_facing_coin_tile,
    examine_facing_tile, found_coins_message, found_message, set_obtained, HiddenCoinFind,
    HiddenItemFind, HiddenItemSpot, BAG_ITEM_CAPACITY, HIDDEN_COINS_BYTES, HIDDEN_ITEMS_BYTES,
};

const POTION: u8 = 0x14;

fn empty_flags() -> [u8; HIDDEN_ITEMS_BYTES] {
    [0; HIDDEN_ITEMS_BYTES]
}

/// The Viridian Forest POTION at (1, 18), the first spot of the table.
fn viridian_forest_potion() -> HiddenItemSpot {
    HiddenItemSpot {
        index: 0,
        item: POTION,
        item_const_name: "POTION".to_string(),
    }
}

#[test]
fn flag_round_trip_matches_original_bit_layout() {
    let mut flags = empty_flags();
    assert!(!check_obtained(&flags, 0));
    set_obtained(&mut flags, 0);
    assert_eq!(flags[0], 0b0000_0001);
    set_obtained(&mut flags, 53);
    assert_eq!(flags[6], 0b0010_0000);
    assert!(check_obtained(&flags, 0));
    assert!(check_obtained(&flags, 53));
    assert!(!check_obtained(&flags, 1));
}

#[test]
fn examine_finds_item_on_facing_tile() {
    let flags = empty_flags();
    let bag: Vec<String> = Vec::new();
    let spot = viridian_forest_potion();
    let find = examine_facing_tile(Some(&spot), &flags, &bag);
    assert_eq!(
        find,
        Some(HiddenItemFind::Found {
            index: 0,
            item: POTION,
            bag_full: false,
        })
    );
}

#[test]
fn examine_returns_none_off_tile() {
    let flags = empty_flags();
    let bag: Vec<String> = Vec::new();
    assert_eq!(examine_facing_tile(None, &flags, &bag), None);
}

#[test]
fn examine_already_obtained_shows_nothing() {
    let mut flags = empty_flags();
    set_obtained(&mut flags, 0);
    let bag: Vec<String> = Vec::new();
    let spot = viridian_forest_potion();
    assert_eq!(
        examine_facing_tile(Some(&spot), &flags, &bag),
        Some(HiddenItemFind::AlreadyObtained)
    );
}

#[test]
fn examine_bag_full_unless_stack_held() {
    let flags = empty_flags();
    let spot = viridian_forest_potion();
    let full_bag: Vec<String> = (0..BAG_ITEM_CAPACITY).map(|i| format!("ITEM_{i}")).collect();
    assert_eq!(
        examine_facing_tile(Some(&spot), &flags, &full_bag),
        Some(HiddenItemFind::Found {
            index: 0,
            item: POTION,
            bag_full: true,
        })
    );
    let mut bag_with_stack = full_bag;
    bag_with_stack[0] = "POTION".to_string();
    assert_eq!(
        examine_facing_tile(Some(&spot), &flags, &bag_with_stack),
        Some(HiddenItemFind::Found {
            index: 0,
            item: POTION,
            bag_full: false,
        })
    );
}

#[test]
fn found_message_uses_display_name() {
    assert_eq!(found_message("RED", Some("NUGGET")), "RED found\nNUGGET!");
    assert_eq!(found_message("RED", None), "RED found\nITEM!");
}

#[test]
fn bag_full_text() {
    assert_eq!(
        bag_full_message("RED"),
        "But, RED has\nno more room for\nother items!"
    );
}

#[test]
fn coin_spots_award_stored_amount_except_forty() {
    let mut flags = [0u8; HIDDEN_COINS_BYTES];
    assert_eq!(
        examine_facing_coin_tile(Some((3, 10)), &flags),
        Some(HiddenCoinFind::Found { index: 3, amount: 10 })
    );
    assert_eq!(
        examine_facing_coin_tile(Some((4, 40)), &flags),
        Some(HiddenCoinFind::Found { index: 4, amount: 20 })
    );
    assert_eq!(examine_facing_coin_tile(None, &flags), None);
    set_obtained(&mut flags, 3);
    assert_eq!(
        examine_facing_coin_tile(Some((3, 10)), &flags),
        Some(HiddenCoinFind::AlreadyObtained)
    );
}

#[test]
fn coin_texts() {
    assert_eq!(found_coins_message("RED", 20), "RED found\n@20 coins!");
    assert_eq!(found_coins_message("RED", 0), "RED found\n@0 coins!");
    assert_eq!(dropped_coins_message(), "Oops! Dropped\nsome coins!");
}
