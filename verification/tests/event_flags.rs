use pokered_core::overworld::event_flags::{EventFlags, EVENT_FLAGS_SIZE};

/// Bit indices of a few event constants of the game's event table.
const EVENT_GOT_STARTER: u16 = 0x22;
const EVENT_BEAT_BROCK: u16 = 0x77;
const EVENT_BEAT_MISTY: u16 = 0x97;
const EVENT_BEAT_LT_SURGE: u16 = 0xBF;

#[test]
fn new_all_cleared() {
    let flags = EventFlags::new();
    assert_eq!(flags.count_set(), 0);
}

#[test]
fn default_same_as_new() {
    let a = EventFlags::new();
    let b = EventFlags::default();
    assert_eq!(a.as_bytes(), b.as_bytes());
}

#[test]
fn set_and_check() {
    let mut flags = EventFlags::new();
    assert!(!flags.check(EVENT_GOT_STARTER));
    flags.set(EVENT_GOT_STARTER);
    assert!(flags.check(EVENT_GOT_STARTER));
}

#[test]
fn reset() {
    let mut flags = EventFlags::new();
    flags.set(EVENT_GOT_STARTER);
    assert!(flags.check(EVENT_GOT_STARTER));
    flags.reset(EVENT_GOT_STARTER);
    assert!(!flags.check(EVENT_GOT_STARTER));
}

#[test]
fn multiple_independent() {
    let mut flags = EventFlags::new();
    let f1 = EVENT_GOT_STARTER;
    let f2 = EVENT_BEAT_BROCK;
    flags.set(f1);
    assert!(flags.check(f1));
    assert!(!flags.check(f2));
    flags.set(f2);
    assert!(flags.check(f1));
    assert!(flags.check(f2));
    flags.reset(f1);
    assert!(!flags.check(f1));
    assert!(flags.check(f2));
}

#[test]
fn clear_all() {
    let mut flags = EventFlags::new();
    flags.set(EVENT_GOT_STARTER);
    flags.set(EVENT_BEAT_BROCK);
    flags.set_flag("extra_key", None, true);
    assert_eq!(flags.count_set(), 3);
    flags.clear_all();
    assert_eq!(flags.count_set(), 0);
    assert!(!flags.check(EVENT_GOT_STARTER));
    assert!(!flags.get_flag("extra_key", None));
}

#[test]
fn raw_operations() {
    let mut flags = EventFlags::new();
    assert!(!flags.check_raw(0));
    flags.set_raw(0);
    assert!(flags.check_raw(0));
    flags.reset_raw(0);
    assert!(!flags.check_raw(0));
    flags.set_raw(100);
    assert!(flags.check_raw(100));
    assert!(!flags.check_raw(99));
    assert!(!flags.check_raw(101));
}

#[test]
fn raw_out_of_bounds_are_noops() {
    let mut flags = EventFlags::new();
    flags.set_raw(0xFFFF);
    assert!(!flags.check_raw(0xFFFF));
    flags.set_raw(2559);
    assert!(flags.check_raw(2559));
    flags.reset_raw(2559);
    assert!(!flags.check_raw(2559));
}

#[test]
fn save_load_roundtrip() {
    let mut flags = EventFlags::new();
    flags.set(EVENT_GOT_STARTER);
    flags.set(EVENT_BEAT_BROCK);
    flags.set(EVENT_BEAT_MISTY);
    let bytes = flags.as_bytes();
    let loaded = EventFlags::from_bytes(bytes);
    assert!(loaded.check(EVENT_GOT_STARTER));
    assert!(loaded.check(EVENT_BEAT_BROCK));
    assert!(loaded.check(EVENT_BEAT_MISTY));
    assert!(!loaded.check(EVENT_BEAT_LT_SURGE));
    assert_eq!(loaded.count_set(), 3);
}

#[test]
fn raw_bits_roundtrip_through_bytes() {
    let mut flags = EventFlags::new();
    flags.set_raw(1);
    flags.set_raw(2522);
    let bytes = flags.as_bytes();
    let loaded = EventFlags::from_bytes(bytes);
    assert!(loaded.check_raw(1));
    assert!(loaded.check_raw(2522));
}

#[test]
fn get_flag_generic_access() {
    let mut flags = EventFlags::new();
    flags.set_flag("generic_key", None, true);
    assert!(flags.get_flag("generic_key", None));
    flags.set_flag("generic_key", None, false);
    assert!(!flags.get_flag("generic_key", None));
    flags.remove_flag("generic_key", None);
    assert!(!flags.get_flag("generic_key", None));
}

#[test]
fn named_and_raw_string_access() {
    let mut flags = EventFlags::new();
    flags.set_flag("EVENT_GOT_STARTER", Some(EVENT_GOT_STARTER), true);
    assert!(flags.get_flag("EVENT_GOT_STARTER", Some(EVENT_GOT_STARTER)));
    assert!(flags.check(EVENT_GOT_STARTER));
    flags.set_flag("__RAW_BIT_100", None, true);
    assert!(flags.get_flag("__RAW_BIT_100", None));
    assert!(flags.check_raw(100));
    assert!(!flags.check_raw(99));
    flags.remove_flag("__RAW_BIT_100", None);
    assert!(!flags.check_raw(100));
}

#[test]
fn to_event_bytes_pads_correctly() {
    let flags = EventFlags::new();
    let bytes = flags.to_event_bytes();
    assert_eq!(bytes.len(), EVENT_FLAGS_SIZE);
}

#[test]
fn load_event_bytes_replaces_bits() {
    let mut data = [0u8; EVENT_FLAGS_SIZE];
    let byte_offset = (EVENT_GOT_STARTER / 8) as usize;
    let bit_mask = 1u8 << (EVENT_GOT_STARTER % 8);
    data[byte_offset] = bit_mask;
    let mut flags = EventFlags::new();
    flags.load_event_bytes(&data);
    assert!(flags.check(EVENT_GOT_STARTER));
    let short = [0u8; 4];
    flags.load_event_bytes(&short);
    assert!(flags.check(EVENT_GOT_STARTER));
}

#[test]
fn extras_are_outside_the_byte_array() {
    let mut flags = EventFlags::new();
    flags.set_flag("__OBJ_HIDDEN_BILLS_HOUSE_OBJ_1", None, true);
    let bytes = flags.as_bytes();
    let loaded = EventFlags::from_bytes(bytes);
    assert!(!loaded.get_flag("__OBJ_HIDDEN_BILLS_HOUSE_OBJ_1", None));
    let cloned = flags.clone();
    assert!(cloned.get_flag("__OBJ_HIDDEN_BILLS_HOUSE_OBJ_1", None));
}

#[test]
fn raw_names_beyond_the_array_or_u16() {
    let mut flags = EventFlags::new();
    flags.set_flag("__RAW_BIT_9999", None, true);
    assert!(!flags.get_flag("__RAW_BIT_9999", None));
    assert_eq!(flags.as_bytes(), [0u8; EVENT_FLAGS_SIZE]);
    assert_eq!(flags.extras().len(), 0);
    flags.set_flag("__RAW_BIT_70000", None, true);
    assert!(flags.get_flag("__RAW_BIT_70000", None));
    assert_eq!(flags.extras().len(), 1);
}

#[test]
fn from_event_bytes_pads_short_input() {
    let flags = EventFlags::from_event_bytes(&[0xFF, 0x01]);
    assert!(flags.check_raw(0));
    assert!(flags.check_raw(7));
    assert!(flags.check_raw(8));
    assert!(!flags.check_raw(9));
    assert_eq!(flags.count_set(), 9);
}

#[test]
fn merge_from_routes_entries_and_later_ones_win() {
    let mut flags = EventFlags::new();
    let entries = vec![
        ("EVENT_GOT_STARTER".to_string(), Some(EVENT_GOT_STARTER), true),
        ("__RAW_BIT_119".to_string(), None, true),
        ("HIDE_NPC_3".to_string(), None, true),
        ("HIDE_NPC_3".to_string(), None, false),
    ];
    flags.merge_from(&entries);
    assert!(flags.check(EVENT_GOT_STARTER));
    assert!(flags.check(EVENT_BEAT_BROCK));
    assert!(!flags.get_flag("HIDE_NPC_3", None));
    assert_eq!(flags.extras(), &vec![("HIDE_NPC_3".to_string(), false)]);
}

#[test]
fn to_entries_names_set_bits_then_extras() {
    let mut flags = EventFlags::new();
    flags.set(EVENT_BEAT_MISTY);
    flags.set(EVENT_GOT_STARTER);
    flags.set_flag("HIDE_NPC_3", None, true);
    let entries = flags.to_entries();
    assert_eq!(
        entries,
        vec![
            ("__RAW_BIT_34".to_string(), true),
            ("__RAW_BIT_151".to_string(), true),
            ("HIDE_NPC_3".to_string(), true),
        ]
    );
    let mut copy = EventFlags::new();
    for (name, value) in &entries {
        copy.set_flag(name, None, *value);
    }
    assert_eq!(copy.as_bytes(), flags.as_bytes());
    assert!(copy.get_flag("HIDE_NPC_3", None));
}

#[test]
fn from_entries_matches_merging_into_new() {
    let entries = vec![
        ("EVENT_BEAT_BROCK".to_string(), Some(EVENT_BEAT_BROCK), true),
        ("HIDE_NPC_9".to_string(), None, true),
    ];
    let flags = EventFlags::from_entries(&entries);
    assert!(flags.check(EVENT_BEAT_BROCK));
    assert!(flags.get_flag("HIDE_NPC_9", None));
    assert_eq!(flags.count_set(), 2);
}
