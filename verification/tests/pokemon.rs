use pokered_core::pokemon::{
    check_trade_evolution, is_traded_for, Party, PartyError, Pokedex, Pokemon, StatusCondition,
};
use pokered_core::species::species_name;

fn mon(species: u8) -> Pokemon {
    Pokemon {
        species,
        nickname: None,
        level: 5,
        hp: 20,
        max_hp: 20,
        attack: 10,
        defense: 10,
        speed: 10,
        special: 10,
        type1: 0,
        type2: 0,
        moves: [33, 0, 0, 0],
        pp: [35, 0, 0, 0],
        pp_ups: [0; 4],
        status: StatusCondition::Healthy,
        dv_bytes: [0, 0],
        stat_exp: [0; 5],
        total_exp: 125,
        is_traded: false,
        ot_id: 1,
        ot_name: None,
    }
}

#[test]
fn species_names() {
    assert_eq!(species_name(1), "BULBASAUR");
    assert_eq!(species_name(25), "PIKACHU");
    assert_eq!(species_name(151), "MEW");
    assert_eq!(species_name(0), "");
    assert_eq!(species_name(152), "");
}

#[test]
fn display_name_prefers_nickname() {
    let mut m = mon(25);
    assert_eq!(m.display_name(), "PIKACHU");
    m.set_nickname("SPARKY".to_string());
    assert_eq!(m.display_name(), "SPARKY");
    assert_eq!(m.duplicate(), m);
}

#[test]
fn traded_rule() {
    assert!(is_traded_for(0x2222, 0x1111));
    assert!(!is_traded_for(0x1111, 0x1111));
    assert!(!is_traded_for(0, 0x1111));
}

#[test]
fn trade_evolutions() {
    assert_eq!(check_trade_evolution(64, 1), Some(65));
    assert_eq!(check_trade_evolution(67, 50), Some(68));
    assert_eq!(check_trade_evolution(75, 20), Some(76));
    assert_eq!(check_trade_evolution(93, 99), Some(94));
    assert_eq!(check_trade_evolution(25, 99), None);
}

#[test]
fn party_holds_six() {
    let mut party = Party::new();
    for i in 0..6 {
        assert_eq!(party.add(mon(1 + i as u8)), Ok(i));
    }
    assert_eq!(party.add(mon(7)), Err(PartyError::Full));
    assert_eq!(party.count(), 6);
    assert_eq!(party.remove_for_trade(0).map(|m| m.species), Ok(1));
    assert_eq!(party.get(0).map(|m| m.species), Some(2));
    assert_eq!(party.remove_for_trade(9), Err(PartyError::NoSuchMember));
    assert!(party.get(5).is_none());
    assert_eq!(party.to_vec().len(), 5);
}

#[test]
fn pokedex_flags() {
    let mut dex = Pokedex::new();
    assert!(!dex.is_owned(25));
    dex.set_seen(25);
    assert!(dex.is_seen(25));
    assert!(!dex.is_owned(25));
    dex.set_owned(151);
    assert!(dex.is_owned(151));
    assert!(!dex.is_seen(150));
}
