use pokered_core::overworld::poison::{
    apply_out_of_battle_poison_damage, blackout_destination, blackout_money, field_blackout,
};
use pokered_core::pokemon::{Party, Pokemon, StatusCondition};

const PIDGEY: u8 = 16;
const RATTATA: u8 = 19;

fn mon(species: u8, level: u8) -> Pokemon {
    Pokemon {
        species,
        nickname: None,
        level,
        hp: 30,
        max_hp: 30,
        attack: 15,
        defense: 12,
        speed: 18,
        special: 11,
        type1: 0,
        type2: 0,
        moves: [33, 0, 0, 0],
        pp: [35, 0, 0, 0],
        pp_ups: [0; 4],
        status: StatusCondition::Healthy,
        dv_bytes: [0x9A, 0x78],
        stat_exp: [0; 5],
        total_exp: 1000,
        is_traded: false,
        ot_id: 1,
        ot_name: None,
    }
}

fn poisoned(mut m: Pokemon) -> Pokemon {
    m.status = StatusCondition::Poison;
    m
}

#[test]
fn poison_tick_damages_only_poisoned_alive_mons() {
    let mut healthy = mon(PIDGEY, 10);
    healthy.status = StatusCondition::Burn;
    let save_hp = healthy.hp;
    let mut party = Party::from_vec(vec![poisoned(mon(RATTATA, 10)), healthy]);
    party.get_mut(0).unwrap().hp = 20;
    let mut money: u32 = 3000;
    let tick = apply_out_of_battle_poison_damage(&mut party, &mut money, "Route1");

    assert_eq!(party.get(0).unwrap().hp, 19, "poisoned mon takes 1");
    assert_eq!(party.get(1).unwrap().hp, save_hp, "burned mon untouched");
    assert!(tick.fainted_text.is_none(), "nobody fainted");
}

#[test]
fn poison_tick_faints_at_one_hp_and_shows_text() {
    let mut m = poisoned(mon(RATTATA, 10));
    m.hp = 1;
    let mut party = Party::from_vec(vec![m]);
    let mut money: u32 = 3000;
    let tick = apply_out_of_battle_poison_damage(&mut party, &mut money, "Route1");

    assert_eq!(party.get(0).unwrap().hp, 0);
    assert_eq!(tick.fainted_text.as_deref(), Some("RATTATA fainted!"));
}

#[test]
fn poison_tick_plays_jingle_while_poison_remains() {
    let mut party = Party::from_vec(vec![poisoned(mon(RATTATA, 10))]);
    let mut money: u32 = 3000;
    let tick = apply_out_of_battle_poison_damage(&mut party, &mut money, "Route1");
    assert!(tick.play_poison_sound);
}

#[test]
fn no_poison_no_jingle() {
    let mut party = Party::from_vec(vec![mon(RATTATA, 10)]);
    let mut money: u32 = 3000;
    let tick = apply_out_of_battle_poison_damage(&mut party, &mut money, "Route1");
    assert!(!tick.play_poison_sound);
    assert!(tick.blackout.is_none(), "no blackout");
}

#[test]
fn full_party_faint_blacks_out_to_last_center() {
    let mut a = poisoned(mon(RATTATA, 10));
    a.hp = 1;
    let mut b = poisoned(mon(PIDGEY, 10));
    b.hp = 1;
    let mut party = Party::from_vec(vec![a, b]);
    let mut money: u32 = 3000;
    let tick = apply_out_of_battle_poison_damage(&mut party, &mut money, "CeruleanCity");

    let blackout = tick.blackout.expect("full heal and warp queued");
    assert_eq!(
        tick.fainted_text.as_deref(),
        Some("RATTATA fainted!\nPIDGEY fainted!")
    );
    assert_eq!(blackout.destination.map, "CeruleanCity");
    assert_eq!((blackout.destination.x, blackout.destination.y), (19, 18));
    assert_eq!(money, 1500, "field blackout halves money like a battle loss");
    let dest = blackout_destination("CeruleanCity");
    assert_eq!(dest.map, "CeruleanCity");
    assert_eq!(blackout_money(3000), 1500);
}

#[test]
fn field_blackout_halves_money_rounding_down() {
    for start in [0u32, 1, 3, 3001, 999999] {
        let mut m = poisoned(mon(RATTATA, 10));
        m.hp = 1;
        let mut party = Party::from_vec(vec![m]);
        let mut money = start;
        let tick = apply_out_of_battle_poison_damage(&mut party, &mut money, "Route1");
        assert!(tick.blackout.is_some());
        assert_eq!(money, start / 2);
        assert_eq!(blackout_money(start), start / 2);
        let mut direct = start;
        let b = field_blackout(&mut direct, "Route1");
        assert_eq!(direct, start / 2);
        assert_eq!(b.destination.map, "PalletTown");
    }
}

#[test]
fn partial_survivors_do_not_black_out() {
    let mut a = poisoned(mon(RATTATA, 10));
    a.hp = 1;
    let b = mon(PIDGEY, 10);
    let mut party = Party::from_vec(vec![a, b]);
    let mut money: u32 = 3001;
    let tick = apply_out_of_battle_poison_damage(&mut party, &mut money, "Route1");

    assert!(party.get(0).unwrap().hp == 0);
    assert!(tick.blackout.is_none(), "one survivor means no blackout");
    assert_eq!(money, 3001, "no penalty with a survivor");
}

#[test]
fn blackout_without_a_heal_spot_goes_to_pallet_town() {
    let dest = blackout_destination("Route1");
    assert_eq!(dest.map, "PalletTown");
}

#[test]
fn fainted_mon_uses_its_nickname() {
    let mut m = poisoned(mon(RATTATA, 10));
    m.hp = 1;
    m.nickname = Some("RATTY".to_string());
    let mut party = Party::from_vec(vec![m]);
    let mut money: u32 = 3000;
    let tick = apply_out_of_battle_poison_damage(&mut party, &mut money, "Route1");
    assert_eq!(tick.fainted_text.as_deref(), Some("RATTY fainted!"));
    assert!(!tick.play_poison_sound);
    assert!(tick.blackout.is_some());
}
