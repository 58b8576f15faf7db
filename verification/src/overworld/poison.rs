//! Out-of-battle poison damage. Every fourth overworld step each poisoned
//! party member with HP left loses 1 HP; one whose HP reaches 0 faints with
//! its own text. If a party member is still poisoned, the poison jingle
//! plays. If no party member is alive afterwards, the player blacks out:
//! full heal, half the money, and a warp to the fly point of the last
//! healing map, as after a lost battle ([`field_blackout`]).

use vstd::prelude::*;

use crate::pokemon::{spec_display_name, Party, Pokemon, StatusCondition};

use super::hm_effects::{fly_destination_for_map, spec_find_destination, spec_fly_destinations, FlyDestination};

verus! {

/// A party member after one poison tick.
pub open spec fn spec_poisoned_once(p: Pokemon) -> Pokemon {
    if p.status == StatusCondition::Poison && p.hp > 0 {
        Pokemon { hp: (p.hp - 1) as u16, ..p }
    } else {
        p
    }
}

/// The "<MON> fainted!" texts of the members the tick knocks out, in party
/// order.
pub open spec fn spec_faint_texts(party: Seq<Pokemon>) -> Seq<Seq<char>>
    decreases party.len(),
{
    if party.len() == 0 {
        Seq::empty()
    } else {
        let rest = spec_faint_texts(party.drop_last());
        let p = party.last();
        if p.status == StatusCondition::Poison && p.hp == 1 {
            rest.push(spec_display_name(p) + " fainted!"@)
        } else {
            rest
        }
    }
}

/// Texts joined by line breaks.
pub open spec fn spec_join_lines(texts: Seq<Seq<char>>) -> Seq<char>
    decreases texts.len(),
{
    if texts.len() == 0 {
        Seq::empty()
    } else if texts.len() == 1 {
        texts[0]
    } else {
        spec_join_lines(texts.drop_last()) + "\n"@ + texts.last()
    }
}

/// The whole party is down.
pub open spec fn spec_party_down(party: Seq<Pokemon>) -> bool {
    forall|i: int| 0 <= i < party.len() ==> (#[trigger] party[i]).hp == 0
}

/// Where a blackout warps: the fly point of the last healing map, else
/// Pallet Town's.
pub open spec fn spec_blackout_destination(last_blackout_map: Seq<char>) -> Option<FlyDestination> {
    match spec_find_destination(spec_fly_destinations(), last_blackout_map) {
        Some(f) => Some(f),
        None => spec_find_destination(spec_fly_destinations(), "PalletTown"@),
    }
}

/// A field blackout, as after a lost battle: the party is fully healed, the
/// screen fades to white, the forced bike is released, and the player warps
/// (without the arrival spin) to `destination`. The money is halved by
/// [`field_blackout`] itself.
#[derive(Debug, Clone, PartialEq, Eq)]
pub struct FieldBlackout {
    pub destination: &'static FlyDestination,
}

/// What one poison tick leads to besides the HP loss.
#[derive(Debug, Clone, PartialEq, Eq)]
pub struct PoisonTick {
    /// The faint texts, one line each, when a member fainted.
    pub fainted_text: Option<String>,
    /// A member is still poisoned and alive: the poison jingle plays.
    pub play_poison_sound: bool,
    /// No member is alive: the player blacked out.
    pub blackout: Option<FieldBlackout>,
}

/// Black out: `money` is halved (rounding down) and the warp goes to the
/// fly point of the last healing map (Pallet Town's if it has none).
pub fn field_blackout(money: &mut u32, last_blackout_map: &str) -> (b: FieldBlackout)
    ensures
        *final(money) == *old(money) / 2,
        Some(*b.destination) == spec_blackout_destination(last_blackout_map@),
{
    *money = blackout_money(*money);
    FieldBlackout { destination: blackout_destination(last_blackout_map) }
}

/// One poison tick on the party: every poisoned member with HP left loses
/// one HP; the result carries the faint texts and whether poison remains.
/// If the whole party is down afterwards the player blacks out
/// ([`field_blackout`]: `money` is halved, the warp goes to the last
/// healing map's fly point); otherwise `money` is untouched.
pub fn apply_out_of_battle_poison_damage(party: &mut Party, money: &mut u32, last_blackout_map: &str) -> (r: PoisonTick)
    ensures
        spec_party_down(final(party)@) ==> (r.blackout matches Some(b) && Some(*b.destination)
            == spec_blackout_destination(last_blackout_map@) && *final(money) == *old(money) / 2),
        !spec_party_down(final(party)@) ==> r.blackout is None && *final(money) == *old(money),
        final(party)@ == old(party)@.map_values(|p: Pokemon| spec_poisoned_once(p)),
        match r.fainted_text {
            Some(t) => spec_faint_texts(old(party)@).len() > 0 && t@ == spec_join_lines(spec_faint_texts(old(party)@)),
            None => spec_faint_texts(old(party)@).len() == 0,
        },
        r.play_poison_sound == exists|i: int|
            0 <= i < final(party)@.len() && (#[trigger] final(party)@[i]).status == StatusCondition::Poison
                && final(party)@[i].hp > 0,
{
    let n = party.count();
    let mut text = String::new();
    let mut fainted: usize = 0;
    let mut i: usize = 0;
    proof {
        reveal_strlit("");
        assert(text@ =~= Seq::<char>::empty());
    }
    while i < n
        invariant
            n == old(party)@.len(),
            party@.len() == n,
            i <= n,
            forall|k: int| 0 <= k < i ==> (#[trigger] party@[k]) == spec_poisoned_once(old(party)@[k]),
            forall|k: int| i <= k < n ==> (#[trigger] party@[k]) == old(party)@[k],
            fainted <= i,
            fainted == spec_faint_texts(old(party)@.subrange(0, i as int)).len(),
            text@ == spec_join_lines(spec_faint_texts(old(party)@.subrange(0, i as int))),
        decreases n - i,
    {
        let ghost pre = old(party)@.subrange(0, i as int);
        let ghost cur = old(party)@.subrange(0, i + 1);
        assert(cur.drop_last() =~= pre);
        assert(cur.last() == old(party)@[i as int]);
        let ghost before = party@;
        let p = party.get_mut(i).unwrap();
        let hit = p.status == StatusCondition::Poison && p.hp > 0;
        if hit {
            p.hp = p.hp - 1;
        }
        if hit && p.hp == 0 {
            let name = p.display_name();
            let ghost old_text = text@;
            let ghost line = spec_display_name(old(party)@[i as int]) + " fainted!"@;
            assert(name@ == spec_display_name(old(party)@[i as int]));
            if fainted > 0 {
                text.append("\n");
            }
            text.append(name.as_str());
            text.append(" fainted!");
            proof {
                assert(spec_faint_texts(cur) == spec_faint_texts(pre).push(line));
                assert(spec_faint_texts(pre).push(line).drop_last() =~= spec_faint_texts(pre));
                if fainted > 0 {
                    assert(text@ =~= old_text + "\n"@ + line);
                } else {
                    assert(text@ =~= line);
                }
            }
            fainted = fainted + 1;
        }
        proof {
            assert(party@ == before.update(i as int, spec_poisoned_once(old(party)@[i as int])));
            if !(hit && old(party)@[i as int].hp == 1) {
                assert(spec_faint_texts(cur) == spec_faint_texts(pre));
            }
        }
        i += 1;
    }
    assert(old(party)@.subrange(0, n as int) =~= old(party)@);
    assert(party@ =~= old(party)@.map_values(|p: Pokemon| spec_poisoned_once(p)));
    let mut any_poisoned = false;
    let mut all_down = true;
    let mut j: usize = 0;
    while j < n
        invariant
            n == party@.len(),
            j <= n,
            any_poisoned == exists|k: int|
                0 <= k < j && (#[trigger] party@[k]).status == StatusCondition::Poison && party@[k].hp > 0,
            all_down == forall|k: int| 0 <= k < j ==> (#[trigger] party@[k]).hp == 0,
        decreases n - j,
    {
        let p = party.get(j).unwrap();
        if p.status == StatusCondition::Poison && p.hp > 0 {
            any_poisoned = true;
        }
        if p.hp > 0 {
            all_down = false;
        }
        j += 1;
    }
    let fainted_text = if fainted > 0 {
        Some(text)
    } else {
        None
    };
    let blackout = if all_down {
        Some(field_blackout(money, last_blackout_map))
    } else {
        None
    };
    PoisonTick { fainted_text, play_poison_sound: any_poisoned, blackout }
}

/// The money left after a blackout: half, rounded down.
pub fn blackout_money(money: u32) -> (r: u32)
    ensures
        r == money / 2,
{
    money / 2
}

/// Where a blackout warps: the fly point of the last healing map, else
/// Pallet Town's.
pub fn blackout_destination(last_blackout_map: &str) -> (d: &'static FlyDestination)
    ensures
        match spec_find_destination(spec_fly_destinations(), last_blackout_map@) {
            Some(f) => *d == f,
            None => Some(*d) == spec_find_destination(spec_fly_destinations(), "PalletTown"@),
        },
        Some(*d) == spec_blackout_destination(last_blackout_map@),
{
    match fly_destination_for_map(last_blackout_map) {
        Some(d) => d,
        None => {
            let p = fly_destination_for_map("PalletTown");
            match p {
                Some(d) => d,
                None => {
                    proof {
                        assert(spec_fly_destinations()[0].map@ == "PalletTown"@);
                    }
                    &FlyDestination { map: "PalletTown", x: 5, y: 6 }
                },
            }
        },
    }
}

} // verus!
