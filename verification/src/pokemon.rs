//! The party data the link trade moves around: a party member, the party
//! (at most six members) and the Pokédex seen/owned record.

use vstd::prelude::*;

use crate::species::{spec_species_name, species_name};
use crate::text::{
    debug_str, lemma_join_comma_step, push_decimal, push_u16_list, push_u8_list, spec_debug_str, spec_decimal,
    spec_join_comma, spec_list, spec_u16_texts, spec_u8_texts,
};

verus! {

/// Maximum number of party members (`PARTY_LENGTH`).
pub const PARTY_LENGTH: usize = 6;

/// Highest National Pokédex number in Red/Blue.
pub const NUM_SPECIES: u8 = 151;

/// Non-volatile status of a party member.
#[derive(Debug, Clone, Copy, PartialEq, Eq, Structural)]
pub enum StatusCondition {
    Healthy,
    Sleep(u8),
    Poison,
    Burn,
    Freeze,
    Paralysis,
}

/// One party member, with every field the link cable copies wholesale.
/// `species`, `type1`/`type2` and `moves` hold the Pokédex number, type id
/// and move ids as plain bytes.
#[derive(Debug, Clone, PartialEq, Eq)]
pub struct Pokemon {
    pub species: u8,
    pub nickname: Option<String>,
    pub level: u8,
    pub hp: u16,
    pub max_hp: u16,
    pub attack: u16,
    pub defense: u16,
    pub speed: u16,
    pub special: u16,
    pub type1: u8,
    pub type2: u8,
    pub moves: [u8; 4],
    pub pp: [u8; 4],
    pub pp_ups: [u8; 4],
    pub status: StatusCondition,
    pub dv_bytes: [u8; 2],
    pub stat_exp: [u16; 5],
    pub total_exp: u32,
    pub is_traded: bool,
    pub ot_id: u16,
    pub ot_name: Option<String>,
}

fn copy_opt_string(s: &Option<String>) -> (r: Option<String>)
    ensures
        r == *s,
{
    match s {
        Some(v) => Some(v.clone()),
        None => None,
    }
}

/// The name shown for a party member: its nickname, else its species name.
pub open spec fn spec_display_name(p: Pokemon) -> Seq<char> {
    match p.nickname {
        Some(n) => n@,
        None => spec_species_name(p.species),
    }
}

/// How `Debug` writes a status.
pub open spec fn spec_status_text(st: StatusCondition) -> Seq<char> {
    match st {
        StatusCondition::Healthy => "Healthy"@,
        StatusCondition::Sleep(n) => "Sleep("@ + spec_decimal(n as nat) + ")"@,
        StatusCondition::Poison => "Poison"@,
        StatusCondition::Burn => "Burn"@,
        StatusCondition::Freeze => "Freeze"@,
        StatusCondition::Paralysis => "Paralysis"@,
    }
}

/// How `Debug` writes an optional string.
pub open spec fn spec_opt_string_text(o: Option<String>) -> Seq<char> {
    match o {
        None => "None"@,
        Some(t) => "Some("@ + spec_debug_str(t@) + ")"@,
    }
}

/// How `Debug` writes a boolean.
pub open spec fn spec_bool_text(b: bool) -> Seq<char> {
    if b { "true"@ } else { "false"@ }
}

/// The first fields of a mon's `Debug` text: identity and stats.
pub open spec fn spec_pokemon_head(p: Pokemon) -> Seq<char> {
    "Pokemon { species: "@ + spec_decimal(p.species as nat) + ", nickname: "@ + spec_opt_string_text(p.nickname)
        + ", level: "@ + spec_decimal(p.level as nat) + ", hp: "@ + spec_decimal(p.hp as nat) + ", max_hp: "@
        + spec_decimal(p.max_hp as nat) + ", attack: "@ + spec_decimal(p.attack as nat) + ", defense: "@
        + spec_decimal(p.defense as nat) + ", speed: "@ + spec_decimal(p.speed as nat) + ", special: "@
        + spec_decimal(p.special as nat)
}

/// The remaining fields of a mon's `Debug` text.
pub open spec fn spec_pokemon_tail(p: Pokemon) -> Seq<char> {
    ", type1: "@ + spec_decimal(p.type1 as nat) + ", type2: "@ + spec_decimal(p.type2 as nat) + ", moves: "@
        + spec_list(spec_u8_texts(p.moves@)) + ", pp: "@ + spec_list(spec_u8_texts(p.pp@)) + ", pp_ups: "@
        + spec_list(spec_u8_texts(p.pp_ups@)) + ", status: "@ + spec_status_text(p.status) + ", dv_bytes: "@
        + spec_list(spec_u8_texts(p.dv_bytes@)) + ", stat_exp: "@ + spec_list(spec_u16_texts(p.stat_exp@))
        + ", total_exp: "@ + spec_decimal(p.total_exp as nat) + ", is_traded: "@ + spec_bool_text(p.is_traded)
        + ", ot_id: "@ + spec_decimal(p.ot_id as nat) + ", ot_name: "@ + spec_opt_string_text(p.ot_name) + " }"@
}

/// A mon as `Debug` writes it: every field, in declaration order.
pub open spec fn spec_pokemon_text(p: Pokemon) -> Seq<char> {
    spec_pokemon_head(p) + spec_pokemon_tail(p)
}

/// A party as `Debug` writes it.
pub open spec fn spec_party_text(members: Seq<Pokemon>) -> Seq<char> {
    "Party { members: "@ + spec_list(members.map_values(|p: Pokemon| spec_pokemon_text(p))) + " }"@
}

/// Appends `<label><decimal n>`.
fn push_labeled_number(s: &mut String, label: &str, n: u32)
    ensures
        final(s)@ == old(s)@ + label@ + spec_decimal(n as nat),
{
    s.append(label);
    push_decimal(s, n);
}

/// Appends the `Debug` text of an optional string.
fn push_opt_string(s: &mut String, o: &Option<String>)
    ensures
        final(s)@ == old(s)@ + spec_opt_string_text(*o),
{
    match o {
        None => s.append("None"),
        Some(t) => {
            s.append("Some(");
            let d = debug_str(t.as_str());
            s.append(d.as_str());
            s.append(")");
        },
    }
}

impl StatusCondition {
    /// Appends the status as `Debug` writes it.
    pub fn push_text(&self, s: &mut String)
        ensures
            final(s)@ == old(s)@ + spec_status_text(*self),
    {
        match self {
            StatusCondition::Healthy => s.append("Healthy"),
            StatusCondition::Sleep(n) => {
                push_labeled_number(s, "Sleep(", *n as u32);
                s.append(")");
            },
            StatusCondition::Poison => s.append("Poison"),
            StatusCondition::Burn => s.append("Burn"),
            StatusCondition::Freeze => s.append("Freeze"),
            StatusCondition::Paralysis => s.append("Paralysis"),
        }
    }
}

impl Pokemon {
    /// Appends the mon as `Debug` writes it: every field, in declaration
    /// order.
    pub fn push_text(&self, s: &mut String)
        ensures
            final(s)@ == old(s)@ + spec_pokemon_text(*self),
    {
        let head = self.head_text();
        let tail = self.tail_text();
        s.append(head.as_str());
        s.append(tail.as_str());
        assert(s@ =~= old(s)@ + (head@ + tail@));
    }

    fn head_text(&self) -> (t: String)
        ensures
            t@ == spec_pokemon_head(*self),
    {
        let mut t = String::from_str("Pokemon { species: ");
        push_decimal(&mut t, self.species as u32);
        t.append(", nickname: ");
        push_opt_string(&mut t, &self.nickname);
        push_labeled_number(&mut t, ", level: ", self.level as u32);
        push_labeled_number(&mut t, ", hp: ", self.hp as u32);
        push_labeled_number(&mut t, ", max_hp: ", self.max_hp as u32);
        push_labeled_number(&mut t, ", attack: ", self.attack as u32);
        push_labeled_number(&mut t, ", defense: ", self.defense as u32);
        push_labeled_number(&mut t, ", speed: ", self.speed as u32);
        push_labeled_number(&mut t, ", special: ", self.special as u32);
        t
    }

    fn tail_text(&self) -> (t: String)
        ensures
            t@ == spec_pokemon_tail(*self),
    {
        let mut t = String::from_str(", type1: ");
        push_decimal(&mut t, self.type1 as u32);
        push_labeled_number(&mut t, ", type2: ", self.type2 as u32);
        t.append(", moves: ");
        push_u8_list(&mut t, &self.moves);
        t.append(", pp: ");
        push_u8_list(&mut t, &self.pp);
        t.append(", pp_ups: ");
        push_u8_list(&mut t, &self.pp_ups);
        t.append(", status: ");
        self.status.push_text(&mut t);
        t.append(", dv_bytes: ");
        push_u8_list(&mut t, &self.dv_bytes);
        t.append(", stat_exp: ");
        push_u16_list(&mut t, &self.stat_exp);
        push_labeled_number(&mut t, ", total_exp: ", self.total_exp);
        t.append(", is_traded: ");
        if self.is_traded {
            t.append("true");
        } else {
            t.append("false");
        }
        push_labeled_number(&mut t, ", ot_id: ", self.ot_id as u32);
        t.append(", ot_name: ");
        push_opt_string(&mut t, &self.ot_name);
        t.append(" }");
        t
    }

    pub fn display_name(&self) -> (s: String)
        ensures
            s@ == spec_display_name(*self),
    {
        match &self.nickname {
            Some(n) => n.clone(),
            None => String::from_str(species_name(self.species)),
        }
    }

    /// Give the mon a nickname.
    pub fn set_nickname(&mut self, name: String)
        ensures
            *final(self) == (Pokemon { nickname: Some(name), ..*old(self) }),
    {
        self.nickname = Some(name);
    }

    /// A field-for-field copy of this party member.
    pub fn duplicate(&self) -> (r: Pokemon)
        ensures
            r == *self,
    {
        Pokemon {
            species: self.species,
            nickname: copy_opt_string(&self.nickname),
            level: self.level,
            hp: self.hp,
            max_hp: self.max_hp,
            attack: self.attack,
            defense: self.defense,
            speed: self.speed,
            special: self.special,
            type1: self.type1,
            type2: self.type2,
            moves: self.moves,
            pp: self.pp,
            pp_ups: self.pp_ups,
            status: self.status,
            dv_bytes: self.dv_bytes,
            stat_exp: self.stat_exp,
            total_exp: self.total_exp,
            is_traded: self.is_traded,
            ot_id: self.ot_id,
            ot_name: copy_opt_string(&self.ot_name),
        }
    }
}

/// Whether a mon with original-trainer ID `ot_id` counts as traded for the
/// player `player_id` (obedience / 1.5x EXP rule): a non-zero OT ID that is
/// not the player's own.
pub open spec fn spec_is_traded_for(ot_id: u16, player_id: u16) -> bool {
    ot_id != 0 && ot_id != player_id
}

pub fn is_traded_for(ot_id: u16, player_id: u16) -> (r: bool)
    ensures
        r == spec_is_traded_for(ot_id, player_id),
{
    ot_id != 0 && ot_id != player_id
}

/// The species a mon evolves into when received in a trade, if any: the
/// four trade evolutions (KADABRA, MACHOKE, GRAVELER, HAUNTER), at any level.
pub open spec fn spec_trade_evolution(species: u8) -> Option<u8> {
    if species == 64 {
        Some(65u8)
    } else if species == 67 {
        Some(68u8)
    } else if species == 75 {
        Some(76u8)
    } else if species == 93 {
        Some(94u8)
    } else {
        None
    }
}

/// `TryEvolvingMon` while trading: only trade-evolution entries can trigger
/// (level-up entries are skipped), so `level` never matters.
pub fn check_trade_evolution(species: u8, level: u8) -> (r: Option<u8>)
    ensures
        r == spec_trade_evolution(species),
{
    if species == 64 {
        Some(65)
    } else if species == 67 {
        Some(68)
    } else if species == 75 {
        Some(76)
    } else if species == 93 {
        Some(94)
    } else {
        None
    }
}

/// An evolution detected for a party member, waiting for its cutscene.
#[derive(Debug, Clone, PartialEq, Eq)]
pub struct PendingEvolution {
    pub party_index: usize,
    pub from: u8,
    pub to: u8,
    pub name: String,
    /// Forced evolutions (trades) cannot be cancelled with B.
    pub force: bool,
}

/// Errors of the party container.
#[derive(Debug, Clone, Copy, PartialEq, Eq, Structural)]
pub enum PartyError {
    /// Six members already.
    Full,
    /// No member at that index.
    NoSuchMember,
}

/// The player's party, in slot order.
#[derive(Debug, Clone, PartialEq, Eq)]
pub struct Party {
    members: Vec<Pokemon>,
}

impl View for Party {
    type V = Seq<Pokemon>;

    closed spec fn view(&self) -> Seq<Pokemon> {
        self.members@
    }
}

impl Party {
    /// Appends the party as `Debug` writes it.
    pub fn push_text(&self, s: &mut String)
        ensures
            final(s)@ == old(s)@ + spec_party_text(self@),
    {
        let ghost items = self@.map_values(|p: Pokemon| spec_pokemon_text(p));
        let ghost start = s@;
        s.append("Party { members: ");
        s.append("[");
        let mut i: usize = 0;
        proof {
            assert(items.subrange(0, 0) =~= Seq::<Seq<char>>::empty());
        }
        while i < self.members.len()
            invariant
                i <= self@.len(),
                items == self@.map_values(|p: Pokemon| spec_pokemon_text(p)),
                items.len() == self@.len(),
                s@ == start + "Party { members: "@ + "["@ + spec_join_comma(items.subrange(0, i as int)),
            decreases self@.len() - i,
        {
            proof {
                lemma_join_comma_step(items, i as int);
            }
            if i > 0 {
                s.append(", ");
            }
            self.members[i].push_text(s);
            proof {
                assert(items[i as int] == spec_pokemon_text(self@[i as int]));
                if i == 0 {
                    assert(s@ =~= start + "Party { members: "@ + "["@ + items[0]);
                } else {
                    assert(s@ =~= start + "Party { members: "@ + "["@ + (spec_join_comma(items.subrange(0, i as int))
                        + ", "@ + items[i as int]));
                }
            }
            i += 1;
        }
        s.append("]");
        s.append(" }");
        proof {
            assert(items.subrange(0, self@.len() as int) =~= items);
            assert(s@ =~= start + ("Party { members: "@ + ("["@ + spec_join_comma(items) + "]"@) + " }"@));
        }
    }

    pub fn new() -> (p: Party)
        ensures
            p@ == Seq::<Pokemon>::empty(),
    {
        Party { members: Vec::new() }
    }

    /// A party holding `members` in order.
    pub fn from_vec(members: Vec<Pokemon>) -> (p: Party)
        ensures
            p@ == members@,
    {
        Party { members }
    }

    pub fn count(&self) -> (n: usize)
        ensures
            n == self@.len(),
    {
        self.members.len()
    }

    pub fn get(&self, index: usize) -> (r: Option<&Pokemon>)
        ensures
            index < self@.len() ==> r == Some(&self@[index as int]),
            index >= self@.len() ==> r is None,
    {
        if index < self.members.len() {
            Some(&self.members[index])
        } else {
            None
        }
    }

    /// The member at `index`, for modification.
    pub fn get_mut(&mut self, index: usize) -> (r: Option<&mut Pokemon>)
        ensures
            index < old(self)@.len() ==> (r matches Some(p) && *p == old(self)@[index as int]
                && final(self)@ == old(self)@.update(index as int, *final(p))),
            index >= old(self)@.len() ==> (r is None && final(self)@ == old(self)@),
    {
        if index < self.members.len() {
            Some(&mut self.members[index])
        } else {
            None
        }
    }

    /// Append a member; fails when the party already holds six.
    pub fn add(&mut self, mon: Pokemon) -> (r: Result<usize, PartyError>)
        ensures
            old(self)@.len() < PARTY_LENGTH ==> r == Ok::<usize, PartyError>(old(self)@.len() as usize)
                && final(self)@ == old(self)@.push(mon),
            old(self)@.len() >= PARTY_LENGTH ==> r == Err::<usize, PartyError>(PartyError::Full)
                && final(self)@ == old(self)@,
    {
        if self.members.len() >= PARTY_LENGTH {
            return Err(PartyError::Full);
        }
        let index = self.members.len();
        self.members.push(mon);
        Ok(index)
    }

    /// Remove the member at `index` (later members move up one slot).
    pub fn remove_for_trade(&mut self, index: usize) -> (r: Result<Pokemon, PartyError>)
        ensures
            index < old(self)@.len() ==> r == Ok::<Pokemon, PartyError>(old(self)@[index as int])
                && final(self)@ == old(self)@.remove(index as int),
            index >= old(self)@.len() ==> r == Err::<Pokemon, PartyError>(PartyError::NoSuchMember)
                && final(self)@ == old(self)@,
    {
        if index >= self.members.len() {
            return Err(PartyError::NoSuchMember);
        }
        Ok(self.members.remove(index))
    }

    /// A copy of the members in slot order.
    pub fn to_vec(&self) -> (v: Vec<Pokemon>)
        ensures
            v@ == self@,
    {
        let mut v: Vec<Pokemon> = Vec::new();
        let mut i: usize = 0;
        while i < self.members.len()
            invariant
                i <= self.members@.len(),
                v@ == self.members@.subrange(0, i as int),
            decreases self.members@.len() - i,
        {
            v.push(self.members[i].duplicate());
            i += 1;
            assert(v@ =~= self.members@.subrange(0, i as int));
        }
        assert(self.members@.subrange(0, i as int) =~= self.members@);
        v
    }
}

/// The Pokédex "seen" and "owned" records, indexed by Pokédex number 1..=151.
#[derive(Debug, Clone, PartialEq, Eq)]
pub struct Pokedex {
    owned: Vec<bool>,
    seen: Vec<bool>,
}

impl Pokedex {
    pub closed spec fn wf(&self) -> bool {
        self.owned@.len() == NUM_SPECIES + 1 && self.seen@.len() == NUM_SPECIES + 1
    }

    /// Species (by Pokédex number) flagged as owned.
    pub closed spec fn owned_set(&self) -> Set<u8> {
        Set::new(|s: u8| 1 <= s <= NUM_SPECIES && self.owned@[s as int])
    }

    /// Species (by Pokédex number) flagged as seen.
    pub closed spec fn seen_set(&self) -> Set<u8> {
        Set::new(|s: u8| 1 <= s <= NUM_SPECIES && self.seen@[s as int])
    }

    pub fn new() -> (d: Pokedex)
        ensures
            d.wf(),
            d.owned_set() == Set::<u8>::empty(),
            d.seen_set() == Set::<u8>::empty(),
    {
        let mut owned: Vec<bool> = Vec::new();
        let mut seen: Vec<bool> = Vec::new();
        let mut i: u8 = 0;
        while i <= NUM_SPECIES
            invariant
                i <= NUM_SPECIES + 1,
                owned@.len() == i,
                seen@.len() == i,
                forall|k: int| 0 <= k < i ==> !owned@[k] && !seen@[k],
            decreases NUM_SPECIES + 1 - i,
        {
            owned.push(false);
            seen.push(false);
            i += 1;
        }
        let d = Pokedex { owned, seen };
        assert(d.owned_set() =~= Set::<u8>::empty());
        assert(d.seen_set() =~= Set::<u8>::empty());
        d
    }

    /// Flag `species` as owned (numbers outside 1..=151 are ignored).
    pub fn set_owned(&mut self, species: u8)
        requires
            old(self).wf(),
        ensures
            final(self).wf(),
            final(self).seen_set() == old(self).seen_set(),
            1 <= species <= NUM_SPECIES ==> final(self).owned_set() == old(self).owned_set().insert(species),
            !(1 <= species <= NUM_SPECIES) ==> final(self).owned_set() == old(self).owned_set(),
    {
        if 1 <= species && species <= NUM_SPECIES {
            self.owned.set(species as usize, true);
        }
        assert(final(self).seen_set() =~= old(self).seen_set());
        if 1 <= species && species <= NUM_SPECIES {
            assert(final(self).owned_set() =~= old(self).owned_set().insert(species));
        } else {
            assert(final(self).owned_set() =~= old(self).owned_set());
        }
    }

    /// Flag `species` as seen (numbers outside 1..=151 are ignored).
    pub fn set_seen(&mut self, species: u8)
        requires
            old(self).wf(),
        ensures
            final(self).wf(),
            final(self).owned_set() == old(self).owned_set(),
            1 <= species <= NUM_SPECIES ==> final(self).seen_set() == old(self).seen_set().insert(species),
            !(1 <= species <= NUM_SPECIES) ==> final(self).seen_set() == old(self).seen_set(),
    {
        if 1 <= species && species <= NUM_SPECIES {
            self.seen.set(species as usize, true);
        }
        assert(final(self).owned_set() =~= old(self).owned_set());
        if 1 <= species && species <= NUM_SPECIES {
            assert(final(self).seen_set() =~= old(self).seen_set().insert(species));
        } else {
            assert(final(self).seen_set() =~= old(self).seen_set());
        }
    }

    pub fn is_owned(&self, species: u8) -> (r: bool)
        requires
            self.wf(),
        ensures
            r == self.owned_set().contains(species),
    {
        1 <= species && species <= NUM_SPECIES && self.owned[species as usize]
    }

    pub fn is_seen(&self, species: u8) -> (r: bool)
        requires
            self.wf(),
        ensures
            r == self.seen_set().contains(species),
    {
        1 <= species && species <= NUM_SPECIES && self.seen[species as usize]
    }
}

} // verus!
