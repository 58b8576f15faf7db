//! The Cable Club wire protocol: battle actions encoded as the Game Boy's
//! serial bytes, and the message set both sides exchange.

use vstd::prelude::*;

use crate::pokemon::{Party, Pokemon};
use crate::pokemon::{spec_party_text, spec_pokemon_text};
use crate::text::{number_text, push_u8_list, spec_decimal, spec_list, spec_u8_texts};

verus! {

/// Number of shared random bytes exchanged before a link battle.
pub const LINK_RANDOM_LIST_SIZE: usize = 10;

/// A link battle turn action.
#[derive(Debug, Clone, Copy, PartialEq, Eq, Structural)]
pub enum LinkAction {
    UseMove(u8),
    Switch(u8),
    Run,
    Struggle,
    NoAction,
}

/// The serial byte of an action: move slots are 0-3, switches are the party
/// slot + 4, and `$0D`/`$0E`/`$0F` are no-action / Struggle / run.
pub open spec fn spec_wire_byte(a: LinkAction) -> int {
    match a {
        LinkAction::UseMove(idx) => idx as int,
        LinkAction::Switch(p) => p + 4,
        LinkAction::Run => 0x0F,
        LinkAction::Struggle => 0x0E,
        LinkAction::NoAction => 0x0D,
    }
}

/// The action a received serial byte stands for.
pub open spec fn spec_from_wire_byte(b: u8) -> LinkAction {
    if b == 0x0F {
        LinkAction::Run
    } else if b == 0x0E {
        LinkAction::Struggle
    } else if b == 0x0D {
        LinkAction::NoAction
    } else if b >= 4 {
        LinkAction::Switch((b - 4) as u8)
    } else {
        LinkAction::UseMove(b)
    }
}

/// Actions whose serial byte decodes back to the same action: a move slot
/// 0-3, or a switch to any party slot except 9-11 (whose bytes `$0D`-`$0F`
/// are the reserved no-action / Struggle / run codes).
pub open spec fn wire_encodable(a: LinkAction) -> bool {
    match a {
        LinkAction::UseMove(idx) => idx < 4,
        LinkAction::Switch(p) => p <= 8 || p >= 12,
        _ => true,
    }
}

impl LinkAction {
    pub fn to_wire_byte(self) -> (b: u8)
        requires
            self matches LinkAction::Switch(p) ==> p <= 251,
        ensures
            b as int == spec_wire_byte(self),
    {
        match self {
            LinkAction::UseMove(idx) => idx,
            LinkAction::Switch(pokemon_idx) => pokemon_idx + 4,
            LinkAction::Run => 0x0F,
            LinkAction::Struggle => 0x0E,
            LinkAction::NoAction => 0x0D,
        }
    }

    pub fn from_wire_byte(byte: u8) -> (a: LinkAction)
        ensures
            a == spec_from_wire_byte(byte),
    {
        if byte == 0x0F {
            LinkAction::Run
        } else if byte == 0x0E {
            LinkAction::Struggle
        } else if byte == 0x0D {
            LinkAction::NoAction
        } else if byte >= 4 {
            LinkAction::Switch(byte - 4)
        } else {
            LinkAction::UseMove(byte)
        }
    }
}

/// Every serial byte survives a decode followed by an encode: the wire
/// encoding is onto, and the decoder loses nothing.
pub proof fn lemma_wire_byte_decode_encode(b: u8)
    ensures
        spec_wire_byte(spec_from_wire_byte(b)) == b,
{
}

/// Encoding then decoding an encodable action gives the action back, and the
/// encoding of any other action is decoded as something else.
pub proof fn lemma_wire_action_round_trip(a: LinkAction)
    requires
        a matches LinkAction::Switch(p) ==> p <= 251,
    ensures
        wire_encodable(a) <==> spec_from_wire_byte(spec_wire_byte(a) as u8) == a,
{
}

/// The data each side sends before a link battle.
#[derive(Debug, Clone, PartialEq, Eq)]
pub struct PartyExchangeData {
    pub trainer_name: Vec<u8>,
    pub party: Party,
    pub random_numbers: [u8; LINK_RANDOM_LIST_SIZE],
}

/// The local side's outcome of a finished link battle (`wBattleResult`:
/// win, loss, draw).
#[derive(Debug, Clone, Copy, PartialEq, Eq, Structural)]
pub enum LinkBattleResult {
    Win,
    Lose,
    Draw,
}

/// Every message of the link protocol.
#[derive(Debug, Clone, PartialEq, Eq)]
pub enum NetworkMessage {
    Hello { version: u8 },
    HelloAck { version: u8 },
    RequestBattle,
    AcceptBattle,
    DeclineBattle,
    PartyData(PartyExchangeData),
    TurnAction(LinkAction),
    /// Each side's locally resolved battle outcome (informational).
    BattleResult(LinkBattleResult),
    RequestTrade,
    AcceptTrade,
    DeclineTrade,
    SelectMon(u8),
    ConfirmTrade,
    CancelTrade,
    TradeComplete(Pokemon),
    Disconnect,
}

/// The link-battle exchange data as `Debug` writes it.
pub open spec fn spec_exchange_text(d: PartyExchangeData) -> Seq<char> {
    "PartyExchangeData { trainer_name: "@ + spec_list(spec_u8_texts(d.trainer_name@)) + ", party: "@
        + spec_party_text(d.party@) + ", random_numbers: "@ + spec_list(spec_u8_texts(d.random_numbers@)) + " }"@
}

impl PartyExchangeData {
    /// Appends the data as `Debug` writes it.
    pub fn push_text(&self, s: &mut String)
        ensures
            final(s)@ == old(s)@ + spec_exchange_text(*self),
    {
        let mut t = String::from_str("PartyExchangeData { trainer_name: ");
        push_u8_list(&mut t, self.trainer_name.as_slice());
        t.append(", party: ");
        self.party.push_text(&mut t);
        t.append(", random_numbers: ");
        push_u8_list(&mut t, &self.random_numbers);
        t.append(" }");
        s.append(t.as_str());
    }
}

/// How an action is written in error reports.
pub open spec fn spec_action_text(a: LinkAction) -> Seq<char> {
    match a {
        LinkAction::UseMove(i) => "UseMove("@ + spec_decimal(i as nat) + ")"@,
        LinkAction::Switch(i) => "Switch("@ + spec_decimal(i as nat) + ")"@,
        LinkAction::Run => "Run"@,
        LinkAction::Struggle => "Struggle"@,
        LinkAction::NoAction => "NoAction"@,
    }
}

/// How a message is written in error reports: as `Debug` writes it, the
/// variant with all its fields.
pub open spec fn spec_message_text(msg: NetworkMessage) -> Seq<char> {
    match msg {
        NetworkMessage::Hello { version } => "Hello { version: "@ + spec_decimal(version as nat) + " }"@,
        NetworkMessage::HelloAck { version } => "HelloAck { version: "@ + spec_decimal(version as nat) + " }"@,
        NetworkMessage::RequestBattle => "RequestBattle"@,
        NetworkMessage::AcceptBattle => "AcceptBattle"@,
        NetworkMessage::DeclineBattle => "DeclineBattle"@,
        NetworkMessage::PartyData(d) => "PartyData("@ + spec_exchange_text(d) + ")"@,
        NetworkMessage::TurnAction(a) => "TurnAction("@ + spec_action_text(a) + ")"@,
        NetworkMessage::BattleResult(LinkBattleResult::Win) => "BattleResult(Win)"@,
        NetworkMessage::BattleResult(LinkBattleResult::Lose) => "BattleResult(Lose)"@,
        NetworkMessage::BattleResult(LinkBattleResult::Draw) => "BattleResult(Draw)"@,
        NetworkMessage::RequestTrade => "RequestTrade"@,
        NetworkMessage::AcceptTrade => "AcceptTrade"@,
        NetworkMessage::DeclineTrade => "DeclineTrade"@,
        NetworkMessage::SelectMon(i) => "SelectMon("@ + spec_decimal(i as nat) + ")"@,
        NetworkMessage::ConfirmTrade => "ConfirmTrade"@,
        NetworkMessage::CancelTrade => "CancelTrade"@,
        NetworkMessage::TradeComplete(p) => "TradeComplete("@ + spec_pokemon_text(p) + ")"@,
        NetworkMessage::Disconnect => "Disconnect"@,
    }
}

impl LinkAction {
    /// The action as written in error reports.
    pub fn text(&self) -> (s: String)
        ensures
            s@ == spec_action_text(*self),
    {
        match self {
            LinkAction::UseMove(i) => number_text("UseMove(", *i, ")"),
            LinkAction::Switch(i) => number_text("Switch(", *i, ")"),
            LinkAction::Run => String::from_str("Run"),
            LinkAction::Struggle => String::from_str("Struggle"),
            LinkAction::NoAction => String::from_str("NoAction"),
        }
    }
}

impl NetworkMessage {
    /// The message as written in error reports.
    pub fn text(&self) -> (s: String)
        ensures
            s@ == spec_message_text(*self),
    {
        match self {
            NetworkMessage::Hello { version } => number_text("Hello { version: ", *version, " }"),
            NetworkMessage::HelloAck { version } => number_text("HelloAck { version: ", *version, " }"),
            NetworkMessage::RequestBattle => String::from_str("RequestBattle"),
            NetworkMessage::AcceptBattle => String::from_str("AcceptBattle"),
            NetworkMessage::DeclineBattle => String::from_str("DeclineBattle"),
            NetworkMessage::PartyData(d) => {
                let mut t = String::from_str("PartyData(");
                d.push_text(&mut t);
                t.append(")");
                t
            },
            NetworkMessage::TurnAction(a) => String::from_str("TurnAction(").concat(a.text().as_str()).concat(")"),
            NetworkMessage::BattleResult(LinkBattleResult::Win) => String::from_str("BattleResult(Win)"),
            NetworkMessage::BattleResult(LinkBattleResult::Lose) => String::from_str("BattleResult(Lose)"),
            NetworkMessage::BattleResult(LinkBattleResult::Draw) => String::from_str("BattleResult(Draw)"),
            NetworkMessage::RequestTrade => String::from_str("RequestTrade"),
            NetworkMessage::AcceptTrade => String::from_str("AcceptTrade"),
            NetworkMessage::DeclineTrade => String::from_str("DeclineTrade"),
            NetworkMessage::SelectMon(i) => number_text("SelectMon(", *i, ")"),
            NetworkMessage::ConfirmTrade => String::from_str("ConfirmTrade"),
            NetworkMessage::CancelTrade => String::from_str("CancelTrade"),
            NetworkMessage::TradeComplete(p) => {
                let mut t = String::from_str("TradeComplete(");
                p.push_text(&mut t);
                t.append(")");
                t
            },
            NetworkMessage::Disconnect => String::from_str("Disconnect"),
        }
    }
}

/// Current wire protocol version (2 added `BattleResult`).
pub const PROTOCOL_VERSION: u8 = 2;

impl NetworkMessage {
    /// Versions this implementation can talk to: 1 (no `BattleResult`) and
    /// the current one.
    pub fn is_compatible_version(version: u8) -> (r: bool)
        ensures
            r == (version == 1 || version == PROTOCOL_VERSION),
    {
        version == 1 || version == PROTOCOL_VERSION
    }

    pub fn hello() -> (m: NetworkMessage)
        ensures
            m == (NetworkMessage::Hello { version: PROTOCOL_VERSION }),
    {
        NetworkMessage::Hello { version: PROTOCOL_VERSION }
    }

    pub fn hello_ack() -> (m: NetworkMessage)
        ensures
            m == (NetworkMessage::HelloAck { version: PROTOCOL_VERSION }),
    {
        NetworkMessage::HelloAck { version: PROTOCOL_VERSION }
    }
}

} // verus!
