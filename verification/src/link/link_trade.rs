//! Two-sided Cable Club trade: the wire-protocol state machine
//! ([`LinkTradeManager`]: request, accept/decline, both sides select, both
//! confirm, the mon data is exchanged) and the game-level driver
//! ([`LinkTradeDriver`]) that applies a finished exchange to the party.

use vstd::prelude::*;

use super::protocol::{spec_message_text, NetworkMessage};
use super::transport::{sends_unchanged, sent_once, spec_transport_text, NetworkTransport, TransportError};
use super::LinkRole;
use crate::pokemon::Pokemon;
use crate::text::{debug_str, number_text, push_decimal, spec_debug_str, spec_decimal};

verus! {

/// Where the trade protocol stands.
#[derive(Debug, Clone, PartialEq, Eq)]
pub enum LinkTradeState {
    Idle,
    WaitingForTradeResponse,
    PeerRequestedTrade,
    SelectingMon,
    WaitingForPeerSelection,
    BothSelected { local_index: u8, remote_index: u8 },
    WaitingForPeerConfirm { local_index: u8, remote_index: u8 },
    PeerConfirmedWaitingLocal { local_index: u8, remote_index: u8 },
    Trading { local_index: u8, remote_index: u8 },
    Completed,
    Cancelled,
    Error(String),
}

/// What one received message meant.
#[derive(Debug, PartialEq, Eq)]
pub enum LinkTradePollResult {
    Pending,
    TradeRequested,
    TradeAccepted,
    TradeDeclined,
    PeerSelectedMon(u8),
    BothSelected { local_index: u8, remote_index: u8 },
    PeerConfirmed,
    TradeExecute { local_index: u8, remote_index: u8, received_pokemon: Pokemon },
    PeerCancelled,
    Disconnected,
    Error(String),
}

/// The abstract state of a [`LinkTradeManager`].
pub struct ManagerModel {
    pub state: LinkTradeState,
    pub local_selection: Option<u8>,
    pub remote_selection: Option<u8>,
    pub local_confirmed: bool,
    pub remote_confirmed: bool,
    pub role: Option<LinkRole>,
}

/// States in which a party member may be (re)selected.
pub open spec fn is_selecting(s: LinkTradeState) -> bool {
    s is SelectingMon || s is WaitingForPeerSelection || s is BothSelected
}

/// Terminal states: completed, cancelled (disconnect) or failed.
pub open spec fn is_terminal(s: LinkTradeState) -> bool {
    s is Completed || s is Cancelled || s is Error
}

/// The state after a selection changed: both known → `BothSelected`, only
/// the local one → `WaitingForPeerSelection`, otherwise unchanged.
pub open spec fn selection_state(
    local: Option<u8>,
    remote: Option<u8>,
    s: LinkTradeState,
) -> LinkTradeState {
    match (local, remote) {
        (Some(l), Some(r)) => LinkTradeState::BothSelected { local_index: l, remote_index: r },
        (Some(_), None) => LinkTradeState::WaitingForPeerSelection,
        _ => s,
    }
}

/// `m` with every selection and confirmation forgotten.
pub open spec fn cleared(m: ManagerModel) -> ManagerModel {
    ManagerModel {
        local_selection: None,
        remote_selection: None,
        local_confirmed: false,
        remote_confirmed: false,
        ..m
    }
}

pub open spec fn with_state(m: ManagerModel, s: LinkTradeState) -> ManagerModel {
    ManagerModel { state: s, ..m }
}

/// The protocol's transition table: the model and poll result after the
/// peer's message `msg` arrives in model `m`, or `None` where the message is
/// unexpected in that state (the manager then fails with an `Error`).
pub open spec fn trade_step(m: ManagerModel, msg: NetworkMessage) -> Option<(ManagerModel, LinkTradePollResult)> {
    match msg {
        NetworkMessage::RequestTrade => {
            if m.state is Idle {
                Some((with_state(m, LinkTradeState::PeerRequestedTrade), LinkTradePollResult::TradeRequested))
            } else if m.state is WaitingForTradeResponse {
                // Both sides asked at once: the host's request wins.
                match m.role {
                    Some(LinkRole::Host) => Some((m, LinkTradePollResult::Pending)),
                    Some(LinkRole::Guest) => Some(
                        (with_state(m, LinkTradeState::SelectingMon), LinkTradePollResult::TradeAccepted),
                    ),
                    None => None,
                }
            } else {
                None
            }
        },
        NetworkMessage::AcceptTrade => {
            if m.state is WaitingForTradeResponse {
                Some((with_state(m, LinkTradeState::SelectingMon), LinkTradePollResult::TradeAccepted))
            } else {
                None
            }
        },
        NetworkMessage::DeclineTrade => {
            if m.state is WaitingForTradeResponse {
                Some((with_state(m, LinkTradeState::Idle), LinkTradePollResult::TradeDeclined))
            } else {
                None
            }
        },
        NetworkMessage::SelectMon(idx) => {
            if is_selecting(m.state) {
                let m2 = ManagerModel {
                    remote_selection: Some(idx),
                    remote_confirmed: false,
                    state: selection_state(m.local_selection, Some(idx), m.state),
                    ..m
                };
                let r = match m.local_selection {
                    Some(l) => LinkTradePollResult::BothSelected { local_index: l, remote_index: idx },
                    None => LinkTradePollResult::PeerSelectedMon(idx),
                };
                Some((m2, r))
            } else {
                None
            }
        },
        NetworkMessage::ConfirmTrade => match m.state {
            LinkTradeState::BothSelected { local_index, remote_index } => {
                let s = if m.local_confirmed {
                    LinkTradeState::Trading { local_index, remote_index }
                } else {
                    LinkTradeState::PeerConfirmedWaitingLocal { local_index, remote_index }
                };
                Some((ManagerModel { remote_confirmed: true, state: s, ..m }, LinkTradePollResult::PeerConfirmed))
            },
            LinkTradeState::WaitingForPeerConfirm { local_index, remote_index } => Some(
                (
                    ManagerModel {
                        remote_confirmed: true,
                        state: LinkTradeState::Trading { local_index, remote_index },
                        ..m
                    },
                    LinkTradePollResult::PeerConfirmed,
                ),
            ),
            _ => None,
        },
        NetworkMessage::TradeComplete(p) => match m.state {
            LinkTradeState::Trading { local_index, remote_index } => Some(
                (
                    with_state(m, LinkTradeState::Completed),
                    LinkTradePollResult::TradeExecute { local_index, remote_index, received_pokemon: p },
                ),
            ),
            _ => None,
        },
        NetworkMessage::CancelTrade => Some(
            (with_state(cleared(m), LinkTradeState::SelectingMon), LinkTradePollResult::PeerCancelled),
        ),
        NetworkMessage::Disconnect => Some(
            (with_state(m, LinkTradeState::Cancelled), LinkTradePollResult::Disconnected),
        ),
        _ => None,
    }
}

/// A manager operation that hands `msg` to the transport from an accepting
/// state: the message is sent once, the operation's result is the send's
/// outcome, and the model becomes `next` only if the send succeeded.
pub open spec fn sent_step<T: NetworkTransport<NetworkMessage>>(
    m: ManagerModel,
    m2: ManagerModel,
    next: ManagerModel,
    msg: NetworkMessage,
    r: Result<(), TransportError>,
    t: T,
    t2: T,
) -> bool {
    &&& sent_once(t, t2, msg, r)
    &&& m2 == if r is Ok { next } else { m }
}

/// A refusal of the manager's own, before anything is sent: `IoError(text)`,
/// nothing handed to the transport, the model unchanged.
pub open spec fn refused<T: NetworkTransport<NetworkMessage>>(
    m: ManagerModel,
    m2: ManagerModel,
    r: Result<(), TransportError>,
    text: Seq<char>,
    t: T,
    t2: T,
) -> bool {
    &&& r matches Err(TransportError::IoError(s)) && s@ == text
    &&& sends_unchanged(t, t2)
    &&& m2 == m
}

/// The confirmation flags agree with the protocol state: only the waiting
/// and trading states carry confirmations (the local one while waiting for
/// the peer, the peer's while waiting for the local side, both while
/// trading); a finished or failed trade may carry any.
pub open spec fn confirmations_agree(m: ManagerModel) -> bool {
    match m.state {
        LinkTradeState::WaitingForPeerConfirm { .. } => m.local_confirmed && !m.remote_confirmed,
        LinkTradeState::PeerConfirmedWaitingLocal { .. } => !m.local_confirmed && m.remote_confirmed,
        LinkTradeState::Trading { .. } => m.local_confirmed && m.remote_confirmed,
        LinkTradeState::Completed => true,
        LinkTradeState::Cancelled => true,
        LinkTradeState::Error(_) => true,
        _ => !m.local_confirmed && !m.remote_confirmed,
    }
}

/// The manager's model after `reset_for_new_trade`.
pub open spec fn reset_model(m: ManagerModel) -> ManagerModel {
    with_state(cleared(m), if m.state is Completed || m.state is Cancelled { LinkTradeState::Idle } else { m.state })
}

/// States from which the local side may confirm.
pub open spec fn can_confirm(s: LinkTradeState) -> bool {
    s is BothSelected || s is PeerConfirmedWaitingLocal
}

/// The model after the local confirmation (from a confirmable state): the
/// trade starts if the peer already confirmed, else the manager waits.
pub open spec fn confirmed_model(m: ManagerModel) -> ManagerModel {
    let (l, rm) = match m.state {
        LinkTradeState::BothSelected { local_index, remote_index } => (local_index, remote_index),
        LinkTradeState::PeerConfirmedWaitingLocal { local_index, remote_index } => (local_index, remote_index),
        _ => (0u8, 0u8),
    };
    ManagerModel {
        local_confirmed: true,
        state: if m.remote_confirmed {
            LinkTradeState::Trading { local_index: l, remote_index: rm }
        } else {
            LinkTradeState::WaitingForPeerConfirm { local_index: l, remote_index: rm }
        },
        ..m
    }
}

/// The model after the local side selects `party_index`.
pub open spec fn selected_model(m: ManagerModel, party_index: u8) -> ManagerModel {
    ManagerModel {
        local_selection: Some(party_index),
        local_confirmed: false,
        remote_confirmed: false,
        state: selection_state(Some(party_index), m.remote_selection, m.state),
        ..m
    }
}

/// How `confirm_trade` uses the transport from a confirmable state:
/// `ConfirmTrade` is sent; if that fails the result is its error and nothing
/// more is sent; otherwise `TradeComplete(p)` follows and the result is its
/// outcome.
pub open spec fn confirm_sends<T: NetworkTransport<NetworkMessage>>(
    p: Pokemon,
    r: Result<(), TransportError>,
    t: T,
    t2: T,
) -> bool {
    ||| (r is Err && sent_once(t, t2, NetworkMessage::ConfirmTrade, r))
    ||| {
        &&& t2.attempted() == t.attempted().push(NetworkMessage::ConfirmTrade).push(NetworkMessage::TradeComplete(p))
        &&& t2.send_results() == t.send_results().push(Ok::<(), TransportError>(())).push(r)
    }
}

/// How the manager answers one receive outcome: nothing pending leaves it
/// as it is (`Pending`); a disconnect cancels the trade; another transport
/// failure becomes an `Error` carrying the failure's text; a message is
/// handled as [`LinkTradeManager::handled`] says.
pub open spec fn answered<T: NetworkTransport<NetworkMessage>>(
    m: ManagerModel,
    m2: ManagerModel,
    outcome: Result<Option<NetworkMessage>, TransportError>,
    r: LinkTradePollResult,
    t: T,
    t2: T,
) -> bool {
    match outcome {
        Ok(Some(msg)) => LinkTradeManager::handled(m, m2, msg, r, t, t2),
        Ok(None) => r is Pending && m2 == m && sends_unchanged(t, t2),
        Err(e) => {
            &&& sends_unchanged(t, t2)
            &&& if e is Disconnected {
                r is Disconnected && m2 == with_state(m, LinkTradeState::Cancelled)
            } else {
                r matches LinkTradePollResult::Error(s) && s@ == spec_transport_text(e) && m2 == with_state(
                    m,
                    LinkTradeState::Error(s),
                )
            }
        },
    }
}

/// `name { local_index: l, remote_index: r }`.
pub open spec fn spec_indices_text(name: Seq<char>, l: u8, r: u8) -> Seq<char> {
    name + " { local_index: "@ + spec_decimal(l as nat) + ", remote_index: "@ + spec_decimal(r as nat) + " }"@
}

/// How a protocol state is written in error reports.
pub open spec fn spec_state_text(s: LinkTradeState) -> Seq<char> {
    match s {
        LinkTradeState::Idle => "Idle"@,
        LinkTradeState::WaitingForTradeResponse => "WaitingForTradeResponse"@,
        LinkTradeState::PeerRequestedTrade => "PeerRequestedTrade"@,
        LinkTradeState::SelectingMon => "SelectingMon"@,
        LinkTradeState::WaitingForPeerSelection => "WaitingForPeerSelection"@,
        LinkTradeState::BothSelected { local_index, remote_index } => spec_indices_text("BothSelected"@, local_index, remote_index),
        LinkTradeState::WaitingForPeerConfirm { local_index, remote_index } => spec_indices_text(
            "WaitingForPeerConfirm"@,
            local_index,
            remote_index,
        ),
        LinkTradeState::PeerConfirmedWaitingLocal { local_index, remote_index } => spec_indices_text(
            "PeerConfirmedWaitingLocal"@,
            local_index,
            remote_index,
        ),
        LinkTradeState::Trading { local_index, remote_index } => spec_indices_text("Trading"@, local_index, remote_index),
        LinkTradeState::Completed => "Completed"@,
        LinkTradeState::Cancelled => "Cancelled"@,
        LinkTradeState::Error(e) => "Error("@ + spec_debug_str(e@) + ")"@,
    }
}

/// The error text for a message that is unexpected in a state.
pub open spec fn spec_unexpected_text(msg: NetworkMessage, s: LinkTradeState) -> Seq<char> {
    "unexpected message "@ + spec_message_text(msg) + " in state "@ + spec_state_text(s)
}

fn indices_text(name: &str, l: u8, r: u8) -> (s: String)
    ensures
        s@ == spec_indices_text(name@, l, r),
{
    let mut s = String::from_str(name).concat(" { local_index: ");
    push_decimal(&mut s, l as u32);
    let t = number_text(", remote_index: ", r, " }");
    s.concat(t.as_str())
}

impl LinkTradeState {
    /// The state as written in error reports.
    pub fn text(&self) -> (s: String)
        ensures
            s@ == spec_state_text(*self),
    {
        match self {
            LinkTradeState::Idle => String::from_str("Idle"),
            LinkTradeState::WaitingForTradeResponse => String::from_str("WaitingForTradeResponse"),
            LinkTradeState::PeerRequestedTrade => String::from_str("PeerRequestedTrade"),
            LinkTradeState::SelectingMon => String::from_str("SelectingMon"),
            LinkTradeState::WaitingForPeerSelection => String::from_str("WaitingForPeerSelection"),
            LinkTradeState::BothSelected { local_index, remote_index } => indices_text("BothSelected", *local_index, *remote_index),
            LinkTradeState::WaitingForPeerConfirm { local_index, remote_index } => indices_text(
                "WaitingForPeerConfirm",
                *local_index,
                *remote_index,
            ),
            LinkTradeState::PeerConfirmedWaitingLocal { local_index, remote_index } => indices_text(
                "PeerConfirmedWaitingLocal",
                *local_index,
                *remote_index,
            ),
            LinkTradeState::Trading { local_index, remote_index } => indices_text("Trading", *local_index, *remote_index),
            LinkTradeState::Completed => String::from_str("Completed"),
            LinkTradeState::Cancelled => String::from_str("Cancelled"),
            LinkTradeState::Error(e) => String::from_str("Error(").concat(debug_str(e.as_str()).as_str()).concat(")"),
        }
    }
}

/// "unexpected message <msg> in state <state>".
fn unexpected_message_text(msg: &NetworkMessage, state: &LinkTradeState) -> (s: String)
    ensures
        s@ == spec_unexpected_text(*msg, *state),
{
    String::from_str("unexpected message ").concat(msg.text().as_str()).concat(" in state ").concat(
        state.text().as_str(),
    )
}

/// The wire-protocol state machine of a Cable Club trade. It owns no game
/// data.
#[derive(Debug)]
pub struct LinkTradeManager {
    state: LinkTradeState,
    local_selection: Option<u8>,
    remote_selection: Option<u8>,
    local_confirmed: bool,
    remote_confirmed: bool,
    role: Option<LinkRole>,
}

impl View for LinkTradeManager {
    type V = ManagerModel;

    closed spec fn view(&self) -> ManagerModel {
        ManagerModel {
            state: self.state,
            local_selection: self.local_selection,
            remote_selection: self.remote_selection,
            local_confirmed: self.local_confirmed,
            remote_confirmed: self.remote_confirmed,
            role: self.role,
        }
    }
}

impl LinkTradeManager {
    pub fn new() -> (m: LinkTradeManager)
        ensures
            confirmations_agree(m@),
            m@ == (ManagerModel {
                state: LinkTradeState::Idle,
                local_selection: None,
                remote_selection: None,
                local_confirmed: false,
                remote_confirmed: false,
                role: None,
            }),
    {
        LinkTradeManager {
            state: LinkTradeState::Idle,
            local_selection: None,
            remote_selection: None,
            local_confirmed: false,
            remote_confirmed: false,
            role: None,
        }
    }

    /// Set the clock role that breaks a simultaneous-request tie.
    pub fn set_role(&mut self, role: LinkRole)
        ensures
            final(self)@ == (ManagerModel { role: Some(role), ..old(self)@ }),
            confirmations_agree(old(self)@) ==> confirmations_agree(final(self)@),
    {
        self.role = Some(role);
    }

    pub fn state(&self) -> (s: &LinkTradeState)
        ensures
            *s == self@.state,
    {
        &self.state
    }

    pub fn is_completed(&self) -> (r: bool)
        ensures
            r == is_terminal(self@.state),
    {
        matches!(self.state, LinkTradeState::Completed | LinkTradeState::Cancelled | LinkTradeState::Error(_))
    }

    /// Ask the peer to trade. Refused (nothing sent, state unchanged) unless
    /// idle; otherwise `RequestTrade` is sent and, once it is out, the
    /// manager waits for the answer.
    pub fn request_trade<T: NetworkTransport<NetworkMessage>>(&mut self, transport: &mut T) -> (r: Result<(), TransportError>)
        ensures
            old(self)@.state is Idle ==> sent_step(
                old(self)@,
                final(self)@,
                with_state(old(self)@, LinkTradeState::WaitingForTradeResponse),
                NetworkMessage::RequestTrade,
                r,
                *old(transport),
                *final(transport),
            ),
            !(old(self)@.state is Idle) ==> refused(
                old(self)@,
                final(self)@,
                r,
                "cannot request trade: not idle"@,
                *old(transport),
                *final(transport),
            ),
            final(transport).polled() == old(transport).polled(),
            confirmations_agree(old(self)@) ==> confirmations_agree(final(self)@),
    {
        proof {
            if confirmations_agree(self@) {
                lemma_steps_keep_confirmations(self@, NetworkMessage::Disconnect, 0);
            }
        }
        if !matches!(self.state, LinkTradeState::Idle) {
            return Err(TransportError::IoError(String::from_str("cannot request trade: not idle")));
        }
        let sent = transport.send(NetworkMessage::RequestTrade);
        match sent {
            Ok(u) => {
                assert(sent == Ok::<(), TransportError>(u));
            },
            Err(e) => {
                return Err(e);
            },
        }
        self.state = LinkTradeState::WaitingForTradeResponse;
        Ok(())
    }

    /// Accept the peer's pending request (`AcceptTrade`), moving to selection.
    pub fn accept_trade<T: NetworkTransport<NetworkMessage>>(&mut self, transport: &mut T) -> (r: Result<(), TransportError>)
        ensures
            old(self)@.state is PeerRequestedTrade ==> sent_step(
                old(self)@,
                final(self)@,
                with_state(old(self)@, LinkTradeState::SelectingMon),
                NetworkMessage::AcceptTrade,
                r,
                *old(transport),
                *final(transport),
            ),
            !(old(self)@.state is PeerRequestedTrade) ==> refused(
                old(self)@,
                final(self)@,
                r,
                "no pending trade request"@,
                *old(transport),
                *final(transport),
            ),
            final(transport).polled() == old(transport).polled(),
            confirmations_agree(old(self)@) ==> confirmations_agree(final(self)@),
    {
        proof {
            if confirmations_agree(self@) {
                lemma_steps_keep_confirmations(self@, NetworkMessage::Disconnect, 0);
            }
        }
        if !matches!(self.state, LinkTradeState::PeerRequestedTrade) {
            return Err(TransportError::IoError(String::from_str("no pending trade request")));
        }
        let sent = transport.send(NetworkMessage::AcceptTrade);
        match sent {
            Ok(u) => {
                assert(sent == Ok::<(), TransportError>(u));
            },
            Err(e) => {
                return Err(e);
            },
        }
        self.state = LinkTradeState::SelectingMon;
        Ok(())
    }

    /// Decline the peer's pending request (`DeclineTrade`), back to idle.
    pub fn decline_trade<T: NetworkTransport<NetworkMessage>>(&mut self, transport: &mut T) -> (r: Result<(), TransportError>)
        ensures
            old(self)@.state is PeerRequestedTrade ==> sent_step(
                old(self)@,
                final(self)@,
                with_state(old(self)@, LinkTradeState::Idle),
                NetworkMessage::DeclineTrade,
                r,
                *old(transport),
                *final(transport),
            ),
            !(old(self)@.state is PeerRequestedTrade) ==> refused(
                old(self)@,
                final(self)@,
                r,
                "no pending trade request"@,
                *old(transport),
                *final(transport),
            ),
            final(transport).polled() == old(transport).polled(),
            confirmations_agree(old(self)@) ==> confirmations_agree(final(self)@),
    {
        proof {
            if confirmations_agree(self@) {
                lemma_steps_keep_confirmations(self@, NetworkMessage::Disconnect, 0);
            }
        }
        if !matches!(self.state, LinkTradeState::PeerRequestedTrade) {
            return Err(TransportError::IoError(String::from_str("no pending trade request")));
        }
        let sent = transport.send(NetworkMessage::DeclineTrade);
        match sent {
            Ok(u) => {
                assert(sent == Ok::<(), TransportError>(u));
            },
            Err(e) => {
                return Err(e);
            },
        }
        self.state = LinkTradeState::Idle;
        Ok(())
    }

    /// Select (or re-select) the local party member to trade. Any new
    /// selection voids both confirmations.
    pub fn select_mon<T: NetworkTransport<NetworkMessage>>(&mut self, transport: &mut T, party_index: u8) -> (r: Result<(), TransportError>)
        ensures
            is_selecting(old(self)@.state) ==> sent_step(
                old(self)@,
                final(self)@,
                selected_model(old(self)@, party_index),
                NetworkMessage::SelectMon(party_index),
                r,
                *old(transport),
                *final(transport),
            ),
            !is_selecting(old(self)@.state) ==> refused(
                old(self)@,
                final(self)@,
                r,
                "not in selection state"@,
                *old(transport),
                *final(transport),
            ),
            final(transport).polled() == old(transport).polled(),
            confirmations_agree(old(self)@) ==> confirmations_agree(final(self)@),
    {
        proof {
            if confirmations_agree(self@) {
                lemma_steps_keep_confirmations(self@, NetworkMessage::Disconnect, party_index);
            }
        }
        match &self.state {
            LinkTradeState::SelectingMon | LinkTradeState::WaitingForPeerSelection | LinkTradeState::BothSelected { .. } => {},
            _ => {
                return Err(TransportError::IoError(String::from_str("not in selection state")));
            },
        }
        let sent = transport.send(NetworkMessage::SelectMon(party_index));
        match sent {
            Ok(u) => {
                assert(sent == Ok::<(), TransportError>(u));
            },
            Err(e) => {
                return Err(e);
            },
        }
        self.local_selection = Some(party_index);
        self.local_confirmed = false;
        self.remote_confirmed = false;
        self.try_transition_to_both_selected();
        Ok(())
    }

    /// Confirm the selected trade: sends `ConfirmTrade`, then the local mon's
    /// full data (`TradeComplete`). Trading starts once both have confirmed.
    pub fn confirm_trade<T: NetworkTransport<NetworkMessage>>(&mut self, transport: &mut T, pokemon: Pokemon) -> (r: Result<(), TransportError>)
        ensures
            can_confirm(old(self)@.state) ==> confirm_sends(pokemon, r, *old(transport), *final(transport))
                && final(self)@ == if r is Ok { confirmed_model(old(self)@) } else { old(self)@ },
            !can_confirm(old(self)@.state) ==> refused(
                old(self)@,
                final(self)@,
                r,
                "not in confirm state"@,
                *old(transport),
                *final(transport),
            ),
            final(transport).polled() == old(transport).polled(),
            confirmations_agree(old(self)@) ==> confirmations_agree(final(self)@),
    {
        proof {
            if confirmations_agree(self@) {
                lemma_steps_keep_confirmations(self@, NetworkMessage::Disconnect, 0);
            }
        }
        let (local_idx, remote_idx) = match &self.state {
            LinkTradeState::BothSelected { local_index, remote_index } => (*local_index, *remote_index),
            LinkTradeState::PeerConfirmedWaitingLocal { local_index, remote_index } => (*local_index, *remote_index),
            _ => {
                return Err(TransportError::IoError(String::from_str("not in confirm state")));
            },
        };
        let sent = transport.send(NetworkMessage::ConfirmTrade);
        match sent {
            Ok(u) => {
                assert(sent == Ok::<(), TransportError>(u));
            },
            Err(e) => {
                return Err(e);
            },
        }
        let sent = transport.send(NetworkMessage::TradeComplete(pokemon));
        match sent {
            Ok(u) => {
                assert(sent == Ok::<(), TransportError>(u));
            },
            Err(e) => {
                return Err(e);
            },
        }
        self.local_confirmed = true;
        if self.remote_confirmed {
            self.state = LinkTradeState::Trading { local_index: local_idx, remote_index: remote_idx };
        } else {
            self.state = LinkTradeState::WaitingForPeerConfirm { local_index: local_idx, remote_index: remote_idx };
        }
        Ok(())
    }

    /// Cancel the trade from any state: `CancelTrade` is sent and, once it is
    /// out, both sides return to selection with every selection forgotten.
    pub fn cancel_trade<T: NetworkTransport<NetworkMessage>>(&mut self, transport: &mut T) -> (r: Result<(), TransportError>)
        ensures
            sent_step(
                old(self)@,
                final(self)@,
                with_state(cleared(old(self)@), LinkTradeState::SelectingMon),
                NetworkMessage::CancelTrade,
                r,
                *old(transport),
                *final(transport),
            ),
            final(transport).polled() == old(transport).polled(),
            confirmations_agree(old(self)@) ==> confirmations_agree(final(self)@),
    {
        proof {
            if confirmations_agree(self@) {
                lemma_steps_keep_confirmations(self@, NetworkMessage::Disconnect, 0);
            }
        }
        let sent = transport.send(NetworkMessage::CancelTrade);
        match sent {
            Ok(u) => {
                assert(sent == Ok::<(), TransportError>(u));
            },
            Err(e) => {
                return Err(e);
            },
        }
        self.reset_selection();
        self.state = LinkTradeState::SelectingMon;
        Ok(())
    }

    /// Handle one message from the peer without blocking: exactly one
    /// `try_recv`, whose outcome is answered as [`answered`] says.
    pub fn poll<T: NetworkTransport<NetworkMessage>>(&mut self, transport: &mut T) -> (r: LinkTradePollResult)
        ensures
            final(transport).polled() == old(transport).polled().push(final(transport).polled().last()),
            answered(old(self)@, final(self)@, final(transport).polled().last(), r, *old(transport), *final(transport)),
            confirmations_agree(old(self)@) ==> confirmations_agree(final(self)@),
    {
        let received = transport.try_recv();
        let ghost outcome = received;
        let ghost t1 = *transport;
        let msg = match received {
            Ok(Some(msg)) => msg,
            Ok(None) => {
                return LinkTradePollResult::Pending;
            },
            Err(TransportError::Disconnected) => {
                self.state = LinkTradeState::Cancelled;
                return LinkTradePollResult::Disconnected;
            },
            Err(e) => {
                let text = e.message();
                self.state = LinkTradeState::Error(text.clone());
                return LinkTradePollResult::Error(text);
            },
        };
        let r = self.handle_message(msg, transport);
        assert(transport.polled() == t1.polled());
        r
    }

    /// Like [`Self::poll`], but blocks (one `recv`) until a message or a
    /// failure arrives.
    pub fn poll_blocking<T: NetworkTransport<NetworkMessage>>(&mut self, transport: &mut T) -> (r: LinkTradePollResult)
        ensures
            final(transport).polled() == old(transport).polled().push(final(transport).polled().last()),
            !(final(transport).polled().last() matches Ok(None)),
            answered(old(self)@, final(self)@, final(transport).polled().last(), r, *old(transport), *final(transport)),
            confirmations_agree(old(self)@) ==> confirmations_agree(final(self)@),
    {
        let received = transport.recv();
        let ghost t1 = *transport;
        let msg = match received {
            Ok(msg) => msg,
            Err(TransportError::Disconnected) => {
                self.state = LinkTradeState::Cancelled;
                return LinkTradePollResult::Disconnected;
            },
            Err(e) => {
                let text = e.message();
                self.state = LinkTradeState::Error(text.clone());
                return LinkTradePollResult::Error(text);
            },
        };
        let r = self.handle_message(msg, transport);
        assert(transport.polled() == t1.polled());
        r
    }

    /// How the manager answers the peer's message `msg` arriving in model
    /// `m`: the transition table where it applies, otherwise an `Error` state
    /// and result carrying the same text. Only the guest's yield to a
    /// simultaneous request sends anything (`AcceptTrade`, whatever its
    /// outcome).
    pub open spec fn handled<T: NetworkTransport<NetworkMessage>>(
        m: ManagerModel,
        m2: ManagerModel,
        msg: NetworkMessage,
        r: LinkTradePollResult,
        t: T,
        t2: T,
    ) -> bool {
        match trade_step(m, msg) {
            Some((next, result)) => {
                &&& m2 == next
                &&& r == result
                &&& if msg is RequestTrade && m.state is WaitingForTradeResponse && m.role == Some(LinkRole::Guest) {
                    sent_once(t, t2, NetworkMessage::AcceptTrade, t2.send_results().last())
                } else {
                    sends_unchanged(t, t2)
                }
            },
            None => {
                &&& sends_unchanged(t, t2)
                &&& r matches LinkTradePollResult::Error(e)
                &&& m2 == with_state(m, LinkTradeState::Error(e))
                &&& e@ == if msg is RequestTrade && m.state is WaitingForTradeResponse {
                    "simultaneous trade requests without a clock role"@
                } else {
                    spec_unexpected_text(msg, m.state)
                }
            },
        }
    }

    fn handle_message<T: NetworkTransport<NetworkMessage>>(&mut self, msg: NetworkMessage, transport: &mut T) -> (r: LinkTradePollResult)
        ensures
            Self::handled(old(self)@, final(self)@, msg, r, *old(transport), *final(transport)),
            final(transport).polled() == old(transport).polled(),
            confirmations_agree(old(self)@) ==> confirmations_agree(final(self)@),
    {
        proof {
            if confirmations_agree(self@) {
                lemma_steps_keep_confirmations(self@, msg, 0);
            }
        }
        let ghost m0 = self@;
        match msg {
            NetworkMessage::RequestTrade => {
                if matches!(self.state, LinkTradeState::Idle) {
                    self.state = LinkTradeState::PeerRequestedTrade;
                    return LinkTradePollResult::TradeRequested;
                }
                if matches!(self.state, LinkTradeState::WaitingForTradeResponse) {
                    match self.role {
                        Some(LinkRole::Host) => {
                            return LinkTradePollResult::Pending;
                        },
                        Some(LinkRole::Guest) => {
                            let _ = transport.send(NetworkMessage::AcceptTrade);
                            self.state = LinkTradeState::SelectingMon;
                            return LinkTradePollResult::TradeAccepted;
                        },
                        None => {
                            let err = String::from_str("simultaneous trade requests without a clock role");
                            self.state = LinkTradeState::Error(err.clone());
                            return LinkTradePollResult::Error(err);
                        },
                    }
                }
                self.unexpected(NetworkMessage::RequestTrade)
            },
            NetworkMessage::AcceptTrade => {
                if matches!(self.state, LinkTradeState::WaitingForTradeResponse) {
                    self.state = LinkTradeState::SelectingMon;
                    return LinkTradePollResult::TradeAccepted;
                }
                self.unexpected(NetworkMessage::AcceptTrade)
            },
            NetworkMessage::DeclineTrade => {
                if matches!(self.state, LinkTradeState::WaitingForTradeResponse) {
                    self.state = LinkTradeState::Idle;
                    return LinkTradePollResult::TradeDeclined;
                }
                self.unexpected(NetworkMessage::DeclineTrade)
            },
            NetworkMessage::SelectMon(idx) => {
                match &self.state {
                    LinkTradeState::SelectingMon | LinkTradeState::WaitingForPeerSelection | LinkTradeState::BothSelected { .. } => {
                        self.remote_selection = Some(idx);
                        self.remote_confirmed = false;
                        self.try_transition_to_both_selected();
                        match self.local_selection {
                            Some(l) => LinkTradePollResult::BothSelected { local_index: l, remote_index: idx },
                            None => LinkTradePollResult::PeerSelectedMon(idx),
                        }
                    },
                    _ => self.unexpected(NetworkMessage::SelectMon(idx)),
                }
            },
            NetworkMessage::ConfirmTrade => {
                match &self.state {
                    LinkTradeState::BothSelected { local_index, remote_index } => {
                        let (li, ri) = (*local_index, *remote_index);
                        self.remote_confirmed = true;
                        if self.local_confirmed {
                            self.state = LinkTradeState::Trading { local_index: li, remote_index: ri };
                        } else {
                            self.state = LinkTradeState::PeerConfirmedWaitingLocal { local_index: li, remote_index: ri };
                        }
                        LinkTradePollResult::PeerConfirmed
                    },
                    LinkTradeState::WaitingForPeerConfirm { local_index, remote_index } => {
                        let (li, ri) = (*local_index, *remote_index);
                        self.remote_confirmed = true;
                        self.state = LinkTradeState::Trading { local_index: li, remote_index: ri };
                        LinkTradePollResult::PeerConfirmed
                    },
                    _ => self.unexpected(NetworkMessage::ConfirmTrade),
                }
            },
            NetworkMessage::TradeComplete(pokemon) => {
                match &self.state {
                    LinkTradeState::Trading { local_index, remote_index } => {
                        let (li, ri) = (*local_index, *remote_index);
                        self.state = LinkTradeState::Completed;
                        LinkTradePollResult::TradeExecute { local_index: li, remote_index: ri, received_pokemon: pokemon }
                    },
                    _ => self.unexpected(NetworkMessage::TradeComplete(pokemon)),
                }
            },
            NetworkMessage::CancelTrade => {
                self.reset_selection();
                self.state = LinkTradeState::SelectingMon;
                LinkTradePollResult::PeerCancelled
            },
            NetworkMessage::Disconnect => {
                self.state = LinkTradeState::Cancelled;
                LinkTradePollResult::Disconnected
            },
            other => self.unexpected(other),
        }
    }

    /// Fail on a message the current state does not expect.
    fn unexpected(&mut self, msg: NetworkMessage) -> (r: LinkTradePollResult)
        ensures
            r matches LinkTradePollResult::Error(e) && final(self)@ == with_state(old(self)@, LinkTradeState::Error(e))
                && e@ == spec_unexpected_text(msg, old(self)@.state),
    {
        let err = unexpected_message_text(&msg, &self.state);
        self.state = LinkTradeState::Error(err.clone());
        LinkTradePollResult::Error(err)
    }

    fn try_transition_to_both_selected(&mut self)
        ensures
            final(self)@ == with_state(old(self)@, selection_state(old(self)@.local_selection, old(self)@.remote_selection, old(self)@.state)),
    {
        match (self.local_selection, self.remote_selection) {
            (Some(local), Some(remote)) => {
                self.state = LinkTradeState::BothSelected { local_index: local, remote_index: remote };
            },
            (Some(_), None) => {
                self.state = LinkTradeState::WaitingForPeerSelection;
            },
            _ => {},
        }
    }

    fn reset_selection(&mut self)
        ensures
            final(self)@ == cleared(old(self)@),
    {
        self.local_selection = None;
        self.remote_selection = None;
        self.local_confirmed = false;
        self.remote_confirmed = false;
    }

    /// Forget every selection; a finished (completed or cancelled) trade
    /// returns to idle so a new one can start.
    pub fn reset_for_new_trade(&mut self)
        ensures
            final(self)@ == reset_model(old(self)@),
            confirmations_agree(old(self)@) && !(old(self)@.state is WaitingForPeerConfirm
                || old(self)@.state is PeerConfirmedWaitingLocal || old(self)@.state is Trading)
                ==> confirmations_agree(final(self)@),
    {
        proof {
            if confirmations_agree(self@) {
                lemma_steps_keep_confirmations(self@, NetworkMessage::Disconnect, 0);
            }
        }
        self.reset_selection();
        if matches!(self.state, LinkTradeState::Completed | LinkTradeState::Cancelled) {
            self.state = LinkTradeState::Idle;
        }
    }
}

impl Default for LinkTradeManager {
    fn default() -> (m: LinkTradeManager)
        ensures
            m@ == (ManagerModel {
                state: LinkTradeState::Idle,
                local_selection: None,
                remote_selection: None,
                local_confirmed: false,
                remote_confirmed: false,
                role: None,
            }),
    {
        Self::new()
    }
}

} // verus!

verus! {

/// Driver-level errors, kept apart from wire errors so a frontend can tell a
/// bad selection from a broken cable.
#[derive(Debug, Clone, PartialEq, Eq)]
pub enum LinkTradeError {
    /// The transport itself failed (disconnect / timeout / serialization).
    Transport(TransportError),
    /// A party index outside the party.
    InvalidIndex(u8),
    /// The operation is not valid in the current trade state.
    WrongState(String),
    /// `apply_exchange` without a completed exchange.
    NoExchange,
    /// The received mon could not join the party.
    PartyFull,
    /// The selected mon could not be removed from the party.
    PartyRemove,
}

/// The manager reports its state-guard refusals as I/O errors; the driver
/// surfaces them as `WrongState` so that `Transport` means the cable.
pub open spec fn spec_from_transport(e: TransportError) -> LinkTradeError {
    match e {
        TransportError::IoError(msg) => LinkTradeError::WrongState(msg),
        other => LinkTradeError::Transport(other),
    }
}

impl From<TransportError> for LinkTradeError {
    fn from(e: TransportError) -> (r: LinkTradeError) {
        match e {
            TransportError::IoError(msg) => LinkTradeError::WrongState(msg),
            other => LinkTradeError::Transport(other),
        }
    }
}

impl vstd::std_specs::convert::FromSpecImpl<TransportError> for LinkTradeError {
    open spec fn obeys_from_spec() -> bool {
        true
    }

    open spec fn from_spec(e: TransportError) -> LinkTradeError {
        spec_from_transport(e)
    }
}

impl LinkTradeError {
    /// The human-readable text of the error.
    pub fn message(&self) -> (s: String)
        ensures
            self matches LinkTradeError::Transport(e) ==> s@ == "link transport error: "@ + spec_transport_text(*e),
            self matches LinkTradeError::InvalidIndex(i) ==> s@ == "invalid party index "@ + spec_decimal(i as nat),
            self matches LinkTradeError::WrongState(m) ==> s@ == "wrong trade state: "@ + m@,
            self is NoExchange ==> s@ == "no completed exchange to apply"@,
            self is PartyFull ==> s@ == "party is full"@,
            self is PartyRemove ==> s@ == "could not remove the traded mon"@,
    {
        match self {
            LinkTradeError::Transport(e) => String::from_str("link transport error: ").concat(e.message().as_str()),
            LinkTradeError::InvalidIndex(i) => invalid_index_text(*i),
            LinkTradeError::WrongState(msg) => String::from_str("wrong trade state: ").concat(msg.as_str()),
            LinkTradeError::NoExchange => String::from_str("no completed exchange to apply"),
            LinkTradeError::PartyFull => String::from_str("party is full"),
            LinkTradeError::PartyRemove => String::from_str("could not remove the traded mon"),
        }
    }
}

/// "invalid party index <i>".
fn invalid_index_text(i: u8) -> (s: String)
    ensures
        s@ == "invalid party index "@ + spec_decimal(i as nat),
{
    let mut s = String::from_str("invalid party index ");
    push_decimal(&mut s, i as u32);
    s
}

/// A manager result as the driver reports it.
pub open spec fn lift(r: Result<(), TransportError>) -> Result<(), LinkTradeError> {
    match r {
        Ok(()) => Ok(()),
        Err(e) => Err(spec_from_transport(e)),
    }
}

/// The abstract state of a [`LinkTradeDriver`].
pub struct DriverModel {
    pub manager: ManagerModel,
    pub party: Seq<Pokemon>,
    pub player_id: u16,
    pub local_index: Option<u8>,
    pub remote_index: Option<u8>,
    pub given_mon: Option<Pokemon>,
    pub received_mon: Option<Pokemon>,
    pub received_index: Option<usize>,
}

/// `d` with the pending exchange forgotten (selection indices, given and
/// received mons, received slot).
pub open spec fn cleared_trade(d: DriverModel) -> DriverModel {
    DriverModel {
        local_index: None,
        remote_index: None,
        given_mon: None,
        received_mon: None,
        received_index: None,
        ..d
    }
}

/// What the driver records from a poll result.
pub open spec fn observed(d: DriverModel, r: LinkTradePollResult) -> DriverModel {
    match r {
        LinkTradePollResult::BothSelected { local_index, remote_index } => DriverModel {
            local_index: Some(local_index),
            remote_index: Some(remote_index),
            ..d
        },
        LinkTradePollResult::PeerSelectedMon(idx) => DriverModel { remote_index: Some(idx), ..d },
        LinkTradePollResult::TradeExecute { local_index, remote_index, received_pokemon } => DriverModel {
            local_index: Some(local_index),
            remote_index: Some(remote_index),
            received_mon: Some(received_pokemon),
            ..d
        },
        LinkTradePollResult::PeerCancelled => cleared_trade(d),
        LinkTradePollResult::Disconnected => cleared_trade(d),
        _ => d,
    }
}

/// The driver's model after `reset_for_new_trade`: the pending exchange is
/// forgotten and the manager is reset.
pub open spec fn driver_reset_model(d: DriverModel) -> DriverModel {
    cleared_trade(DriverModel { manager: reset_model(d.manager), ..d })
}

/// The model of a driver fresh from `new` with `party` and `player_id`, with
/// the clock role `role`.
pub open spec fn fresh_driver(party: Seq<Pokemon>, player_id: u16, role: Option<LinkRole>) -> DriverModel {
    DriverModel {
        manager: ManagerModel {
            state: LinkTradeState::Idle,
            local_selection: None,
            remote_selection: None,
            local_confirmed: false,
            remote_confirmed: false,
            role,
        },
        party,
        player_id,
        local_index: None,
        remote_index: None,
        given_mon: None,
        received_mon: None,
        received_index: None,
    }
}

/// A driver operation that hands `msg` to the transport: the message is sent
/// once, the result is the send's outcome as the driver reports it, and the
/// model becomes `next` only if the send succeeded.
pub open spec fn driver_sent_step<T: NetworkTransport<NetworkMessage>>(
    d: DriverModel,
    d2: DriverModel,
    next: DriverModel,
    msg: NetworkMessage,
    r: Result<(), LinkTradeError>,
    t: T,
    t2: T,
) -> bool {
    &&& sent_once(t, t2, msg, t2.send_results().last())
    &&& r == lift(t2.send_results().last())
    &&& d2 == if r is Ok { next } else { d }
}

/// A driver refusal before anything is sent: `WrongState(text)`, nothing
/// handed to the transport, the model unchanged.
pub open spec fn driver_refused<T: NetworkTransport<NetworkMessage>>(
    d: DriverModel,
    d2: DriverModel,
    r: Result<(), LinkTradeError>,
    text: Seq<char>,
    t: T,
    t2: T,
) -> bool {
    &&& r matches Err(LinkTradeError::WrongState(s)) && s@ == text
    &&& sends_unchanged(t, t2)
    &&& d2 == d
}

/// Game-level link trade driver: owns the local party and player ID on top
/// of the [`LinkTradeManager`] protocol and applies the Gen 1 trade rules:
/// any party member may be traded (fainted, HM holders, the last one); the
/// received mon keeps all its data; the given mon is removed before the
/// received one is added; the received species is flagged seen and owned;
/// its traded flag is recomputed against the local player ID; a trade
/// evolution is detected (forced) but left to the frontend to apply.
#[derive(Debug)]
pub struct LinkTradeDriver {
    manager: LinkTradeManager,
    party: crate::pokemon::Party,
    player_id: u16,
    local_index: Option<u8>,
    remote_index: Option<u8>,
    given_mon: Option<Pokemon>,
    received_mon: Option<Pokemon>,
    received_index: Option<usize>,
}

impl View for LinkTradeDriver {
    type V = DriverModel;

    closed spec fn view(&self) -> DriverModel {
        DriverModel {
            manager: self.manager@,
            party: self.party@,
            player_id: self.player_id,
            local_index: self.local_index,
            remote_index: self.remote_index,
            given_mon: self.given_mon,
            received_mon: self.received_mon,
            received_index: self.received_index,
        }
    }
}

impl LinkTradeDriver {
    /// `party` is a copy of the save's party; `player_id` the local trainer
    /// ID, which decides the received mon's traded flag.
    pub fn new(party: crate::pokemon::Party, player_id: u16) -> (d: LinkTradeDriver)
        ensures
            d@ == fresh_driver(party@, player_id, None),
            confirmations_agree(d@.manager),
            d@ == (DriverModel {
                manager: ManagerModel {
                    state: LinkTradeState::Idle,
                    local_selection: None,
                    remote_selection: None,
                    local_confirmed: false,
                    remote_confirmed: false,
                    role: None,
                },
                party: party@,
                player_id,
                local_index: None,
                remote_index: None,
                given_mon: None,
                received_mon: None,
                received_index: None,
            }),
    {
        LinkTradeDriver {
            manager: LinkTradeManager::new(),
            party,
            player_id,
            local_index: None,
            remote_index: None,
            given_mon: None,
            received_mon: None,
            received_index: None,
        }
    }

    /// Set the clock role that breaks a simultaneous-request tie.
    pub fn with_role(self, role: LinkRole) -> (d: LinkTradeDriver)
        ensures
            d@ == (DriverModel { manager: ManagerModel { role: Some(role), ..self@.manager }, ..self@ }),
            confirmations_agree(self@.manager) ==> confirmations_agree(d@.manager),
    {
        let mut d = self;
        d.manager.set_role(role);
        d
    }

    /// Replace the working party with a fresh copy of the save's party.
    pub fn set_party(&mut self, party: crate::pokemon::Party)
        ensures
            final(self)@ == (DriverModel { party: party@, ..old(self)@ }),
    {
        self.party = party;
    }

    pub fn state(&self) -> (s: &LinkTradeState)
        ensures
            *s == self@.manager.state,
    {
        self.manager.state()
    }

    pub fn is_completed(&self) -> (r: bool)
        ensures
            r == is_terminal(self@.manager.state),
    {
        self.manager.is_completed()
    }

    /// The working party (with the exchange applied once `apply_exchange`
    /// ran).
    pub fn party(&self) -> (p: &crate::pokemon::Party)
        ensures
            p@ == self@.party,
    {
        &self.party
    }

    /// Consume the driver, returning the party for save write-back.
    pub fn into_party(self) -> (p: crate::pokemon::Party)
        ensures
            p@ == self@.party,
    {
        self.party
    }

    /// The local mon sent at confirmation.
    pub fn given_mon(&self) -> (r: Option<&Pokemon>)
        ensures
            r == match self@.given_mon { Some(p) => Some(&p), None => None::<&Pokemon> },
    {
        self.given_mon.as_ref()
    }

    /// The mon received from the peer: the wire copy before
    /// `apply_exchange`, the party member at the received slot afterwards.
    pub fn received_mon(&self) -> (r: Option<&Pokemon>)
        ensures
            self@.received_mon matches Some(p) ==> r == Some(&p),
            self@.received_mon is None ==> r == match self@.received_index {
                Some(i) => if i < self@.party.len() { Some(&self@.party[i as int]) } else { None::<&Pokemon> },
                None => None::<&Pokemon>,
            },
    {
        match &self.received_mon {
            Some(p) => Some(p),
            None => match self.received_index {
                Some(i) => self.party.get(i),
                None => None,
            },
        }
    }

    /// The party index selected locally, if any.
    pub fn local_index(&self) -> (r: Option<u8>)
        ensures
            r == self@.local_index,
    {
        self.local_index
    }

    /// The party index the peer selected, if known.
    pub fn remote_index(&self) -> (r: Option<u8>)
        ensures
            r == self@.remote_index,
    {
        self.remote_index
    }

    /// Ask the peer to trade (see [`LinkTradeManager::request_trade`]).
    pub fn request_trade<T: NetworkTransport<NetworkMessage>>(&mut self, transport: &mut T) -> (r: Result<(), LinkTradeError>)
        ensures
            old(self)@.manager.state is Idle ==> driver_sent_step(
                old(self)@,
                final(self)@,
                DriverModel { manager: with_state(old(self)@.manager, LinkTradeState::WaitingForTradeResponse), ..old(self)@ },
                NetworkMessage::RequestTrade,
                r,
                *old(transport),
                *final(transport),
            ),
            !(old(self)@.manager.state is Idle) ==> driver_refused(
                old(self)@,
                final(self)@,
                r,
                "cannot request trade: not idle"@,
                *old(transport),
                *final(transport),
            ),
            final(transport).polled() == old(transport).polled(),
            confirmations_agree(old(self)@.manager) ==> confirmations_agree(final(self)@.manager),
    {
        match self.manager.request_trade(transport) {
            Ok(()) => Ok(()),
            Err(e) => Err(LinkTradeError::from(e)),
        }
    }

    /// Accept the peer's pending request.
    pub fn accept_trade<T: NetworkTransport<NetworkMessage>>(&mut self, transport: &mut T) -> (r: Result<(), LinkTradeError>)
        ensures
            old(self)@.manager.state is PeerRequestedTrade ==> driver_sent_step(
                old(self)@,
                final(self)@,
                DriverModel { manager: with_state(old(self)@.manager, LinkTradeState::SelectingMon), ..old(self)@ },
                NetworkMessage::AcceptTrade,
                r,
                *old(transport),
                *final(transport),
            ),
            !(old(self)@.manager.state is PeerRequestedTrade) ==> driver_refused(
                old(self)@,
                final(self)@,
                r,
                "no pending trade request"@,
                *old(transport),
                *final(transport),
            ),
            final(transport).polled() == old(transport).polled(),
            confirmations_agree(old(self)@.manager) ==> confirmations_agree(final(self)@.manager),
    {
        match self.manager.accept_trade(transport) {
            Ok(()) => Ok(()),
            Err(e) => Err(LinkTradeError::from(e)),
        }
    }

    /// Decline the peer's pending request.
    pub fn decline_trade<T: NetworkTransport<NetworkMessage>>(&mut self, transport: &mut T) -> (r: Result<(), LinkTradeError>)
        ensures
            old(self)@.manager.state is PeerRequestedTrade ==> driver_sent_step(
                old(self)@,
                final(self)@,
                DriverModel { manager: with_state(old(self)@.manager, LinkTradeState::Idle), ..old(self)@ },
                NetworkMessage::DeclineTrade,
                r,
                *old(transport),
                *final(transport),
            ),
            !(old(self)@.manager.state is PeerRequestedTrade) ==> driver_refused(
                old(self)@,
                final(self)@,
                r,
                "no pending trade request"@,
                *old(transport),
                *final(transport),
            ),
            final(transport).polled() == old(transport).polled(),
            confirmations_agree(old(self)@.manager) ==> confirmations_agree(final(self)@.manager),
    {
        match self.manager.decline_trade(transport) {
            Ok(()) => Ok(()),
            Err(e) => Err(LinkTradeError::from(e)),
        }
    }

    /// Select the party mon to trade. Any member is legal; only the index is
    /// bounds-checked (nothing is sent for an index outside the party).
    pub fn select_mon<T: NetworkTransport<NetworkMessage>>(&mut self, transport: &mut T, party_index: u8) -> (r: Result<(), LinkTradeError>)
        ensures
            party_index >= old(self)@.party.len() ==> r == Err::<(), LinkTradeError>(LinkTradeError::InvalidIndex(party_index))
                && sends_unchanged(*old(transport), *final(transport)) && final(self)@ == old(self)@,
            party_index < old(self)@.party.len() && is_selecting(old(self)@.manager.state) ==> driver_sent_step(
                old(self)@,
                final(self)@,
                DriverModel {
                    manager: selected_model(old(self)@.manager, party_index),
                    local_index: Some(party_index),
                    ..old(self)@
                },
                NetworkMessage::SelectMon(party_index),
                r,
                *old(transport),
                *final(transport),
            ),
            party_index < old(self)@.party.len() && !is_selecting(old(self)@.manager.state) ==> driver_refused(
                old(self)@,
                final(self)@,
                r,
                "not in selection state"@,
                *old(transport),
                *final(transport),
            ),
            final(transport).polled() == old(transport).polled(),
            confirmations_agree(old(self)@.manager) ==> confirmations_agree(final(self)@.manager),
    {
        if party_index as usize >= self.party.count() {
            return Err(LinkTradeError::InvalidIndex(party_index));
        }
        match self.manager.select_mon(transport, party_index) {
            Ok(()) => {},
            Err(e) => {
                return Err(LinkTradeError::from(e));
            },
        }
        self.local_index = Some(party_index);
        Ok(())
    }

    /// Confirm the trade: the selected party mon's full data goes over the
    /// wire, and it is remembered as the given mon.
    pub fn confirm_trade<T: NetworkTransport<NetworkMessage>>(&mut self, transport: &mut T) -> (r: Result<(), LinkTradeError>)
        ensures
            old(self)@.local_index is None ==> driver_refused(
                old(self)@,
                final(self)@,
                r,
                "no mon selected"@,
                *old(transport),
                *final(transport),
            ),
            old(self)@.local_index matches Some(i) ==> i >= old(self)@.party.len() ==> r == Err::<(), LinkTradeError>(
                LinkTradeError::InvalidIndex(i),
            ) && sends_unchanged(*old(transport), *final(transport)) && final(self)@ == old(self)@,
            old(self)@.local_index matches Some(i) ==> i < old(self)@.party.len() && !can_confirm(old(self)@.manager.state)
                ==> driver_refused(
                old(self)@,
                final(self)@,
                r,
                "not in confirm state"@,
                *old(transport),
                *final(transport),
            ),
            old(self)@.local_index matches Some(i) ==> i < old(self)@.party.len() && can_confirm(old(self)@.manager.state)
                ==> ({
                let mon = old(self)@.party[i as int];
                &&& confirm_sends(mon, final(transport).send_results().last(), *old(transport), *final(transport))
                &&& r == lift(final(transport).send_results().last())
                &&& final(self)@ == if r is Ok {
                    DriverModel { manager: confirmed_model(old(self)@.manager), given_mon: Some(mon), ..old(self)@ }
                } else {
                    old(self)@
                }
            }),
            final(transport).polled() == old(transport).polled(),
            confirmations_agree(old(self)@.manager) ==> confirmations_agree(final(self)@.manager),
    {
        let idx = match self.local_index {
            Some(i) => i,
            None => {
                return Err(LinkTradeError::WrongState(String::from_str("no mon selected")));
            },
        };
        let mon = match self.party.get(idx as usize) {
            Some(m) => m.duplicate(),
            None => {
                return Err(LinkTradeError::InvalidIndex(idx));
            },
        };
        match self.manager.confirm_trade(transport, mon.duplicate()) {
            Ok(()) => {},
            Err(e) => {
                return Err(LinkTradeError::from(e));
            },
        }
        self.given_mon = Some(mon);
        Ok(())
    }

    /// Cancel: both sides return to selection and the pending exchange is
    /// forgotten; the party is untouched.
    pub fn cancel_trade<T: NetworkTransport<NetworkMessage>>(&mut self, transport: &mut T) -> (r: Result<(), LinkTradeError>)
        ensures
            driver_sent_step(
                old(self)@,
                final(self)@,
                cleared_trade(DriverModel {
                    manager: with_state(cleared(old(self)@.manager), LinkTradeState::SelectingMon),
                    ..old(self)@
                }),
                NetworkMessage::CancelTrade,
                r,
                *old(transport),
                *final(transport),
            ),
            final(transport).polled() == old(transport).polled(),
            confirmations_agree(old(self)@.manager) ==> confirmations_agree(final(self)@.manager),
    {
        match self.manager.cancel_trade(transport) {
            Ok(()) => {},
            Err(e) => {
                return Err(LinkTradeError::from(e));
            },
        }
        self.clear_pending_trade();
        Ok(())
    }

    /// Poll the protocol without blocking and record what the result says
    /// (selections, the received mon; a peer cancel or a disconnect voids the
    /// pending exchange).
    pub fn poll<T: NetworkTransport<NetworkMessage>>(&mut self, transport: &mut T) -> (r: LinkTradePollResult)
        ensures
            final(self)@ == observed(DriverModel { manager: final(self)@.manager, ..old(self)@ }, r),
            final(transport).polled() == old(transport).polled().push(final(transport).polled().last()),
            answered(
                old(self)@.manager,
                final(self)@.manager,
                final(transport).polled().last(),
                r,
                *old(transport),
                *final(transport),
            ),
            confirmations_agree(old(self)@.manager) ==> confirmations_agree(final(self)@.manager),
    {
        let result = self.manager.poll(transport);
        self.observe(&result);
        result
    }

    /// Like [`Self::poll`], but blocks until a message or a failure arrives.
    pub fn poll_blocking<T: NetworkTransport<NetworkMessage>>(&mut self, transport: &mut T) -> (r: LinkTradePollResult)
        ensures
            final(self)@ == observed(DriverModel { manager: final(self)@.manager, ..old(self)@ }, r),
            final(transport).polled() == old(transport).polled().push(final(transport).polled().last()),
            !(final(transport).polled().last() matches Ok(None)),
            answered(
                old(self)@.manager,
                final(self)@.manager,
                final(transport).polled().last(),
                r,
                *old(transport),
                *final(transport),
            ),
            confirmations_agree(old(self)@.manager) ==> confirmations_agree(final(self)@.manager),
    {
        let result = self.manager.poll_blocking(transport);
        self.observe(&result);
        result
    }

    fn observe(&mut self, result: &LinkTradePollResult)
        ensures
            final(self)@ == observed(old(self)@, *result),
    {
        match result {
            LinkTradePollResult::BothSelected { local_index, remote_index } => {
                self.local_index = Some(*local_index);
                self.remote_index = Some(*remote_index);
            },
            LinkTradePollResult::PeerSelectedMon(idx) => {
                self.remote_index = Some(*idx);
            },
            LinkTradePollResult::TradeExecute { local_index, remote_index, received_pokemon } => {
                self.local_index = Some(*local_index);
                self.remote_index = Some(*remote_index);
                self.received_mon = Some(received_pokemon.duplicate());
            },
            LinkTradePollResult::PeerCancelled | LinkTradePollResult::Disconnected => {
                self.clear_pending_trade();
            },
            _ => {},
        }
    }

    fn clear_pending_trade(&mut self)
        ensures
            final(self)@ == cleared_trade(old(self)@),
    {
        self.local_index = None;
        self.remote_index = None;
        self.given_mon = None;
        self.received_mon = None;
        self.received_index = None;
    }

    /// The received mon after `apply_exchange` (exchange applied); before it,
    /// the wire copy, where a pending evolution will land.
    pub fn received_mon_mut(&mut self) -> (r: Option<&mut Pokemon>)
        ensures
            old(self)@.received_index is Some && old(self)@.received_index->0 < old(self)@.party.len() ==> (r matches Some(p)
                && *p == old(self)@.party[old(self)@.received_index->0 as int]
                && final(self)@ == (DriverModel { party: old(self)@.party.update(old(self)@.received_index->0 as int, *final(p)), ..old(self)@ })),
            old(self)@.received_index is Some && old(self)@.received_index->0 >= old(self)@.party.len() ==> (r is None && final(self)@ == old(self)@),
            old(self)@.received_index is None ==> match old(self)@.received_mon {
                Some(m) => r matches Some(p) && *p == m
                    && final(self)@ == (DriverModel { received_mon: Some(*final(p)), ..old(self)@ }),
                None => r is None && final(self)@ == old(self)@,
            },
    {
        if let Some(i) = self.received_index {
            return self.party.get_mut(i);
        }
        self.received_mon.as_mut()
    }

    /// Apply the completed exchange: the given mon leaves the party first,
    /// then the received one is appended with its traded flag recomputed
    /// against the local player ID; its species is flagged owned and seen,
    /// and a trade evolution of it is returned as a forced pending evolution.
    /// A second call before a new `TradeExecute` fails with `NoExchange`.
    pub fn apply_exchange(&mut self, pokedex: &mut crate::pokemon::Pokedex) -> (r: Result<Option<crate::pokemon::PendingEvolution>, LinkTradeError>)
        requires
            old(pokedex).wf(),
        ensures
            final(pokedex).wf(),
            old(self)@.received_mon is None ==> r == Err::<Option<crate::pokemon::PendingEvolution>, LinkTradeError>(LinkTradeError::NoExchange)
                && final(self)@ == old(self)@ && *final(pokedex) == *old(pokedex),
            old(self)@.received_mon is Some && old(self)@.local_index is None ==> r == Err::<Option<crate::pokemon::PendingEvolution>, LinkTradeError>(LinkTradeError::NoExchange)
                && final(self)@ == (DriverModel { received_mon: None, ..old(self)@ }) && *final(pokedex) == *old(pokedex),
            old(self)@.received_mon is Some && old(self)@.local_index is Some && old(self)@.local_index->0 >= old(self)@.party.len()
                ==> r == Err::<Option<crate::pokemon::PendingEvolution>, LinkTradeError>(LinkTradeError::PartyRemove)
                && final(self)@ == (DriverModel { received_mon: None, ..old(self)@ }) && *final(pokedex) == *old(pokedex),
            old(self)@.received_mon is Some && old(self)@.local_index is Some && old(self)@.local_index->0 < old(self)@.party.len() ==> ({
                let i = old(self)@.local_index->0;
                let given = old(self)@.party[i as int];
                let remaining = old(self)@.party.remove(i as int);
                let m = old(self)@.received_mon->0;
                let received = Pokemon { is_traded: crate::pokemon::spec_is_traded_for(m.ot_id, old(self)@.player_id), ..m };
                if remaining.len() >= crate::pokemon::PARTY_LENGTH {
                    &&& r == Err::<Option<crate::pokemon::PendingEvolution>, LinkTradeError>(LinkTradeError::PartyFull)
                    &&& final(self)@ == (DriverModel { received_mon: None, given_mon: Some(given), party: remaining, ..old(self)@ })
                    &&& *final(pokedex) == *old(pokedex)
                } else {
                    &&& final(self)@ == (DriverModel {
                        received_mon: None,
                        given_mon: Some(given),
                        party: remaining.push(received),
                        received_index: Some(remaining.len() as usize),
                        local_index: None,
                        remote_index: None,
                        ..old(self)@
                    })
                    &&& final(pokedex).owned_set() == if 1 <= m.species <= crate::pokemon::NUM_SPECIES {
                        old(pokedex).owned_set().insert(m.species) } else { old(pokedex).owned_set() }
                    &&& final(pokedex).seen_set() == if 1 <= m.species <= crate::pokemon::NUM_SPECIES {
                        old(pokedex).seen_set().insert(m.species) } else { old(pokedex).seen_set() }
                    &&& r matches Ok(pending) && match crate::pokemon::spec_trade_evolution(m.species) {
                        Some(to) => pending matches Some(p) && p.party_index == remaining.len() && p.from == m.species
                            && p.to == to && p.name@ == crate::pokemon::spec_display_name(received) && p.force,
                        None => pending is None,
                    }
                }
            }),
    {
        let received = match self.received_mon.take() {
            Some(m) => m,
            None => {
                return Err(LinkTradeError::NoExchange);
            },
        };
        let local_index = match self.local_index {
            Some(i) => i as usize,
            None => {
                return Err(LinkTradeError::NoExchange);
            },
        };
        let given = match self.party.remove_for_trade(local_index) {
            Ok(g) => g,
            Err(_) => {
                return Err(LinkTradeError::PartyRemove);
            },
        };
        self.given_mon = Some(given);
        let mut received = received;
        received.is_traded = crate::pokemon::is_traded_for(received.ot_id, self.player_id);
        let species = received.species;
        let index = match self.party.add(received) {
            Ok(i) => i,
            Err(_) => {
                return Err(LinkTradeError::PartyFull);
            },
        };
        self.received_index = Some(index);
        pokedex.set_owned(species);
        pokedex.set_seen(species);
        let pending = match self.party.get(index) {
            Some(mon) => match crate::pokemon::check_trade_evolution(mon.species, mon.level) {
                Some(to) => Some(crate::pokemon::PendingEvolution {
                    party_index: index,
                    from: mon.species,
                    to,
                    name: mon.display_name(),
                    force: true,
                }),
                None => None,
            },
            None => None,
        };
        self.local_index = None;
        self.remote_index = None;
        Ok(pending)
    }

    /// Forget any unapplied exchange and return a finished trade to idle.
    pub fn reset_for_new_trade(&mut self)
        ensures
            final(self)@ == driver_reset_model(old(self)@),
            confirmations_agree(old(self)@.manager) && !(old(self)@.manager.state is WaitingForPeerConfirm
                || old(self)@.manager.state is PeerConfirmedWaitingLocal || old(self)@.manager.state is Trading)
                ==> confirmations_agree(final(self)@.manager),
    {
        self.manager.reset_for_new_trade();
        self.clear_pending_trade();
    }
}

} // verus!

verus! {

/// A disconnect from the peer aborts the trade in every state.
pub proof fn lemma_disconnect_always_aborts(m: ManagerModel)
    ensures
        trade_step(m, NetworkMessage::Disconnect) == Some(
            (with_state(m, LinkTradeState::Cancelled), LinkTradePollResult::Disconnected),
        ),
{
}

/// A cancel from the peer, in every state, returns to selection with every
/// selection and confirmation forgotten.
pub proof fn lemma_peer_cancel_returns_to_selection(m: ManagerModel)
    ensures
        trade_step(m, NetworkMessage::CancelTrade) == Some(
            (with_state(cleared(m), LinkTradeState::SelectingMon), LinkTradePollResult::PeerCancelled),
        ),
{
}

/// The peer's mon is only accepted while trading, and it is handed over
/// exactly as received, with the indices both sides agreed on.
pub proof fn lemma_trade_executes_only_while_trading(m: ManagerModel, p: Pokemon)
    ensures
        trade_step(m, NetworkMessage::TradeComplete(p)) is Some <==> m.state is Trading,
        m.state matches LinkTradeState::Trading { local_index, remote_index } ==> trade_step(
            m,
            NetworkMessage::TradeComplete(p),
        ) == Some(
            (
                with_state(m, LinkTradeState::Completed),
                LinkTradePollResult::TradeExecute { local_index, remote_index, received_pokemon: p },
            ),
        ),
{
}

/// Trading is entered from another state only on the peer's confirmation,
/// which is then recorded.
pub proof fn lemma_trading_entered_on_peer_confirmation(m: ManagerModel, msg: NetworkMessage)
    requires
        !(m.state is Trading),
        trade_step(m, msg) matches Some((m2, _)) && m2.state is Trading,
    ensures
        msg is ConfirmTrade,
        trade_step(m, msg) matches Some((m2, r)) && m2.remote_confirmed && r is PeerConfirmed,
{
}

/// A received mon is recorded only from the peer's executed trade, and then
/// exactly as it came: any other poll result leaves a driver without one as
/// it was.
pub proof fn lemma_only_execution_delivers_a_mon(d: DriverModel, r: LinkTradePollResult)
    ensures
        d.received_mon is None && !(r is TradeExecute) ==> observed(d, r).received_mon is None,
        r matches LinkTradePollResult::TradeExecute { received_pokemon, .. } ==> observed(d, r).received_mon
            == Some(received_pokemon),
{
}

/// Whatever the protocol reports, the driver's party and player ID change
/// only in `apply_exchange`: recording a poll result never touches them,
/// and a peer cancel or a disconnect also forgets the pending exchange.
pub proof fn lemma_polls_keep_the_party(d: DriverModel, r: LinkTradePollResult)
    ensures
        observed(d, r).party == d.party,
        observed(d, r).player_id == d.player_id,
        (r is PeerCancelled || r is Disconnected) ==> observed(d, r).received_mon is None
            && observed(d, r).given_mon is None && observed(d, r).local_index is None,
{
}

} // verus!

verus! {

/// Every step of the protocol keeps the confirmation flags in agreement
/// with the state: each local operation from its accepting state, each
/// message from the peer, a transport failure, setting the role, and a
/// reset except one in the middle of confirming or trading (which clears
/// the flags and keeps the state, as the reset does).
pub proof fn lemma_steps_keep_confirmations(m: ManagerModel, msg: NetworkMessage, party_index: u8)
    requires
        confirmations_agree(m),
    ensures
        m.state is Idle ==> confirmations_agree(with_state(m, LinkTradeState::WaitingForTradeResponse)),
        m.state is PeerRequestedTrade ==> confirmations_agree(with_state(m, LinkTradeState::SelectingMon))
            && confirmations_agree(with_state(m, LinkTradeState::Idle)),
        is_selecting(m.state) ==> confirmations_agree(selected_model(m, party_index)),
        can_confirm(m.state) ==> confirmations_agree(confirmed_model(m)),
        confirmations_agree(with_state(cleared(m), LinkTradeState::SelectingMon)),
        trade_step(m, msg) matches Some((m2, _)) ==> confirmations_agree(m2),
        confirmations_agree(with_state(m, LinkTradeState::Cancelled)),
        forall|e: String| #[trigger] confirmations_agree(with_state(m, LinkTradeState::Error(e))),
        forall|role: LinkRole| #[trigger] confirmations_agree(ManagerModel { role: Some(role), ..m }),
        !(m.state is WaitingForPeerConfirm || m.state is PeerConfirmedWaitingLocal || m.state is Trading)
            ==> confirmations_agree(reset_model(m)),
{
}

} // verus!

verus! {

/// After a finished trade (completed, or cancelled by a disconnect), a reset
/// leaves the driver exactly as a fresh one with the same party, player ID
/// and clock role: so a whole new trade runs as the first one did.
pub proof fn lemma_reset_starts_afresh(d: DriverModel)
    requires
        d.manager.state is Completed || d.manager.state is Cancelled,
    ensures
        driver_reset_model(d) == fresh_driver(d.party, d.player_id, d.manager.role),
        confirmations_agree(driver_reset_model(d).manager),
{
}

} // verus!
