//! Cable Club link play: the connection state, the opponent's avatar
//! placement, the wire protocol and the two-sided trade driver.

pub mod link_trade;
pub mod protocol;
pub mod transport;

use vstd::prelude::*;

use crate::direction::Direction;

verus! {

/// Which side of the link connection the local player is: the host clocks
/// the connection (internal clock) and wins simultaneous-request ties; the
/// guest uses the external clock.
#[derive(Debug, Clone, Copy, PartialEq, Eq, Structural)]
pub enum LinkRole {
    Host,
    Guest,
}

/// Overworld placement of the remote player's avatar in the Cable Club
/// rooms, in map blocks: the two ends of the room's table, facing each other.
#[derive(Debug, Clone, Copy, PartialEq, Eq, Structural)]
pub struct LinkOpponentPresence {
    pub x: u16,
    pub y: u16,
    pub facing: Direction,
}

impl LinkOpponentPresence {
    /// The host sees the opponent at the right end (3,2) facing left; the
    /// guest at the left end (1,2) facing right.
    pub fn for_role(role: LinkRole) -> (p: LinkOpponentPresence)
        ensures
            role is Host ==> p == (LinkOpponentPresence { x: 3, y: 2, facing: Direction::Left }),
            role is Guest ==> p == (LinkOpponentPresence { x: 1, y: 2, facing: Direction::Right }),
    {
        match role {
            LinkRole::Host => LinkOpponentPresence { x: 3, y: 2, facing: Direction::Left },
            LinkRole::Guest => LinkOpponentPresence { x: 1, y: 2, facing: Direction::Right },
        }
    }
}

/// Entry block for a player warping into a Cable Club room: the passable
/// bottom-center floor block, for both roles.
pub const CABLE_ROOM_ENTRY: (u16, u16) = (2, 3);

/// The link session's coarse state.
#[derive(Debug, Clone, Copy, PartialEq, Eq, Structural)]
pub enum LinkState {
    /// No link session.
    Offline,
    InCableClub,
    StartTrade,
    StartBattle,
    Battling,
    Trading,
}

impl LinkState {
    pub fn is_connected(&self) -> (r: bool)
        ensures
            r == !(*self is Offline),
    {
        !matches!(self, LinkState::Offline)
    }

    pub fn is_battling(&self) -> (r: bool)
        ensures
            r == (*self is Battling),
    {
        matches!(self, LinkState::Battling)
    }

    pub fn is_trading(&self) -> (r: bool)
        ensures
            r == (*self is Trading),
    {
        matches!(self, LinkState::Trading)
    }
}

} // verus!
