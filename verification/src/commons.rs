//! Messages exchanged between nodes and with the external participants.

pub mod commons;

use vstd::prelude::*;

verus! {

/// A payment request for the bank participant.
#[derive(Debug, Clone, Copy, PartialEq, Eq)]
pub struct BankPayment {
    pub id: u32,
    pub amount: u32,
}

/// A flight booking for the airline participant.
#[derive(Debug, Clone, Copy, PartialEq, Eq)]
pub struct FlightReservation {
    pub id: u32,
    pub amount: u32,
}

/// A room booking for the hotel participant.
#[derive(Debug, Clone, Copy, PartialEq, Eq)]
pub struct HotelReservation {
    pub id: u32,
    pub amount: u32,
}

/// One input transaction: its three parts must all succeed together.
#[derive(Debug, Clone, Copy, PartialEq, Eq)]
pub struct Transaction {
    pub id: u32,
    pub bank_payment: BankPayment,
    pub flight_reservation: FlightReservation,
    pub hotel_reservation: HotelReservation,
}

impl Transaction {
    /// The transaction's identifier.
    pub fn get_id(&self) -> (id: u32)
        ensures
            id == self.id,
    {
        self.id
    }
}

/// Messages between the leader and an external participant.
#[allow(non_camel_case_types, clippy::upper_case_acronyms)]
#[derive(Debug, PartialEq, Eq)]
pub enum ExternalMsg {
    /// The leader asks the participant to prepare its part of a transaction.
    Prepare { transaction: Transaction },
    /// The participant refuses the transaction with this id.
    NACK { id: u32 },
    /// The participant accepts the transaction with this id.
    ACK { id: u32 },
    /// End of the conversation.
    Stop,
}

/// Messages between the nodes of the group.
#[derive(Debug, PartialEq, Eq)]
pub enum DistMsg {
    /// A node introduces itself (and says whether it leads the group).
    Discover { id: u32, hostname: String, port: String, is_leader: bool },
    /// The leader announces a member of the group.
    NewReplic { id: u32, hostname: String, port: String },
    /// Bully election: the sender's identifier.
    Election { id: u32 },
    /// The sender has become the leader.
    NewLeader { id: u32 },
    /// The leader committed this transaction line.
    Commit { transaction: String },
    /// The leader rolled back this transaction line.
    Rollback { transaction: String },
    /// Liveness probe.
    Ping,
    /// Answer to a liveness probe.
    Pong,
    /// A node leaves the group; `shutdown` asks the receiver to stop reading.
    Shutdown { hostname: String, port: String, shutdown: bool },
}

/// What a `DistMsg` says, with its texts as character sequences.
pub enum DistMsgView {
    Discover { id: u32, hostname: Seq<char>, port: Seq<char>, is_leader: bool },
    NewReplic { id: u32, hostname: Seq<char>, port: Seq<char> },
    Election { id: u32 },
    NewLeader { id: u32 },
    Commit { transaction: Seq<char> },
    Rollback { transaction: Seq<char> },
    Ping,
    Pong,
    Shutdown { hostname: Seq<char>, port: Seq<char>, shutdown: bool },
}

impl View for DistMsg {
    type V = DistMsgView;

    open spec fn view(&self) -> DistMsgView {
        match self {
            DistMsg::Discover { id, hostname, port, is_leader } => DistMsgView::Discover {
                id: *id,
                hostname: hostname@,
                port: port@,
                is_leader: *is_leader,
            },
            DistMsg::NewReplic { id, hostname, port } => DistMsgView::NewReplic {
                id: *id,
                hostname: hostname@,
                port: port@,
            },
            DistMsg::Election { id } => DistMsgView::Election { id: *id },
            DistMsg::NewLeader { id } => DistMsgView::NewLeader { id: *id },
            DistMsg::Commit { transaction } => DistMsgView::Commit { transaction: transaction@ },
            DistMsg::Rollback { transaction } => DistMsgView::Rollback { transaction: transaction@ },
            DistMsg::Ping => DistMsgView::Ping,
            DistMsg::Pong => DistMsgView::Pong,
            DistMsg::Shutdown { hostname, port, shutdown } => DistMsgView::Shutdown {
                hostname: hostname@,
                port: port@,
                shutdown: *shutdown,
            },
        }
    }
}

/// The messages of an outbox, each with the index of the peer it goes to.
pub open spec fn outbox_view(o: Seq<(usize, DistMsg)>) -> Seq<(usize, DistMsgView)> {
    o.map_values(|e: (usize, DistMsg)| (e.0, e.1@))
}

impl DistMsg {
    /// A copy of the message with the same contents.
    pub fn duplicate(&self) -> (copy: DistMsg)
        ensures
            copy == *self,
    {
        match self {
            DistMsg::Discover { id, hostname, port, is_leader } => DistMsg::Discover {
                id: *id,
                hostname: hostname.clone(),
                port: port.clone(),
                is_leader: *is_leader,
            },
            DistMsg::NewReplic { id, hostname, port } => DistMsg::NewReplic {
                id: *id,
                hostname: hostname.clone(),
                port: port.clone(),
            },
            DistMsg::Election { id } => DistMsg::Election { id: *id },
            DistMsg::NewLeader { id } => DistMsg::NewLeader { id: *id },
            DistMsg::Commit { transaction } => DistMsg::Commit { transaction: transaction.clone() },
            DistMsg::Rollback { transaction } => DistMsg::Rollback {
                transaction: transaction.clone(),
            },
            DistMsg::Ping => DistMsg::Ping,
            DistMsg::Pong => DistMsg::Pong,
            DistMsg::Shutdown { hostname, port, shutdown } => DistMsg::Shutdown {
                hostname: hostname.clone(),
                port: port.clone(),
                shutdown: *shutdown,
            },
        }
    }
}

} // verus!
