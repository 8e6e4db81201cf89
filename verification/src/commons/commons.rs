//! The compact wire protocol: node messages without leadership claims or
//! shutdown notices, and the participants' bare yes/no answers. The compact
//! replica (`replic::replic`) and the airline service speak it.

use vstd::prelude::*;

verus! {

/// A participant's answer in the compact protocol.
#[allow(clippy::upper_case_acronyms)]
#[derive(Debug, Clone, Copy, PartialEq, Eq)]
pub enum ExternalResponse {
    NACK,
    ACK,
}

/// Messages between nodes in the compact protocol.
#[derive(Debug, PartialEq, Eq)]
pub enum DistMsg {
    Discover { id: u32, hostname: String, port: String },
    NewReplic { id: u32, hostname: String, port: String },
    Election { id: u32 },
    Leader { id: u32 },
    Commit { transaction: String },
    Rollback { transaction: String },
    Ping,
    Pong,
}

} // verus!
