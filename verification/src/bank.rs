//! The bank participant's answers to the leader.

use vstd::prelude::*;

use crate::commons::ExternalMsg;

verus! {

/// The bank's answer to a message from the leader: it accepts every
/// transaction it is asked to prepare, echoes the end of the conversation,
/// and answers nothing to votes.
pub fn bank_reply(msg: &ExternalMsg) -> (r: Option<ExternalMsg>)
    ensures
        r == match *msg {
            ExternalMsg::Prepare { transaction } => Some(ExternalMsg::ACK { id: transaction.id }),
            ExternalMsg::Stop => Some(ExternalMsg::Stop),
            _ => None,
        },
{
    match msg {
        ExternalMsg::Prepare { transaction } => Some(ExternalMsg::ACK { id: transaction.get_id() }),
        ExternalMsg::ACK { .. } => None,
        ExternalMsg::NACK { .. } => None,
        ExternalMsg::Stop => Some(ExternalMsg::Stop),
    }
}

} // verus!
