//! How the compact replica's participant actors read an answer.

use vstd::prelude::*;

use crate::commons::commons::ExternalResponse;

verus! {

/// Whether a participant's answer accepts: the bank and airline actors
/// count an empty or unreadable answer (`None`) as a refusal.
pub fn reply_accepted(reply: Option<ExternalResponse>) -> (r: bool)
    ensures
        r == (reply == Some(ExternalResponse::ACK)),
{
    match reply {
        Some(ExternalResponse::ACK) => true,
        Some(ExternalResponse::NACK) => false,
        None => false,
    }
}

} // verus!
