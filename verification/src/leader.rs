//! What the leader decides: how it announces itself, where it resumes the
//! input after a failover, and what it broadcasts for each transaction.

pub mod main_loop;

use vstd::prelude::*;

use crate::commons::{DistMsg, DistMsgView};

verus! {

/// The leader of the group. Its links to the replicas and to the external
/// participants are held by the caller.
pub struct Leader {
    pub id: u32,
}

impl Leader {
    /// The leader with identifier `id`.
    pub fn new(id: u32) -> (l: Leader)
        ensures
            l.id == id,
    {
        Leader { id }
    }

    /// The message a new leader broadcasts to every replica.
    pub fn announcement(&self) -> (m: DistMsg)
        ensures
            m@ == (DistMsgView::NewLeader { id: self.id }),
    {
        DistMsg::NewLeader { id: self.id }
    }

    /// What the leader broadcasts once the participants have been asked to
    /// prepare `transaction`: it commits every transaction line it processes,
    /// whatever the participants answered.
    pub fn commit(&self, transaction: String) -> (m: DistMsg)
        ensures
            m@ == (DistMsgView::Commit { transaction: transaction@ }),
    {
        DistMsg::Commit { transaction }
    }

    /// The two-phase commit rule of the compact replica: a transaction is
    /// committed when every participant voted yes (`Some(true)`), rolled back
    /// when any refused or gave no usable answer.
    pub fn decide(&self, votes: &Vec<Option<bool>>) -> (commit: bool)
        ensures
            commit == all_accepted(votes@),
    {
        let mut all = true;
        let mut i: usize = 0;
        while i < votes.len()
            invariant
                i <= votes.len(),
                all == (forall|j: int| 0 <= j < i ==> #[trigger] votes@[j] == Some(true)),
            decreases votes.len() - i,
        {
            if !accepted(votes[i]) {
                all = false;
            }
            i = i + 1;
        }
        all
    }
}

/// Every participant voted yes.
pub open spec fn all_accepted(votes: Seq<Option<bool>>) -> bool {
    forall|i: int| 0 <= i < votes.len() ==> #[trigger] votes[i] == Some(true)
}

/// Whether one participant's vote is a yes: an answer that arrived and
/// accepts. A lost answer or a refusal counts as no.
pub fn accepted(vote: Option<bool>) -> (r: bool)
    ensures
        r == (vote == Some(true)),
{
    match vote {
        Some(v) => v,
        None => false,
    }
}

/// A single refusal, or a single missing answer, rolls the transaction back.
pub proof fn law_one_refusal_aborts(votes: Seq<Option<bool>>, i: int)
    requires
        0 <= i < votes.len(),
        votes[i] != Some(true),
    ensures
        !all_accepted(votes),
{
}

} // verus!
