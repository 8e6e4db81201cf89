//! The leader's agent for one external participant: it sends the prepare
//! request, then tracks the participant's vote until the leader asks for it.

use vstd::prelude::*;

use crate::commons::{ExternalMsg, Transaction};

verus! {

/// Where a participant's vote stands.
#[derive(Debug, Clone, Copy, PartialEq, Eq)]
pub enum TransactionStatus {
    Waiting,
    Nack,
    Ack,
}

/// The agent's state. Its socket and reader thread are held by the caller.
pub struct Transmiter {
    status: TransactionStatus,
}

/// What a line read from the participant means to the agent.
#[derive(Debug, Clone, Copy, PartialEq, Eq)]
pub enum ReplyEvent {
    /// The participant accepted.
    Ack,
    /// The participant refused.
    Nack,
    /// The participant ended the conversation: stop reading.
    Stop,
    /// Nothing for the agent (a prepare request echoed back).
    Ignore,
}

/// The leader's question "what did the participant answer?": the vote once
/// known, `None` while it is still awaited.
pub open spec fn vote(status: TransactionStatus) -> Option<bool> {
    match status {
        TransactionStatus::Nack => Some(false),
        TransactionStatus::Ack => Some(true),
        TransactionStatus::Waiting => None,
    }
}

impl View for Transmiter {
    type V = TransactionStatus;

    closed spec fn view(&self) -> TransactionStatus {
        self.status
    }
}

impl Transmiter {
    /// An agent that has not heard from its participant yet.
    pub fn new() -> (t: Transmiter)
        ensures
            t@ == TransactionStatus::Waiting,
    {
        Transmiter { status: TransactionStatus::Waiting }
    }

    /// The request sent to the participant for `transaction`.
    pub fn prepare(&self, transaction: Transaction) -> (m: ExternalMsg)
        ensures
            m == (ExternalMsg::Prepare { transaction }),
    {
        ExternalMsg::Prepare { transaction }
    }

    /// The participant accepted.
    pub fn ack(&mut self)
        ensures
            final(self)@ == TransactionStatus::Ack,
    {
        self.status = TransactionStatus::Ack;
    }

    /// The participant refused.
    pub fn nack(&mut self)
        ensures
            final(self)@ == TransactionStatus::Nack,
    {
        self.status = TransactionStatus::Nack;
    }

    /// The participant's vote, or `None`: not answered yet, ask again later.
    pub fn prepare_response(&self) -> (r: Option<bool>)
        ensures
            r == vote(self@),
    {
        match self.status {
            TransactionStatus::Nack => Some(false),
            TransactionStatus::Ack => Some(true),
            TransactionStatus::Waiting => None,
        }
    }

    /// The message that ends the conversation with the participant.
    pub fn stop_message(&self) -> (m: ExternalMsg)
        ensures
            m == ExternalMsg::Stop,
    {
        ExternalMsg::Stop
    }
}

/// What a message from the participant means to the agent.
pub fn reply_event(msg: &ExternalMsg) -> (e: ReplyEvent)
    ensures
        e == match msg {
            ExternalMsg::ACK { .. } => ReplyEvent::Ack,
            ExternalMsg::NACK { .. } => ReplyEvent::Nack,
            ExternalMsg::Stop => ReplyEvent::Stop,
            ExternalMsg::Prepare { .. } => ReplyEvent::Ignore,
        },
{
    match msg {
        ExternalMsg::ACK { .. } => ReplyEvent::Ack,
        ExternalMsg::NACK { .. } => ReplyEvent::Nack,
        ExternalMsg::Stop => ReplyEvent::Stop,
        ExternalMsg::Prepare { .. } => ReplyEvent::Ignore,
    }
}

/// The status after an event: an acceptance or refusal replaces it, other
/// events leave it.
pub open spec fn after(status: TransactionStatus, e: ReplyEvent) -> TransactionStatus {
    match e {
        ReplyEvent::Ack => TransactionStatus::Ack,
        ReplyEvent::Nack => TransactionStatus::Nack,
        _ => status,
    }
}

/// The leader's answer is the participant's last vote: `ACK` reads as yes,
/// `NACK` as no, and before any vote the leader must wait.
pub proof fn law_answer_is_last_vote(status: TransactionStatus)
    ensures
        vote(TransactionStatus::Waiting) is None,
        vote(after(status, ReplyEvent::Ack)) == Some(true),
        vote(after(status, ReplyEvent::Nack)) == Some(false),
        vote(after(status, ReplyEvent::Stop)) == vote(status),
        vote(after(status, ReplyEvent::Ignore)) == vote(status),
{
}

} // verus!
