//! How a node answers the messages that arrive from its peers.

use vstd::prelude::*;

use crate::commons::{DistMsg, DistMsgView};
use crate::connection::{Connection, ConnectionView};

verus! {

/// This node's identity: its identifier and the address it listens at.
pub struct Node {
    pub id: u32,
    pub hostname: String,
    pub port: String,
}

/// What to do with one message from a peer.
#[derive(Debug, PartialEq, Eq)]
pub enum Action {
    /// A replica introduced itself: open a link back to it, register it
    /// (`common::msg_discover`), then send `reply` on the incoming stream.
    Register { id: u32, hostname: String, port: String, reply: DistMsg },
    /// The leader announced a replica: open a link to it and add it
    /// (`common::msg_new_replic`).
    AddReplica { id: u32, hostname: String, port: String },
    /// Send this message back on the incoming stream.
    Reply(DistMsg),
    /// The peer `id` is the new leader: mark it (`common::mark_leader`) and
    /// wake the replica waiting for a leader.
    LeaderElected { id: u32 },
    /// Record the committed transaction line; the leader is alive.
    Commit { transaction: String },
    /// Record the rolled-back transaction line; the leader is alive.
    Rollback { transaction: String },
    /// The node at `hostname:port` leaves: tell its links to stop
    /// (`common::msg_shutdown`).
    ForwardShutdown { hostname: String, port: String },
    /// Stop reading the incoming stream.
    Close,
}

/// What an `Action` says, with texts as character sequences.
pub enum ActionView {
    Register { id: u32, hostname: Seq<char>, port: Seq<char>, reply: DistMsgView },
    AddReplica { id: u32, hostname: Seq<char>, port: Seq<char> },
    Reply(DistMsgView),
    LeaderElected { id: u32 },
    Commit { transaction: Seq<char> },
    Rollback { transaction: Seq<char> },
    ForwardShutdown { hostname: Seq<char>, port: Seq<char> },
    Close,
}

impl View for Action {
    type V = ActionView;

    open spec fn view(&self) -> ActionView {
        match self {
            Action::Register { id, hostname, port, reply } => ActionView::Register {
                id: *id,
                hostname: hostname@,
                port: port@,
                reply: reply@,
            },
            Action::AddReplica { id, hostname, port } => ActionView::AddReplica {
                id: *id,
                hostname: hostname@,
                port: port@,
            },
            Action::Reply(m) => ActionView::Reply(m@),
            Action::LeaderElected { id } => ActionView::LeaderElected { id: *id },
            Action::Commit { transaction } => ActionView::Commit { transaction: transaction@ },
            Action::Rollback { transaction } => ActionView::Rollback { transaction: transaction@ },
            Action::ForwardShutdown { hostname, port } => ActionView::ForwardShutdown {
                hostname: hostname@,
                port: port@,
            },
            Action::Close => ActionView::Close,
        }
    }
}

/// The node's own introduction, as sent in answer to a `Discover`.
pub open spec fn introduction(node: Node, is_leader: bool) -> DistMsgView {
    DistMsgView::Discover { id: node.id, hostname: node.hostname@, port: node.port@, is_leader }
}

/// The protocol: what a node (`node`, leading the group when `is_leader`)
/// does with each message.
pub open spec fn action_for(node: Node, is_leader: bool, msg: DistMsgView) -> ActionView {
    match msg {
        DistMsgView::Discover { id, hostname, port, .. } => ActionView::Register {
            id,
            hostname,
            port,
            reply: introduction(node, is_leader),
        },
        DistMsgView::NewReplic { id, hostname, port } => ActionView::AddReplica { id, hostname, port },
        DistMsgView::Election { .. } => ActionView::Reply(DistMsgView::Election { id: node.id }),
        DistMsgView::NewLeader { id } => ActionView::LeaderElected { id },
        DistMsgView::Commit { transaction } => ActionView::Commit { transaction },
        DistMsgView::Rollback { transaction } => ActionView::Rollback { transaction },
        DistMsgView::Ping => ActionView::Reply(DistMsgView::Pong),
        DistMsgView::Pong => ActionView::Close,
        DistMsgView::Shutdown { hostname, port, shutdown } => if shutdown {
            ActionView::Close
        } else {
            ActionView::ForwardShutdown { hostname, port }
        },
    }
}

impl Node {
    /// The node `id` listening at `hostname:port`.
    pub fn new(id: u32, hostname: String, port: String) -> (n: Node)
        ensures
            n.id == id,
            n.hostname@ == hostname@,
            n.port@ == port@,
    {
        Node { id, hostname, port }
    }

    /// What to do with `msg`, received while this node is (or is not) the leader.
    pub fn handle_message(&self, is_leader: bool, msg: DistMsg) -> (a: Action)
        ensures
            a@ == action_for(*self, is_leader, msg@),
    {
        match msg {
            DistMsg::Discover { id, hostname, port, .. } => Action::Register {
                id,
                hostname,
                port,
                reply: DistMsg::Discover {
                    id: self.id,
                    hostname: self.hostname.clone(),
                    port: self.port.clone(),
                    is_leader,
                },
            },
            DistMsg::NewReplic { id, hostname, port } => Action::AddReplica { id, hostname, port },
            DistMsg::Election { .. } => Action::Reply(DistMsg::Election { id: self.id }),
            DistMsg::NewLeader { id } => Action::LeaderElected { id },
            DistMsg::Commit { transaction } => Action::Commit { transaction },
            DistMsg::Rollback { transaction } => Action::Rollback { transaction },
            DistMsg::Ping => Action::Reply(DistMsg::Pong),
            DistMsg::Pong => Action::Close,
            DistMsg::Shutdown { hostname, port, shutdown } => {
                if shutdown {
                    Action::Close
                } else {
                    Action::ForwardShutdown { hostname, port }
                }
            },
        }
    }

    /// The introduction a replica sends to the node it joins through.
    pub fn discover_request(&self) -> (m: DistMsg)
        ensures
            m@ == introduction(*self, false),
    {
        DistMsg::Discover {
            id: self.id,
            hostname: self.hostname.clone(),
            port: self.port.clone(),
            is_leader: false,
        }
    }

    /// The notice a leaving node sends to every peer.
    pub fn shutdown_notice(&self) -> (m: DistMsg)
        ensures
            m@ == (DistMsgView::Shutdown { hostname: self.hostname@, port: self.port@, shutdown: false }),
    {
        DistMsg::Shutdown { hostname: self.hostname.clone(), port: self.port.clone(), shutdown: false }
    }
}

/// The record of the node a replica joined through, once that node answered
/// the introduction: with the identifier it gave, marked as leader when it
/// said it leads. Any other answer leaves the node out (`None`).
pub fn accept_discover_reply(conn: Connection, reply: DistMsg) -> (r: Option<Connection>)
    ensures
        match reply@ {
            DistMsgView::Discover { id, is_leader, .. } => r is Some && r.unwrap()@ == (ConnectionView {
                id,
                is_leader: conn@.is_leader || is_leader,
                ..conn@
            }),
            _ => r is None,
        },
{
    match reply {
        DistMsg::Discover { id, is_leader, .. } => {
            let mut c = conn;
            c.set_id(id);
            if is_leader {
                c.set_as_leader();
            }
            Some(c)
        },
        _ => None,
    }
}

/// A node answers a probe with `Pong`, an election message with its own
/// identifier, and an introduction with its own introduction.
pub proof fn law_answers(node: Node, is_leader: bool, id: u32, hostname: Seq<char>, port: Seq<char>, flag: bool)
    ensures
        action_for(node, is_leader, DistMsgView::Ping) == ActionView::Reply(DistMsgView::Pong),
        action_for(node, is_leader, DistMsgView::Election { id }) == ActionView::Reply(
            DistMsgView::Election { id: node.id },
        ),
        action_for(node, is_leader, DistMsgView::Discover { id, hostname, port, is_leader: flag })
            matches ActionView::Register { reply, .. } && reply == introduction(node, is_leader),
{
}

/// What a node records of a transaction outcome never depends on whether
/// it leads: a `Commit` broadcast goes to the commit log and a `Rollback` to
/// the rollback log, with the same transaction line, for every node.
pub proof fn law_outcome_recorded_as_sent(node: Node, is_leader: bool, t: Seq<char>)
    ensures
        action_for(node, is_leader, DistMsgView::Commit { transaction: t }) == (ActionView::Commit {
            transaction: t,
        }),
        action_for(node, is_leader, DistMsgView::Rollback { transaction: t }) == (ActionView::Rollback {
            transaction: t,
        }),
        action_for(node, true, DistMsgView::Commit { transaction: t }) == action_for(
            node,
            false,
            DistMsgView::Commit { transaction: t },
        ),
        action_for(node, true, DistMsgView::Rollback { transaction: t }) == action_for(
            node,
            false,
            DistMsgView::Rollback { transaction: t },
        ),
{
}

/// The rest of the protocol, message by message: an introduction registers
/// the sender under the identity it gave, an announcement adds the replica
/// it names, `NewLeader` elects the peer it names, `Pong` and a shutdown
/// order end the conversation, and a leaving notice is forwarded for the
/// address it names.
pub proof fn law_membership_actions(
    node: Node,
    is_leader: bool,
    id: u32,
    hostname: Seq<char>,
    port: Seq<char>,
    flag: bool,
)
    ensures
        action_for(node, is_leader, DistMsgView::Discover { id, hostname, port, is_leader: flag })
            == (ActionView::Register { id, hostname, port, reply: introduction(node, is_leader) }),
        introduction(node, is_leader) == (DistMsgView::Discover {
            id: node.id,
            hostname: node.hostname@,
            port: node.port@,
            is_leader,
        }),
        action_for(node, is_leader, DistMsgView::NewReplic { id, hostname, port }) == (ActionView::AddReplica {
            id,
            hostname,
            port,
        }),
        action_for(node, is_leader, DistMsgView::NewLeader { id }) == (ActionView::LeaderElected { id }),
        action_for(node, is_leader, DistMsgView::Pong) == ActionView::Close,
        action_for(node, is_leader, DistMsgView::Shutdown { hostname, port, shutdown: true })
            == ActionView::Close,
        action_for(node, is_leader, DistMsgView::Shutdown { hostname, port, shutdown: false })
            == (ActionView::ForwardShutdown { hostname, port }),
{
}

} // verus!
