//! The compact replica: the variant of the replica that speaks the compact
//! protocol (`commons::commons::DistMsg`) and whose leader commits a
//! transaction only when every participant accepts it.

use vstd::prelude::*;

use crate::commons::commons::DistMsg as CompactMsg;
use crate::commons::{DistMsg, DistMsgView};
use crate::replic::main_loop::outranks;
use crate::connection::{Connection, ConnectionView};
use crate::framing::{parse_i32, spec_parse_i32, spec_split_commas, spec_trim, split_fields, trim};

verus! {

/// What the compact replica does with one message.
#[derive(Debug, PartialEq, Eq)]
pub enum CompactAction {
    /// The leader heard a replica introduce itself: register it (open a
    /// link back, exchange announcements: `common::msg_discover`).
    Register { id: u32, hostname: String, port: String },
    /// A follower heard of a new replica: the leader is alive; open a link
    /// to the replica and add it (`common::msg_new_replic`).
    AddReplica { id: u32, hostname: String, port: String },
    /// Send this message back on the incoming stream.
    Reply(CompactMsg),
    /// The peer `id` is the new leader: mark it and wake the waiting replica.
    LeaderElected { id: u32 },
    /// Nothing changes; the message is only reported.
    Report,
}

/// The compact protocol's rules, for replica `mid` (the leader when `is_leader`).
pub open spec fn compact_action_for(mid: u32, is_leader: bool, msg: CompactMsg, a: CompactAction) -> bool {
    match msg {
        CompactMsg::Discover { id, hostname, port } => if is_leader {
            a matches CompactAction::Register { id: i, hostname: h, port: p } && i == id && h@ == hostname@ && p@
                == port@
        } else {
            a is Report
        },
        CompactMsg::NewReplic { id, hostname, port } => if is_leader {
            a is Report
        } else {
            a matches CompactAction::AddReplica { id: i, hostname: h, port: p } && i == id && h@ == hostname@
                && p@ == port@
        },
        CompactMsg::Election { .. } => a matches CompactAction::Reply(CompactMsg::Election { id }) && id == mid,
        CompactMsg::Leader { id } => a == CompactAction::LeaderElected { id },
        CompactMsg::Ping => a matches CompactAction::Reply(CompactMsg::Pong),
        _ => a is Report,
    }
}

/// What compact replica `mid` does with `msg`.
pub fn handle_message(mid: u32, is_leader: bool, msg: CompactMsg) -> (a: CompactAction)
    ensures
        compact_action_for(mid, is_leader, msg, a),
{
    match msg {
        CompactMsg::Discover { id, hostname, port } => {
            if is_leader {
                CompactAction::Register { id, hostname, port }
            } else {
                CompactAction::Report
            }
        },
        CompactMsg::NewReplic { id, hostname, port } => {
            if is_leader {
                CompactAction::Report
            } else {
                CompactAction::AddReplica { id, hostname, port }
            }
        },
        CompactMsg::Election { .. } => CompactAction::Reply(CompactMsg::Election { id: mid }),
        CompactMsg::Leader { id } => CompactAction::LeaderElected { id },
        CompactMsg::Ping => CompactAction::Reply(CompactMsg::Pong),
        _ => CompactAction::Report,
    }
}

/// The same message in the full protocol: `Leader` became `NewLeader`,
/// and an introduction never claims leadership.
pub open spec fn widened(msg: CompactMsg) -> DistMsgView {
    match msg {
        CompactMsg::Discover { id, hostname, port } => DistMsgView::Discover {
            id,
            hostname: hostname@,
            port: port@,
            is_leader: false,
        },
        CompactMsg::NewReplic { id, hostname, port } => DistMsgView::NewReplic {
            id,
            hostname: hostname@,
            port: port@,
        },
        CompactMsg::Election { id } => DistMsgView::Election { id },
        CompactMsg::Leader { id } => DistMsgView::NewLeader { id },
        CompactMsg::Commit { transaction } => DistMsgView::Commit { transaction: transaction@ },
        CompactMsg::Rollback { transaction } => DistMsgView::Rollback { transaction: transaction@ },
        CompactMsg::Ping => DistMsgView::Ping,
        CompactMsg::Pong => DistMsgView::Pong,
    }
}

/// Reads a message of the compact protocol as one of the full protocol,
/// so that the election and liveness rules apply to both.
pub fn widen(msg: CompactMsg) -> (m: DistMsg)
    ensures
        m@ == widened(msg),
{
    match msg {
        CompactMsg::Discover { id, hostname, port } => DistMsg::Discover { id, hostname, port, is_leader: false },
        CompactMsg::NewReplic { id, hostname, port } => DistMsg::NewReplic { id, hostname, port },
        CompactMsg::Election { id } => DistMsg::Election { id },
        CompactMsg::Leader { id } => DistMsg::NewLeader { id },
        CompactMsg::Commit { transaction } => DistMsg::Commit { transaction },
        CompactMsg::Rollback { transaction } => DistMsg::Rollback { transaction },
        CompactMsg::Ping => DistMsg::Ping,
        CompactMsg::Pong => DistMsg::Pong,
    }
}

/// What the compact replica's leader broadcasts for a transaction line once
/// it decided whether to commit it.
pub fn outcome(transaction: String, commit: bool) -> (m: CompactMsg)
    ensures
        commit ==> (m matches CompactMsg::Commit { transaction: t } && t@ == transaction@),
        !commit ==> (m matches CompactMsg::Rollback { transaction: t } && t@ == transaction@),
{
    if commit {
        CompactMsg::Commit { transaction }
    } else {
        CompactMsg::Rollback { transaction }
    }
}

/// The compact replica's leader announcement.
pub fn announcement(id: u32) -> (m: CompactMsg)
    ensures
        m matches CompactMsg::Leader { id: i } && i == id,
{
    CompactMsg::Leader { id }
}

/// The introduction a compact replica sends to the node it joins through.
pub fn hello(id: u32, hostname: String, port: String) -> (m: CompactMsg)
    ensures
        m matches CompactMsg::Discover { id: i, hostname: h, port: p } && i == id && h@ == hostname@ && p@
            == port@,
{
    CompactMsg::Discover { id, hostname, port }
}

/// The record a compact replica keeps of the node it joined through, whose
/// link is open: it is taken to be the leader, with identifier 0 (the lowest).
pub fn joined_leader(hostname: String, port: String) -> (c: Connection)
    ensures
        c@ == (ConnectionView { id: 0, hostname: hostname@, port: port@, is_leader: true, is_alive: true }),
{
    let mut c = Connection::new(0, hostname, port, true);
    c.set_as_leader();
    c
}

/// The parts of a compact transaction line `id, bank, hotel, airline`
/// (comma-separated, each field without surrounding white space): the
/// transaction's identifier read as an `i32` (`None` when it is not one),
/// then the bank, hotel and airline amounts as texts. Fields past the fourth
/// are ignored.
pub fn transaction_fields(line: &str) -> (r: (Option<i32>, String, String, String))
    requires
        spec_split_commas(line@).len() >= 4,
    ensures
        r.0 == spec_parse_i32(spec_trim(spec_split_commas(line@)[0])),
        r.1@ == spec_trim(spec_split_commas(line@)[1]),
        r.2@ == spec_trim(spec_split_commas(line@)[2]),
        r.3@ == spec_trim(spec_split_commas(line@)[3]),
{
    let fields = split_fields(line);
    assert(fields@.map_values(|f: String| f@)[0] == fields@[0]@);
    assert(fields@.map_values(|f: String| f@)[1] == fields@[1]@);
    assert(fields@.map_values(|f: String| f@)[2] == fields@[2]@);
    assert(fields@.map_values(|f: String| f@)[3] == fields@[3]@);
    let id_text = trim(fields[0].as_str());
    let id = parse_i32(id_text.as_str());
    (id, trim(fields[1].as_str()), trim(fields[2].as_str()), trim(fields[3].as_str()))
}

/// Widening keeps every message's kind and contents: an election answer
/// stays an election answer with the same identifier, `Leader` becomes the
/// full protocol's `NewLeader` for the same peer, and the others keep their
/// texts; an introduction never claims leadership.
pub proof fn law_widen_keeps_meaning(id: u32, hostname: String, port: String, transaction: String)
    ensures
        widened(CompactMsg::Election { id }) == (DistMsgView::Election { id }),
        widened(CompactMsg::Leader { id }) == (DistMsgView::NewLeader { id }),
        widened(CompactMsg::Ping) == DistMsgView::Ping,
        widened(CompactMsg::Pong) == DistMsgView::Pong,
        widened(CompactMsg::Discover { id, hostname, port }) == (DistMsgView::Discover {
            id,
            hostname: hostname@,
            port: port@,
            is_leader: false,
        }),
        widened(CompactMsg::NewReplic { id, hostname, port }) == (DistMsgView::NewReplic {
            id,
            hostname: hostname@,
            port: port@,
        }),
        widened(CompactMsg::Commit { transaction }) == (DistMsgView::Commit { transaction: transaction@ }),
        widened(CompactMsg::Rollback { transaction }) == (DistMsgView::Rollback { transaction: transaction@ }),
{
}

/// A compact replica's election answer, read through `widen`, outranks
/// replica `mid` exactly when it is an election answer from a lower
/// identifier: the bully rule is the same in both protocols.
pub proof fn law_widened_answer_outranks(msg: CompactMsg, w: DistMsg, mid: u32)
    requires
        w@ == widened(msg),
    ensures
        outranks(Some(w), mid) <==> (msg matches CompactMsg::Election { id } && id < mid),
{
    match msg {
        CompactMsg::Election { id } => {
            assert(w@ == (DistMsgView::Election { id }));
            assert(w matches DistMsg::Election { id: i } && i == id);
        },
        _ => {
            assert(!(w@ is Election));
            assert(!(w is Election));
        },
    }
}

} // verus!
