//! How a node's list of peers changes, and what it sends, when group
//! membership messages arrive.
//!
//! Sending is described by an outbox: a list of `(peer index, message)`
//! pairs, in the order in which the messages are to be written. The caller
//! writes each through `Connection::write` of the peer at that index.

use vstd::prelude::*;

use crate::commons::{outbox_view, DistMsg, DistMsgView};
use crate::connection::{Connection, ConnectionView};

verus! {

/// The views of a list of peers.
pub open spec fn peers_view(conns: Seq<Connection>) -> Seq<ConnectionView> {
    conns.map_values(|c: Connection| c@)
}

/// The announcement of peer `c` to others.
pub open spec fn announce(c: ConnectionView) -> DistMsgView {
    DistMsgView::NewReplic { id: c.id, hostname: c.hostname, port: c.port }
}

/// The announcement of a peer, built from its record.
pub fn announcement(c: &Connection) -> (m: DistMsg)
    ensures
        m@ == announce(c@),
{
    DistMsg::NewReplic { id: c.get_id(), hostname: c.get_hostname(), port: c.get_port() }
}

/// Entry `k` of outbox `o` sends message `m` to the peer at index `target`.
pub open spec fn sends(o: Seq<(usize, DistMsg)>, k: int, target: int, m: DistMsgView) -> bool {
    0 <= k < o.len() && o[k].0 == target && o[k].1@ == m
}

/// In outbox `o`, the `i`-th step of a discovery exchange: known peer `i`
/// hears of the newcomer, then the newcomer (index `conns.len()`) hears of
/// peer `i`.
pub open spec fn exchanged(o: Seq<(usize, DistMsg)>, conns: Seq<Connection>, newcomer: ConnectionView, i: int) -> bool {
    &&& sends(o, 2 * i, i, announce(newcomer))
    &&& sends(o, 2 * i + 1, conns.len() as int, announce(conns[i]@))
}

/// A replica introduced itself (`Discover`) and `newcomer` is the record of
/// the link opened back to it. Every known peer is told about the newcomer,
/// the newcomer is told about every known peer (interleaved, peer by peer),
/// and the newcomer joins the list last.
pub fn msg_discover(conns: &mut Vec<Connection>, newcomer: Connection) -> (outbox: Vec<(usize, DistMsg)>)
    requires
        2 * old(conns).len() < usize::MAX,
    ensures
        final(conns)@ == old(conns)@.push(newcomer),
        outbox.len() == 2 * old(conns).len(),
        forall|i: int| 0 <= i < old(conns).len() ==> #[trigger] exchanged(outbox@, old(conns)@, newcomer@, i),
{
    let n = conns.len();
    let mut outbox: Vec<(usize, DistMsg)> = Vec::new();
    let mut i: usize = 0;
    while i < n
        invariant
            n == conns.len(),
            2 * n < usize::MAX,
            i <= n,
            outbox.len() == 2 * i,
            forall|j: int| 0 <= j < i ==> #[trigger] exchanged(outbox@, conns@, newcomer@, j),
        decreases n - i,
    {
        let to_peer = announcement(&newcomer);
        let to_newcomer = announcement(&conns[i]);
        let ghost before = outbox@;
        outbox.push((i, to_peer));
        outbox.push((n, to_newcomer));
        proof {
            assert forall|j: int| 0 <= j < i + 1 implies #[trigger] exchanged(outbox@, conns@, newcomer@, j) by {
                if j < i {
                    assert(exchanged(before, conns@, newcomer@, j));
                    assert(outbox@[2 * j] == before[2 * j]);
                    assert(outbox@[2 * j + 1] == before[2 * j + 1]);
                }
            }
        }
        i = i + 1;
    }
    conns.push(newcomer);
    outbox
}

/// A replica was announced by the leader (`NewReplic`) and `peer` is the
/// record of the link opened to it: it joins the list last.
pub fn msg_new_replic(conns: &mut Vec<Connection>, peer: Connection)
    ensures
        final(conns)@ == old(conns)@.push(peer),
{
    conns.push(peer);
}

/// Pushing onto an outbox pushes onto its view.
pub proof fn lemma_outbox_view_push(o: Seq<(usize, DistMsg)>, e: (usize, DistMsg))
    ensures
        outbox_view(o.push(e)) == outbox_view(o).push((e.0, e.1@)),
{
    assert(outbox_view(o.push(e)) =~= outbox_view(o).push((e.0, e.1@)));
}

/// The indices, in increasing order, of the peers among `conns` that
/// listen at `host:port`.
pub open spec fn peers_at(conns: Seq<ConnectionView>, host: Seq<char>, port: Seq<char>) -> Seq<usize>
    decreases conns.len(),
{
    if conns.len() == 0 {
        Seq::empty()
    } else {
        let earlier = peers_at(conns.drop_last(), host, port);
        let last = conns.last();
        if last.hostname == host && last.port == port {
            earlier.push((conns.len() - 1) as usize)
        } else {
            earlier
        }
    }
}

/// The peers that listen at `host:port` are exactly those whose host name
/// and port both match: every index in `peers_at` names such a peer, every
/// such peer's index occurs, and the indices strictly increase (so each
/// occurs once).
pub proof fn law_peers_at_match_host_and_port(conns: Seq<ConnectionView>, host: Seq<char>, port: Seq<char>)
    requires
        conns.len() <= usize::MAX,
    ensures
        forall|j: int|
            #![trigger peers_at(conns, host, port)[j]]
            0 <= j < peers_at(conns, host, port).len() ==> peers_at(conns, host, port)[j] < conns.len() && conns[peers_at(conns, host, port)[j] as int].hostname == host && conns[peers_at(conns, host, port)[j] as int].port == port,
        forall|k: int|
            0 <= k < conns.len() && conns[k].hostname == host && conns[k].port == port ==> exists|j: int|
                0 <= j < peers_at(conns, host, port).len() && #[trigger] peers_at(conns, host, port)[j] == k,
        forall|i: int, j: int|
            0 <= i < j < peers_at(conns, host, port).len() ==> peers_at(conns, host, port)[i] < peers_at(conns, host, port)[j],
    decreases conns.len(),
{
    if conns.len() > 0 {
        let prev = conns.drop_last();
        law_peers_at_match_host_and_port(prev, host, port);
        let e = peers_at(prev, host, port);
        let r = peers_at(conns, host, port);
        let n = conns.len() - 1;
        assert forall|j: int| 0 <= j < e.len() implies r[j] == e[j] by {}
        assert forall|k: int| 0 <= k < n implies prev[k] == conns[k] by {}
        assert forall|j: int| 0 <= j < r.len() implies r[j] < conns.len() && conns[r[j] as int].hostname == host && conns[r[j] as int].port == port by {
            if j < e.len() {
                assert(r[j] == e[j]);
                assert(prev[e[j] as int] == conns[e[j] as int]);
            }
        }
        assert forall|i: int, j: int| 0 <= i < j < r.len() implies r[i] < r[j] by {
            if j < e.len() {
                assert(r[i] == e[i] && r[j] == e[j]);
            } else {
                assert(r[i] == e[i]);
            }
        }
        assert forall|k: int|
            0 <= k < conns.len() && conns[k].hostname == host && conns[k].port == port implies exists|j: int|
                0 <= j < r.len() && #[trigger] r[j] == k by {
            if k < n {
                assert(prev[k] == conns[k]);
                let j = choose|j: int| 0 <= j < e.len() && #[trigger] e[j] == k;
                assert(r[j] == e[j]);
            } else {
                assert(r[e.len() as int] == k);
            }
        }
    }
}

/// The shutdown order forwarded to the node at `host:port`.
pub open spec fn shutdown_order(host: Seq<char>, port: Seq<char>) -> DistMsgView {
    DistMsgView::Shutdown { hostname: host, port, shutdown: true }
}

/// The node at `host:port` announced that it leaves (`Shutdown` without
/// `shutdown`): every peer that listens there is told to stop reading, in list order.
pub fn msg_shutdown(conns: &Vec<Connection>, hostname: &String, port: &String) -> (outbox: Vec<(usize, DistMsg)>)
    ensures
        outbox_view(outbox@) == peers_at(peers_view(conns@), hostname@, port@).map_values(
            |k: usize| (k, shutdown_order(hostname@, port@)),
        ),
        forall|j: int|
            0 <= j < outbox.len() ==> (#[trigger] outbox@[j]).0 < conns.len() && conns@[outbox@[j].0 as int]@.hostname
                == hostname@ && conns@[outbox@[j].0 as int]@.port == port@ && outbox@[j].1@ == shutdown_order(
                hostname@,
                port@,
            ),
        forall|k: int|
            0 <= k < conns.len() && conns@[k]@.hostname == hostname@ && conns@[k]@.port == port@ ==> exists|j: int|
                0 <= j < outbox.len() && #[trigger] outbox@[j].0 == k,
{
    let mut outbox: Vec<(usize, DistMsg)> = Vec::new();
    let mut i: usize = 0;
    while i < conns.len()
        invariant
            i <= conns.len(),
            outbox_view(outbox@) == peers_at(peers_view(conns@).take(i as int), hostname@, port@).map_values(
                |k: usize| (k, shutdown_order(hostname@, port@)),
            ),
        decreases conns.len() - i,
    {
        let ghost before = outbox@;
        let ghost views = peers_view(conns@);
        assert(views.take(i + 1).drop_last() =~= views.take(i as int));
        if conns[i].eq(hostname, port) {
            let m = DistMsg::Shutdown { hostname: hostname.clone(), port: port.clone(), shutdown: true };
            outbox.push((i, m));
            proof {
                lemma_outbox_view_push(before, (i, m));
            }
        }
        assert(outbox_view(outbox@) =~= peers_at(views.take(i + 1), hostname@, port@).map_values(
            |k: usize| (k, shutdown_order(hostname@, port@)),
        ));
        i = i + 1;
    }
    assert(peers_view(conns@).take(conns.len() as int) =~= peers_view(conns@));
    proof {
        let v = peers_view(conns@);
        let t = peers_at(v, hostname@, port@);
        law_peers_at_match_host_and_port(v, hostname@, port@);
        let ov = outbox_view(outbox@);
        assert forall|j: int| 0 <= j < outbox.len() implies (#[trigger] outbox@[j]).0 < conns.len()
            && conns@[outbox@[j].0 as int]@.hostname == hostname@ && conns@[outbox@[j].0 as int]@.port == port@
            && outbox@[j].1@ == shutdown_order(hostname@, port@) by {
            assert(ov[j] == (outbox@[j].0, outbox@[j].1@));
            assert(ov[j] == (t[j], shutdown_order(hostname@, port@)));
            assert(v[t[j] as int] == conns@[t[j] as int]@);
        }
        assert forall|k: int|
            0 <= k < conns.len() && conns@[k]@.hostname == hostname@ && conns@[k]@.port == port@ implies exists|j: int|
                0 <= j < outbox.len() && #[trigger] outbox@[j].0 == k by {
            assert(v[k] == conns@[k]@);
            let j = choose|j: int| 0 <= j < t.len() && #[trigger] t[j] == k;
            assert(ov[j] == (outbox@[j].0, outbox@[j].1@));
            assert(ov[j] == (t[j], shutdown_order(hostname@, port@)));
        }
    }
    outbox
}

/// Every peer, in list order, is sent `msg`.
pub fn broadcast(conns: &Vec<Connection>, msg: &DistMsg) -> (outbox: Vec<(usize, DistMsg)>)
    ensures
        outbox_view(outbox@) == Seq::new(conns.len() as nat, |k: int| (k as usize, msg@)),
{
    let mut outbox: Vec<(usize, DistMsg)> = Vec::new();
    let mut i: usize = 0;
    while i < conns.len()
        invariant
            i <= conns.len(),
            outbox_view(outbox@) == Seq::new(i as nat, |k: int| (k as usize, msg@)),
        decreases conns.len() - i,
    {
        let ghost before = outbox@;
        let m = msg.duplicate();
        outbox.push((i, m));
        proof {
            lemma_outbox_view_push(before, (i, m));
        }
        assert(outbox_view(outbox@) =~= Seq::new((i + 1) as nat, |k: int| (k as usize, msg@)));
        i = i + 1;
    }
    outbox
}

/// `NewLeader { id }` arrived: every peer with that identifier is marked as
/// the leader; nothing else changes.
pub fn mark_leader(conns: &mut Vec<Connection>, id: u32)
    ensures
        final(conns).len() == old(conns).len(),
        forall|k: int|
            0 <= k < old(conns).len() ==> #[trigger] final(conns)@[k]@ == (if old(conns)@[k]@.id == id {
                ConnectionView { is_leader: true, ..old(conns)@[k]@ }
            } else {
                old(conns)@[k]@
            }),
{
    let ghost start = conns@;
    let mut i: usize = 0;
    while i < conns.len()
        invariant
            i <= conns.len(),
            conns.len() == start.len(),
            forall|k: int|
                0 <= k < start.len() ==> #[trigger] conns@[k]@ == (if k < i && start[k]@.id == id {
                    ConnectionView { is_leader: true, ..start[k]@ }
                } else {
                    start[k]@
                }),
        decreases conns.len() - i,
    {
        if conns[i].get_id() == id {
            let mut c = conns.remove(i);
            c.set_as_leader();
            conns.insert(i, c);
        }
        i = i + 1;
    }
}

} // verus!
