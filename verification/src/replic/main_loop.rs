//! The replica's main loop decisions: leader liveness, bully election, and
//! waiting for a new leader's announcement.

use vstd::prelude::*;

use crate::commons::{outbox_view, DistMsg, DistMsgView};
use crate::common::{broadcast, peers_view};
use crate::connection::{Connection, ConnectionView};

verus! {

/// `k` is the position of the first peer marked as leader in `v`.
pub open spec fn first_leader(v: Seq<ConnectionView>, k: int) -> bool {
    &&& 0 <= k < v.len()
    &&& v[k].is_leader
    &&& forall|j: int| 0 <= j < k ==> !(#[trigger] v[j]).is_leader
}

/// Some peer in `v` is marked as leader.
pub open spec fn has_leader(v: Seq<ConnectionView>) -> bool {
    exists|k: int| 0 <= k < v.len() && (#[trigger] v[k]).is_leader
}

/// The leader stopped answering: its record (the first peer marked as
/// leader) is dropped from the list; the other peers keep their order. The
/// position it had is returned.
pub fn remove_leader(conns: &mut Vec<Connection>) -> (k: usize)
    requires
        has_leader(peers_view(old(conns)@)),
    ensures
        first_leader(peers_view(old(conns)@), k as int),
        final(conns)@ == old(conns)@.remove(k as int),
{
    let ghost v = peers_view(conns@);
    let mut i: usize = 0;
    while i < conns.len() && !conns[i].is_leader()
        invariant
            i <= conns.len(),
            v == peers_view(conns@),
            has_leader(v),
            forall|j: int| 0 <= j < i ==> !(#[trigger] v[j]).is_leader,
        decreases conns.len() - i,
    {
        i = i + 1;
    }
    if i == conns.len() {
        proof {
            let k = choose|k: int| 0 <= k < v.len() && (#[trigger] v[k]).is_leader;
            assert(!v[k].is_leader);
        }
    }
    assert(first_leader(v, i as int));
    conns.remove(i);
    i
}

/// The election round after the leader went silent: the leader's record
/// (the first peer marked as leader, at the returned position) is dropped,
/// and every remaining peer, in list order, is sent `Election { id: mid }`.
pub fn start_election(conns: &mut Vec<Connection>, mid: u32) -> (r: (usize, Vec<(usize, DistMsg)>))
    requires
        has_leader(peers_view(old(conns)@)),
    ensures
        first_leader(peers_view(old(conns)@), r.0 as int),
        final(conns)@ == old(conns)@.remove(r.0 as int),
        outbox_view(r.1@) == Seq::new(
            (old(conns).len() - 1) as nat,
            |k: int| (k as usize, DistMsgView::Election { id: mid }),
        ),
{
    let k = remove_leader(conns);
    let outbox = broadcast(conns, &DistMsg::Election { id: mid });
    (k, outbox)
}

/// A reply to this replica's `Election` message comes from a peer with a
/// lower identifier than `mid`.
pub open spec fn outranks(reply: Option<DistMsg>, mid: u32) -> bool {
    match reply {
        Some(DistMsg::Election { id }) => id < mid,
        _ => false,
    }
}

/// The bully rule: the replica `mid` becomes leader unless some peer
/// answered its election message with a lower identifier.
pub open spec fn wins_election(mid: u32, replies: Seq<Option<DistMsg>>) -> bool {
    forall|i: int| 0 <= i < replies.len() ==> !outranks(#[trigger] replies[i], mid)
}

/// Whether replica `mid` becomes the leader, given what each remaining peer
/// answered to its `Election` message (`None`: no readable answer).
pub fn election(mid: u32, replies: &Vec<Option<DistMsg>>) -> (amileader: bool)
    ensures
        amileader == wins_election(mid, replies@),
{
    let mut amileader = true;
    let mut i: usize = 0;
    while i < replies.len()
        invariant
            i <= replies.len(),
            amileader == (forall|j: int| 0 <= j < i ==> !outranks(#[trigger] replies@[j], mid)),
        decreases replies.len() - i,
    {
        match &replies[i] {
            Some(DistMsg::Election { id }) => {
                if *id < mid {
                    amileader = false;
                }
            },
            _ => {},
        }
        i = i + 1;
    }
    amileader
}

/// Two replicas with different identifiers that each received the other's
/// answer cannot both win the election.
pub proof fn law_single_winner(
    a: u32,
    replies_a: Seq<Option<DistMsg>>,
    b: u32,
    replies_b: Seq<Option<DistMsg>>,
    i: int,
    j: int,
)
    requires
        a != b,
        0 <= i < replies_a.len(),
        replies_a[i] == Some(DistMsg::Election { id: b }),
        0 <= j < replies_b.len(),
        replies_b[j] == Some(DistMsg::Election { id: a }),
    ensures
        !(wins_election(a, replies_a) && wins_election(b, replies_b)),
{
    if wins_election(a, replies_a) {
        assert(!outranks(replies_a[i], a));
        assert(outranks(replies_b[j], b));
    }
}

/// A replica that hears from a peer with a lower identifier does not win;
/// one that hears only from higher identifiers (or from no one) wins.
pub proof fn law_lowest_identifier_wins(mid: u32, ids: Seq<u32>)
    ensures
        wins_election(mid, ids.map_values(|id: u32| Some(DistMsg::Election { id })))
            <==> (forall|i: int| 0 <= i < ids.len() ==> mid <= #[trigger] ids[i]),
{
    let replies = ids.map_values(|id: u32| Some(DistMsg::Election { id }));
    if wins_election(mid, replies) {
        assert forall|i: int| 0 <= i < ids.len() implies mid <= #[trigger] ids[i] by {
            assert(!outranks(replies[i], mid));
        }
    }
}

/// The indices, in increasing order, of the peers marked as leader.
pub open spec fn leader_indices(v: Seq<ConnectionView>) -> Seq<usize>
    decreases v.len(),
{
    if v.len() == 0 {
        Seq::empty()
    } else if v.last().is_leader {
        leader_indices(v.drop_last()).push((v.len() - 1) as usize)
    } else {
        leader_indices(v.drop_last())
    }
}

/// The peers probed for liveness are exactly those marked as leader,
/// wherever they stand in the list: every index in `leader_indices` names a
/// leader, every leader's index occurs, and the indices strictly increase.
pub proof fn law_leader_indices_are_the_leaders(v: Seq<ConnectionView>)
    requires
        v.len() <= usize::MAX,
    ensures
        forall|j: int|
            #![trigger leader_indices(v)[j]]
            0 <= j < leader_indices(v).len() ==> leader_indices(v)[j] < v.len() && v[leader_indices(v)[j] as int].is_leader,
        forall|k: int|
            0 <= k < v.len() && v[k].is_leader ==> exists|j: int|
                0 <= j < leader_indices(v).len() && #[trigger] leader_indices(v)[j] == k,
        forall|i: int, j: int|
            0 <= i < j < leader_indices(v).len() ==> leader_indices(v)[i] < leader_indices(v)[j],
    decreases v.len(),
{
    if v.len() > 0 {
        let prev = v.drop_last();
        law_leader_indices_are_the_leaders(prev);
        let e = leader_indices(prev);
        let r = leader_indices(v);
        let n = v.len() - 1;
        assert forall|j: int| 0 <= j < e.len() implies r[j] == e[j] by {}
        assert forall|k: int| 0 <= k < n implies prev[k] == v[k] by {}
        assert forall|j: int| 0 <= j < r.len() implies r[j] < v.len() && v[r[j] as int].is_leader by {
            if j < e.len() {
                assert(r[j] == e[j]);
                assert(prev[e[j] as int] == v[e[j] as int]);
            }
        }
        assert forall|i: int, j: int| 0 <= i < j < r.len() implies r[i] < r[j] by {
            if j < e.len() {
                assert(r[i] == e[i] && r[j] == e[j]);
            } else {
                assert(r[i] == e[i]);
            }
        }
        assert forall|k: int|
            0 <= k < v.len() && v[k].is_leader implies exists|j: int|
                0 <= j < r.len() && #[trigger] r[j] == k by {
            if k < n {
                assert(prev[k] == v[k]);
                let j = choose|j: int| 0 <= j < e.len() && #[trigger] e[j] == k;
                assert(r[j] == e[j]);
            } else {
                assert(r[e.len() as int] == k);
            }
        }
    }
}

/// The peers to probe with `Ping` when nothing was heard from the leader.
pub fn leaders(conns: &Vec<Connection>) -> (r: Vec<usize>)
    ensures
        r@ == leader_indices(peers_view(conns@)),
        forall|j: int| 0 <= j < r.len() ==> r@[j] < conns.len() && conns@[#[trigger] r@[j] as int]@.is_leader,
        forall|k: int|
            0 <= k < conns.len() && conns@[k]@.is_leader ==> exists|j: int| 0 <= j < r.len() && #[trigger] r@[j] == k,
{
    let mut r: Vec<usize> = Vec::new();
    let mut i: usize = 0;
    while i < conns.len()
        invariant
            i <= conns.len(),
            r@ == leader_indices(peers_view(conns@).take(i as int)),
        decreases conns.len() - i,
    {
        let ghost v = peers_view(conns@);
        assert(v.take(i + 1).drop_last() =~= v.take(i as int));
        if conns[i].is_leader() {
            r.push(i);
        }
        i = i + 1;
    }
    assert(peers_view(conns@).take(conns.len() as int) =~= peers_view(conns@));
    proof {
        let v = peers_view(conns@);
        law_leader_indices_are_the_leaders(v);
        assert forall|j: int| 0 <= j < r.len() implies r@[j] < conns.len() && conns@[#[trigger] r@[j] as int]@.is_leader by {
            assert(v[r@[j] as int] == conns@[r@[j] as int]@);
        }
        assert forall|k: int| 0 <= k < conns.len() && conns@[k]@.is_leader implies exists|j: int|
            0 <= j < r.len() && #[trigger] r@[j] == k by {
            assert(v[k] == conns@[k]@);
        }
    }
    r
}

/// Whether the answer to a `Ping` shows the leader alive.
pub fn is_pong(reply: &Option<DistMsg>) -> (r: bool)
    ensures
        r == (reply matches Some(DistMsg::Pong)),
{
    match reply {
        Some(DistMsg::Pong) => true,
        _ => false,
    }
}

/// One step of the leader watch, after probing a leader: the leader counts
/// as alive when something was heard from it since the watch started
/// (`heard`) or it answered the probe with `Pong`. Returns the new value of
/// the "heard from the leader" flag and whether the watch ends (the leader is
/// lost, an election follows).
pub fn watch_step(heard: bool, reply: &Option<DistMsg>) -> (r: (bool, bool))
    ensures
        r.0 == (heard || reply matches Some(DistMsg::Pong)),
        r.1 == !r.0,
{
    let alive = heard || is_pong(reply);
    (alive, !alive)
}

/// One look at the "a new leader was announced" flag: if it is set, it is
/// consumed (cleared) and the wait is over (`true`); otherwise the caller
/// keeps waiting (`false`) and the flag stays clear.
pub fn wait_for_leader(ok: &mut bool) -> (done: bool)
    ensures
        done == *old(ok),
        *final(ok) == false,
{
    if *ok {
        *ok = false;
        true
    } else {
        false
    }
}

} // verus!
