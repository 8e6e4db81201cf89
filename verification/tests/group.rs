use alglobo::alglobo::{accept_discover_reply, Action, Node};
use alglobo::common::{broadcast, mark_leader, msg_discover, msg_new_replic, msg_shutdown};
use alglobo::commons::commons::DistMsg as CompactMsg;
use alglobo::commons::DistMsg;
use alglobo::connection::Connection;
use alglobo::replic::main_loop::{election, is_pong, leaders, remove_leader, start_election, wait_for_leader, watch_step};
use alglobo::replic::replic::{
    announcement, handle_message, hello, joined_leader, outcome, transaction_fields, widen, CompactAction,
};

fn peer(id: u32, host: &str, port: &str, alive: bool) -> Connection {
    Connection::new(id, host.to_string(), port.to_string(), alive)
}

fn node() -> Node {
    Node::new(7, "127.0.0.1".to_string(), "9007".to_string())
}

#[test]
fn connection_new_and_getters() {
    let c = peer(3, "10.0.0.1", "8000", true);
    assert_eq!(c.get_id(), 3);
    assert_eq!(c.get_hostname(), "10.0.0.1");
    assert_eq!(c.get_port(), "8000");
    assert!(!c.is_leader());
    assert!(c.is_alive());
    let d = peer(4, "h", "p", false);
    assert!(!d.is_alive());
}

#[test]
fn connection_set_leader_and_id() {
    let mut c = peer(0, "h", "p", true);
    c.set_as_leader();
    assert!(c.is_leader());
    c.set_id(12);
    assert_eq!(c.get_id(), 12);
    assert!(c.is_leader());
}

#[test]
fn connection_eq_compares_host_and_port() {
    let c = peer(1, "host", "80", true);
    assert!(c.eq(&"host".to_string(), &"80".to_string()));
    assert!(!c.eq(&"host".to_string(), &"81".to_string()));
    assert!(!c.eq(&"other".to_string(), &"80".to_string()));
}

#[test]
fn connection_write_only_while_alive() {
    let mut c = peer(1, "h", "p", true);
    assert_eq!(c.write(DistMsg::Ping), Some(DistMsg::Ping));
    c.write_failed();
    assert_eq!(c.write(DistMsg::Ping), None);
    c.set_as_leader();
    assert_eq!(c.write(DistMsg::Pong), None);
    let never = peer(2, "h", "p", false);
    assert_eq!(never.write(DistMsg::Ping), None);
}

#[test]
fn discover_exchanges_announcements() {
    let mut conns = vec![peer(1, "a", "1", true), peer(2, "b", "2", true)];
    let newcomer = peer(5, "c", "3", true);
    let outbox = msg_discover(&mut conns, newcomer);
    assert_eq!(conns.len(), 3);
    assert_eq!(conns[2].get_id(), 5);
    let expected = vec![
        (0, DistMsg::NewReplic { id: 5, hostname: "c".to_string(), port: "3".to_string() }),
        (2, DistMsg::NewReplic { id: 1, hostname: "a".to_string(), port: "1".to_string() }),
        (1, DistMsg::NewReplic { id: 5, hostname: "c".to_string(), port: "3".to_string() }),
        (2, DistMsg::NewReplic { id: 2, hostname: "b".to_string(), port: "2".to_string() }),
    ];
    assert_eq!(outbox, expected);
}

#[test]
fn discover_on_empty_group_sends_nothing() {
    let mut conns: Vec<Connection> = Vec::new();
    let outbox = msg_discover(&mut conns, peer(9, "x", "y", true));
    assert!(outbox.is_empty());
    assert_eq!(conns.len(), 1);
}

#[test]
fn new_replic_is_appended() {
    let mut conns = vec![peer(1, "a", "1", true)];
    msg_new_replic(&mut conns, peer(2, "b", "2", false));
    assert_eq!(conns.len(), 2);
    assert_eq!(conns[1].get_id(), 2);
    assert!(!conns[1].is_alive());
}

#[test]
fn shutdown_goes_to_matching_peers_only() {
    let conns = vec![peer(1, "a", "1", true), peer(2, "b", "2", true), peer(3, "a", "1", false)];
    let outbox = msg_shutdown(&conns, &"a".to_string(), &"1".to_string());
    let order = DistMsg::Shutdown { hostname: "a".to_string(), port: "1".to_string(), shutdown: true };
    assert_eq!(outbox, vec![(0, order.duplicate()), (2, order)]);
}

#[test]
fn broadcast_reaches_every_peer() {
    let conns = vec![peer(1, "a", "1", true), peer(2, "b", "2", false)];
    let outbox = broadcast(&conns, &DistMsg::NewLeader { id: 4 });
    assert_eq!(outbox, vec![(0, DistMsg::NewLeader { id: 4 }), (1, DistMsg::NewLeader { id: 4 })]);
    let none: Vec<Connection> = Vec::new();
    assert!(broadcast(&none, &DistMsg::Ping).is_empty());
}

#[test]
fn mark_leader_marks_matching_ids() {
    let mut conns = vec![peer(1, "a", "1", true), peer(2, "b", "2", true), peer(1, "c", "3", true)];
    mark_leader(&mut conns, 1);
    assert!(conns[0].is_leader());
    assert!(!conns[1].is_leader());
    assert!(conns[2].is_leader());
    assert_eq!(conns[2].get_hostname(), "c");
}

#[test]
fn remove_leader_drops_first_leader() {
    let mut conns = vec![peer(1, "a", "1", true), peer(0, "l", "0", true), peer(2, "b", "2", true)];
    conns[1].set_as_leader();
    assert_eq!(remove_leader(&mut conns), 1);
    assert_eq!(conns.len(), 2);
    assert_eq!(conns[0].get_id(), 1);
    assert_eq!(conns[1].get_id(), 2);
}

#[test]
fn election_bully_rule() {
    let higher = vec![Some(DistMsg::Election { id: 9 }), None, Some(DistMsg::Pong)];
    assert!(election(5, &higher));
    let lower = vec![Some(DistMsg::Election { id: 9 }), Some(DistMsg::Election { id: 3 })];
    assert!(!election(5, &lower));
    let equal = vec![Some(DistMsg::Election { id: 5 })];
    assert!(election(5, &equal));
    assert!(election(5, &Vec::new()));
}

#[test]
fn election_two_replicas_single_winner() {
    let a_hears = vec![Some(DistMsg::Election { id: 4 })];
    let b_hears = vec![Some(DistMsg::Election { id: 2 })];
    assert!(election(2, &a_hears));
    assert!(!election(4, &b_hears));
}

#[test]
fn leaders_lists_leader_indices() {
    let mut conns = vec![peer(1, "a", "1", true), peer(2, "b", "2", true), peer(3, "c", "3", true)];
    conns[2].set_as_leader();
    assert_eq!(leaders(&conns), vec![2]);
    let plain = vec![peer(1, "a", "1", true)];
    assert!(leaders(&plain).is_empty());
}

#[test]
fn pong_detection() {
    assert!(is_pong(&Some(DistMsg::Pong)));
    assert!(!is_pong(&Some(DistMsg::Ping)));
    assert!(!is_pong(&None));
}

#[test]
fn waiting_for_leader_consumes_flag() {
    let mut ok = false;
    assert!(!wait_for_leader(&mut ok));
    assert!(!ok);
    ok = true;
    assert!(wait_for_leader(&mut ok));
    assert!(!ok);
}

#[test]
fn node_answers_protocol() {
    let n = node();
    assert_eq!(n.handle_message(false, DistMsg::Ping), Action::Reply(DistMsg::Pong));
    assert_eq!(n.handle_message(true, DistMsg::Election { id: 3 }), Action::Reply(DistMsg::Election { id: 7 }));
    assert_eq!(n.handle_message(false, DistMsg::Pong), Action::Close);
    assert_eq!(n.handle_message(false, DistMsg::NewLeader { id: 2 }), Action::LeaderElected { id: 2 });
    assert_eq!(
        n.handle_message(true, DistMsg::Commit { transaction: "t".to_string() }),
        Action::Commit { transaction: "t".to_string() }
    );
    assert_eq!(
        n.handle_message(true, DistMsg::Rollback { transaction: "r".to_string() }),
        Action::Rollback { transaction: "r".to_string() }
    );
}

#[test]
fn node_registers_discovering_replica() {
    let n = node();
    let a = n.handle_message(
        true,
        DistMsg::Discover { id: 3, hostname: "h".to_string(), port: "p".to_string(), is_leader: false },
    );
    assert_eq!(
        a,
        Action::Register {
            id: 3,
            hostname: "h".to_string(),
            port: "p".to_string(),
            reply: DistMsg::Discover {
                id: 7,
                hostname: "127.0.0.1".to_string(),
                port: "9007".to_string(),
                is_leader: true
            },
        }
    );
    assert_eq!(
        n.handle_message(false, DistMsg::NewReplic { id: 4, hostname: "x".to_string(), port: "y".to_string() }),
        Action::AddReplica { id: 4, hostname: "x".to_string(), port: "y".to_string() }
    );
}

#[test]
fn node_shutdown_handling() {
    let n = node();
    assert_eq!(
        n.handle_message(false, DistMsg::Shutdown { hostname: "h".to_string(), port: "p".to_string(), shutdown: true }),
        Action::Close
    );
    assert_eq!(
        n.handle_message(false, DistMsg::Shutdown { hostname: "h".to_string(), port: "p".to_string(), shutdown: false }),
        Action::ForwardShutdown { hostname: "h".to_string(), port: "p".to_string() }
    );
    assert_eq!(
        n.shutdown_notice(),
        DistMsg::Shutdown { hostname: "127.0.0.1".to_string(), port: "9007".to_string(), shutdown: false }
    );
    assert_eq!(
        n.discover_request(),
        DistMsg::Discover { id: 7, hostname: "127.0.0.1".to_string(), port: "9007".to_string(), is_leader: false }
    );
}

#[test]
fn discover_reply_sets_identity() {
    let c = peer(0, "l", "1", true);
    let joined = accept_discover_reply(
        c,
        DistMsg::Discover { id: 6, hostname: "l".to_string(), port: "1".to_string(), is_leader: true },
    )
    .unwrap();
    assert_eq!(joined.get_id(), 6);
    assert!(joined.is_leader());
    let c2 = peer(0, "l", "1", true);
    let follower = accept_discover_reply(
        c2,
        DistMsg::Discover { id: 8, hostname: "l".to_string(), port: "1".to_string(), is_leader: false },
    )
    .unwrap();
    assert!(!follower.is_leader());
    assert!(accept_discover_reply(peer(0, "l", "1", true), DistMsg::Pong).is_none());
}

#[test]
fn compact_protocol_dispatch() {
    let d = CompactMsg::Discover { id: 2, hostname: "h".to_string(), port: "p".to_string() };
    assert_eq!(
        handle_message(1, true, d),
        CompactAction::Register { id: 2, hostname: "h".to_string(), port: "p".to_string() }
    );
    let d2 = CompactMsg::Discover { id: 2, hostname: "h".to_string(), port: "p".to_string() };
    assert_eq!(handle_message(1, false, d2), CompactAction::Report);
    let nr = CompactMsg::NewReplic { id: 3, hostname: "h".to_string(), port: "p".to_string() };
    assert_eq!(
        handle_message(1, false, nr),
        CompactAction::AddReplica { id: 3, hostname: "h".to_string(), port: "p".to_string() }
    );
    let nr2 = CompactMsg::NewReplic { id: 3, hostname: "h".to_string(), port: "p".to_string() };
    assert_eq!(handle_message(1, true, nr2), CompactAction::Report);
    assert_eq!(handle_message(1, false, CompactMsg::Election { id: 9 }), CompactAction::Reply(CompactMsg::Election { id: 1 }));
    assert_eq!(handle_message(1, false, CompactMsg::Leader { id: 0 }), CompactAction::LeaderElected { id: 0 });
    assert_eq!(handle_message(1, false, CompactMsg::Ping), CompactAction::Reply(CompactMsg::Pong));
    assert_eq!(handle_message(1, false, CompactMsg::Pong), CompactAction::Report);
    assert_eq!(handle_message(1, false, CompactMsg::Commit { transaction: "x".to_string() }), CompactAction::Report);
}

#[test]
fn compact_messages_widen() {
    assert_eq!(widen(CompactMsg::Leader { id: 3 }), DistMsg::NewLeader { id: 3 });
    assert_eq!(widen(CompactMsg::Pong), DistMsg::Pong);
    assert_eq!(
        widen(CompactMsg::Discover { id: 1, hostname: "h".to_string(), port: "p".to_string() }),
        DistMsg::Discover { id: 1, hostname: "h".to_string(), port: "p".to_string(), is_leader: false }
    );
    assert_eq!(outcome("t".to_string(), true), CompactMsg::Commit { transaction: "t".to_string() });
    assert_eq!(outcome("t".to_string(), false), CompactMsg::Rollback { transaction: "t".to_string() });
    assert_eq!(announcement(4), CompactMsg::Leader { id: 4 });
}

#[test]
fn election_round_drops_leader_and_asks_the_rest() {
    let mut conns = vec![peer(1, "a", "1", true), peer(0, "l", "0", true), peer(2, "b", "2", false)];
    conns[1].set_as_leader();
    let (k, requests) = start_election(&mut conns, 5);
    assert_eq!(k, 1);
    assert_eq!(conns.len(), 2);
    assert_eq!(conns[1].get_id(), 2);
    assert_eq!(requests, vec![(0, DistMsg::Election { id: 5 }), (1, DistMsg::Election { id: 5 })]);
}

#[test]
fn watch_steps() {
    assert_eq!(watch_step(false, &Some(DistMsg::Pong)), (true, false));
    assert_eq!(watch_step(false, &None), (false, true));
    assert_eq!(watch_step(false, &Some(DistMsg::Ping)), (false, true));
    assert_eq!(watch_step(true, &None), (true, false));
}

#[test]
fn compact_joining() {
    assert_eq!(
        hello(3, "h".to_string(), "p".to_string()),
        CompactMsg::Discover { id: 3, hostname: "h".to_string(), port: "p".to_string() }
    );
    let c = joined_leader("h".to_string(), "p".to_string());
    assert_eq!(c.get_id(), 0);
    assert!(c.is_leader());
    assert!(c.is_alive());
    assert_eq!(c.get_hostname(), "h");
}

#[test]
fn compact_transaction_fields() {
    let (id, bank, hotel, airline) = transaction_fields(" 12, 100.5 ,20,3.25");
    assert_eq!(id, Some(12));
    assert_eq!(bank, "100.5");
    assert_eq!(hotel, "20");
    assert_eq!(airline, "3.25");
    let (bad, _, _, _) = transaction_fields("x,1,2,3,extra");
    assert_eq!(bad, None);
}
