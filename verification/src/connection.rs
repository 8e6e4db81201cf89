//! A node's record of one peer: who it is, whether it leads, whether its link works.

use vstd::prelude::*;

use crate::commons::DistMsg;

verus! {

/// What a connection record states about a peer.
pub struct ConnectionView {
    pub id: u32,
    pub hostname: Seq<char>,
    pub port: Seq<char>,
    pub is_leader: bool,
    pub is_alive: bool,
}

/// A peer of this node. The socket itself is held by the caller; this record
/// keeps what the group logic reads: the peer's identity, whether it is the
/// leader, and whether its link is still usable.
pub struct Connection {
    id: u32,
    hostname: String,
    port: String,
    is_leader: bool,
    is_alive: bool,
}

impl View for Connection {
    type V = ConnectionView;

    closed spec fn view(&self) -> ConnectionView {
        ConnectionView {
            id: self.id,
            hostname: self.hostname@,
            port: self.port@,
            is_leader: self.is_leader,
            is_alive: self.is_alive,
        }
    }
}

/// What `Connection::write` hands over for sending: the message while the
/// link is alive, nothing once it has failed or was never opened.
pub open spec fn write_result(c: ConnectionView, msg: DistMsg) -> Option<DistMsg> {
    if c.is_alive {
        Some(msg)
    } else {
        None
    }
}

impl Connection {
    /// A record for the peer at `host:port`; `connected` tells whether the
    /// link could be opened. A new peer is never the leader.
    pub fn new(id: u32, host: String, port: String, connected: bool) -> (c: Connection)
        ensures
            c@ == (ConnectionView {
                id,
                hostname: host@,
                port: port@,
                is_leader: false,
                is_alive: connected,
            }),
    {
        Connection { id, hostname: host, port, is_leader: false, is_alive: connected }
    }

    /// Marks the peer as the group's leader.
    pub fn set_as_leader(&mut self)
        ensures
            final(self)@ == (ConnectionView { is_leader: true, ..old(self)@ }),
    {
        self.is_leader = true;
    }

    /// The message to send to the peer: `msg` while the link is alive, `None`
    /// once the link is down (nothing is sent then).
    pub fn write(&self, msg: DistMsg) -> (out: Option<DistMsg>)
        ensures
            out == write_result(self@, msg),
    {
        if self.is_alive {
            Some(msg)
        } else {
            None
        }
    }

    /// Records that sending to the peer failed: the link is down from now on.
    pub fn write_failed(&mut self)
        ensures
            final(self)@ == (ConnectionView { is_alive: false, ..old(self)@ }),
    {
        self.is_alive = false;
    }

    /// Whether the peer listens at `host:port`.
    pub fn eq(&self, host: &String, port: &String) -> (r: bool)
        ensures
            r == (self@.hostname == host@ && self@.port == port@),
    {
        self.hostname.eq(host) && self.port.eq(port)
    }

    /// Whether the peer is the leader.
    pub fn is_leader(&self) -> (r: bool)
        ensures
            r == self@.is_leader,
    {
        self.is_leader
    }

    /// Whether the link to the peer is still usable.
    pub fn is_alive(&self) -> (r: bool)
        ensures
            r == self@.is_alive,
    {
        self.is_alive
    }

    /// The peer's identifier.
    pub fn get_id(&self) -> (r: u32)
        ensures
            r == self@.id,
    {
        self.id
    }

    /// Sets the peer's identifier.
    pub fn set_id(&mut self, id: u32)
        ensures
            final(self)@ == (ConnectionView { id, ..old(self)@ }),
    {
        self.id = id;
    }

    /// The peer's host name.
    pub fn get_hostname(&self) -> (r: String)
        ensures
            r@ == self@.hostname,
    {
        self.hostname.clone()
    }

    /// The peer's port.
    pub fn get_port(&self) -> (r: String)
        ensures
            r@ == self@.port,
    {
        self.port.clone()
    }
}

/// Once a link has failed, nothing more is handed over for it, whatever
/// happens to the record's leader flag or identifier afterwards.
pub proof fn law_failed_link_stays_silent(c: ConnectionView, id: u32, msg: DistMsg)
    ensures
        write_result(ConnectionView { is_alive: false, ..c }, msg) is None,
        write_result(ConnectionView { is_leader: true, ..ConnectionView { is_alive: false, ..c } }, msg) is None,
        write_result(ConnectionView { id, ..ConnectionView { is_alive: false, ..c } }, msg) is None,
{
}

} // verus!
