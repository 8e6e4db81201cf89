//! What a replica decides while it follows a leader: when the leader is
//! gone, which peer record to drop, and whether it wins the election.

pub mod main_loop;
pub mod replic;
