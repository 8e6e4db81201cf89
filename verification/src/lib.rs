//! Decision logic of a replicated travel-transaction coordinator.
//!
//! A group of nodes keeps a list of peer connections, elects a leader with the
//! bully rule (the lowest identifier wins), and the leader drives every input
//! transaction through three external participants (bank, airline, hotel),
//! broadcasting the outcome to the replicas, which log it.
//!
//! Everything that touches sockets, files, threads or actors lives outside this
//! crate; the functions here decide what is sent, recorded and answered.

pub mod commons;
pub mod connection;
pub mod common;
pub mod replic;
pub mod framing;
pub mod transaction_writer;
pub mod leader;
pub mod actor_transmiter;
pub mod bank;
pub mod external_airline;
pub mod stats;
pub mod alglobo;
pub mod actor_bank;
