//! An in-memory peer-to-peer network simulator.
//!
//! The crate routes DHT protocol messages between cooperating agents inside a
//! single process.  Each named server owns routing tables over the connected
//! agents, address books recording what every agent publishes and holds, and a
//! ledger of the requests the server itself has issued.  Serving a message is
//! a pure state transition: the server mutates its bookkeeping and hands back
//! the messages to emit, each addressed to the sink of a registered agent.
//! The embedder performs the actual channel sends.

pub mod book;
pub mod ids;
pub mod kv;
pub mod laws;
pub mod protocol;
pub mod registry;
pub mod server;
pub mod state;
