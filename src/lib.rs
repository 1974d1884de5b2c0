//! NAT traversal: rendezvous bookkeeping and the client-side punching
//! decisions for TCP simultaneous open and UDP hole punching.

pub mod addr;
pub mod message;
pub mod pairing;
pub mod punch;
pub mod seq_facts;
pub mod session_store;
pub mod udp_client;
