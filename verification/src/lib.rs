//! Marketplace escrow for a federated e-cash mint: the types shared by
//! client and server, the server's rules for locking and releasing funds,
//! and the client's bookkeeping of the escrows it started.

pub mod client;
pub mod common;
pub mod dump;
pub mod server;
pub mod text;
