//! What the HTTP interface shares with the agents.

pub mod state;
