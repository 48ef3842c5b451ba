//! Session-state manager for a Grin wallet client.
//!
//! The crate resolves the canonical on-disk location for wallet data from
//! the platform home directory and the selected chain type, loads or
//! first-time-initializes the wallet configuration through the node's
//! configuration library, and drives the ordered, fallible sequence of
//! steps that creates a new wallet (node client, wallet handle, storage
//! directory, config file, keychain) as an explicit workflow whose
//! decisions are verified.  A driver outside the crate performs the
//! steps that touch the wallet handle and reports each outcome back.

pub mod chain;
pub mod errors;
pub mod paths;
pub mod config;
pub mod session;
pub mod workflow;
