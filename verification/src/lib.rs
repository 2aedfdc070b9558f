//! An options-style escrow: a creator locks collateral behind a counter-offer
//! and an expiry height; the current owner may transfer the option, execute it
//! (paying the counter-offer to receive the collateral) before expiry, or
//! anyone may burn it after expiry, returning the collateral to the creator.
//!
//! The state machine is pure: every transition is a function from the current
//! record and the facts of the call (height, sender, attached funds) to a new
//! record plus outbound fund-transfer effects, or a typed error. Persistence,
//! message decoding and host plumbing live outside this crate.

pub mod contract;
pub mod error;
pub mod funds;
pub mod laws;
pub mod msg;
pub mod state;

pub use contract::{
    handle, handle_burn, handle_execute, handle_transfer, init, query, query_config, BankSend,
    LogEntry, Response,
};
pub use error::Error;
pub use msg::{ConfigResponse, HandleMsg, InitMsg, QueryMsg};
pub use state::{Coin, Env, State};
