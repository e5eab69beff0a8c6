//! Prediction-market oracle logic for the Veridex platform on Stellar.
//!
//! The library holds the decisions of the oracle contract: what each entry
//! point does to the contract's configuration (admin and market counter), to a
//! market's state and to a participant's stake record, which address must
//! authorize an admin operation, and when it refuses. Reading and writing the
//! contract storage, carrying out the authorization checks and moving tokens
//! are left to the contract shell that calls it.

pub mod sdk;
pub mod error;
pub mod state;
pub mod oracle;
pub mod laws;


pub use error::OracleError;
pub use state::{MarketState, MarketStatus, OracleConfig, ParticipantStake};
pub use oracle::{VeridexOracle, MARKET_TTL_LEDGERS};
