//! Epoch lifecycle and message admission for a chained BFT consensus engine,
//! together with the lexer of the intermediate language in which the
//! modules of the chain are written.

pub mod account_address;
pub mod config;
pub mod epoch_manager;
pub mod epoch_retrieval;
pub mod liveness;
pub mod network;
pub mod syntax;
pub mod validator_verifier;
