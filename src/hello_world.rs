//! The greeting contract.
pub mod contract;
pub mod msg;
pub mod state;
