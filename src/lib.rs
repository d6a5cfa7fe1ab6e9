//! Single-owner automatic savings contract: the state transitions that split
//! incoming payments between a forwarded part and a retained part, and that
//! hand the whole balance back to the owner on request.
pub mod contract;
pub mod error;
pub mod laws;
pub mod msg;
pub mod response;
pub mod state;
