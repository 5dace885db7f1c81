//! Builds, signs and frames a two-transfer ledger transaction (a main payment
//! plus a priority tip) for submission to a relay, and interprets the relay's reply.

pub mod error;
pub mod keys;
pub mod envelope;
pub mod relay;
pub mod submit;
