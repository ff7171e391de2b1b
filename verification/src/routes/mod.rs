//! What the request handlers decide.
//!
//! Each function here is the part of one handler that reads or changes the
//! store: it takes the request's plain values, and what the gateway
//! answered where the handler had to ask it, and returns what the handler
//! answers.

pub mod payment;
pub mod subscription;
