//! The decision logic of a small SSH client, kept free of any input or output.
//!
//! Establishing a session and running a command are written as step functions:
//! each names the one request the caller has to carry out on the network and,
//! given the reply, either names the next request or is finished. The form and
//! terminal state of the client is a third step function over user messages.

pub mod client;
pub mod command;
pub mod error;
pub mod protocol;
pub mod session;
