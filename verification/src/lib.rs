//! The client side of the graphics controller's session protocol.
//!
//! A daemon owns a machine's display and input devices and hands them out as
//! leases that it can take back. [`SgcClient`] is an application's session with
//! it: it asks for resources, keeps the descriptors that are granted, answers
//! what the daemon sends, and tells the application what happened.
//!
//! The session does no I/O. It says what is to be done and is told what came of
//! it (see [`driver`]), so every decision of the protocol is a function with a
//! contract. [`session`] is the machine that the contracts speak of, and
//! [`laws`] holds what has been proved of it as a whole.
pub mod client;
pub mod driver;
pub mod error;
pub mod frame;
pub mod laws;
pub mod lease;
pub mod protocol;
pub mod session;
pub mod wait;

pub use client::SgcClient;
pub use driver::SgcEvent;
pub use error::SgcError;
pub use protocol::{InputResource, Resource};
