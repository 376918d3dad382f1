//! Scheduled swap-execution engine: the decisions of a recurring
//! dollar-cost-averaging swap service, as pure state machines.
//!
//! The network, the signing credential and the timers live outside this
//! crate; each component here takes what they observed as plain values and
//! answers with the next action to perform.

pub mod amount;
pub mod error;
pub mod address;
pub mod provision;
pub mod quote;
pub mod executor;
pub mod pipeline;
pub mod scheduler;
pub mod job;
