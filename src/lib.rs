//! Configurable producers of simulated outbound messages, and the engine that
//! dispatches their pending messages to a pool of workers and a single writer.
pub mod error;
pub mod ids;
pub mod random_utils;
pub mod model;
pub mod message_utils;
pub mod queue;
pub mod ledger;
pub mod dispatch;
pub mod completion;
pub mod transformers;
