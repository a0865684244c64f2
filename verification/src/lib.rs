//! An on-chain contract that takes requests to execute a message on another chain.
//!
//! A request comes with a signed quote.  The contract checks that the quote is for this chain and
//! for the requested one and has not expired, and announces the request by an event.

pub mod bytes;
pub mod contract;
pub mod entry_laws;
pub mod error;
pub mod laws;
pub mod quote;
pub mod request;
pub mod sdk;

pub use contract::{DataKey, ExecutionRequested, Executor, ExecutorTrait};
pub use error::ExecError;
