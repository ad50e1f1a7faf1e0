//! Client library for the Hatchet engine, a distributed, fault-tolerant task queue.
//!
//! The library decides; what is around it talks. Here stand the rules by which a worker takes
//! up tasks, dispatches assigned actions, reconnects, and reports how runs ended; by which the
//! events that a task emits become log lines of its run; and by which requests to the engine
//! are made out. Each comes with a contract that says what it does, and the laws that hold of
//! them together are stated as proof functions whose names begin with `law_`. Sockets, clocks,
//! threads and queues are left to the code that uses the library: it hands in what it read and
//! carries out what it is given.
use vstd::prelude::*;

pub mod clients;
pub mod config;
pub mod context;
pub mod duration;
pub mod error;
pub mod json;
pub mod name_map;
pub mod runnables;
pub mod text;
pub mod tracing;
pub mod utils;
pub mod worker;

pub use clients::hatchet::Hatchet;
pub use context::Context;
pub use error::HatchetError;
pub use tracing::HatchetLayer;
pub use utils::EmptyModel;
pub use worker::worker::{Register, Worker};

verus! {

} // verus!
