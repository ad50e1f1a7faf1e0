//! How the engine is reached.
pub mod grpc;
pub mod hatchet;
