//! What is sent to the engine over gRPC.
pub mod event_client;
pub mod metadata;
