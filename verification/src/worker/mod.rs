//! What a worker does: take assigned actions from the engine and run the tasks they name.
pub mod action_listener;
pub mod task_dispatcher;
pub mod worker;
