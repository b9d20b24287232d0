//! Verified core of a bridge between a host runtime and natively compiled
//! functions: the rules that decide whether a function can be exposed through
//! the host's fixed two-argument entry point, the naming of the exported
//! wrapper, and the handles and requests of asynchronous tasks.

pub mod async_tasks;
pub mod diagnostic;
pub mod options;
pub mod signature;
pub mod wrapper;

pub use async_tasks::{spawn_async_task_with_thread, AsyncTaskObject};
