//! Idle and active-window watcher core: idle state reconstruction, window
//! filter rules, heartbeat planning with bounded retries, and backend
//! selection with a supervised polling loop.
pub mod defaults;
pub mod idle;
pub mod filters;
pub mod config;
pub mod report;
pub mod watchers;
pub mod x11;
pub mod toplevel;
