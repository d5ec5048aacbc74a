//! The terminal user interface.
pub mod actions;
pub mod app;
pub mod deletion_poller;
pub mod event_loop;
pub mod help;
pub mod keys;
pub mod line;
pub mod preview;
pub mod promises;
pub mod update;
