//! The live-state core of a terminal system monitor: bounded sample histories,
//! the filtered and ranked process view with its selection cursor, and the modal
//! key handling that drives them.

pub mod app;
pub mod cursor;
pub mod display;
pub mod history;
pub mod input;
pub mod layout;
pub mod process;
pub mod ranking;
pub mod schedule;
pub mod snapshot;
pub mod text;
pub mod theme;
