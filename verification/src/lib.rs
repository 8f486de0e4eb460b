//! Records Steam game sessions as calendar events: the decisions of the
//! session tracker, the texts of the events and messages, and the handling
//! of the calendar files, with their contracts.
pub mod achievements;
pub mod api;
pub mod calendar;
pub mod clock;
pub mod config;
pub mod session;
pub mod text;
pub mod tracker;
