//! Core of a NixOS and Home Manager helper: a resilient line-based settings
//! parser, the self-documenting default file and the steps that create it,
//! the schedule of automatic garbage collection, and the routing of command
//! lines to the outside tools.

pub mod text;
pub mod value;
pub mod line;
pub mod config;
pub mod setup;
pub mod gc;
pub mod route;
