//! An incrementally materialized view of a ranked story list.
//!
//! The library owns the core state machine: an ordered list of remote story
//! identifiers, the sequence of stories materialized so far, and a write
//! cursor. Network transport, terminal rendering and task plumbing live
//! outside the library; they hand fetch results in as plain values and take
//! materialized stories back out.

pub mod story;
pub mod source;
pub mod list;
pub mod display;
