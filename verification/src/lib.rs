//! Core logic for an interactive Python virtual-environment cleaner.
//!
//! The crate has two halves: a scanner that classifies directories of a
//! filesystem snapshot as virtual environments and aggregates their sizes,
//! and a selection state machine that keeps a cursor and a two-step
//! delete-confirmation protocol consistent while entries are removed.
//! All filesystem access and terminal rendering live outside this crate;
//! the logic here works on plain values handed in by its callers.

pub mod app;
pub mod scanner;
