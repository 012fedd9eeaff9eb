//! Core of a dual-pane terminal directory browser.
//!
//! The crate holds the action vocabulary, the modal input router, the
//! directory-pane state machine (listing order, cursor, marks, search-jump,
//! refresh reconciliation) and the planning of background file operations.
//! Everything that touches the terminal, the filesystem or a process lives
//! outside: callers hand listings in as plain values and carry the returned
//! effects out.

pub mod action;
pub mod app;
pub mod bookmark;
pub mod config;
pub mod dir;
pub mod input;
pub mod search;
pub mod text;
