//! Cosmonaute: a documentation browser's core.
//!
//! The library holds the decisions of the program: how `cargo` is asked for a
//! crate's metadata and its rustdoc JSON, how the answers are read, how an
//! import proceeds from one step to the next, how documentation entries are
//! searched, and how the home page reacts to its messages.  Running commands,
//! reading and writing files and drawing the window are left to the caller.

pub mod text;
pub mod docset;
pub mod cargo;
pub mod import;
pub mod page;
pub mod view;
