//! Value translation at the boundary of a GTK widget binding.
//!
//! A binding to a C widget toolkit spends most of its time forwarding calls
//! to the native library, but at every call boundary it translates a handful
//! of plain values: C truth values (`gboolean`), C enum encodings such as
//! `GtkSelectionMode`, and nullable object pointers that become `Option`s on
//! the Rust side. This crate holds those translations, each with a contract
//! that pins its result exactly.

pub mod gboolean;
pub mod handle;
pub mod selection_mode;
