//! Interaction engine for an interactive terminal picker.
//!
//! The picker lists text entries (branch names), lets the user narrow the
//! list with a typed query, move a selection cursor through it, and commit
//! to one entry. This crate holds the part with real invariants: the state
//! machine that owns all application state (`state`), the projection of a
//! state snapshot into visible rows (`render`), and the translation of
//! keyboard events into state transitions (`keys`). Terminal and repository
//! I/O live outside, in the unverified driver around this crate.

pub mod keys;
pub mod render;
pub mod state;
