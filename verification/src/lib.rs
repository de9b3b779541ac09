//! The core of a front end to a media download tool.
//!
//! The crate resolves the encodings that a source offers into a fixed ladder
//! of qualities ([`formats`]), builds the argument lists with which the tool
//! is started ([`command`]), and supervises a running download: it reads the
//! lines the tool writes ([`pattern`]), keeps the state of the session and
//! says which events to publish ([`session`], [`progress`]), and keeps the
//! registry of running sessions through which a session is cancelled
//! ([`registry`]).
//!
//! Nothing in the crate runs a process, reads a file or waits. The caller
//! does that, hands over what it observed and carries out what it is told.
//! Numbers that are fractions by nature are fixed-point integers here; each
//! module says in which unit.

pub mod command;
pub mod formats;
pub mod pattern;
pub mod playlist;
pub mod progress;
pub mod registry;
pub mod session;
pub mod size;
pub mod text;
pub mod tool;

pub use crate::formats::resolve_formats;
pub use crate::registry::{cancel_session, start_session};
pub use crate::size::format_size;
