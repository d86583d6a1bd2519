//! Core logic of a desktop application's sidecar supervisor: it discovers the
//! TCP port that a spawned backend process announces on its standard output,
//! keeps that port in a registry for the UI layer to query, and decides when
//! the one OS-level kill of the backend is issued.
//!
//! The host framework, the actual process spawn and the asynchronous stream of
//! output lines live outside this library; they hand each line in as a
//! [`event::LineEvent`] and carry out the [`event::Diagnostic`] and kill
//! decisions that the verified core returns.

pub mod event;
pub mod parse;
pub mod registry;
pub mod supervisor;
