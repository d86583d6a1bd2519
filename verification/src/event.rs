//! The events a running backend process produces, and the diagnostics the
//! supervisor asks its host to emit in response. The host turns each unit of
//! child-process output into a [`LineEvent`] and prints or logs the returned
//! [`Diagnostic`]; the library itself performs no input or output.

use vstd::prelude::*;

verus! {

/// How the backend process exited, as far as the operating system reports
/// it: an exit code, a signal, or neither.
#[derive(Clone, Copy, Debug, PartialEq, Eq)]
pub struct ExitStatus {
    /// The exit code, when the process exited normally.
    pub code: Option<i32>,
    /// The signal that ended the process, when there was one.
    pub signal: Option<i32>,
}

/// One unit of output or one lifecycle signal of the backend process.
#[derive(Debug)]
pub enum LineEvent {
    /// A line of the backend's standard output, as raw bytes.
    Stdout(Vec<u8>),
    /// A line of the backend's standard error, as raw bytes.
    Stderr(Vec<u8>),
    /// An asynchronously reported process-level error, described in text.
    Error(String),
    /// The backend process ended; no further event follows.
    Terminated(ExitStatus),
    /// Any other kind of event; it is ignored.
    Other,
}

/// What the host should log after one event is processed. The host renders
/// each variant as a human-readable line on its own standard output or error.
#[derive(Debug, PartialEq, Eq)]
pub enum Diagnostic {
    /// The backend announced this port; say so.
    PortDiscovered(u16),
    /// An ordinary backend output line; echo it.
    BackendLine(Vec<u8>),
    /// A backend error line; echo it as an error.
    BackendErrorLine(Vec<u8>),
    /// A process-level error; report it.
    CommandError(String),
    /// The backend ended with this status; report it.
    TerminatedNotice(ExitStatus),
    /// Nothing to log: an unknown event, or a malformed port announcement,
    /// which is dropped silently.
    Silent,
}

} // verus!
