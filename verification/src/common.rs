//! Shared value and failure types of the PWM control surface.

use vstd::prelude::*;

verus! {

/// Polarity of a PWM signal: whether the active part of each period drives the
/// line high (`Normal`) or low (`Inverse`).
#[derive(Clone, Copy, Debug, PartialEq, Eq, Structural)]
pub enum Polarity {
    Normal,
    Inverse,
}

/// One pending write of ASCII text to a sysfs file: the request side of every
/// mutating operation. The I/O shell performs it, blocking or suspending as
/// its discipline dictates, and reports the OS's verdict.
#[derive(Clone, Debug)]
pub struct FileWrite {
    /// Absolute path of the file to write.
    pub path: String,
    /// The exact text to write.
    pub data: String,
}

/// Failure of one PWM operation. Every operation either fully succeeds or
/// reports exactly one of these; nothing is retried or suppressed internally.
#[derive(Debug)]
pub enum Error {
    /// The chip or channel path did not exist when an operation needed it.
    NotFound,
    /// An underlying file open, read or write failed; carries the message the
    /// OS reported.
    Io(String),
    /// File content did not match the attribute's grammar; carries the
    /// offending content.
    Decode(String),
    /// Raised only by the scoped-export helper: the caller's work failed and
    /// the final unexport failed too. Carries the work failure first and the
    /// unexport failure second, so neither is dropped.
    Aggregate(Box<Error>, Box<Error>),
}

} // verus!
