//! Logging: severities, the handler trait, and the logger that TensorRT-RTX
//! reports through.

use std::io::Write;
use vstd::prelude::*;
use vstd::string::StringExecFns;

use crate::error::{Error, Result};

verus! {

/// Whether a TensorRT-RTX runtime is present. This build carries none: every
/// handle of the runtime (logger, builder, network, engine, ...) keeps this as
/// its type invariant, so none of them can ever be made.
pub open spec fn tensorrt_available() -> bool {
    false
}

/// The message of the error that creating a logger gives in this build.
pub open spec fn logger_unavailable_message() -> Seq<char> {
    "TensorRT-RTX not available. This binary was built with the 'mock' feature.\n\
     \n\
     To use real TensorRT:\n\
     1. Install TensorRT-RTX and set TENSORRT_RTX_DIR environment variable\n\
     2. Rebuild without mock: cargo build --no-default-features\n\
     \n\
     Or use from workspace root: make build-real"@
}

/// The error that creating a logger gives in this build.
pub fn runtime_unavailable() -> (e: Error)
    ensures
        e.is_runtime_with(logger_unavailable_message()),
{
    Error::runtime(
        "TensorRT-RTX not available. This binary was built with the 'mock' feature.\n\
         \n\
         To use real TensorRT:\n\
         1. Install TensorRT-RTX and set TENSORRT_RTX_DIR environment variable\n\
         2. Rebuild without mock: cargo build --no-default-features\n\
         \n\
         Or use from workspace root: make build-real",
    )
}

/// Severity levels for log messages, from the most to the least severe.
#[derive(Debug, Clone, Copy, PartialEq, Eq, PartialOrd, Ord)]
pub enum Severity {
    InternalError,
    Error,
    Warning,
    Info,
    Verbose,
}

/// The name of a severity, as `{:?}` writes it.
pub open spec fn severity_name(s: Severity) -> Seq<char> {
    match s {
        Severity::InternalError => "InternalError"@,
        Severity::Error => "Error"@,
        Severity::Warning => "Warning"@,
        Severity::Info => "Info"@,
        Severity::Verbose => "Verbose"@,
    }
}

impl Severity {
    /// The name of this severity.
    pub fn name(&self) -> (s: &'static str)
        ensures
            s@ == severity_name(*self),
    {
        match self {
            Severity::InternalError => "InternalError",
            Severity::Error => "Error",
            Severity::Warning => "Warning",
            Severity::Info => "Info",
            Severity::Verbose => "Verbose",
        }
    }
}

/// The line that the standard error logger writes for a message.
pub open spec fn log_line_text(severity: Severity, message: Seq<char>) -> Seq<char> {
    "[TensorRT "@ + severity_name(severity) + "] "@ + message
}

/// Formats a message for the standard error logger: `[TensorRT <severity>] <message>`.
pub fn log_line(severity: Severity, message: &str) -> (line: String)
    ensures
        line@ == log_line_text(severity, message@),
        line@ == "[TensorRT "@ + severity_name(severity) + "] "@ + message@,
        line@.len() >= message@.len(),
        line@.skip(line@.len() - message@.len()) == message@,
{
    let mut line = String::from_str("[TensorRT ");
    line.append(severity.name());
    line.append("] ");
    line.append(message);
    proof {
        log_line_carries_message(severity, message@);
    }
    line
}

/// The logged line is a prefix that depends on the severity alone, followed by
/// the whole message: for every severity and message, the line is the line of
/// the empty message with the message appended, it ends with the message, and
/// it starts with `[TensorRT ` and the severity's name.
pub proof fn log_line_carries_message(severity: Severity, message: Seq<char>)
    ensures
        log_line_text(severity, message) == log_line_text(severity, Seq::empty()) + message,
        log_line_text(severity, message).len() == log_line_text(severity, Seq::empty()).len() + message.len(),
        log_line_text(severity, message).skip(
            log_line_text(severity, message).len() - message.len(),
        ) == message,
        log_line_text(severity, message).take(log_line_text(severity, Seq::empty()).len() as int)
            == "[TensorRT "@ + severity_name(severity) + "] "@,
{
    let p = "[TensorRT "@ + severity_name(severity) + "] "@;
    assert(log_line_text(severity, Seq::empty()) =~= p);
    assert(log_line_text(severity, message) =~= p + message);
    assert((p + message).skip(p.len() as int) =~= message);
    assert((p + message).take(p.len() as int) =~= p);
}

/// Handles the messages that TensorRT-RTX logs.
pub trait LogHandler: Send + Sync {
    /// Receives one message and its severity.
    fn log(&self, severity: Severity, message: &str);
}

/// Writes `line` and a line break to standard error.
///
/// Calls `writeln!` on `std::io::stderr()`; nothing is claimed of it, and an
/// error from the write is dropped.
#[verifier::external_body]
fn write_stderr_line(line: &str) {
    let _ = writeln!(std::io::stderr(), "{}", line);
}

/// A log handler that writes each message to standard error.
#[derive(Debug)]
pub struct StderrLogger;

impl LogHandler for StderrLogger {
    fn log(&self, severity: Severity, message: &str) {
        let line = log_line(severity, message);
        write_stderr_line(line.as_str());
    }
}

/// The logger that TensorRT-RTX objects are created with.
pub struct Logger {
    _private: (),
}

impl Logger {
    /// A logger exists only where a TensorRT-RTX runtime does.
    #[verifier::type_invariant]
    pub(crate) open spec fn needs_runtime(self) -> bool {
        tensorrt_available()
    }

    /// Creates a logger that hands messages to `handler`. In this build no
    /// TensorRT-RTX runtime is present, so this always fails, with an error
    /// that says how to get one.
    pub fn new<H: LogHandler + 'static>(handler: H) -> (r: Result<Self>)
        ensures
            r matches Err(e) && e.is_runtime_with(logger_unavailable_message()),
    {
        Err(runtime_unavailable())
    }

    /// Creates a logger that writes to standard error; fails as [`Logger::new`] does.
    pub fn stderr() -> (r: Result<Self>)
        ensures
            r matches Err(e) && e.is_runtime_with(logger_unavailable_message()),
    {
        Self::new(StderrLogger)
    }
}

} // verus!
