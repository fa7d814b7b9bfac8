use std::io::Write;
use vstd::prelude::*;

use crate::message::LogMessage;

verus! {

/// A sink that accepts a finished log record and performs an output
/// action. Any type exposing `log` qualifies as a backend.
pub trait LogBackend {
    /// Handle one log message.
    fn log(&self, message: &LogMessage);
}

/// A backend that writes each message's rendering to standard output.
/// It is stateless: a unit value with no fields.
pub struct ConsoleLogger;

impl ConsoleLogger {
    /// Create a new ConsoleLogger.
    pub fn new() -> ConsoleLogger {
        ConsoleLogger
    }
}

/// Relies on the Write impl of std::io::Stdout: writes the string's bytes
/// and a line terminator to standard output. A write failure is not
/// observable, as with an unchecked print.
#[verifier::external_body]
fn print_line(s: &str) {
    let _ = writeln!(std::io::stdout(), "{}", s);
}

impl LogBackend for ConsoleLogger {
    /// Writes the exact rendering of `message`, then a line terminator,
    /// to standard output. No return value and no error signalling.
    fn log(&self, message: &LogMessage) {
        let line = message.render();
        print_line(line.as_str());
    }
}

} // verus!
