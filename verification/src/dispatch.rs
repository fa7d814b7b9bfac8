use vstd::prelude::*;

use crate::backend::LogBackend;
use crate::clock::current_timestamp;
use crate::level::LogLevel;
use crate::message::LogMessage;

verus! {

/// Build a log record for `content` at `level`, stamped with the clock's
/// current reading. The level and the content are carried over exactly;
/// the content becomes an owned copy, independent of the caller's buffer.
/// The timestamp is whatever the clock returned.
pub fn compose_message(level: LogLevel, content: &str) -> (m: LogMessage)
    ensures
        m.level == level,
        m.content@ == content@,
{
    let timestamp = current_timestamp();
    LogMessage::new(timestamp, level, String::from_str(content))
}

/// Stamp the current time, build a log record from `level` and `content`,
/// and forward it to `backend`. No return value and no error path.
pub fn log_message<B: LogBackend>(backend: &B, level: LogLevel, content: &str) {
    let msg = compose_message(level, content);
    backend.log(&msg);
}

} // verus!
