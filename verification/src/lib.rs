//! A small logging library: three fixed severities, timestamped messages
//! with an exact rendering contract, and a pluggable output backend.

pub mod backend;
pub mod clock;
pub mod decimal;
pub mod dispatch;
pub mod level;
pub mod message;

pub use backend::ConsoleLogger;
pub use backend::LogBackend;
pub use clock::current_timestamp;
pub use dispatch::compose_message;
pub use dispatch::log_message;
pub use level::LogLevel;
pub use message::LogMessage;
