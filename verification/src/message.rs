use vstd::prelude::*;

use crate::decimal::dec_digits;
use crate::decimal::u64_to_string;
use crate::level::LogLevel;

verus! {

/// An immutable log record: a timestamp in whole seconds since the Unix
/// epoch, a severity, and free-text content. The content is an owned
/// copy; no validation, escaping or truncation is applied to it.
#[derive(Debug)]
pub struct LogMessage {
    pub timestamp: u64,
    pub level: LogLevel,
    pub content: String,
}

impl LogMessage {
    /// The exact display form: `[<timestamp>][<label>] <content>`, with
    /// the timestamp in decimal and the content carried over literally.
    pub open spec fn render_spec(self) -> Seq<char> {
        seq!['['] + dec_digits(self.timestamp as nat) + seq![']', '[']
            + self.level.label_spec() + seq![']', ' '] + self.content@
    }

    /// Build a message; every field is carried over unchanged.
    pub fn new(timestamp: u64, level: LogLevel, content: String) -> (m: LogMessage)
        ensures
            m.timestamp == timestamp,
            m.level == level,
            m.content == content,
    {
        LogMessage { timestamp, level, content }
    }

    /// Render the message as `render_spec` states, exactly.
    pub fn render(&self) -> (s: String)
        ensures
            s@ == self.render_spec(),
    {
        let mut s = String::from_str("[");
        let ts = u64_to_string(self.timestamp);
        s.append(ts.as_str());
        s.append("][");
        s.append(self.level.label());
        s.append("] ");
        s.append(self.content.as_str());
        proof {
            reveal_strlit("[");
            reveal_strlit("][");
            reveal_strlit("] ");
            assert(s@ =~= self.render_spec());
        }
        s
    }
}

/// Rendering is a pure function of the message: any two renderings of one
/// and the same message are the same string.
pub proof fn lemma_render_repeatable(m: LogMessage, r1: Seq<char>, r2: Seq<char>)
    requires
        r1 == m.render_spec(),
        r2 == m.render_spec(),
    ensures
        r1 == r2,
{
}

} // verus!
