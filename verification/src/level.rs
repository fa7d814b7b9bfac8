use vstd::prelude::*;

verus! {

/// Severity of a log message: a closed set of three levels.
#[derive(Debug, Clone, Copy, PartialEq, Eq, Structural)]
pub enum LogLevel {
    Info,
    Warning,
    Error,
}

impl LogLevel {
    /// The text that stands for this level in a rendered message:
    /// exactly the variant's name.
    pub open spec fn label_spec(self) -> Seq<char> {
        match self {
            LogLevel::Info => "Info"@,
            LogLevel::Warning => "Warning"@,
            LogLevel::Error => "Error"@,
        }
    }

    /// The fixed textual label of this level.
    pub fn label(self) -> (r: &'static str)
        ensures
            r@ == self.label_spec(),
    {
        match self {
            LogLevel::Info => "Info",
            LogLevel::Warning => "Warning",
            LogLevel::Error => "Error",
        }
    }
}

} // verus!
