//! Message severities and the severity filter.

use vstd::prelude::*;

verus! {

/// Severity of a log message, from least to most severe.
#[derive(Clone, Copy, PartialEq, Eq, Structural, Debug)]
pub enum Level {
    Debug,
    Info,
    Warn,
    Error,
}

impl Level {
    /// Rank of this severity: `Debug` is lowest, `Error` highest.
    pub open spec fn severity(self) -> int {
        match self {
            Level::Debug => 0,
            Level::Info => 1,
            Level::Warn => 2,
            Level::Error => 3,
        }
    }

    /// A message at severity `self` passes a filter set to `filter` exactly
    /// when it is at least as severe as the filter.
    pub open spec fn spec_passes(self, filter: Level) -> bool {
        self.severity() >= filter.severity()
    }

    /// The upper-case label under which this severity appears in a rendered
    /// log line.
    pub open spec fn label(self) -> Seq<char> {
        match self {
            Level::Debug => "DEBUG"@,
            Level::Info => "INFO"@,
            Level::Warn => "WARN"@,
            Level::Error => "ERROR"@,
        }
    }

    /// Rank of this severity as a machine integer.
    pub fn severity_code(self) -> (r: u8)
        ensures
            r as int == self.severity(),
    {
        match self {
            Level::Debug => 0,
            Level::Info => 1,
            Level::Warn => 2,
            Level::Error => 3,
        }
    }

    /// Whether a message at severity `self` passes a filter set to `filter`.
    pub fn passes(self, filter: Level) -> (r: bool)
        ensures
            r == self.spec_passes(filter),
    {
        self.severity_code() >= filter.severity_code()
    }

    /// The upper-case label under which this severity appears in a rendered
    /// log line.
    pub fn as_str(self) -> (r: &'static str)
        ensures
            r@ == self.label(),
    {
        match self {
            Level::Debug => "DEBUG",
            Level::Info => "INFO",
            Level::Warn => "WARN",
            Level::Error => "ERROR",
        }
    }
}

} // verus!
